//! Laws of navigation and layout, stated over the abstract state that the
//! operations of `ProgramState` are specified by.

use vstd::prelude::*;

use crate::node::Node;
use crate::state::{NavView, PanelSide};

verus! {

/// A session starts in a valid state.
pub proof fn lemma_initial_valid(root: Node, size: (u16, u16))
    ensures
        NavView::initial(root, size).valid(),
        NavView::initial(root, size).root() == root,
{
}

/// Every move keeps the state valid and the root unchanged, so every state
/// reachable from the start of a session is valid.
pub proof fn lemma_moves_keep_valid(s: NavView, size: (u16, u16))
    requires
        s.valid(),
    ensures
        s.move_next().valid(),
        s.move_prev().valid(),
        s.descend().valid(),
        s.ascend().valid(),
        s.resized(size).valid(),
        s.move_next().root() == s.root(),
        s.move_prev().root() == s.root(),
        s.descend().root() == s.root(),
        s.ascend().root() == s.root(),
        s.resized(size).root() == s.root(),
{
}

/// In a valid state the selection lies between 0 and the last child, or is 0
/// where the current node has no children.
pub proof fn lemma_index_in_range(s: NavView)
    requires
        s.valid(),
    ensures
        0 <= s.index,
        s.index <= if s.current.count() > 0 {
            s.current.count() - 1
        } else {
            0
        },
{
}

/// Going down and straight back up restores the state exactly, wherever the
/// current node has a child to go down into.
pub proof fn lemma_descend_then_ascend(s: NavView)
    requires
        s.valid(),
        s.current.count() > 0,
    ensures
        s.descend().ascend() == s,
{
    assert(s.descend().stack.drop_last() =~= s.stack);
}

/// On the last row, selecting the next row changes nothing.
pub proof fn lemma_move_next_at_last(s: NavView)
    requires
        s.valid(),
        s.index + 1 >= s.current.count(),
    ensures
        s.move_next() == s,
{
}

/// On row 0, selecting the previous row changes nothing.
pub proof fn lemma_move_prev_at_first(s: NavView)
    requires
        s.index == 0,
    ensures
        s.move_prev() == s,
{
}

/// Going down from a node without children changes nothing.
pub proof fn lemma_descend_childless(s: NavView)
    requires
        s.current.count() == 0,
    ensures
        s.descend() == s,
{
}

/// Going up at the root changes nothing.
pub proof fn lemma_ascend_at_root(s: NavView)
    requires
        s.stack.len() == 0,
    ensures
        s.ascend() == s,
{
}

/// A new terminal size leaves the navigation alone, and changes of each panel
/// only its geometry and the padding of its rows: which panels exist, what
/// they show and which row they mark stay the same.
pub proof fn lemma_resize_keeps_navigation(s: NavView, size: (u16, u16), side: PanelSide)
    ensures
        s.resized(size).current == s.current,
        s.resized(size).index == s.index,
        s.resized(size).stack == s.stack,
        s.resized(size).panel(side) is Some <==> s.panel(side) is Some,
        s.panel(side) is Some ==> {
            let p = s.panel(side)->0;
            let q = s.resized(size).panel(side)->0;
            &&& q.node == p.node
            &&& q.text == p.text
            &&& q.index == p.index
            &&& q.highlighted == p.highlighted
            &&& q.lines.len() == p.lines.len()
        },
{
}

/// Each panel is a third of the terminal wide and lies inside it, and the
/// panels together are no wider than the terminal.
pub proof fn lemma_panel_geometry(s: NavView, side: PanelSide)
    ensures
        s.panel(side) matches Some(p) ==> {
            &&& p.width == s.size.0 / 3
            &&& p.column + p.width <= s.size.0
        },
        (if s.panel(PanelSide::Left) is Some {
            s.panel_width()
        } else {
            0
        }) + (if s.panel(PanelSide::Middle) is Some {
            s.panel_width()
        } else {
            0
        }) + (if s.panel(PanelSide::Right) is Some {
            s.panel_width()
        } else {
            0
        }) <= s.size.0,
{
}

} // verus!
