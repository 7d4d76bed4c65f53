//! Navigation through a document and the panels derived from it.
//!
//! The state holds the node shown in the middle column, the selected row in
//! it, and the trail of (parent, selected row) pairs that led there from the
//! root. Every move is total: where a move has nowhere to go it changes
//! nothing. The panels are a pure function of the state and the terminal size.
//! Each panel is a third of the terminal wide however narrow it gets; rows are
//! cut to fit, and in a panel under two columns wide they are left blank.

use vstd::prelude::*;

use crate::node::Node;

verus! {

/// Which of the three columns a panel fills.
#[derive(Clone, Copy, Debug, PartialEq, Eq)]
pub enum PanelSide {
    /// The parent of the current node, with the row that led down.
    Left,
    /// The current node, with the selected row.
    Middle,
    /// The selected child of the current node, as a preview.
    Right,
}

/// The largest row index a panel reports; larger ones are held at it.
pub const MAX_ROW: u16 = 65535;

/// The abstract navigation state.
pub struct NavView {
    /// Terminal size as (columns, rows).
    pub size: (u16, u16),
    /// The node shown in the middle column.
    pub current: Node,
    /// The selected row of `current`.
    pub index: nat,
    /// (parent, selected row) pairs from the root down to the parent of
    /// `current`, oldest first.
    pub stack: Seq<(Node, nat)>,
}

impl NavView {
    /// The state at the start of a session on `root`.
    pub open spec fn initial(root: Node, size: (u16, u16)) -> NavView {
        NavView { size, current: root, index: 0, stack: Seq::empty() }
    }

    /// The document root.
    pub open spec fn root(self) -> Node {
        if self.stack.len() == 0 {
            self.current
        } else {
            self.stack[0].0
        }
    }

    /// The node that the `k`-th pair of the trail leads down to.
    pub open spec fn below(self, k: int) -> Node {
        if k + 1 < self.stack.len() {
            self.stack[k + 1].0
        } else {
            self.current
        }
    }

    /// Each pair of the trail selects a child of its parent, and that child
    /// is the next node on the way down.
    pub open spec fn trail_ok(self) -> bool {
        forall|k: int|
            0 <= k < self.stack.len() ==> {
                &&& #[trigger] self.stack[k].1 < self.stack[k].0.count()
                &&& self.stack[k].0.child(self.stack[k].1 as int) == self.below(k)
            }
    }

    /// The selection is a child of the current node, or 0 where it has none.
    pub open spec fn index_ok(self) -> bool {
        if self.current.count() > 0 {
            self.index < self.current.count()
        } else {
            self.index == 0
        }
    }

    /// The invariant of every reachable state.
    pub open spec fn valid(self) -> bool {
        self.trail_ok() && self.index_ok()
    }

    /// Select the next row; stay on the last one.
    pub open spec fn move_next(self) -> NavView {
        if self.index + 1 < self.current.count() {
            NavView { index: self.index + 1, ..self }
        } else {
            self
        }
    }

    /// Select the previous row; stay on row 0.
    pub open spec fn move_prev(self) -> NavView {
        if self.index > 0 {
            NavView { index: (self.index - 1) as nat, ..self }
        } else {
            self
        }
    }

    /// Go down into the selected child; nothing on a node without children.
    pub open spec fn descend(self) -> NavView {
        if self.index < self.current.count() {
            NavView {
                current: self.current.child(self.index as int),
                index: 0,
                stack: self.stack.push((self.current, self.index)),
                ..self
            }
        } else {
            self
        }
    }

    /// Go back up to the parent and its saved row; nothing at the root.
    pub open spec fn ascend(self) -> NavView {
        if self.stack.len() > 0 {
            NavView {
                current: self.stack.last().0,
                index: self.stack.last().1,
                stack: self.stack.drop_last(),
                ..self
            }
        } else {
            self
        }
    }

    /// Take a new terminal size; the navigation stays as it is.
    pub open spec fn resized(self, size: (u16, u16)) -> NavView {
        NavView { size, ..self }
    }

    /// Width of each panel: a third of the terminal's columns.
    pub open spec fn panel_width(self) -> nat {
        (self.size.0 / 3) as nat
    }

    /// The panel on `side`, where there is one.
    pub open spec fn panel(self, side: PanelSide) -> Option<PanelView> {
        let w = self.panel_width();
        match side {
            PanelSide::Left => if self.stack.len() > 0 {
                Some(PanelView::of(self.stack.last().0, self.stack.last().1, 0, w, true))
            } else {
                None
            },
            PanelSide::Middle => Some(PanelView::of(self.current, self.index, w, w, true)),
            PanelSide::Right => if self.index < self.current.count() {
                Some(
                    PanelView::of(self.current.child(self.index as int), 0, 2 * w, w, false),
                )
            } else {
                None
            },
        }
    }
}

/// The abstract content of a panel.
pub struct PanelView {
    /// The node whose rows the panel shows.
    pub node: Node,
    /// The rows, each padded to the panel's width.
    pub lines: Seq<Seq<char>>,
    /// Whether row `index` is drawn highlighted.
    pub highlighted: bool,
    /// The row of interest, held at `MAX_ROW`.
    pub index: nat,
    /// Unpadded text of the row of interest; empty where the node has no
    /// such row.
    pub text: Seq<char>,
    /// First terminal column of the panel.
    pub column: nat,
    /// Width of the panel in columns.
    pub width: nat,
}

impl PanelView {
    /// The panel showing `node` with row `row` of interest.
    pub open spec fn of(node: Node, row: nat, column: nat, width: nat, may_highlight: bool) -> PanelView {
        PanelView {
            node,
            lines: node.lines(width),
            highlighted: may_highlight && row < node.rows(),
            index: if row < MAX_ROW {
                row
            } else {
                MAX_ROW as nat
            },
            text: if row < node.rows() {
                node.label(row as int)
            } else {
                Seq::empty()
            },
            column,
            width,
        }
    }
}

/// One panel, ready to draw.
pub struct PanelState<'a> {
    value: &'a Node,
    text: String,
    column: u16,
    width: u16,
    index: u16,
    highlighted: bool,
    lines: Vec<String>,
}

impl<'a> View for PanelState<'a> {
    type V = PanelView;

    closed spec fn view(&self) -> PanelView {
        PanelView {
            node: *self.value,
            lines: Seq::new(self.lines@.len(), |i: int| self.lines@[i]@),
            highlighted: self.highlighted,
            index: self.index as nat,
            text: self.text@,
            column: self.column as nat,
            width: self.width as nat,
        }
    }
}

impl<'a> PanelState<'a> {
    /// The panel showing `node` with row `row` of interest.
    fn build(node: &'a Node, row: usize, column: u16, width: u16, may_highlight: bool) -> (r: PanelState<'a>)
        ensures
            r@ == PanelView::of(*node, row as nat, column as nat, width as nat, may_highlight),
    {
        let rows = node.row_count();
        let text = if row < rows {
            node.label_at(row)
        } else {
            String::new()
        };
        let index: u16 = if row < MAX_ROW as usize {
            row as u16
        } else {
            MAX_ROW
        };
        let lines = node.padded_lines(width as usize);
        let r = PanelState {
            value: node,
            text,
            column,
            width,
            index,
            highlighted: may_highlight && row < rows,
            lines,
        };
        assert(r@.lines =~= node.lines(width as nat));
        r
    }

    /// The node whose rows the panel shows.
    pub fn value(&self) -> (r: &'a Node)
        ensures
            *r == self@.node,
    {
        self.value
    }

    /// Unpadded text of the row of interest.
    pub fn text(&self) -> (r: &str)
        ensures
            r@ == self@.text,
    {
        self.text.as_str()
    }

    /// First terminal column of the panel.
    pub fn column(&self) -> (r: u16)
        ensures
            r == self@.column,
    {
        self.column
    }

    /// Width of the panel in columns.
    pub fn width(&self) -> (r: u16)
        ensures
            r == self@.width,
    {
        self.width
    }

    /// The row of interest.
    pub fn index(&self) -> (r: u16)
        ensures
            r == self@.index,
    {
        self.index
    }

    /// Whether row `index` is drawn highlighted.
    pub fn highlighted(&self) -> (r: bool)
        ensures
            r == self@.highlighted,
    {
        self.highlighted
    }

    /// The rows, each padded to the panel's width.
    pub fn lines(&self) -> (r: &Vec<String>)
        ensures
            r@.len() == self@.lines.len(),
            forall|i: int| 0 <= i < r@.len() ==> #[trigger] r@[i]@ == self@.lines[i],
    {
        &self.lines
    }
}

/// The navigation state of a session over one document.
pub struct ProgramState<'a> {
    size: (u16, u16),
    value: &'a Node,
    index: usize,
    values: Vec<&'a Node>,
    indices: Vec<usize>,
}

impl<'a> View for ProgramState<'a> {
    type V = NavView;

    closed spec fn view(&self) -> NavView {
        NavView {
            size: self.size,
            current: *self.value,
            index: self.index as nat,
            stack: Seq::new(
                self.values@.len(),
                |k: int| (*self.values@[k], self.indices@[k] as nat),
            ),
        }
    }
}

impl<'a> ProgramState<'a> {
    /// The state is consistent: the trail's two halves agree in length and
    /// the abstract state is valid.
    pub closed spec fn well_formed(&self) -> bool {
        &&& self.values@.len() == self.indices@.len()
        &&& self@.valid()
    }

    /// A session on `value`, at the root with row 0 selected.
    pub fn new(value: &'a Node, size: (u16, u16)) -> (r: ProgramState<'a>)
        ensures
            r.well_formed(),
            r@ == NavView::initial(*value, size),
    {
        let r = ProgramState { size, value, index: 0, values: Vec::new(), indices: Vec::new() };
        assert(r@.stack =~= Seq::empty());
        r
    }

    /// Terminal size as (columns, rows).
    pub fn size(&self) -> (r: (u16, u16))
        ensures
            r == self@.size,
    {
        self.size
    }

    /// The node shown in the middle column.
    pub fn current(&self) -> (r: &'a Node)
        ensures
            *r == self@.current,
    {
        self.value
    }

    /// The selected row of the current node.
    pub fn index(&self) -> (r: usize)
        ensures
            r == self@.index,
    {
        self.index
    }

    /// How far below the root the current node lies.
    pub fn depth(&self) -> (r: usize)
        requires
            self.well_formed(),
        ensures
            r == self@.stack.len(),
    {
        self.values.len()
    }

    /// The `k`-th (parent, selected row) pair of the trail, oldest first.
    pub fn ancestor(&self, k: usize) -> (r: Option<(&'a Node, usize)>)
        requires
            self.well_formed(),
        ensures
            r is Some <==> k < self@.stack.len(),
            r matches Some(pair) ==> *pair.0 == self@.stack[k as int].0 && pair.1
                == self@.stack[k as int].1,
    {
        if k < self.values.len() {
            Some((self.values[k], self.indices[k]))
        } else {
            None
        }
    }

    /// The panel on `side`, where there is one.
    pub fn panel_state(&self, panel_side: PanelSide) -> (r: Option<PanelState<'a>>)
        requires
            self.well_formed(),
        ensures
            r is Some <==> self@.panel(panel_side) is Some,
            r matches Some(p) ==> p@ == self@.panel(panel_side)->0,
    {
        let (cols, _) = self.size;
        let width: u16 = cols / 3;
        match panel_side {
            PanelSide::Left => {
                let depth = self.values.len();
                if depth == 0 {
                    None
                } else {
                    let parent: &'a Node = self.values[depth - 1];
                    let row = self.indices[depth - 1];
                    Some(PanelState::build(parent, row, 0, width, true))
                }
            },
            PanelSide::Middle => Some(PanelState::build(self.value, self.index, width, width, true)),
            PanelSide::Right => {
                let current: &'a Node = self.value;
                match current.child_at(self.index) {
                    Some(child) => Some(PanelState::build(child, 0, 2 * width, width, false)),
                    None => None,
                }
            },
        }
    }

    /// Take a new terminal size.
    pub fn resize(&mut self, size: (u16, u16))
        requires
            old(self).well_formed(),
        ensures
            final(self).well_formed(),
            final(self)@ == old(self)@.resized(size),
    {
        self.size = size;
    }

    /// Go down into the selected child (see `NavView::descend`).
    pub fn push_path(&mut self)
        requires
            old(self).well_formed(),
        ensures
            final(self).well_formed(),
            final(self)@ == old(self)@.descend(),
    {
        let current: &'a Node = self.value;
        match current.child_at(self.index) {
            Some(child) => {
                self.indices.push(self.index);
                self.values.push(current);
                self.index = 0;
                self.value = child;
                assert(self@.stack =~= old(self)@.stack.push((*current, old(self)@.index)));
            },
            None => {},
        }
    }

    /// Go back up to the parent (see `NavView::ascend`).
    pub fn pop_path(&mut self)
        requires
            old(self).well_formed(),
        ensures
            final(self).well_formed(),
            final(self)@ == old(self)@.ascend(),
    {
        match self.indices.pop() {
            Some(row) => {
                match self.values.pop() {
                    Some(parent) => {
                        self.index = row;
                        self.value = parent;
                    },
                    None => {},
                }
                assert(self@.stack =~= old(self)@.stack.drop_last());
            },
            None => {},
        }
    }

    /// Select the next row (see `NavView::move_next`).
    pub fn inc_index(&mut self)
        requires
            old(self).well_formed(),
        ensures
            final(self).well_formed(),
            final(self)@ == old(self)@.move_next(),
    {
        let n = self.value.child_count();
        if n > 0 && self.index < n - 1 {
            self.index = self.index + 1;
        }
    }

    /// Select the previous row (see `NavView::move_prev`).
    pub fn dec_index(&mut self)
        requires
            old(self).well_formed(),
        ensures
            final(self).well_formed(),
            final(self)@ == old(self)@.move_prev(),
    {
        if self.index > 0 {
            self.index = self.index - 1;
        }
    }
}

} // verus!
