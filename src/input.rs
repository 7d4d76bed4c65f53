//! What the front end reports, and what the state does with it.

use vstd::prelude::*;

use crate::state::{NavView, ProgramState};

verus! {

/// One input from the terminal, as plain values.
#[derive(Clone, Copy, Debug, PartialEq, Eq)]
pub enum Input {
    /// A key press without modifiers, by the character it types.
    Key(char),
    /// The terminal's new size, as (columns, rows).
    Resize(u16, u16),
}

/// What the front end does after an input has been handled.
#[derive(Clone, Copy, Debug, PartialEq, Eq)]
pub enum Action {
    /// Draw the panels again.
    Redraw,
    /// End the session.
    Quit,
    /// The input was not recognised; nothing changed.
    Ignore,
}

impl NavView {
    /// The state and action after `input`: `j` selects the next row, `k` the
    /// previous one, `l` goes down, `h` goes up, `q` quits, a new size is
    /// taken, and any other key is ignored.
    pub open spec fn on_input(self, input: Input) -> (NavView, Action) {
        match input {
            Input::Resize(cols, rows) => (self.resized((cols, rows)), Action::Redraw),
            Input::Key(c) => if c == 'j' {
                (self.move_next(), Action::Redraw)
            } else if c == 'k' {
                (self.move_prev(), Action::Redraw)
            } else if c == 'l' {
                (self.descend(), Action::Redraw)
            } else if c == 'h' {
                (self.ascend(), Action::Redraw)
            } else if c == 'q' {
                (self, Action::Quit)
            } else {
                (self, Action::Ignore)
            },
        }
    }
}

impl<'a> ProgramState<'a> {
    /// Apply one input (see `NavView::on_input`).
    pub fn handle(&mut self, input: Input) -> (r: Action)
        requires
            old(self).well_formed(),
        ensures
            final(self).well_formed(),
            (final(self)@, r) == old(self)@.on_input(input),
    {
        match input {
            Input::Resize(cols, rows) => {
                self.resize((cols, rows));
                Action::Redraw
            },
            Input::Key(c) => {
                if c == 'j' {
                    self.inc_index();
                    Action::Redraw
                } else if c == 'k' {
                    self.dec_index();
                    Action::Redraw
                } else if c == 'l' {
                    self.push_path();
                    Action::Redraw
                } else if c == 'h' {
                    self.pop_path();
                    Action::Redraw
                } else if c == 'q' {
                    Action::Quit
                } else {
                    Action::Ignore
                }
            },
        }
    }
}

} // verus!
