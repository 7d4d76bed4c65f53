//! Verified core of a three-column browser for nested documents: the document
//! tree, the navigation state machine over it, the derivation of the column
//! panels that a terminal front end draws, and the handling of its inputs.

pub mod input;
pub mod laws;
pub mod node;
pub mod state;
pub mod text;

pub use input::{Action, Input};
pub use node::Node;
pub use state::{NavView, PanelSide, PanelState, PanelView, ProgramState};
pub use text::{index_label, pad_string};
