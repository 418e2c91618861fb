//! The events of the user interface task.

use vstd::prelude::*;

verus! {

#[derive(Debug, Clone, Copy, PartialEq, Eq, Structural, Hash)]
pub enum UiTaskEvent {
    PowerOn,
    PowerOff,
}

} // verus!
