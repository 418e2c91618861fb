//! The user interface hardware of the board: four buttons and two RGB LEDs
//! behind a port expander.

pub mod ui;
pub mod wiring;
