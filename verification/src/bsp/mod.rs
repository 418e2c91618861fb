//! Board support: what the firmware decides about the hardware of the board.

pub mod i2c;
pub mod ui;
