//! Clam keeps a laptop awake with its lid shut, and puts the owner's power
//! settings back afterwards.
pub mod power;
pub mod state;
pub mod text;
pub mod tray;
