//! Action-instance store and key-event dispatch for a configurable input-device
//! control panel.

pub mod effect;
pub mod instances;
pub mod keypad;
pub mod laws;
pub mod model;
pub mod paths;
pub mod store;
