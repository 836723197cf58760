//! Widgets that integrate with a plugin's parameters.

pub mod generic_ui;
pub mod param_button;
pub mod param_registry;
pub mod param_slider;
pub mod peak_meter;
