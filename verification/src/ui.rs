//! The decisions behind the control panel: what each control shows, which
//! action a click asks for. Drawing is left to the application.

pub mod gpu;
pub mod macro_keys;
pub mod performance;
