//! Verified core of a Razer Blade laptop control library: the table of
//! supported models and their selection, the HID request/response retry
//! protocol, macro key report decoding, NVIDIA render preference encoding,
//! display refresh-rate cycling and the decisions behind the control panel.

pub mod types;
pub mod text;
pub mod descriptor;
pub mod device;
pub mod gpu;
pub mod macro_keys;
pub mod macro_actions;
pub mod ui;
