//! Toggle-controlled synthetic click emission: the decisions of an
//! autoclicker, stated and proved, with the I/O left to the caller.

pub mod toggle;
pub mod emission;
pub mod text;
pub mod discovery;
pub mod listener;
pub mod registry;
pub mod keycode;
pub mod config;
