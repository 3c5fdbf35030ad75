//! Clipboard capture, classification and persistence logic.

pub mod capture;
pub mod classify;
pub mod placement;
pub mod clip;
pub mod response;
pub mod session;
pub mod store;
pub mod reader;
