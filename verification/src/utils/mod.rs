//! Helpers around the link.

pub mod wifi;
