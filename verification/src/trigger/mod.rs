//! What sets the station's work going.

pub mod timer;
