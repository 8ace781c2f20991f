//! The types shared by the circuits, with their constants and errors.

pub mod constants;
pub mod errors;
pub mod types;
