//! Screenshots of windows and monitors, kept as files in a cache directory:
//! which surfaces are offered, where an artifact lies, and what a capture or
//! a removal does step by step.

pub mod error;
pub mod operation;
pub mod path;
pub mod run;
pub mod select;
pub mod surface;
