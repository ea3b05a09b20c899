//! The scanners whose reports the client understands.

pub mod blast;
pub mod fortify;
pub mod parsers;
