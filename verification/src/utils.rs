//! Helpers shared by the scanning and reporting modules.

pub mod api;
pub mod generic;
pub mod github;
pub mod terminal;
pub mod upload;
