//! Client-side logic for submitting security scan reports and project archives
//! to a Corgea server.

pub mod authorize;
pub mod cicd;
pub mod cli;
pub mod config;
pub mod json;
pub mod list;
pub mod scan;
pub mod scanners;
pub mod setup_hooks;
pub mod text;
pub mod utils;
pub mod wait;
pub mod xml;
