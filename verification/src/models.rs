//! Common models used within this crate's modules.

pub mod result;
pub mod survey_config;
