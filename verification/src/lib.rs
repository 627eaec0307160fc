//! Survey tool configuration library.
//!
//! Validates survey tool configuration files (YAML, one header document plus
//! one or more page documents) against an embedded schema, and checks
//! gathered host facts for the prerequisites the survey tool needs.
//!
//! - `config_check`: validate configuration text against the embedded schema.
//! - `setup_check`: judge host facts (operating system, Java version output)
//!   gathered by the caller.

use vstd::prelude::*;

pub mod check;
pub mod models;
pub mod setup;
pub mod text;

pub use check::ConfigError;
pub use models::result::CheckResult;

verus! {

/// Validate survey tool configuration text.
///
/// `source_text` holds the contents of the configuration file and
/// `source_name` its name, which must carry a YAML extension. A report is
/// returned whenever the text could be split into documents; malformed text
/// is an error instead, so the caller can tell a broken input from a merely
/// non-conforming one.
pub fn config_check(source_text: &str, source_name: &str) -> (r: Result<
    CheckResult,
    ConfigError,
>)
    ensures
        check::check_post(source_text@, source_name@, r),
{
    check::check(source_text, source_name)
}

/// Run setup checks over gathered host facts to see if the local machine can
/// execute the survey tool application.
///
/// `os` names the operating system and `java_output` holds what the local
/// Java installation printed for its version, or nothing when none answered.
pub fn setup_check(os: &str, java_output: Option<String>) -> (r: CheckResult)
    ensures
        setup::setup_post(os@, java_output, r),
{
    setup::check(os, java_output)
}

} // verus!
