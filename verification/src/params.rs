//! Startup configuration and its validators.
//!
//! The command-line collaborator hands the daemon a command string, the
//! target key code and an optional device-path override. The validators
//! here state exactly which argument texts are accepted.

use vstd::prelude::*;

verus! {

/// Startup configuration: the command to run, the key code bound to the
/// toggle, and an optional device-path override.
pub struct Params {
    pub command: String,
    pub key_code: u32,
    pub device: Option<String>,
}

/// Validate the command argument: any non-empty string is accepted.
pub fn is_string(command: &str) -> (r: Result<(), String>)
    ensures
        r is Ok <==> command@.len() > 0,
        r matches Err(m) ==> m@ == "A command is required."@,
{
    if command.is_empty() {
        Err("A command is required.".to_owned())
    } else {
        Ok(())
    }
}

/// Validate the key-code argument: accepted exactly when the text parses
/// as a decimal `u32`.
pub fn is_integer(text: &str) -> (r: Result<(), String>)
    ensures
        r is Ok <==> crate::parse::spec_parse_u32(text@) is Some,
        r matches Err(m) ==> m@ == "An unsigned integer is required."@,
{
    match crate::parse::parse_u32(text) {
        Some(_) => Ok(()),
        None => Err("An unsigned integer is required.".to_owned()),
    }
}

} // verus!
