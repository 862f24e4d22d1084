//! Configuration pass-through: the configuration is an opaque JSON text that
//! is handed out unchanged and taken back only if it is well-formed.

use vstd::prelude::*;
use crate::failure::{CommandError, Stage};
use crate::json::{complaint_about, json_complaint};

verus! {

/// Hands the configuration out exactly as it was given, whatever it holds.
pub fn export_config(config: String) -> (r: Result<String, CommandError>)
    ensures
        r == Ok::<String, CommandError>(config),
{
    Ok(config)
}

/// Decides an import once the parser has spoken: with no complaint the text
/// is returned unchanged, otherwise the complaint becomes an invalid-JSON
/// failure.
pub fn import_outcome(content: String, complaint: Option<String>) -> (r: Result<
    String,
    CommandError,
>)
    ensures
        complaint is None ==> r == Ok::<String, CommandError>(content),
        complaint is Some ==> r is Err && r->Err_0.is(
            Stage::InvalidJson,
            false,
            complaint->Some_0@,
        ),
{
    match complaint {
        None => Ok(content),
        Some(text) => Err(CommandError::with_detail(Stage::InvalidJson, text)),
    }
}

/// Takes a configuration back: well-formed JSON is returned unchanged,
/// anything else fails as invalid JSON, with the parser's complaint as the
/// detail. No schema is applied.
pub fn import_config(content: String) -> (r: Result<String, CommandError>)
    ensures
        match json_complaint(content@) {
            None => r == Ok::<String, CommandError>(content),
            Some(complaint) => r is Err && r->Err_0.is(Stage::InvalidJson, false, complaint),
        },
{
    let complaint = complaint_about(content.as_str());
    import_outcome(content, complaint)
}

} // verus!
