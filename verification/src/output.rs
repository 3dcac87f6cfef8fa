//! How results and errors are put out.
//!
//! Structured output is compact JSON, or indented where asked for. Errors go to stderr, as one
//! line of text or one JSON object.

use vstd::prelude::*;

use crate::error::{seen, CliError, ErrorView};
use crate::json::{json_quoted, quote};
use crate::text::{join2, join5, same};

verus! {

/// How structured output is written.
#[derive(Debug, Clone, Copy)]
pub struct OutputMode {
    pub pretty: bool,
}

impl OutputMode {
    /// The mode that the flag and the configured format ask for.
    pub fn asked(pretty: bool, output_format: &str) -> (m: OutputMode)
        ensures
            m.pretty == (pretty || output_format@ == "pretty"@),
    {
        OutputMode { pretty: pretty || same(output_format, "pretty") }
    }
}

/// Whether errors are put out as JSON: by the flag, or by the configured format.
pub fn errors_as_json(json_errors: bool, errors_format: &str) -> (r: bool)
    ensures
        r == (json_errors || errors_format@ == "json"@),
{
    json_errors || same(errors_format, "json")
}

/// What is put out for an error. The informational code is no failure, and says nothing.
pub open spec fn rendered(error: ErrorView, errors_json: bool, quiet: bool) -> Option<Seq<char>> {
    if error.exit_code == 8 {
        None
    } else if errors_json {
        Some(
            "{\"error\":{\"code\":"@ + json_quoted(error.code) + ",\"message\":"@ + json_quoted(
                error.message,
            ) + "}}"@,
        )
    } else if quiet {
        None
    } else {
        Some("signet error: "@ + error.line())
    }
}

/// What to put out for an error: a JSON object where errors are JSON; else, unless quiet, a line
/// of text.
pub fn render_error(error: &CliError, errors_json: bool, quiet: bool) -> (r: Option<String>)
    ensures
        seen(r) == rendered(error@, errors_json, quiet),
{
    if error.exit_code == 8 {
        None
    } else if errors_json {
        Some(
            join5(
                "{\"error\":{\"code\":",
                &quote(error.code),
                ",\"message\":",
                &quote(&error.message),
                "}}",
            ),
        )
    } else if quiet {
        None
    } else {
        Some(join2("signet error: ", &error.to_line()))
    }
}

/// What is put out for an error: nothing for the informational code; where errors are JSON the
/// object with its code and message, quiet or not; else its line, unless quiet.
pub proof fn an_error_is_put_out_once(error: ErrorView, errors_json: bool, quiet: bool)
    ensures
        rendered(error, errors_json, quiet) is None <==> error.exit_code == 8 || (!errors_json
            && quiet),
        error.exit_code != 8 && errors_json ==> rendered(error, errors_json, quiet) == Some(
            "{\"error\":{\"code\":"@ + json_quoted(error.code) + ",\"message\":"@ + json_quoted(
                error.message,
            ) + "}}"@,
        ),
        error.exit_code != 8 && !errors_json && !quiet ==> rendered(error, errors_json, quiet)
            == Some("signet error: "@ + (error.code + ": "@ + error.message)),
{
}

} // verus!
