//! The cache-directory command: turns the raw outcome of the host shell's
//! platform lookup into the response handed to the caller.
//!
//! The platform lookup itself (asking the operating system for the
//! application cache directory) is input/output and stays in the host shell,
//! which hands this module the outcome as plain strings: the resolved path on
//! success, the resolver's message on failure. This module guarantees the
//! response shape: a non-empty path string, or a non-empty failure message,
//! never both, never neither.

use vstd::prelude::*;

verus! {

/// The view of a raw lookup outcome or of a response, as sequences of
/// characters.
pub open spec fn outcome_view(r: Result<String, String>) -> Result<Seq<char>, Seq<char>> {
    match r {
        Ok(s) => Ok(s@),
        Err(s) => Err(s@),
    }
}

/// What the response to a raw lookup outcome is: a resolved path is handed
/// back as it is, and a failure message likewise; a degenerate outcome (an
/// empty path, which names no directory, or an empty message, which
/// describes nothing) becomes a fixed descriptive failure message.
pub open spec fn cache_dir_response(resolved: Result<Seq<char>, Seq<char>>) -> Result<
    Seq<char>,
    Seq<char>,
> {
    match resolved {
        Ok(path) => if path.len() > 0 {
            Ok(path)
        } else {
            Err("the resolved application cache directory path was empty"@)
        },
        Err(message) => if message.len() > 0 {
            Err(message)
        } else {
            Err("could not resolve the application cache directory"@)
        },
    }
}

/// Builds the response to a raw cache-directory lookup outcome: on success
/// the path's string representation, on failure a descriptive message.
pub fn get_app_cache_dir(resolved: Result<String, String>) -> (res: Result<String, String>)
    ensures
        outcome_view(res) == cache_dir_response(outcome_view(resolved)),
{
    match resolved {
        Ok(path) => {
            if !path.as_str().is_empty() {
                Ok(path)
            } else {
                Err("the resolved application cache directory path was empty".to_owned())
            }
        },
        Err(message) => {
            if !message.as_str().is_empty() {
                Err(message)
            } else {
                Err("could not resolve the application cache directory".to_owned())
            }
        },
    }
}

/// Law: the response to any raw lookup outcome is a non-empty path string or
/// a non-empty failure message — one of the two, so never both and never
/// neither.
pub proof fn lemma_cache_dir_response_never_empty(resolved: Result<Seq<char>, Seq<char>>)
    ensures
        cache_dir_response(resolved) matches Ok(path) ==> path.len() > 0,
        cache_dir_response(resolved) matches Err(message) ==> message.len() > 0,
{
    reveal_strlit("the resolved application cache directory path was empty");
    reveal_strlit("could not resolve the application cache directory");
}

} // verus!
