//! The credential store's contents: what is written when a credential is
//! saved, and how a raw read of the credential file is interpreted.
//!
//! The store itself is one file at a fixed path (see [`crate::paths`]); the
//! file system work is done outside the library, which only decides what the
//! file holds and what a read result means.

use vstd::prelude::*;
use crate::text::{trim, trim_spec, lemma_trim_idempotent};

verus! {

/// Why loading a saved credential failed.
#[derive(Clone, Copy, Debug, PartialEq, Eq, Structural)]
pub enum LoadError {
    /// The credential file does not exist: no credential was ever saved.
    NotFound,
    /// The credential file exists but could not be read.
    IoFailure,
}

/// What a raw read of the credential file yielded: its contents, the fact
/// that the file does not exist, or any other read failure.
pub enum ReadOutcome {
    Content(String),
    Missing,
    Failure,
}

/// The exact contents written to the credential file when `key` is saved.
pub open spec fn saved_contents_spec(key: Seq<char>) -> Seq<char> {
    trim_spec(key)
}

/// The credential returned by a load that found `contents` in the file.
pub open spec fn load_spec(contents: Seq<char>) -> Seq<char> {
    trim_spec(contents)
}

/// The contents to write to the credential file when saving `key`:
/// the credential trimmed of leading and trailing whitespace.
pub fn saved_contents(key: &str) -> (r: String)
    ensures
        r@ == saved_contents_spec(key@),
{
    trim(key)
}

/// Interprets a raw read of the credential file: the trimmed contents on
/// success, `LoadError::NotFound` exactly when the file is missing, and
/// `LoadError::IoFailure` exactly on any other read failure.
pub fn read_key(outcome: ReadOutcome) -> (r: Result<String, LoadError>)
    ensures
        (outcome matches ReadOutcome::Content(s) ==> (r matches Ok(k) && k@ == load_spec(
            s@,
        ))),
        (outcome matches ReadOutcome::Missing ==> r == Err::<String, LoadError>(
            LoadError::NotFound,
        )),
        (outcome matches ReadOutcome::Failure ==> r == Err::<String, LoadError>(
            LoadError::IoFailure,
        )),
{
    match outcome {
        ReadOutcome::Content(s) => Ok(trim(s.as_str())),
        ReadOutcome::Missing => Err(LoadError::NotFound),
        ReadOutcome::Failure => Err(LoadError::IoFailure),
    }
}

/// Law: saving a credential and then loading it back yields the credential
/// trimmed of leading and trailing whitespace.
pub proof fn lemma_save_then_load(key: Seq<char>)
    ensures
        load_spec(saved_contents_spec(key)) == trim_spec(key),
{
    lemma_trim_idempotent(key);
}

} // verus!
