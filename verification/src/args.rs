//! Interpretation of the command line.
//!
//! The caller hands in the argument list (without the program name) and gets
//! back what the run should do. No process exit happens here: the usage-error
//! paths are explicit variants, and the outermost entry point translates them
//! to exit codes.

use vstd::prelude::*;
use vstd::string::*;
use crate::text::{trim, trim_spec};

verus! {

/// What one invocation of the tool should do, as decided from its arguments.
#[derive(Debug, PartialEq, Eq)]
pub enum Command {
    /// `set <KEY>`: persist the carried (already trimmed) credential and
    /// stop with a success status.
    Persist(String),
    /// `set` without a value: report usage and stop with a failure status,
    /// writing nothing.
    PersistMissingValue,
    /// A credential was given on the command line: use it for this run only.
    RunWith(String),
    /// No arguments: use the previously saved credential.
    RunStored,
}

/// Decides what to do from the argument list (program name excluded):
/// `set <KEY>` persists the trimmed credential; `set` alone is a usage
/// error; any other first argument is the credential for this run; no
/// arguments means the saved credential is to be used.
pub fn parse_args(args: &Vec<String>) -> (c: Command)
    ensures
        args@.len() == 0 ==> c matches Command::RunStored,
        args@.len() == 1 && args@[0]@ == "set"@ ==> c matches Command::PersistMissingValue,
        args@.len() >= 2 && args@[0]@ == "set"@ ==> (c matches Command::Persist(k) && k@
            == trim_spec(args@[1]@)),
        args@.len() >= 1 && args@[0]@ != "set"@ ==> (c matches Command::RunWith(k) && k@
            == args@[0]@),
{
    if args.len() == 0 {
        return Command::RunStored;
    }
    let set_word = String::from_str("set");
    if args[0].eq(&set_word) {
        if args.len() < 2 {
            return Command::PersistMissingValue;
        }
        return Command::Persist(trim(args[1].as_str()));
    }
    Command::RunWith(args[0].clone())
}

} // verus!
