//! Where the credential is kept: the configuration directory and the
//! credential file inside it.
//!
//! The directory lives under the user's home directory when one is known,
//! and under the current working directory otherwise. The caller passes the
//! home directory in; the library never reads the environment itself.

use vstd::prelude::*;
use vstd::string::*;

verus! {

/// The configuration directory for a given home directory, as a path string.
pub open spec fn config_dir_spec(home: Option<Seq<char>>) -> Seq<char> {
    match home {
        Option::Some(h) => h + "/.tinifycli"@,
        Option::None => "./.tinifycli"@,
    }
}

/// The credential file for a given home directory, as a path string.
pub open spec fn key_file_spec(home: Option<Seq<char>>) -> Seq<char> {
    config_dir_spec(home) + "/key"@
}

/// The configuration directory: `<home>/.tinifycli`, or `./.tinifycli` when
/// no home directory is known.
pub fn config_dir(home: Option<&str>) -> (r: String)
    ensures
        (home matches Option::Some(h) ==> r@ == config_dir_spec(Option::Some(h@))),
        (home matches Option::None ==> r@ == config_dir_spec(Option::None)),
{
    match home {
        Option::Some(h) => String::from_str(h).concat("/.tinifycli"),
        Option::None => String::from_str("./.tinifycli"),
    }
}

/// The credential file: `<config dir>/key`.
pub fn key_file(home: Option<&str>) -> (r: String)
    ensures
        (home matches Option::Some(h) ==> r@ == key_file_spec(Option::Some(h@))),
        (home matches Option::None ==> r@ == key_file_spec(Option::None)),
{
    config_dir(home).concat("/key")
}

} // verus!
