//! Start-up decisions: where a configured file lies, and which credential a
//! session runs under.

use vstd::prelude::*;
use vstd::string::*;
use crate::error::ArgumentError;

verus! {

/// The directory that a configured path is relative to.
#[derive(Clone, Copy, Debug, PartialEq, Eq, Structural)]
pub enum PathBase {
    /// The directory of the running program.
    Executable,
    /// The directory that the program was started in.
    Working,
}

/// A configured path, resolved to its base and the path below it.
#[derive(Debug)]
pub struct Location {
    pub base: PathBase,
    pub path: String,
}

/// Whether a configured path starts with the mark of the program's own
/// directory, a dollar sign.
pub open spec fn is_marked(path: Seq<char>) -> bool {
    path.len() > 0 && path[0] == '$'
}

/// Resolves a configured path. A leading dollar sign stands for the
/// directory of the program and is cut off; any other path is relative to
/// the working directory and is kept whole.
pub fn locate(path: &str) -> (location: Location)
    ensures
        is_marked(path@) ==> location.base == PathBase::Executable && location.path@
            == path@.subrange(1, path@.len() as int),
        !is_marked(path@) ==> location.base == PathBase::Working && location.path@ == path@,
{
    let length = path.unicode_len();
    if length > 0 && path.get_char(0) == '$' {
        Location { base: PathBase::Executable, path: path.substring_char(1, length).to_owned() }
    } else {
        Location { base: PathBase::Working, path: path.to_owned() }
    }
}

/// The credential that a session runs under: the one given directly, or
/// else what the key file held; nothing where neither is there.
pub open spec fn credential(key: Option<String>, key_file: Option<String>) -> Seq<char> {
    match key {
        Some(k) => k@,
        None => match key_file {
            Some(f) => f@,
            None => Seq::empty(),
        },
    }
}

/// Selects the credential. A credential given directly wins over the key
/// file. An empty credential is no credential: the error names the argument
/// `api_key`.
pub fn select_key(key: Option<String>, key_file: Option<String>) -> (selected: Result<
    String,
    ArgumentError,
>)
    ensures
        selected is Ok <==> credential(key, key_file).len() > 0,
        selected is Ok ==> selected->Ok_0@ == credential(key, key_file),
        selected is Err ==> selected->Err_0.name() == "api_key"@ && selected->Err_0.message()
            == "No API Key!"@,
{
    let api_key = match key {
        Some(k) => k,
        None => match key_file {
            Some(f) => f,
            None => String::new(),
        },
    };
    if api_key.as_str().is_empty() {
        Err(ArgumentError::new("api_key", "No API Key!"))
    } else {
        Ok(api_key)
    }
}

} // verus!
