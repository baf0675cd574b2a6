use std::path::Path;
use vstd::prelude::*;

verus! {

/// The arguments of the command line.
#[derive(Debug)]
pub struct Args {
    /// The path to the server config file.
    pub config: Option<String>,
}

/// `Path::exists` of std, on the path that `path` spells: whether something is there on
/// disk at the moment of the call. Nothing is claimed of the answer.
#[verifier::external_body]
fn path_exists(path: &str) -> bool {
    Path::new(path).exists()
}

/// What a path to nothing is answered with.
pub open spec fn file_rejection(path: Seq<char>) -> Seq<char> {
    "File not found: "@ + path
}

/// Accepts `path` where something exists there, and says that nothing was found where
/// nothing does.
pub fn check_file(path: &str, exists: bool) -> (r: Result<String, String>)
    ensures
        match r {
            Ok(accepted) => exists && accepted@ == path@,
            Err(message) => !exists && message@ == file_rejection(path@),
        },
{
    if exists {
        Ok(String::from_str(path))
    } else {
        let mut message = String::from_str("File not found: ");
        message.append(path);
        Err(message)
    }
}

/// Accepts the path of a config file if something exists there. Whatever the disk holds,
/// the path is handed back unchanged or refused with the message that quotes it.
pub fn validate_file(path: &str) -> (r: Result<String, String>)
    ensures
        match r {
            Ok(accepted) => accepted@ == path@,
            Err(message) => message@ == file_rejection(path@),
        },
{
    check_file(path, path_exists(path))
}

} // verus!
