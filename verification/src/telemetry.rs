use crate::configuration::LogsSettings;
use std::path::Path;
use vstd::prelude::*;

verus! {

/// The directory and the name of the file that the log is written to.
#[derive(Debug)]
pub struct LogFile {
    pub directory: String,
    pub file_name: String,
}

/// `Path::extension` of std, on the path that `path` spells; the extension is handed back
/// as text. What counts as an extension is the platform's matter: nothing is claimed.
#[verifier::external_body]
fn path_extension(path: &str) -> Option<String> {
    match Path::new(path).extension() {
        Some(extension) => Some(extension.to_string_lossy().into_owned()),
        None => None,
    }
}

/// `Path::parent` of std, on the path that `path` spells; the parent is handed back as
/// text. Where a path is split is the platform's matter: nothing is claimed.
#[verifier::external_body]
fn path_parent(path: &str) -> Option<String> {
    match Path::new(path).parent() {
        Some(parent) => Some(parent.to_string_lossy().into_owned()),
        None => None,
    }
}

/// `Path::file_name` of std, on the path that `path` spells; the name is handed back as
/// text. Where a path is split is the platform's matter: nothing is claimed.
#[verifier::external_body]
fn path_file_name(path: &str) -> Option<String> {
    match Path::new(path).file_name() {
        Some(name) => Some(name.to_string_lossy().into_owned()),
        None => None,
    }
}

/// The name of the log file where the settings give a directory only.
pub open spec fn default_log_name() -> Seq<char> {
    "newsletter.log"@
}

/// The text of a string that may be missing, the empty text standing for a missing one.
pub open spec fn text_or_empty(s: Option<String>) -> Seq<char> {
    match s {
        Some(s) => s@,
        None => Seq::empty(),
    }
}

/// Where the log goes for the configured `path`, given what the platform makes of it. A
/// path with an extension names the file itself: the log goes to its parent directory
/// under its file name, each empty where the path has none. Any other path names the
/// directory, and the file gets the default name.
pub fn log_file(
    path: &str,
    extension: Option<String>,
    parent: Option<String>,
    file_name: Option<String>,
) -> (target: LogFile)
    ensures
        target.directory@ == (if extension is Some {
            text_or_empty(parent)
        } else {
            path@
        }),
        target.file_name@ == (if extension is Some {
            text_or_empty(file_name)
        } else {
            default_log_name()
        }),
{
    if extension.is_some() {
        let directory = match parent {
            Some(parent) => parent,
            None => String::new(),
        };
        let file_name = match file_name {
            Some(file_name) => file_name,
            None => String::new(),
        };
        LogFile { directory, file_name }
    } else {
        LogFile { directory: String::from_str(path), file_name: String::from_str("newsletter.log") }
    }
}

impl LogsSettings {
    /// Where the log goes: a file exactly when the settings name a path. Which directory
    /// and which name follows from what the platform makes of the path, as `log_file` says.
    pub fn file_target(&self) -> (target: Option<LogFile>)
        ensures
            target is Some <==> self.path is Some,
    {
        match &self.path {
            Some(path) => Some(
                log_file(
                    path.as_str(),
                    path_extension(path.as_str()),
                    path_parent(path.as_str()),
                    path_file_name(path.as_str()),
                ),
            ),
            None => None,
        }
    }
}

} // verus!
