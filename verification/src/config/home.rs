//! The settings directory of the user.

use vstd::prelude::*;
use vstd::string::*;
use crate::config::json::join_path;
use crate::config::json::joined_path;
use crate::config::resolution::decimal;
use crate::config::resolution::push_decimal;

verus! {

/// The text that a missing home directory is reported with.
pub open spec fn home_not_found_message() -> Seq<char> {
    "Could not find home directory"@
}

/// The settings directory for a home directory: the directory `.ja2` in it.
/// Without a home directory there is none.
pub open spec fn stracciatella_home_of(user_home: Option<Seq<char>>) -> Result<
    Seq<char>,
    Seq<char>,
> {
    match user_home {
        Some(home) => Ok(joined_path(home, ".ja2"@)),
        None => Err(home_not_found_message()),
    }
}

/// The settings directory, from the home directory as the platform reported
/// it, or `None` where it reported none. The directory need not exist yet.
pub fn find_stracciatella_home(user_home: Option<String>) -> (r: Result<String, String>)
    ensures
        match stracciatella_home_of(crate::text::optional_text(user_home)) {
            Ok(path) => r is Ok && r->Ok_0@ == path,
            Err(message) => r is Err && r->Err_0@ == message,
        },
{
    match user_home {
        Some(home) => Ok(join_path(home.as_str(), ".ja2")),
        None => Err(String::from_str("Could not find home directory")),
    }
}

/// What Windows reported when it was asked for the documents folder.
#[derive(Debug, PartialEq)]
pub enum DocumentsFolder {
    /// The folder's path.
    Found(String),
    /// A path that is no valid text.
    Undecodable,
    /// No folder, but an error code.
    Failed(i32),
}

/// The decimal text of a number with its sign.
pub open spec fn signed_decimal(code: int) -> Seq<char> {
    if code < 0 {
        seq!['-'] + decimal((-code) as nat)
    } else {
        decimal(code as nat)
    }
}

/// The text that an undecodable documents folder is reported with.
pub open spec fn undecodable_documents_message() -> Seq<char> {
    "Could not decode documents folder string."@
}

/// The text that a failure to get the documents folder is reported with; it
/// ends in the platform's error code.
pub open spec fn documents_failure_message(code: int) -> Seq<char> {
    "Could not get documents folder: "@ + signed_decimal(code)
}

/// A folder's path with a relative name added in the notation of Windows: a
/// backslash goes between them unless the folder's path is empty or ends in
/// a backslash or a slash already.
pub open spec fn joined_windows_path(folder: Seq<char>, name: Seq<char>) -> Seq<char> {
    if folder.len() == 0 || folder.last() == '\\' || folder.last() == '/' {
        folder + name
    } else {
        folder + seq!['\\'] + name
    }
}

/// The settings directory on Windows, from what the platform reported of the
/// documents folder: the folder `JA2` in it. The directory need not exist
/// yet.
pub fn find_stracciatella_home_on_windows(documents: DocumentsFolder) -> (r: Result<String, String>)
    ensures
        match documents {
            DocumentsFolder::Found(folder) => r is Ok && r->Ok_0@ == joined_windows_path(
                folder@,
                "JA2"@,
            ),
            DocumentsFolder::Undecodable => r is Err && r->Err_0@
                == undecodable_documents_message(),
            DocumentsFolder::Failed(code) => r is Err && r->Err_0@ == documents_failure_message(
                code as int,
            ),
        },
{
    match documents {
        DocumentsFolder::Found(folder) => {
            let n: usize = folder.as_str().unicode_len();
            let mut out = folder;
            if n > 0 {
                let last = out.as_str().get_char(n - 1);
                if last != '\\' && last != '/' {
                    out.push('\\');
                }
            }
            out.append("JA2");
            Ok(out)
        },
        DocumentsFolder::Undecodable => Err(
            String::from_str("Could not decode documents folder string."),
        ),
        DocumentsFolder::Failed(code) => {
            let mut out = String::from_str("Could not get documents folder: ");
            if code < 0 {
                out.push('-');
                let magnitude: u32 = (0 - (code as i64)) as u32;
                push_decimal(&mut out, magnitude);
            } else {
                push_decimal(&mut out, code as u32);
            }
            Err(out)
        },
    }
}

} // verus!
