//! The application's error type and the text it is reported with.

use vstd::prelude::*;

verus! {

/// Everything that can go wrong while handling an upload. Failures of the
/// file system and of the HTTP client carry the text they were reported with.
#[derive(Debug, Clone, PartialEq, Eq)]
pub enum OrgError {
    BadTempPath,
    MissingName,
    Io(String),
    Reqwest(String),
    MicrosoftDrive(String),
    MicrosoftDrive404,
}

/// The text an error is displayed with.
pub open spec fn error_message(e: OrgError) -> Seq<char> {
    match e {
        OrgError::BadTempPath => "File could not be found at the temp location"@,
        OrgError::MissingName => "Invalid name"@,
        OrgError::Io(text) => "IO error: "@ + text@,
        OrgError::Reqwest(text) => "IO error: "@ + text@,
        OrgError::MicrosoftDrive(text) => "Microsoft Drive error: "@ + text@,
        OrgError::MicrosoftDrive404 => "Microsoft Drive error: 404"@,
    }
}

/// An error that carries a text shows all of that text, after a fixed label.
pub proof fn lemma_error_message_ends_with_text(text: String)
    ensures
        error_message(OrgError::Io(text)).len() == "IO error: "@.len() + text@.len(),
        error_message(OrgError::Io(text)).subrange(
            "IO error: "@.len() as int,
            error_message(OrgError::Io(text)).len() as int,
        ) == text@,
        error_message(OrgError::Reqwest(text)).subrange(
            "IO error: "@.len() as int,
            error_message(OrgError::Reqwest(text)).len() as int,
        ) == text@,
        error_message(OrgError::MicrosoftDrive(text)).subrange(
            "Microsoft Drive error: "@.len() as int,
            error_message(OrgError::MicrosoftDrive(text)).len() as int,
        ) == text@,
{
    let a = "IO error: "@;
    let b = "Microsoft Drive error: "@;
    assert((a + text@).subrange(a.len() as int, (a + text@).len() as int) =~= text@);
    assert((b + text@).subrange(b.len() as int, (b + text@).len() as int) =~= text@);
}

impl OrgError {
    /// The text this error is displayed with.
    pub fn message(&self) -> (res: String)
        ensures
            res@ == error_message(*self),
    {
        match self {
            OrgError::BadTempPath => String::from_str("File could not be found at the temp location"),
            OrgError::MissingName => String::from_str("Invalid name"),
            OrgError::Io(text) => {
                let mut res = String::from_str("IO error: ");
                res.append(text.as_str());
                res
            },
            OrgError::Reqwest(text) => {
                let mut res = String::from_str("IO error: ");
                res.append(text.as_str());
                res
            },
            OrgError::MicrosoftDrive(text) => {
                let mut res = String::from_str("Microsoft Drive error: ");
                res.append(text.as_str());
                res
            },
            OrgError::MicrosoftDrive404 => String::from_str("Microsoft Drive error: 404"),
        }
    }
}

} // verus!
