use vstd::prelude::*;

verus! {

/// The failure classes a test body can report. `TestFailed` is the one
/// domain-level kind; the other kinds carry failures of lower layers (I/O,
/// text decoding) that the host environment has already rendered to text.
#[derive(Debug, PartialEq, Eq)]
pub enum Error {
    /// A test assertion did not hold; carries the fully rendered message.
    TestFailed(String),
    /// An I/O failure signalled by the host environment.
    Io(String),
    /// A UTF-8 decoding failure signalled by the host environment.
    FromUtf8(String),
}

/// The text the report shows for an error.
pub open spec fn error_text(e: Error) -> Seq<char> {
    match e {
        Error::TestFailed(msg) => msg@,
        Error::Io(_) => "an I/O error occurred"@,
        Error::FromUtf8(_) => "invalid conversion from UTF-8 ocurred"@,
    }
}

impl Error {
    /// The rendered message for this error, exactly as the report shows it.
    pub fn message(&self) -> (text: String)
        ensures
            text@ == error_text(*self),
    {
        match self {
            Error::TestFailed(msg) => msg.clone(),
            Error::Io(_) => "an I/O error occurred".to_owned(),
            Error::FromUtf8(_) => "invalid conversion from UTF-8 ocurred".to_owned(),
        }
    }
}

} // verus!
