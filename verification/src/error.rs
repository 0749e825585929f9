use vstd::prelude::*;
use vstd::string::*;

verus! {

/// The errors of key handling, scanning, proving and verifying.
#[derive(Debug)]
pub enum Error {
    Key(String),
    Scan(String),
    Proof(String),
    Verify(String),
    Network(String),
}

/// The result of key handling, scanning, proving and verifying.
pub type Result<T> = core::result::Result<T, Error>;

/// The text by which an error is shown.
pub open spec fn error_text(e: Error) -> Seq<char> {
    match e {
        Error::Key(m) => "Key error: "@ + m@,
        Error::Scan(m) => "Scan error: "@ + m@,
        Error::Proof(m) => "Proof error: "@ + m@,
        Error::Verify(m) => "Verification error: "@ + m@,
        Error::Network(m) => "Network error: "@ + m@,
    }
}

/// Whether `r` is the error `Error::Key` with the message `m`.
pub open spec fn is_key_error<T>(r: core::result::Result<T, Error>, m: Seq<char>) -> bool {
    r matches Err(Error::Key(e)) && e@ == m
}

impl Error {
    /// The text by which the error is shown.
    pub fn display_text(&self) -> (s: String)
        ensures
            s@ == error_text(*self),
    {
        let (prefix, m) = match self {
            Error::Key(m) => ("Key error: ", m),
            Error::Scan(m) => ("Scan error: ", m),
            Error::Proof(m) => ("Proof error: ", m),
            Error::Verify(m) => ("Verification error: ", m),
            Error::Network(m) => ("Network error: ", m),
        };
        let mut s = String::from_str(prefix);
        s.append(m.as_str());
        s
    }
}

} // verus!
