//! The failures that the multiplexing layer reports.

use crate::handles::failure_text;
use crate::tcp::IoError;
use vstd::prelude::*;
use vstd::string::StringExecFns;

verus! {

/// What can go wrong on a connection or on one of its streams.
#[derive(Debug)]
pub enum NxError {
    /// The transport failed while binding, connecting, reading or writing.
    Io(IoError),
    /// The queue or task on the other end is gone.
    Closed,
    /// A frame body too short to hold a stream identifier.
    IdFormatInvalid,
}

impl NxError {
    /// The error in words: `Closed`, `IdFormatInvalid`, or `IoError: `
    /// followed by the transport's own description of the failure.
    pub fn to_text(&self) -> (text: String)
        ensures
            self is Closed ==> text@ == "Closed"@,
            self is IdFormatInvalid ==> text@ == "IdFormatInvalid"@,
            self is Io ==> "IoError: "@.is_prefix_of(text@),
    {
        match self {
            NxError::Io(e) => {
                let mut text = "IoError: ".to_owned();
                let described = failure_text(e);
                text.append(described.as_str());
                assert(text@.subrange(0, "IoError: "@.len() as int) =~= "IoError: "@);
                text
            },
            NxError::Closed => "Closed".to_owned(),
            NxError::IdFormatInvalid => "IdFormatInvalid".to_owned(),
        }
    }
}

} // verus!
