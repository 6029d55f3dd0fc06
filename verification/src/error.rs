//! Structured results for every failure the layer can report.

use vstd::prelude::*;

verus! {

/// A native error status, recorded as a message and a numeric code.
///
/// The engine reports failures through a status object; the surrounding code
/// extracts its message and code (consuming and freeing the status exactly
/// once) and records them here as plain values.
#[derive(Debug, Clone, PartialEq, Eq)]
pub struct ErrorStatus {
    msg: String,
    code: u32,
}

impl ErrorStatus {
    /// The recorded message.
    pub closed spec fn spec_msg(&self) -> Seq<char> {
        self.msg@
    }

    /// The recorded numeric code.
    pub closed spec fn spec_code(&self) -> u32 {
        self.code
    }

    /// Records an already-extracted native status.
    pub fn new(msg: String, code: u32) -> (r: Self)
        ensures
            r.spec_msg() == msg@,
            r.spec_code() == code,
    {
        ErrorStatus { msg, code }
    }

    /// The message text.
    pub fn message(&self) -> (r: &String)
        ensures
            r@ == self.spec_msg(),
    {
        &self.msg
    }

    /// The numeric code.
    pub fn code(&self) -> (r: u32)
        ensures
            r == self.spec_code(),
    {
        self.code
    }
}

/// Every recoverable failure of the layer.
///
/// Two situations are deliberately not represented here because they are
/// contract violations rather than recoverable errors: using a view after its
/// owning handle was released, and using a borrowed tensor after its backing
/// buffer was freed.  The ownership model in this crate rules both out.
#[derive(Debug, Clone, PartialEq, Eq)]
pub enum Error {
    /// The engine reported a failure; wraps its status.
    Engine(ErrorStatus),
    /// A malformed shape, buffer, or name mapping.
    Validation(String),
    /// The engine reported an element data type this layer does not support.
    UnsupportedDType(u32),
    /// A container kind other than a plain tensor.
    UnsupportedContainerKind(u32),
    /// A required input name was absent from a caller-supplied mapping.
    MissingInput(String),
    /// An output handed back by the engine could not be matched to a name.
    MissingOutput(String),
    /// An out-of-range metadata index.
    Index { index: usize, count: usize },
}

impl Error {
    /// A validation failure with the given message.
    pub fn new_validation(msg: String) -> (r: Self)
        ensures
            r == Error::Validation(msg),
    {
        Error::Validation(msg)
    }
}

} // verus!
