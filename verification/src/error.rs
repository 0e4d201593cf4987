//! Typed errors surfaced by the extraction protocol.
//!
//! Every failing native call is translated into a variant naming that call;
//! nothing is retried and no partial result is ever produced.

use vstd::prelude::*;

verus! {

/// An error from the tensor-extraction protocol.
///
/// A native status code travels with the variant naming the call that
/// produced it; the code is the runtime's own error code and is nonzero
/// whenever a call fails.
#[derive(Debug)]
pub enum OrtError {
    /// The native query for a numeric tensor's data pointer failed.
    GetTensorMutableData(u32),
    /// The native query for a string tensor's total byte length failed.
    GetStringTensorDataLength(u32),
    /// The native call filling the string byte buffer and offset table failed.
    GetStringTensorContent(u32),
    /// A string slice was not valid UTF-8; carries the element's index and
    /// the offending bytes.  The whole extraction is abandoned.
    StringFromUtf8Error { index: usize, bytes: Vec<u8> },
    /// The runtime reported an element-type code outside the supported
    /// registry; carries that code.  Propagated rather than guessed, since
    /// coercing to a nearby kind would corrupt data interpretation.
    UnsupportedElementDataType(u32),
    /// The runtime handed back an offset table that is not monotone within
    /// the reported byte length: a runtime-contract mismatch, reported as an
    /// internal-consistency error.  Carries the first offending slot.
    InconsistentStringOffsets { index: usize },
}

} // verus!
