//! The element-kind registry: the closed set of tensor element kinds this
//! library supports, and its two-way mapping to the native runtime's own
//! element-type codes.
//!
//! The native engine enumerates more kinds than are supported here (booleans,
//! half-precision floats, complex numbers, bfloat16); those codes map to
//! `None` and callers must reject them rather than guess.

use vstd::prelude::*;

use crate::error::OrtError;

verus! {

/// A tensor element kind supported by this library.
///
/// Each kind corresponds to exactly one native element-type code, and that
/// correspondence is a bijection on the supported subset (see
/// [`lemma_to_native_from_native`] and [`lemma_from_native_to_native`]).
#[derive(Debug, PartialEq, Eq, Clone, Copy, Structural)]
pub enum TensorElementDataType {
    /// 32-bit floating point, the native engine's `f32`-compatible kind
    Float,
    /// Unsigned 8-bit int, equivalent to Rust's `u8`
    Uint8,
    /// Signed 8-bit int, equivalent to Rust's `i8`
    Int8,
    /// Unsigned 16-bit int, equivalent to Rust's `u16`
    Uint16,
    /// Signed 16-bit int, equivalent to Rust's `i16`
    Int16,
    /// Signed 32-bit int, equivalent to Rust's `i32`
    Int32,
    /// Signed 64-bit int, equivalent to Rust's `i64`
    Int64,
    /// Variable-length UTF-8 text, equivalent to Rust's `String`
    String,
    /// 64-bit floating point, the native engine's `f64`-compatible kind
    Double,
    /// Unsigned 32-bit int, equivalent to Rust's `u32`
    Uint32,
    /// Unsigned 64-bit int, equivalent to Rust's `u64`
    Uint64,
}

/// The native code that stands for `k` in the runtime's element-type
/// enumeration.
pub open spec fn spec_to_native(k: TensorElementDataType) -> u32 {
    match k {
        TensorElementDataType::Float => 1,
        TensorElementDataType::Uint8 => 2,
        TensorElementDataType::Int8 => 3,
        TensorElementDataType::Uint16 => 4,
        TensorElementDataType::Int16 => 5,
        TensorElementDataType::Int32 => 6,
        TensorElementDataType::Int64 => 7,
        TensorElementDataType::String => 8,
        TensorElementDataType::Double => 11,
        TensorElementDataType::Uint32 => 12,
        TensorElementDataType::Uint64 => 13,
    }
}

/// The supported kind that the native code `code` stands for, if any.
///
/// Codes the engine defines but this library does not support (undefined,
/// boolean, half-precision, complex, bfloat16) map to `None`.
pub open spec fn spec_from_native(code: u32) -> Option<TensorElementDataType> {
    if code == 1 {
        Some(TensorElementDataType::Float)
    } else if code == 2 {
        Some(TensorElementDataType::Uint8)
    } else if code == 3 {
        Some(TensorElementDataType::Int8)
    } else if code == 4 {
        Some(TensorElementDataType::Uint16)
    } else if code == 5 {
        Some(TensorElementDataType::Int16)
    } else if code == 6 {
        Some(TensorElementDataType::Int32)
    } else if code == 7 {
        Some(TensorElementDataType::Int64)
    } else if code == 8 {
        Some(TensorElementDataType::String)
    } else if code == 11 {
        Some(TensorElementDataType::Double)
    } else if code == 12 {
        Some(TensorElementDataType::Uint32)
    } else if code == 13 {
        Some(TensorElementDataType::Uint64)
    } else {
        None
    }
}

impl TensorElementDataType {
    /// Map this kind to the native engine's element-type code.
    pub fn to_native(self) -> (code: u32)
        ensures
            code == spec_to_native(self),
    {
        match self {
            TensorElementDataType::Float => 1,
            TensorElementDataType::Uint8 => 2,
            TensorElementDataType::Int8 => 3,
            TensorElementDataType::Uint16 => 4,
            TensorElementDataType::Int16 => 5,
            TensorElementDataType::Int32 => 6,
            TensorElementDataType::Int64 => 7,
            TensorElementDataType::String => 8,
            TensorElementDataType::Double => 11,
            TensorElementDataType::Uint32 => 12,
            TensorElementDataType::Uint64 => 13,
        }
    }

    /// Map a native element-type code back to the supported kind it stands
    /// for; `None` for every code outside the supported subset.
    pub fn from_native(code: u32) -> (r: Option<TensorElementDataType>)
        ensures
            r == spec_from_native(code),
    {
        if code == 1 {
            Some(TensorElementDataType::Float)
        } else if code == 2 {
            Some(TensorElementDataType::Uint8)
        } else if code == 3 {
            Some(TensorElementDataType::Int8)
        } else if code == 4 {
            Some(TensorElementDataType::Uint16)
        } else if code == 5 {
            Some(TensorElementDataType::Int16)
        } else if code == 6 {
            Some(TensorElementDataType::Int32)
        } else if code == 7 {
            Some(TensorElementDataType::Int64)
        } else if code == 8 {
            Some(TensorElementDataType::String)
        } else if code == 11 {
            Some(TensorElementDataType::Double)
        } else if code == 12 {
            Some(TensorElementDataType::Uint32)
        } else if code == 13 {
            Some(TensorElementDataType::Uint64)
        } else {
            None
        }
    }

    /// Translate an element-type code the runtime reported into the
    /// supported kind it stands for; a code outside the registry fails with
    /// an error carrying that code, never a guessed kind.
    pub fn try_from_native(code: u32) -> (r: Result<TensorElementDataType, OrtError>)
        ensures
            match r {
                Ok(k) => spec_from_native(code) == Some(k),
                Err(e) => {
                    &&& spec_from_native(code) is None
                    &&& e matches OrtError::UnsupportedElementDataType(c) && c == code
                },
            },
    {
        match TensorElementDataType::from_native(code) {
            Some(k) => Ok(k),
            None => Err(OrtError::UnsupportedElementDataType(code)),
        }
    }
}

/// Law: mapping a supported kind to its native code and back is the identity.
///
/// Together with [`lemma_from_native_to_native`] this makes the mapping a
/// bijection between the supported kinds and their native codes.
pub proof fn lemma_to_native_from_native(k: TensorElementDataType)
    ensures
        spec_from_native(spec_to_native(k)) == Some(k),
{
}

/// Law: every native code that maps to a supported kind is exactly that
/// kind's native code, so no two codes reach the same kind.
pub proof fn lemma_from_native_to_native(code: u32, k: TensorElementDataType)
    requires
        spec_from_native(code) == Some(k),
    ensures
        spec_to_native(k) == code,
{
}

} // verus!
