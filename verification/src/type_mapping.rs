//! The mapping from managed value types to element kinds.
//!
//! Two trait families associate each supported managed type with exactly one
//! element kind.  [`TypeToTensorElementDataType`] describes values fed *into*
//! the runtime; [`TensorDataToType`] marks the types that output extraction
//! can produce.  Textual types come in through [`Utf8Data`] and are always
//! associated with the [`TensorElementDataType::String`] kind; the numeric
//! implementations never report textual content, so no type is ambiguous
//! between the two families.

use vstd::prelude::*;
use vstd::utf8::encode_utf8;

use crate::element_type::TensorElementDataType;

verus! {

/// Maps a managed value type to the element kind used to describe it to the
/// runtime, with a uniform probe for textual content.
///
/// Law (mutual exclusivity): `try_utf8_bytes` answers `Some` exactly for the
/// types whose kind is `String`, and then hands out precisely the value's
/// UTF-8 bytes; numeric types always answer `None`.
pub trait TypeToTensorElementDataType {
    /// The one element kind this type is associated with.
    spec fn spec_element_kind() -> TensorElementDataType;

    /// The UTF-8 bytes of the value, meaningful when the kind is `String`.
    spec fn spec_utf8_content(&self) -> Seq<u8>;

    /// The element kind for this managed type.
    fn tensor_element_data_type() -> (k: TensorElementDataType)
        ensures
            k == Self::spec_element_kind(),
    ;

    /// The value's UTF-8 bytes when this type is textual, `None` otherwise.
    fn try_utf8_bytes(&self) -> (r: Option<&[u8]>)
        ensures
            (r is Some) <==> Self::spec_element_kind() == TensorElementDataType::String,
            r matches Some(b) ==> b@ == self.spec_utf8_content(),
    ;
}

/// Adapter for managed string types used as tensor text data.
///
/// A deliberate, closed opt-in: only the types implementing this trait join
/// the textual mapping family, so a numeric type can never also be textual.
pub trait Utf8Data {
    /// The value's content as UTF-8 bytes.
    spec fn spec_utf8_bytes(&self) -> Seq<u8>;

    /// Returns the UTF-8 contents.
    fn utf8_bytes(&self) -> (r: &[u8])
        ensures
            r@ == self.spec_utf8_bytes(),
    ;
}

impl Utf8Data for String {
    open spec fn spec_utf8_bytes(&self) -> Seq<u8> {
        encode_utf8(self@)
    }

    fn utf8_bytes(&self) -> (r: &[u8]) {
        self.as_str().as_bytes()
    }
}

impl<'a> Utf8Data for &'a str {
    open spec fn spec_utf8_bytes(&self) -> Seq<u8> {
        encode_utf8(self@)
    }

    fn utf8_bytes(&self) -> (r: &[u8]) {
        self.as_bytes()
    }
}

/// Every textual type maps to the `String` kind and exposes its bytes.
impl<T: Utf8Data> TypeToTensorElementDataType for T {
    open spec fn spec_element_kind() -> TensorElementDataType {
        TensorElementDataType::String
    }

    open spec fn spec_utf8_content(&self) -> Seq<u8> {
        self.spec_utf8_bytes()
    }

    fn tensor_element_data_type() -> (k: TensorElementDataType) {
        TensorElementDataType::String
    }

    fn try_utf8_bytes(&self) -> (r: Option<&[u8]>) {
        Some(self.utf8_bytes())
    }
}

impl TypeToTensorElementDataType for u8 {
    open spec fn spec_element_kind() -> TensorElementDataType {
        TensorElementDataType::Uint8
    }

    open spec fn spec_utf8_content(&self) -> Seq<u8> {
        Seq::empty()
    }

    fn tensor_element_data_type() -> (k: TensorElementDataType) {
        TensorElementDataType::Uint8
    }

    fn try_utf8_bytes(&self) -> (r: Option<&[u8]>) {
        None
    }
}

impl TypeToTensorElementDataType for i8 {
    open spec fn spec_element_kind() -> TensorElementDataType {
        TensorElementDataType::Int8
    }

    open spec fn spec_utf8_content(&self) -> Seq<u8> {
        Seq::empty()
    }

    fn tensor_element_data_type() -> (k: TensorElementDataType) {
        TensorElementDataType::Int8
    }

    fn try_utf8_bytes(&self) -> (r: Option<&[u8]>) {
        None
    }
}

impl TypeToTensorElementDataType for u16 {
    open spec fn spec_element_kind() -> TensorElementDataType {
        TensorElementDataType::Uint16
    }

    open spec fn spec_utf8_content(&self) -> Seq<u8> {
        Seq::empty()
    }

    fn tensor_element_data_type() -> (k: TensorElementDataType) {
        TensorElementDataType::Uint16
    }

    fn try_utf8_bytes(&self) -> (r: Option<&[u8]>) {
        None
    }
}

impl TypeToTensorElementDataType for i16 {
    open spec fn spec_element_kind() -> TensorElementDataType {
        TensorElementDataType::Int16
    }

    open spec fn spec_utf8_content(&self) -> Seq<u8> {
        Seq::empty()
    }

    fn tensor_element_data_type() -> (k: TensorElementDataType) {
        TensorElementDataType::Int16
    }

    fn try_utf8_bytes(&self) -> (r: Option<&[u8]>) {
        None
    }
}

impl TypeToTensorElementDataType for i32 {
    open spec fn spec_element_kind() -> TensorElementDataType {
        TensorElementDataType::Int32
    }

    open spec fn spec_utf8_content(&self) -> Seq<u8> {
        Seq::empty()
    }

    fn tensor_element_data_type() -> (k: TensorElementDataType) {
        TensorElementDataType::Int32
    }

    fn try_utf8_bytes(&self) -> (r: Option<&[u8]>) {
        None
    }
}

impl TypeToTensorElementDataType for i64 {
    open spec fn spec_element_kind() -> TensorElementDataType {
        TensorElementDataType::Int64
    }

    open spec fn spec_utf8_content(&self) -> Seq<u8> {
        Seq::empty()
    }

    fn tensor_element_data_type() -> (k: TensorElementDataType) {
        TensorElementDataType::Int64
    }

    fn try_utf8_bytes(&self) -> (r: Option<&[u8]>) {
        None
    }
}

impl TypeToTensorElementDataType for u32 {
    open spec fn spec_element_kind() -> TensorElementDataType {
        TensorElementDataType::Uint32
    }

    open spec fn spec_utf8_content(&self) -> Seq<u8> {
        Seq::empty()
    }

    fn tensor_element_data_type() -> (k: TensorElementDataType) {
        TensorElementDataType::Uint32
    }

    fn try_utf8_bytes(&self) -> (r: Option<&[u8]>) {
        None
    }
}

impl TypeToTensorElementDataType for u64 {
    open spec fn spec_element_kind() -> TensorElementDataType {
        TensorElementDataType::Uint64
    }

    open spec fn spec_utf8_content(&self) -> Seq<u8> {
        Seq::empty()
    }

    fn tensor_element_data_type() -> (k: TensorElementDataType) {
        TensorElementDataType::Uint64
    }

    fn try_utf8_bytes(&self) -> (r: Option<&[u8]>) {
        None
    }
}

/// Marks a managed type that output extraction can produce, and the one
/// element kind whose tensors it is extracted from.
///
/// Numeric types are read back through the borrowed-view path and string
/// data through the copy-and-decode path; see the extraction module.
pub trait TensorDataToType: Sized {
    /// The element kind this type extracts from.
    spec fn spec_element_kind() -> TensorElementDataType;

    /// The element kind for this managed type.
    fn tensor_element_data_type() -> (k: TensorElementDataType)
        ensures
            k == Self::spec_element_kind(),
    ;
}

impl TensorDataToType for u8 {
    open spec fn spec_element_kind() -> TensorElementDataType {
        TensorElementDataType::Uint8
    }

    fn tensor_element_data_type() -> (k: TensorElementDataType) {
        TensorElementDataType::Uint8
    }
}

impl TensorDataToType for i8 {
    open spec fn spec_element_kind() -> TensorElementDataType {
        TensorElementDataType::Int8
    }

    fn tensor_element_data_type() -> (k: TensorElementDataType) {
        TensorElementDataType::Int8
    }
}

impl TensorDataToType for u16 {
    open spec fn spec_element_kind() -> TensorElementDataType {
        TensorElementDataType::Uint16
    }

    fn tensor_element_data_type() -> (k: TensorElementDataType) {
        TensorElementDataType::Uint16
    }
}

impl TensorDataToType for i16 {
    open spec fn spec_element_kind() -> TensorElementDataType {
        TensorElementDataType::Int16
    }

    fn tensor_element_data_type() -> (k: TensorElementDataType) {
        TensorElementDataType::Int16
    }
}

impl TensorDataToType for i32 {
    open spec fn spec_element_kind() -> TensorElementDataType {
        TensorElementDataType::Int32
    }

    fn tensor_element_data_type() -> (k: TensorElementDataType) {
        TensorElementDataType::Int32
    }
}

impl TensorDataToType for i64 {
    open spec fn spec_element_kind() -> TensorElementDataType {
        TensorElementDataType::Int64
    }

    fn tensor_element_data_type() -> (k: TensorElementDataType) {
        TensorElementDataType::Int64
    }
}

impl TensorDataToType for u32 {
    open spec fn spec_element_kind() -> TensorElementDataType {
        TensorElementDataType::Uint32
    }

    fn tensor_element_data_type() -> (k: TensorElementDataType) {
        TensorElementDataType::Uint32
    }
}

impl TensorDataToType for u64 {
    open spec fn spec_element_kind() -> TensorElementDataType {
        TensorElementDataType::Uint64
    }

    fn tensor_element_data_type() -> (k: TensorElementDataType) {
        TensorElementDataType::Uint64
    }
}

impl TensorDataToType for String {
    open spec fn spec_element_kind() -> TensorElementDataType {
        TensorElementDataType::String
    }

    fn tensor_element_data_type() -> (k: TensorElementDataType) {
        TensorElementDataType::String
    }
}

} // verus!
