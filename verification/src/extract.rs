//! The output-extraction protocol.
//!
//! Given a shape and the outcome of the native calls made by the embedding
//! program, extraction produces either a borrowed numeric view over the
//! runtime's buffer — kept alive by the shared [`TensorPointerHolder`] — or
//! an owned, freshly decoded collection of strings.  Which of the two
//! appears is decided by the element kind alone, never by the caller.
//!
//! The native calls themselves (querying the data pointer, the total string
//! byte length, and the content/offset fill) cannot be issued from verified
//! code: the embedding program performs each call and hands its outcome —
//! the runtime's status code on failure, the fetched data on success — to
//! the functions here, which make every decision of the protocol and are
//! verified for every outcome the runtime can produce.

use vstd::pervasive::VecAdditionalExecFns;
use vstd::prelude::*;
use vstd::utf8::{decode_utf8, valid_utf8};

use std::rc::Rc;

use crate::element_type::TensorElementDataType;
use crate::error::OrtError;
use crate::tensor_handle::TensorPointerHolder;

verus! {

/// The number of elements a tensor of shape `dims` holds: the product of
/// its dimension sizes (one, for the empty shape of a scalar).
pub open spec fn shape_product(dims: Seq<usize>) -> int
    decreases dims.len(),
{
    if dims.len() == 0 {
        1
    } else {
        dims[0] * shape_product(dims.drop_first())
    }
}

/// A dimension of size zero makes the whole product zero.
proof fn lemma_shape_product_zero(dims: Seq<usize>, j: int)
    requires
        0 <= j < dims.len(),
        dims[j] == 0,
    ensures
        shape_product(dims) == 0,
    decreases dims.len(),
{
    if j > 0 {
        lemma_shape_product_zero(dims.drop_first(), j - 1);
    }
}

/// With every dimension positive, the product is at least one.
proof fn lemma_shape_product_pos(dims: Seq<usize>)
    requires
        forall|k: int| 0 <= k < dims.len() ==> #[trigger] dims[k] >= 1,
    ensures
        shape_product(dims) >= 1,
    decreases dims.len(),
{
    if dims.len() > 0 {
        assert forall|k: int|
            0 <= k < dims.drop_first().len() implies #[trigger] dims.drop_first()[k] >= 1 by {
            assert(dims.drop_first()[k] == dims[k + 1]);
        }
        lemma_shape_product_pos(dims.drop_first());
        assert(dims[0] * shape_product(dims.drop_first()) >= 1) by (nonlinear_arith)
            requires
                dims[0] >= 1,
                shape_product(dims.drop_first()) >= 1,
        ;
    }
}

/// Unfolding the product one dimension at a time from the front.
proof fn lemma_shape_product_skip(dims: Seq<usize>, i: int)
    requires
        0 <= i < dims.len(),
    ensures
        shape_product(dims.skip(i)) == dims[i] * shape_product(dims.skip(i + 1)),
{
    assert(dims.skip(i).drop_first() =~= dims.skip(i + 1));
    assert(dims.skip(i)[0] == dims[i]);
}

/// The element count of shape `dims` as a machine integer: `Some` exactly
/// when the product of the dimension sizes fits `usize`.
///
/// Extraction trusts its shape argument, so callers discharge the
/// shape-against-count obligations with this before extracting.
#[verifier::loop_isolation(false)]
pub fn checked_shape_product(dims: &Vec<usize>) -> (r: Option<usize>)
    ensures
        match r {
            Some(p) => p == shape_product(dims@),
            None => shape_product(dims@) > usize::MAX,
        },
{
    let n = dims.len();
    let mut i: usize = 0;
    while i < n
        invariant
            i <= n,
            forall|k: int| 0 <= k < i ==> #[trigger] dims@[k] >= 1,
        decreases n - i,
    {
        if dims[i] == 0 {
            proof {
                lemma_shape_product_zero(dims@, i as int);
            }
            return Some(0);
        }
        i = i + 1;
    }

    assert(dims@.skip(0) =~= dims@);
    let mut acc: usize = 1;
    let mut i: usize = 0;
    while i < n
        invariant
            i <= n,
            acc >= 1,
            shape_product(dims@) == acc * shape_product(dims@.skip(i as int)),
        decreases n - i,
    {
        proof {
            lemma_shape_product_skip(dims@, i as int);
        }
        let d = dims[i];
        let ghost rest = shape_product(dims@.skip(i as int + 1));
        match acc.checked_mul(d) {
            Some(next) => {
                proof {
                    assert(acc * (d * rest) == (acc * d) * rest) by (nonlinear_arith);
                    assert(next >= 1) by (nonlinear_arith)
                        requires
                            next == acc * d,
                            acc >= 1,
                            d >= 1,
                    ;
                }
                acc = next;
            },
            None => {
                proof {
                    assert forall|k: int|
                        0 <= k < dims@.skip(i as int + 1).len() implies #[trigger] dims@.skip(
                        i as int + 1,
                    )[k] >= 1 by {
                        assert(dims@.skip(i as int + 1)[k] == dims@[k + i + 1]);
                    }
                    lemma_shape_product_pos(dims@.skip(i as int + 1));
                    assert(acc * (d * rest) > usize::MAX) by (nonlinear_arith)
                        requires
                            acc * d > usize::MAX,
                            rest >= 1,
                            acc >= 1,
                            d >= 1,
                    ;
                }
                return None;
            },
        }
        i = i + 1;
    }
    proof {
        assert(dims@.skip(n as int) =~= Seq::<usize>::empty());
    }
    Some(acc)
}

/// A typed, shaped, read-only view over the runtime's own buffer.
///
/// The slice borrows the runtime's memory directly; nothing is copied.  Its
/// element count always equals the product of `shape`.
#[derive(Debug)]
pub struct TensorView<'t, T> {
    /// The dimension sizes of the viewed tensor.
    pub shape: Vec<usize>,
    /// The runtime's buffer, element for element.
    pub data: &'t [T],
}

/// The two ways extracted tensor data can be held.
///
/// Only the extraction functions of this module produce values of this
/// type; which variant appears is determined by the element kind.
#[derive(Debug)]
pub enum TensorData<'t, T> {
    /// Numeric data still residing in the runtime's tensor.  The held
    /// [`TensorPointerHolder`] reference keeps that buffer alive; the view
    /// is valid only as long as the holder is.
    TensorPtr {
        /// The shared handle that owns the viewed buffer.
        ptr: Rc<TensorPointerHolder>,
        /// A view into the buffer that `ptr` keeps alive.
        array_view: TensorView<'t, T>,
    },
    /// String data copied out of the runtime and decoded; independent of
    /// the tensor handle from the moment it is built.
    Strings {
        /// The dimension sizes of the extracted tensor.
        shape: Vec<usize>,
        /// The decoded strings, in the runtime's element order.
        strings: Vec<String>,
    },
}

/// Build the borrowed numeric view for a tensor of the given shape.
///
/// `data_query` is the outcome of the native data-pointer query: the
/// runtime's buffer as a slice of `shape_product(shape)` elements, or the
/// nonzero status code of the failed call.  On success the view hands the
/// buffer back bit for bit, under the given shape, together with the handle
/// that keeps it alive; on failure the error names the failed call.
pub fn extract_primitive_array<'t, T>(
    shape: Vec<usize>,
    data_query: Result<&'t [T], u32>,
    tensor_ptr: Rc<TensorPointerHolder>,
) -> (r: Result<TensorData<'t, T>, OrtError>)
    requires
        data_query matches Ok(d) ==> shape_product(shape@) == d@.len(),
    ensures
        match r {
            Ok(td) => {
                &&& data_query is Ok
                &&& td matches TensorData::TensorPtr { ptr, array_view } && ptr == tensor_ptr
                    && array_view.shape@ == shape@ && array_view.data@ == data_query->Ok_0@
            },
            Err(e) => {
                &&& data_query is Err
                &&& e matches OrtError::GetTensorMutableData(code) && code == data_query->Err_0
            },
        },
{
    match data_query {
        Ok(data) => Ok(
            TensorData::TensorPtr { ptr: tensor_ptr, array_view: TensorView { shape, data } },
        ),
        Err(code) => Err(OrtError::GetTensorMutableData(code)),
    }
}

/// What to allocate before the string content can be fetched.
///
/// The byte buffer takes the total concatenated length the runtime
/// reported; the offset table takes one slot per element plus one extra, so
/// that the final slot can later receive the total length and every
/// element's end boundary is computable uniformly.
#[derive(Debug, PartialEq, Eq, Structural)]
pub struct StringTensorFetchPlan {
    /// Capacity of the flat byte buffer, in bytes.
    pub byte_capacity: u64,
    /// Number of slots of the offset table: one per element, plus one.
    pub offsets_capacity: usize,
}

/// Turn the outcome of the total-length query into an allocation plan.
///
/// `length_query` is the outcome of the native string-length call: the
/// total byte length of all string content concatenated, or the nonzero
/// status code of the failed call, which the error then names.
pub fn plan_string_fetch(element_count: usize, length_query: Result<u64, u32>) -> (r: Result<
    StringTensorFetchPlan,
    OrtError,
>)
    requires
        element_count < usize::MAX,
    ensures
        match r {
            Ok(plan) => {
                &&& length_query is Ok
                &&& plan.byte_capacity == length_query->Ok_0
                &&& plan.offsets_capacity == element_count + 1
            },
            Err(e) => {
                &&& length_query is Err
                &&& e matches OrtError::GetStringTensorDataLength(code) && code
                    == length_query->Err_0
            },
        },
{
    match length_query {
        Ok(total_length) => Ok(
            StringTensorFetchPlan {
                byte_capacity: total_length,
                offsets_capacity: element_count + 1,
            },
        ),
        Err(code) => Err(OrtError::GetStringTensorDataLength(code)),
    }
}

/// The offset table as it is used: the first `len - 1` slots as the runtime
/// filled them, the final slot replaced by the total byte length.
pub open spec fn effective_offsets(offsets: Seq<u64>, total: u64) -> Seq<u64> {
    offsets.update(offsets.len() - 1, total)
}

/// The first `k` consecutive offset pairs are each in order.
pub open spec fn offsets_monotone_upto(off: Seq<u64>, k: int) -> bool {
    forall|i: int| 0 <= i < k ==> #[trigger] off[i] <= off[i + 1]
}

/// The bytes of element `i`: the window of the flat buffer between its
/// offset and the next element's offset.
pub open spec fn string_window(bytes: Seq<u8>, off: Seq<u64>, i: int) -> Seq<u8> {
    bytes.subrange(off[i] as int, off[i + 1] as int)
}

/// In a table whose pairs are in order up to `k`, any earlier offset is at
/// most any later one.
proof fn lemma_monotone_chain(off: Seq<u64>, k: int, a: int, b: int)
    requires
        offsets_monotone_upto(off, k),
        k < off.len(),
        0 <= a <= b <= k,
    ensures
        off[a] <= off[b],
    decreases b - a,
{
    if a < b {
        lemma_monotone_chain(off, k, a, b - 1);
    }
}

/// Copy `bytes[start..end]` into a fresh vector.
fn copy_range(bytes: &Vec<u8>, start: usize, end: usize) -> (r: Vec<u8>)
    requires
        start <= end <= bytes@.len(),
    ensures
        r@ == bytes@.subrange(start as int, end as int),
{
    let mut out: Vec<u8> = Vec::new();
    let mut i: usize = start;
    while i < end
        invariant
            start <= i <= end <= bytes@.len(),
            out@ == bytes@.subrange(start as int, i as int),
        decreases end - i,
    {
        out.push(bytes[i]);
        assert(bytes@.subrange(start as int, i + 1 as int) =~= bytes@.subrange(
            start as int,
            i as int,
        ).push(bytes@[i as int]));
        i = i + 1;
    }
    out
}

/// Relies on std's `String::from_utf8`: it succeeds exactly on valid UTF-8
/// input and then returns the string those bytes encode; on failure,
/// `FromUtf8Error::into_bytes` gives the input bytes back unchanged.
#[verifier::external_body]
fn string_from_utf8(bytes: Vec<u8>) -> (r: Result<String, Vec<u8>>)
    ensures
        (r is Ok) <==> valid_utf8(bytes@),
        r matches Ok(s) ==> s@ == decode_utf8(bytes@),
        r matches Err(b) ==> b@ == bytes@,
{
    match String::from_utf8(bytes) {
        Ok(s) => Ok(s),
        Err(e) => Err(e.into_bytes()),
    }
}

/// Decode a string tensor's content into its owned, shaped collection.
///
/// `content_query` is the outcome of the native content call made with the
/// capacities of [`plan_string_fetch`]: the filled flat byte buffer and
/// offset table, or the nonzero status code of the failed call.  The
/// runtime fills only the first `element_count` offset slots, so the final
/// slot is first set to the total byte length; every element's bytes are
/// then the window between consecutive offsets.
///
/// On success the result holds exactly `element_count` strings, the `i`-th
/// decoded from the `i`-th window, under the given shape.  Failure is
/// all-or-nothing: a failed call names itself; an offset table that is not
/// monotone within the buffer is a runtime-contract mismatch reported with
/// its first offending slot; a window that is not valid UTF-8 is reported
/// with its index and bytes, every earlier window having been valid.
#[verifier::loop_isolation(false)]
pub fn extract_strings<'t>(
    shape: Vec<usize>,
    element_count: usize,
    content_query: Result<(Vec<u8>, Vec<u64>), u32>,
) -> (r: Result<TensorData<'t, String>, OrtError>)
    requires
        shape_product(shape@) == element_count,
        content_query matches Ok(q) ==> q.1@.len() == element_count + 1,
    ensures
        match r {
            Ok(td) => content_query is Ok && ({
                let bytes = content_query->Ok_0.0@;
                let eff = effective_offsets(content_query->Ok_0.1@, bytes.len() as u64);
                &&& offsets_monotone_upto(eff, element_count as int)
                &&& td matches TensorData::Strings { shape: s, strings } && s@ == shape@
                    && strings@.len() == element_count && (forall|i: int|
                    0 <= i < element_count ==> valid_utf8(#[trigger] string_window(bytes, eff, i))
                        && strings@[i]@ == decode_utf8(string_window(bytes, eff, i)))
            }),
            Err(e) => match e {
                OrtError::GetStringTensorContent(code) => content_query matches Err(c) && c == code,
                OrtError::InconsistentStringOffsets { index } => content_query is Ok && ({
                    let bytes = content_query->Ok_0.0@;
                    let eff = effective_offsets(content_query->Ok_0.1@, bytes.len() as u64);
                    &&& index < element_count
                    &&& offsets_monotone_upto(eff, index as int)
                    &&& eff[index as int] > eff[index as int + 1]
                }),
                OrtError::StringFromUtf8Error { index, bytes: bad } => content_query is Ok && ({
                    let bytes = content_query->Ok_0.0@;
                    let eff = effective_offsets(content_query->Ok_0.1@, bytes.len() as u64);
                    &&& offsets_monotone_upto(eff, element_count as int)
                    &&& index < element_count
                    &&& !valid_utf8(string_window(bytes, eff, index as int))
                    &&& (forall|j: int|
                        0 <= j < index ==> valid_utf8(#[trigger] string_window(bytes, eff, j)))
                    &&& bad@ == string_window(bytes, eff, index as int)
                }),
                _ => false,
            },
        },
{
    let (bytes, mut offsets) = match content_query {
        Ok(q) => q,
        Err(code) => {
            return Err(OrtError::GetStringTensorContent(code));
        },
    };
    let total: u64 = bytes.len() as u64;
    // The runtime is only contracted to fill the first `element_count`
    // slots; the extra slot takes the total length so that the last
    // element's end boundary is computed like every other.
    offsets.set(element_count, total);
    let ghost eff = offsets@;

    // Validate the offset table rather than assume it: each pair must be in
    // order, which (ending as it does at the total length) also keeps every
    // window inside the buffer.
    let mut i: usize = 0;
    while i < element_count
        invariant
            offsets@ == eff,
            eff.len() == element_count + 1,
            i <= element_count,
            offsets_monotone_upto(eff, i as int),
        decreases element_count - i,
    {
        if offsets[i] > offsets[i + 1] {
            return Err(OrtError::InconsistentStringOffsets { index: i });
        }
        i = i + 1;
    }

    let mut strings: Vec<String> = Vec::new();
    let mut i: usize = 0;
    while i < element_count
        invariant
            offsets@ == eff,
            eff.len() == element_count + 1,
            eff[element_count as int] == bytes@.len(),
            offsets_monotone_upto(eff, element_count as int),
            i <= element_count,
            strings@.len() == i,
            forall|j: int|
                0 <= j < i ==> valid_utf8(#[trigger] string_window(bytes@, eff, j))
                    && strings@[j]@ == decode_utf8(string_window(bytes@, eff, j)),
        decreases element_count - i,
    {
        proof {
            lemma_monotone_chain(eff, element_count as int, i as int, i + 1);
            lemma_monotone_chain(eff, element_count as int, i + 1, element_count as int);
        }
        let start = offsets[i] as usize;
        let end = offsets[i + 1] as usize;
        let window = copy_range(&bytes, start, end);
        match string_from_utf8(window) {
            Ok(s) => strings.push(s),
            Err(bad) => {
                return Err(OrtError::StringFromUtf8Error { index: i, bytes: bad });
            },
        }
        i = i + 1;
    }

    Ok(TensorData::Strings { shape, strings })
}

/// The element kind decides the representation: numeric kinds are held as a
/// borrowed view, the `String` kind as owned decoded strings — never the
/// caller's choice.
pub open spec fn kind_matches_variant<'t, T>(
    data: &TensorData<'t, T>,
    kind: TensorElementDataType,
) -> bool {
    match data {
        TensorData::TensorPtr { .. } => kind != TensorElementDataType::String,
        TensorData::Strings { .. } => kind == TensorElementDataType::String,
    }
}

/// The externally visible extracted output value: the extracted data
/// together with the element kind read back from the runtime, so a caller
/// that did not know the kind ahead of time can dispatch on it.
///
/// Immutable after construction, and well formed by construction: the held
/// variant always agrees with the held kind.
#[derive(Debug)]
pub struct DynOrtTensor<'t, T> {
    data: TensorData<'t, T>,
    data_type: TensorElementDataType,
}

impl<'t, T> DynOrtTensor<'t, T> {
    /// The extracted data.
    pub closed spec fn spec_data(&self) -> &TensorData<'t, T> {
        &self.data
    }

    /// The discovered element kind.
    pub closed spec fn spec_data_type(&self) -> TensorElementDataType {
        self.data_type
    }

    /// The held variant agrees with the held element kind.
    pub open spec fn wf(&self) -> bool {
        kind_matches_variant(self.spec_data(), self.spec_data_type())
    }

    /// Pair extracted data with the element kind it was extracted under.
    pub fn new(data: TensorData<'t, T>, data_type: TensorElementDataType) -> (r: Self)
        requires
            kind_matches_variant(&data, data_type),
        ensures
            r.wf(),
            *r.spec_data() == data,
            r.spec_data_type() == data_type,
    {
        DynOrtTensor { data, data_type }
    }

    /// The extracted data.
    pub fn data(&self) -> (r: &TensorData<'t, T>)
        ensures
            r == self.spec_data(),
    {
        &self.data
    }

    /// The discovered element kind.
    pub fn data_type(&self) -> (r: TensorElementDataType)
        ensures
            r == self.spec_data_type(),
    {
        self.data_type
    }
}

} // verus!
