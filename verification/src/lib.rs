//! A verified bridge between managed tensor data and the tensor objects of a
//! native inference runtime.
//!
//! The library covers the element-kind registry (the closed set of supported
//! tensor element types and its two-way mapping to the runtime's own codes),
//! the mapping from managed scalar and text types to element kinds, the shared
//! handle that owns a runtime tensor pointer, and the output-extraction
//! protocol for numeric and string tensors.  The native calls themselves are
//! made by the embedding program; this crate holds and verifies every decision
//! around them.

pub mod element_type;
pub mod error;
pub mod extract;
pub mod tensor_handle;
pub mod type_mapping;
