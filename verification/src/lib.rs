//! Concatenation of fixed-size arrays into one flat array.
//!
//! The heart of the crate is [`internals::concat_arrays`], which lays the
//! elements of an ordered list of source arrays back to back, in argument
//! order, into one output array. Every element is moved exactly once, so the
//! element type need not be duplicable. The surrounding items are the
//! length-resolution helpers: [`internals::Usize`] ties an array's length to a
//! number through type-level unification, [`internals::ArrayLength`] exposes
//! the length of an array type as a compile-time capability, and
//! [`internals::GetTypeParam`] extracts the element type of an array type.

pub mod internals;
