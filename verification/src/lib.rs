//! A toolkit for building a C-callable foreign interface on top of a native
//! library: conversions between owned values and nullable boundary pointers,
//! a per-thread last-error slot, and small helpers (boolean/byte encoding,
//! bounds-checked indexing, nested-result flattening) for exposing
//! functionality across a language boundary.

pub mod error;
pub mod util;
