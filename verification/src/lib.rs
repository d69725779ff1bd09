//! A safe surface over the platform's dynamic-library loader.
//!
//! [`RtldValue`] models the flags handed to the loader and compiles them to
//! the native bitmask. [`Library`] owns one native handle, memoizes symbol
//! addresses, and decides when the loader has to be asked and when the
//! handle has to be released.

pub mod dynlib;
mod native;
pub mod rtld;

pub use crate::dynlib::{
    LibraryView, Library, LoadError, Lookup, OpenRequest, SymRequest, SymStep,
};
pub use crate::rtld::{RtldFlags, RtldMain, RtldOr, RtldValue};
