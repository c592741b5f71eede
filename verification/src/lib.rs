//! A typed-accessor layer over a dynamically-cased tree value.
//!
//! The tree value ([`Json`]) is a tagged union of null, boolean, number,
//! text, array and object cases.  This crate lets callers extract, inspect
//! and mutate payloads of a statically chosen type from such a tree, with a
//! uniform `Option` return signalling "absent or wrong case" rather than a
//! panic, together with keyed object lookup and array iteration that
//! degrades to an empty sequence on a non-array node.

pub mod value;
pub mod extract;
pub mod container;
pub mod iter;

pub use value::Json;
pub use extract::FromT;
pub use container::TContainer;
pub use iter::TIterator;
pub use iter::TMoveIterator;
pub use iter::TMutIterator;
