//! Ranged integer types.
//!
//! A `ranged` attribute turns a single-field tuple struct into a wrapper
//! whose value is confined to a closed numeric interval, with a checked
//! constructor, an unchecked constructor and an accessor. This crate holds
//! the part of that facility that is plain logic: deciding, from the shape
//! of the annotated item and of the attribute argument, what the expansion
//! contains or which error stops the build (`expand`), and the behaviour of
//! the wrapper the expansion produces (`value`).

pub mod expand;
pub mod value;
