//! Bound-carrying integers, arrays indexed only by them, and a growable
//! buffer that keeps a trailing overread margin.

pub mod array;
pub mod bounded;
pub mod const_assertions;
pub mod overread;
