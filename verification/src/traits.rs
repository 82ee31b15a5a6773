//! Traits for reading and writing the bytes of memory-like objects.

pub mod auto_cast;

pub use self::auto_cast::{AutoCast, FallibleAutoCast, Grab};
