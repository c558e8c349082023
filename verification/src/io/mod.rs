use vstd::prelude::*;

pub mod error;
pub mod read;
pub mod write;

verus! {

/// The result of an I/O operation.
pub type Result<T> = core::result::Result<T, error::Error>;

} // verus!
