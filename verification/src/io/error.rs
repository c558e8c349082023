use vstd::prelude::*;

verus! {

/// The error of an I/O operation. The provided methods of `Read` and `Write` never give one.
#[derive(Clone, Copy, Debug, PartialEq, Eq, Structural)]
pub struct Error;

} // verus!
