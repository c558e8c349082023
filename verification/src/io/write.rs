use vstd::prelude::*;

verus! {

/// A sink of bytes. The provided method writes nothing.
pub trait Write {
    /// Writes bytes of `buf` and says how many it wrote; by default none.
    fn write(&mut self, buf: &[u8]) -> (r: super::Result<usize>)
        where
            Self: Sized,
        default_ensures
            r == super::Result::<usize>::Ok(0),
            *final(self) == *old(self),
    {
        Ok(0)
    }
}

} // verus!
