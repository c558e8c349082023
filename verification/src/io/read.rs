use vstd::prelude::*;

verus! {

/// A source of bytes. The provided methods read nothing.
pub trait Read {
    /// Reads bytes into `buf` and says how many it read; by default none.
    fn read(&mut self, buf: &mut [u8]) -> (r: super::Result<usize>)
        where
            Self: Sized,
        default_ensures
            r == super::Result::<usize>::Ok(0),
            final(buf)@ == old(buf)@,
            *final(self) == *old(self),
    {
        Ok(0)
    }

    /// Reads one byte; by default there is none.
    fn one(&mut self) -> (r: Option<u8>)
        where
            Self: Sized,
        default_ensures
            r == None::<u8>,
            *final(self) == *old(self),
    {
        None
    }
}

} // verus!
