use vstd::prelude::*;

verus! {

/// The address-translation modes of the RV64 `satp` register.
#[derive(Clone, Copy, Debug, PartialEq, Eq, Structural)]
pub enum SatpMode {
    /// No translation or protection.
    Bare,
    /// Page-based 39-bit virtual addressing.
    Sv39,
    /// Page-based 48-bit virtual addressing.
    Sv48,
}

impl SatpMode {
    /// The encoding of the mode in the `MODE` field of `satp`.
    pub open spec fn spec_code(self) -> u64 {
        match self {
            SatpMode::Bare => 0,
            SatpMode::Sv39 => 8,
            SatpMode::Sv48 => 9,
        }
    }

    /// The encoding of the mode in the `MODE` field of `satp`.
    pub fn code(self) -> (r: u64)
        ensures
            r == self.spec_code(),
    {
        match self {
            SatpMode::Bare => 0,
            SatpMode::Sv39 => 8,
            SatpMode::Sv48 => 9,
        }
    }

    /// The `satp` value that selects this mode with ASID 0 and root page number 0: the
    /// mode code in bits 63 to 60, every other bit clear.
    pub fn satp_bits(self) -> (r: u64)
        ensures
            r == self.spec_code() * 0x1000_0000_0000_0000,
    {
        let code = self.code();
        assert(code << 60 == code * 0x1000_0000_0000_0000) by (bit_vector)
            requires
                code <= 9,
        ;
        code << 60
    }
}

/// The `satp` value that turns address translation off: bare mode, which is 0.
pub fn no_vm_satp() -> (r: u64)
    ensures
        r == 0,
{
    SatpMode::Bare.satp_bits()
}

} // verus!
