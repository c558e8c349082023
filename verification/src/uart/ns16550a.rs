use vstd::prelude::*;

verus! {

/// Word length select, bit 0 of the line control register (LCR).
pub const LCR_WLS0: u8 = 0x01;

/// Word length select, bit 1 of the line control register (LCR).
pub const LCR_WLS1: u8 = 0x02;

/// FIFO enable, bit 0 of the FIFO control register (FCR).
pub const FCR_FIFO_ENABLE: u8 = 0x01;

/// Received-data-available interrupt enable, bit 0 of the interrupt enable register (IER).
pub const IER_ERBFI: u8 = 0x01;

/// The divisor latch value for the baud rate that the UART is set up with.
pub const BAUD_DIVISOR: u16 = 592;

/// The register values with which the UART is brought up. The registers are written in the
/// order `lcr`, `fcr`, `ier`; each write sets the listed fields and clears the others.
pub struct UartSetup {
    /// Line control: 8-bit words (both word length bits).
    pub lcr: u8,
    /// FIFO control: FIFOs enabled.
    pub fcr: u8,
    /// Interrupt enable: received-data interrupts.
    pub ier: u8,
    /// The low byte of the divisor latch.
    pub divisor_least: u16,
    /// The high byte of the divisor latch.
    pub divisor_most: u16,
}

/// Splits a divisor into its low and high byte.
pub fn split_divisor(divisor: u16) -> (r: (u16, u16))
    ensures
        r.0 == divisor % 256,
        r.1 == divisor / 256,
        r.0 + 256 * r.1 == divisor,
{
    let least = divisor & 0xff;
    let most = divisor >> 8;
    assert(least == divisor % 256 && most == divisor / 256) by (bit_vector)
        requires
            least == divisor & 0xff,
            most == divisor >> 8,
    ;
    (least, most)
}

/// The register values for bringing the UART up: 8-bit words, FIFOs on, an interrupt for
/// received data, and the divisor of `BAUD_DIVISOR` split into bytes.
pub fn setup() -> (r: UartSetup)
    ensures
        r.lcr == 0x03,
        r.fcr == 0x01,
        r.ier == 0x01,
        r.divisor_least == BAUD_DIVISOR % 256,
        r.divisor_most == BAUD_DIVISOR / 256,
{
    let lcr = LCR_WLS0 | LCR_WLS1;
    assert(LCR_WLS0 | LCR_WLS1 == 0x03u8) by (bit_vector);
    let (divisor_least, divisor_most) = split_divisor(BAUD_DIVISOR);
    UartSetup { lcr, fcr: FCR_FIFO_ENABLE, ier: IER_ERBFI, divisor_least, divisor_most }
}

} // verus!
