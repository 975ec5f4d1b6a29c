//! GPU registers and their fields.
use vstd::prelude::*;

verus! {

/// `BOOT_0` (offset 0x00000000): basic revision information about the GPU.
#[derive(Debug, Clone, Copy, PartialEq, Eq, Structural)]
pub struct Boot0(pub u32);

impl Boot0 {
    /// Offset of the register in BAR0.
    pub const OFFSET: usize = 0x00000000;

    /// Minor revision of the chip (bits 3:0).
    pub fn minor_rev(&self) -> (r: u8)
        ensures
            r == self.0 % 16,
    {
        let v = self.0;
        assert((v & 0xf) as u8 == v % 16) by (bit_vector);
        (v & 0xf) as u8
    }

    /// Major revision of the chip (bits 7:4).
    pub fn major_rev(&self) -> (r: u8)
        ensures
            r == (self.0 / 16) % 16,
    {
        let v = self.0;
        assert(((v >> 4) & 0xf) as u8 == (v / 16) % 16) by (bit_vector);
        ((v >> 4) & 0xf) as u8
    }

    /// Chipset model (bits 28:20).
    pub fn chipset(&self) -> (r: u32)
        ensures
            r == (self.0 / 0x100000) % 0x200,
    {
        let v = self.0;
        assert((v >> 20) & 0x1ff == (v / 0x100000) % 0x200) by (bit_vector);
        (v >> 20) & 0x1ff
    }
}

/// ROM shadow control: bit 0 set hides the VBIOS ROM from BAR0.
pub struct RomShadow {}

impl RomShadow {
    /// The value that enables ROM shadowing: the register's value with bit 0 cleared.
    pub fn enable_value(val: u32) -> (r: u32)
        ensures
            r == val - val % 2,
    {
        assert(val & !1u32 == val - val % 2) by (bit_vector);
        val & !0x00000001u32
    }
}

} // verus!
