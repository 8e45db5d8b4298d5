//! The operand of the instruction that installs a descriptor table.

use vstd::prelude::*;

verus! {

/// Where a descriptor table lies and how far it reaches.
#[derive(Debug, Clone, Copy, PartialEq, Eq, Structural)]
pub struct DescriptorTableRegister {
    /// Offset of the table's last byte: its size in bytes, less one.
    pub limit: u16,
    /// Address of the table's first byte.
    pub base: u64,
}

impl DescriptorTableRegister {
    /// The ten bytes the load instruction reads: the limit, then the base
    /// right behind it with no padding, both little-endian.
    pub open spec fn layout(self) -> Seq<u8> {
        seq![
            (self.limit % 0x100) as u8,
            (self.limit / 0x100) as u8,
            (self.base % 0x100) as u8,
            (self.base / 0x100 % 0x100) as u8,
            (self.base / 0x1_0000 % 0x100) as u8,
            (self.base / 0x100_0000 % 0x100) as u8,
            (self.base / 0x1_0000_0000 % 0x100) as u8,
            (self.base / 0x100_0000_0000 % 0x100) as u8,
            (self.base / 0x1_0000_0000_0000 % 0x100) as u8,
            (self.base / 0x100_0000_0000_0000) as u8,
        ]
    }

    /// The register as the load instruction reads it from memory.
    pub fn to_bytes(&self) -> (bytes: [u8; 10])
        ensures
            bytes@ == self.layout(),
    {
        let limit: u16 = self.limit;
        let base: u64 = self.base;
        let bytes: [u8; 10] = [
            #[verifier::truncate] (limit as u8),
            (limit >> 8) as u8,
            #[verifier::truncate] (base as u8),
            #[verifier::truncate] ((base >> 8) as u8),
            #[verifier::truncate] ((base >> 16) as u8),
            #[verifier::truncate] ((base >> 24) as u8),
            #[verifier::truncate] ((base >> 32) as u8),
            #[verifier::truncate] ((base >> 40) as u8),
            #[verifier::truncate] ((base >> 48) as u8),
            (base >> 56) as u8,
        ];
        proof {
            assert(limit as u8 == limit % 0x100 && limit >> 8 == limit / 0x100) by (bit_vector);
            assert(base as u8 == base % 0x100 && (base >> 8) as u8 == base / 0x100 % 0x100 && (base
                >> 16) as u8 == base / 0x1_0000 % 0x100 && (base >> 24) as u8 == base / 0x100_0000
                % 0x100 && (base >> 32) as u8 == base / 0x1_0000_0000 % 0x100 && (base >> 40) as u8
                == base / 0x100_0000_0000 % 0x100 && (base >> 48) as u8 == base
                / 0x1_0000_0000_0000 % 0x100 && base >> 56 == base / 0x100_0000_0000_0000)
                by (bit_vector);
            assert(bytes@ =~= self.layout());
        }
        bytes
    }
}

} // verus!
