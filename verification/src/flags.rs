//! Access modes of open file descriptors.

use vstd::prelude::*;

verus! {

/// How a descriptor was opened.
#[derive(Clone, Copy, Debug, PartialEq, Eq, Structural)]
pub enum FDFlags {
    ReadOnly,
    WriteOnly,
    ReadWrite,
}

/// The access mode that a flags word encodes in its two lowest bits. The
/// reserved pattern `0b11` reads as `ReadOnly`.
pub open spec fn access_mode(flags: u64) -> FDFlags {
    if flags % 4 == 1 {
        FDFlags::WriteOnly
    } else if flags % 4 == 2 {
        FDFlags::ReadWrite
    } else {
        FDFlags::ReadOnly
    }
}

impl FDFlags {
    /// Decodes the access mode of a flags word.
    pub fn from(flags: u64) -> (mode: Self)
        ensures
            mode == access_mode(flags),
    {
        let low: u64 = flags & 0b11;
        assert(low == flags % 4) by (bit_vector)
            requires
                low == flags & 0b11,
        ;
        if low == 1 {
            FDFlags::WriteOnly
        } else if low == 2 {
            FDFlags::ReadWrite
        } else {
            FDFlags::ReadOnly
        }
    }
}

/// Two flags words that agree on their two lowest bits decode to the same
/// access mode, whatever their higher bits hold.
pub proof fn access_mode_ignores_high_bits(a: u64, b: u64)
    requires
        a & 0b11 == b & 0b11,
    ensures
        access_mode(a) == access_mode(b),
{
    assert(a & 0b11 == a % 4) by (bit_vector);
    assert(b & 0b11 == b % 4) by (bit_vector);
}

/// The four patterns of the two lowest bits and the mode each one stands for.
pub proof fn access_mode_of_low_bits(flags: u64)
    ensures
        flags & 0b11 == 0 ==> access_mode(flags) == FDFlags::ReadOnly,
        flags & 0b11 == 1 ==> access_mode(flags) == FDFlags::WriteOnly,
        flags & 0b11 == 2 ==> access_mode(flags) == FDFlags::ReadWrite,
        flags & 0b11 == 3 ==> access_mode(flags) == FDFlags::ReadOnly,
        0 <= flags & 0b11 <= 3,
{
    assert(flags & 0b11 == flags % 4) by (bit_vector);
}

} // verus!
