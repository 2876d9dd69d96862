//! Party and account identifiers: 32 opaque bytes, compared byte for byte.

use vstd::prelude::*;

verus! {

/// An account address. Two addresses name the same account exactly when
/// their 32 bytes agree.
#[derive(Clone, Copy, Debug, PartialEq, Eq)]
pub struct Address {
    pub bytes: [u8; 32],
}

impl View for Address {
    type V = Seq<u8>;

    open spec fn view(&self) -> Seq<u8> {
        self.bytes@
    }
}

/// Thirty-two spaces.
pub open spec fn blank_bytes() -> Seq<u8> {
    Seq::new(32, |i: int| 0x20u8)
}

impl Address {
    /// Wraps 32 raw bytes.
    pub fn new(bytes: [u8; 32]) -> (r: Address)
        ensures
            r.bytes == bytes,
            r@ == bytes@,
    {
        Address { bytes }
    }

    /// The address of 32 spaces: what a stream of the native currency
    /// records as its token.
    pub fn blank() -> (r: Address)
        ensures
            r@ == blank_bytes(),
    {
        let r = Address { bytes: [0x20u8; 32] };
        assert(r.bytes@ =~= blank_bytes());
        r
    }

    /// Byte-wise comparison.
    pub fn same(&self, other: &Address) -> (r: bool)
        ensures
            r == (self@ == other@),
    {
        let mut i: usize = 0;
        while i < 32
            invariant
                i <= 32,
                forall|j: int| 0 <= j < i ==> self.bytes@[j] == other.bytes@[j],
            decreases 32 - i,
        {
            if self.bytes[i] != other.bytes[i] {
                return false;
            }
            i = i + 1;
        }
        assert(self.bytes@ =~= other.bytes@);
        true
    }
}

} // verus!
