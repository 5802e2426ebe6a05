use vstd::prelude::*;

verus! {

/// Number of bytes in an account address.
pub const ADDRESS_LEN: usize = 32;

/// A 32-byte account identity, as used for wallets, token accounts and mints.
#[derive(Clone, Copy, Debug)]
pub struct Address {
    pub bytes: [u8; 32],
}

impl Address {
    /// True when every byte is zero: the value held by an unused operator slot.
    pub open spec fn is_cleared(self) -> bool {
        forall|i: int| 0 <= i < 32 ==> #[trigger] self.bytes@[i] == 0u8
    }

    /// Whether every byte is zero.
    pub fn is_zero(&self) -> (r: bool)
        ensures
            r == self.is_cleared(),
    {
        let mut i: usize = 0;
        while i < ADDRESS_LEN
            invariant
                0 <= i <= 32,
                forall|k: int| 0 <= k < i ==> #[trigger] self.bytes@[k] == 0u8,
            decreases 32 - i,
        {
            if self.bytes[i] != 0 {
                return false;
            }
            i = i + 1;
        }
        true
    }

    /// Builds an address from its bytes.
    pub fn new(bytes: [u8; 32]) -> (r: Address)
        ensures
            r.bytes == bytes,
    {
        Address { bytes }
    }

    /// The all-zero address.
    pub fn cleared() -> (r: Address)
        ensures
            r.is_cleared(),
    {
        let bytes: [u8; 32] = [0u8; 32];
        let r = Address { bytes };
        assert(r.bytes@ =~= Seq::new(32, |i: int| 0u8));
        r
    }
}

impl Default for Address {
    fn default() -> (r: Address)
        ensures
            r.is_cleared(),
    {
        Address::cleared()
    }
}

impl PartialEq for Address {
    fn eq(&self, other: &Address) -> (r: bool) {
        let mut i: usize = 0;
        while i < ADDRESS_LEN
            invariant
                0 <= i <= 32,
                forall|k: int| 0 <= k < i ==> self.bytes@[k] == other.bytes@[k],
            decreases 32 - i,
        {
            if self.bytes[i] != other.bytes[i] {
                return false;
            }
            i = i + 1;
        }
        assert(self.bytes =~= other.bytes);
        true
    }
}

impl vstd::std_specs::cmp::PartialEqSpecImpl for Address {
    open spec fn obeys_eq_spec() -> bool {
        true
    }

    open spec fn eq_spec(&self, other: &Address) -> bool {
        *self == *other
    }
}

impl Eq for Address {
}

} // verus!
