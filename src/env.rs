//! Identities and the per-call context that the host supplies.

use vstd::prelude::*;

verus! {

/// Whether two byte arrays of the same width hold the same bytes.
pub fn bytes_match<const N: usize>(a: &[u8; N], b: &[u8; N]) -> (r: bool)
    ensures
        r == (*a == *b),
{
    let mut i: usize = 0;
    while i < N
        invariant
            0 <= i <= N,
            forall|j: int| 0 <= j < i ==> a[j] == b[j],
        decreases N - i,
    {
        if a[i] != b[i] {
            return false;
        }
        i += 1;
    }
    assert(*a =~= *b);
    true
}

/// An account address: an opaque identity of fixed width, compared by
/// equality only.
#[derive(Clone, Copy, Debug)]
pub struct Address {
    pub bytes: [u8; 20],
}

impl Address {
    pub fn new(bytes: [u8; 20]) -> (r: Address)
        ensures
            r.bytes == bytes,
    {
        Address { bytes }
    }
}

impl PartialEq for Address {
    fn eq(&self, other: &Address) -> (r: bool) {
        bytes_match(&self.bytes, &other.bytes)
    }
}

impl vstd::std_specs::cmp::PartialEqSpecImpl for Address {
    open spec fn obeys_eq_spec() -> bool {
        true
    }

    open spec fn eq_spec(&self, other: &Address) -> bool {
        self.bytes == other.bytes
    }
}

impl From<[u8; 20]> for Address {
    fn from(bytes: [u8; 20]) -> (r: Address) {
        Address { bytes }
    }
}

impl vstd::std_specs::convert::FromSpecImpl<[u8; 20]> for Address {
    open spec fn obeys_from_spec() -> bool {
        true
    }

    open spec fn from_spec(bytes: [u8; 20]) -> Address {
        Address { bytes }
    }
}

impl Default for Address {
    /// The all-zero address.
    fn default() -> (r: Address)
        ensures
            forall|i: int| 0 <= i < 20 ==> r.bytes[i] == 0,
    {
        Address { bytes: [0u8; 20] }
    }
}

impl View for Address {
    type V = Address;

    open spec fn view(&self) -> Address {
        *self
    }
}

/// What the host supplies with every call: who is calling, and the current
/// block height.
#[derive(Clone, Copy, Debug)]
pub struct CallContext {
    pub caller: Address,
    pub block_number: u64,
}

impl CallContext {
    pub fn new(caller: Address, block_number: u64) -> (r: CallContext)
        ensures
            r.caller == caller,
            r.block_number == block_number,
    {
        CallContext { caller, block_number }
    }
}

} // verus!
