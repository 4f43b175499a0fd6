use vstd::prelude::*;

verus! {

/// Which kind of ledger entity an address names.
#[derive(Clone, Copy, Debug, PartialEq, Eq, Structural)]
pub enum AddressKind {
    /// A classic account, named by its Ed25519 public key (strkey `G...`).
    Account,
    /// A contract, named by its 32-byte contract id (strkey `C...`).
    Contract,
}

/// A ledger address: its kind and its 32-byte payload.
#[derive(Clone, Copy, Debug, Eq)]
pub struct Address {
    pub kind: AddressKind,
    pub key: [u8; 32],
}

/// Compares two 32-byte strings byte by byte.
pub fn bytes32_eq(a: &[u8; 32], b: &[u8; 32]) -> (r: bool)
    ensures
        r == (*a == *b),
{
    let mut i: usize = 0;
    while i < 32
        invariant
            0 <= i <= 32,
            forall|j: int| 0 <= j < i ==> a@[j] == b@[j],
        decreases 32 - i,
    {
        if a[i] != b[i] {
            assert(a@[i as int] != b@[i as int]);
            return false;
        }
        i = i + 1;
    }
    proof {
        assert(a@ =~= b@);
        vstd::array::axiom_array_ext_equal(*a, *b);
    }
    true
}

impl Address {
    /// An account address with the given Ed25519 public key.
    pub fn account(key: [u8; 32]) -> (r: Address)
        ensures
            r.kind == AddressKind::Account,
            r.key == key,
    {
        Address { kind: AddressKind::Account, key }
    }

    /// A contract address with the given contract id.
    pub fn contract(key: [u8; 32]) -> (r: Address)
        ensures
            r.kind == AddressKind::Contract,
            r.key == key,
    {
        Address { kind: AddressKind::Contract, key }
    }
}

impl PartialEq for Address {
    fn eq(&self, other: &Self) -> (r: bool) {
        self.kind == other.kind && bytes32_eq(&self.key, &other.key)
    }
}

impl vstd::std_specs::cmp::PartialEqSpecImpl for Address {
    open spec fn obeys_eq_spec() -> bool {
        true
    }

    open spec fn eq_spec(&self, other: &Self) -> bool {
        *self == *other
    }
}

} // verus!
