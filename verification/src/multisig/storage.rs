use crate::multisig::keys::PublicKey;
use vstd::prelude::*;

verus! {

/// Maximum allowed registered signers (prevents unbounded Vec in instance storage)
pub const MAX_SIGNERS: u32 = 20;

#[derive(Clone, Copy, Debug)]
pub enum DataKey {
    Signers,
    Threshold,
}

/// The mathematical value of the multisig's storage.
#[verifier::ext_equal]
pub struct MultisigView {
    pub signers: Option<Seq<PublicKey>>,
    pub threshold: Option<u32>,
}

impl MultisigView {
    /// Storage with nothing written.
    pub open spec fn empty() -> MultisigView {
        MultisigView { signers: None, threshold: None }
    }

    /// The signers as read: none where no list was written.
    pub open spec fn signers_value(self) -> Seq<PublicKey> {
        match self.signers {
            Some(s) => s,
            None => Seq::empty(),
        }
    }

    /// The threshold as read: 1 where none was written.
    pub open spec fn threshold_value(self) -> u32 {
        match self.threshold {
            Some(t) => t,
            None => 1,
        }
    }

    /// Whether a value is stored under the key.
    pub open spec fn has(self, key: DataKey) -> bool {
        match key {
            DataKey::Signers => self.signers is Some,
            DataKey::Threshold => self.threshold is Some,
        }
    }
}

/// The multisig contract's storage: its signer keys and its threshold.
pub struct MultisigStorage {
    signers: Option<Vec<PublicKey>>,
    threshold: Option<u32>,
}

impl View for MultisigStorage {
    type V = MultisigView;

    closed spec fn view(&self) -> MultisigView {
        MultisigView {
            signers: match self.signers {
                Some(v) => Some(v@),
                None => None,
            },
            threshold: self.threshold,
        }
    }
}

/// A copy of a list of keys.
pub fn copy_keys(v: &Vec<PublicKey>) -> (r: Vec<PublicKey>)
    ensures
        r@ == v@,
{
    let mut r: Vec<PublicKey> = Vec::new();
    let mut i: usize = 0;
    while i < v.len()
        invariant
            0 <= i <= v.len(),
            r@ == v@.subrange(0, i as int),
        decreases v.len() - i,
    {
        r.push(v[i]);
        i = i + 1;
        assert(r@ =~= v@.subrange(0, i as int));
    }
    assert(v@.subrange(0, v.len() as int) =~= v@);
    r
}

impl MultisigStorage {
    /// Storage with nothing written.
    pub fn new() -> (st: MultisigStorage)
        ensures
            st@ == MultisigView::empty(),
    {
        MultisigStorage { signers: None, threshold: None }
    }

    /// Whether a value is stored under the key.
    pub fn has(&self, key: &DataKey) -> (r: bool)
        ensures
            r == self@.has(*key),
    {
        match key {
            DataKey::Signers => self.signers.is_some(),
            DataKey::Threshold => self.threshold.is_some(),
        }
    }
}

pub fn read_signers(st: &MultisigStorage) -> (signers: Vec<PublicKey>)
    ensures
        signers@ == st@.signers_value(),
{
    match &st.signers {
        Some(v) => copy_keys(v),
        None => Vec::new(),
    }
}

pub fn write_signers(st: &mut MultisigStorage, signers: &Vec<PublicKey>)
    ensures
        final(st)@ == (MultisigView { signers: Some(signers@), ..old(st)@ }),
{
    st.signers = Some(copy_keys(signers));
}

pub fn read_threshold(st: &MultisigStorage) -> (threshold: u32)
    ensures
        threshold == st@.threshold_value(),
{
    match st.threshold {
        Some(t) => t,
        None => 1u32,
    }
}

pub fn write_threshold(st: &mut MultisigStorage, threshold: u32)
    ensures
        final(st)@ == (MultisigView { threshold: Some(threshold), ..old(st)@ }),
{
    st.threshold = Some(threshold);
}

} // verus!
