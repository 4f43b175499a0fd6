//! The multisig contract's entry points, as transitions of its storage.
//!
//! Every management call must be authorized by the multisig account itself;
//! the host asks for that before the call runs. A failed call leaves the
//! storage as it was.
use crate::multisig::error::MultisigError;
use crate::multisig::keys::{
    distinct, key_eq, key_less, key_lt, lemma_ascending_distinct, strictly_ascending, PublicKey,
};
use crate::multisig::storage::{
    read_signers, read_threshold, write_signers, write_threshold, DataKey, MultisigStorage,
    MultisigView, MAX_SIGNERS,
};
use vstd::prelude::*;

verus! {

/// A single Ed25519 signature from one of the registered signers.
#[derive(Clone, Copy, Debug)]
pub struct AccountSignature {
    pub public_key: PublicKey,
    pub signature: [u8; 64],
}

/// The outcome of checking a list of signatures against the signer set.
///
/// The host verifies the first `verify_count` signatures over the payload,
/// in order, and a signature that does not verify fails the check at its
/// place; if all of them verify, `result` is the check's outcome.
#[derive(Clone, Copy, Debug)]
pub struct AuthCheck {
    pub verify_count: usize,
    pub result: Result<(), MultisigError>,
}

/// The multisig contract.
pub struct MultisigContract;

/// The error of a proposed signer set and threshold, if any.
pub open spec fn signer_set_error(signers: Seq<PublicKey>, threshold: u32) -> Option<
    MultisigError,
> {
    if signers.len() == 0 || threshold == 0 || threshold > signers.len() {
        Some(MultisigError::InvalidThreshold)
    } else if signers.len() > 20 {
        Some(MultisigError::TooManySigners)
    } else if !strictly_ascending(signers) {
        Some(MultisigError::SignerAlreadyExists)
    } else {
        None
    }
}

/// The error that the signature at position `i` raises, if any: its key must
/// come strictly after the previous signature's key, and must be a signer's.
pub open spec fn signature_error(
    signers: Seq<PublicKey>,
    signatures: Seq<AccountSignature>,
    i: int,
) -> Option<MultisigError> {
    if i > 0 && !key_lt(signatures[i - 1].public_key, signatures[i].public_key) {
        Some(MultisigError::InvalidSignatureOrder)
    } else if !signers.contains(signatures[i].public_key) {
        Some(MultisigError::UnknownSigner)
    } else {
        None
    }
}

/// Whether a key differs from `key`.
pub open spec fn other_than(key: PublicKey) -> spec_fn(PublicKey) -> bool {
    |k: PublicKey| k != key
}

/// The signer list without a key.
pub open spec fn without_key(keys: Seq<PublicKey>, key: PublicKey) -> Seq<PublicKey> {
    keys.filter(other_than(key))
}

/// A usable signer configuration: a threshold between 1 and the number of
/// signers, at most `MAX_SIGNERS` signers, none of them twice.
pub open spec fn signer_config_valid(v: MultisigView) -> bool {
    &&& v.signers is Some
    &&& v.threshold is Some
    &&& 1 <= v.threshold_value() <= v.signers_value().len() <= 20
    &&& distinct(v.signers_value())
}

/// Whether a key occurs in a list.
fn contains_key(keys: &Vec<PublicKey>, key: &PublicKey) -> (r: bool)
    ensures
        r == keys@.contains(*key),
{
    let mut i: usize = 0;
    while i < keys.len()
        invariant
            0 <= i <= keys@.len(),
            forall|j: int| 0 <= j < i ==> keys@[j] != *key,
        decreases keys@.len() - i,
    {
        if key_eq(&keys[i], key) {
            assert(keys@[i as int] == *key);
            return true;
        }
        i = i + 1;
    }
    false
}

proof fn lemma_without_absent(keys: Seq<PublicKey>, key: PublicKey)
    requires
        !keys.contains(key),
    ensures
        without_key(keys, key) == keys,
    decreases keys.len(),
{
    reveal(Seq::filter);
    if keys.len() > 0 {
        assert(!keys.drop_last().contains(key)) by {
            if keys.drop_last().contains(key) {
                let i = choose|i: int| 0 <= i < keys.drop_last().len() && keys.drop_last()[i] == key;
                assert(keys[i] == key);
            }
        }
        lemma_without_absent(keys.drop_last(), key);
        assert(keys.last() != key) by {
            if keys.last() == key {
                assert(keys[keys.len() - 1] == key);
            }
        }
        assert(keys.drop_last().push(keys.last()) =~= keys);
    }
}

proof fn lemma_without_present(keys: Seq<PublicKey>, key: PublicKey)
    requires
        distinct(keys),
        keys.contains(key),
    ensures
        without_key(keys, key).len() == keys.len() - 1,
        distinct(without_key(keys, key)),
    decreases keys.len(),
{
    reveal(Seq::filter);
    let rest = keys.drop_last();
    let last = keys.last();
    assert(distinct(rest));
    if last == key {
        assert(!rest.contains(key)) by {
            if rest.contains(key) {
                let i = choose|i: int| 0 <= i < rest.len() && rest[i] == key;
                assert(keys[i] == keys[keys.len() - 1]);
            }
        }
        lemma_without_absent(rest, key);
    } else {
        assert(rest.contains(key)) by {
            let i = choose|i: int| 0 <= i < keys.len() && keys[i] == key;
            assert(i != keys.len() - 1);
            assert(rest[i] == key);
        }
        lemma_without_present(rest, key);
        let filtered = without_key(rest, key);
        assert(!filtered.contains(last)) by {
            if filtered.contains(last) {
                rest.lemma_filter_contains_rev(other_than(key), last);
                let i = choose|i: int| 0 <= i < rest.len() && rest[i] == last;
                assert(keys[i] == keys[keys.len() - 1]);
            }
        }
        assert(without_key(keys, key) == filtered.push(last));
        assert forall|i: int, j: int|
            0 <= i < j < filtered.push(last).len() implies #[trigger] filtered.push(last)[i]
            != #[trigger] filtered.push(last)[j] by {
            if j == filtered.len() {
                assert(filtered.contains(filtered[i]));
            }
        }
    }
}

/// A signature list that the check accepts holds distinct keys, each a
/// registered signer's, at least as many as the threshold.
pub proof fn lemma_accepted_signatures(
    signers: Seq<PublicKey>,
    threshold: u32,
    signatures: Seq<AccountSignature>,
)
    requires
        forall|i: int| 0 <= i < signatures.len() ==> signature_error(signers, signatures, i) is None,
        signatures.len() >= threshold,
    ensures
        distinct(signatures.map_values(|s: AccountSignature| s.public_key)),
        forall|i: int|
            0 <= i < signatures.len() ==> signers.contains(#[trigger] signatures[i].public_key),
        signatures.map_values(|s: AccountSignature| s.public_key).len() >= threshold,
{
    let keys = signatures.map_values(|s: AccountSignature| s.public_key);
    assert forall|i: int| 1 <= i < keys.len() implies key_lt(#[trigger] keys[i - 1], keys[i]) by {
        assert(signature_error(signers, signatures, i) is None);
    }
    lemma_ascending_distinct(keys);
    assert forall|i: int| 0 <= i < signatures.len() implies signers.contains(
        #[trigger] signatures[i].public_key,
    ) by {
        assert(signature_error(signers, signatures, i) is None);
    }
}

/// A removed signer is no longer a signer, and the others stay.
pub proof fn lemma_removed_signer_is_gone(keys: Seq<PublicKey>, key: PublicKey, other: PublicKey)
    ensures
        !without_key(keys, key).contains(key),
        other != key ==> (without_key(keys, key).contains(other) <==> keys.contains(other)),
{
    if without_key(keys, key).contains(key) {
        let i = choose|i: int|
            0 <= i < without_key(keys, key).len() && without_key(keys, key)[i] == key;
        keys.lemma_filter_pred(other_than(key), i);
    }
    if other != key && keys.contains(other) {
        let i = choose|i: int| 0 <= i < keys.len() && keys[i] == other;
        keys.lemma_filter_contains(other_than(key), i);
    }
    if other != key && without_key(keys, key).contains(other) {
        keys.lemma_filter_contains_rev(other_than(key), other);
    }
}

/// Removing a signer that was just added, and was not a signer before,
/// gives back the signer list as it was.
pub proof fn lemma_remove_undoes_add(keys: Seq<PublicKey>, key: PublicKey)
    requires
        !keys.contains(key),
    ensures
        without_key(keys.push(key), key) == keys,
{
    reveal(Seq::filter);
    lemma_without_absent(keys, key);
    assert(keys.push(key).drop_last() =~= keys);
}

/// Removing a signer keeps the threshold within the signer count: where the
/// signers are distinct and the threshold is at least 1 and below their
/// number (as `remove_signer` checks before it removes), the list without
/// the key is one shorter, still distinct, and still holds the threshold.
pub proof fn lemma_threshold_fits_after_removal(keys: Seq<PublicKey>, key: PublicKey, threshold: u32)
    requires
        distinct(keys),
        keys.contains(key),
        1 <= threshold < keys.len(),
    ensures
        without_key(keys, key).len() == keys.len() - 1,
        distinct(without_key(keys, key)),
        1 <= threshold <= without_key(keys, key).len(),
{
    lemma_without_present(keys, key);
}

impl MultisigContract {
    /// Initialize the multisig with an ordered list of Ed25519 public keys and a threshold.
    ///
    /// `signers` must be sorted in strictly ascending order and contain no duplicates.
    /// `threshold` must be in [1, signers.len()].
    pub fn __constructor(st: &mut MultisigStorage, signers: &Vec<PublicKey>, threshold: u32) -> (r:
        Result<(), MultisigError>)
        ensures
            old(st)@.signers is Some ==> r == Err::<(), MultisigError>(
                MultisigError::AlreadyInitialized,
            ),
            old(st)@.signers is None ==> r == crate::multisig::contract::check(
                signer_set_error(signers@, threshold),
            ),
            r is Err ==> final(st)@ == old(st)@,
            r is Ok ==> final(st)@ == (MultisigView {
                signers: Some(signers@),
                threshold: Some(threshold),
            }),
            r is Ok ==> signer_config_valid(final(st)@),
    {
        if st.has(&DataKey::Signers) {
            return Err(MultisigError::AlreadyInitialized);
        }
        Self::_validate_and_store_signers(st, signers, threshold)
    }

    /// Add a new signer public key. The multisig itself must authorize this call.
    pub fn add_signer(st: &mut MultisigStorage, new_key: PublicKey) -> (r: Result<(), MultisigError>)
        ensures
            r == (if old(st)@.signers_value().len() >= 20 {
                Err::<(), MultisigError>(MultisigError::TooManySigners)
            } else if old(st)@.signers_value().contains(new_key) {
                Err(MultisigError::SignerAlreadyExists)
            } else {
                Ok(())
            }),
            r is Err ==> final(st)@ == old(st)@,
            r is Ok ==> final(st)@ == (MultisigView {
                signers: Some(old(st)@.signers_value().push(new_key)),
                ..old(st)@
            }),
            signer_config_valid(old(st)@) ==> signer_config_valid(final(st)@),
    {
        let mut signers = read_signers(st);
        if signers.len() >= MAX_SIGNERS as usize {
            return Err(MultisigError::TooManySigners);
        }
        // Reject duplicates
        if contains_key(&signers, &new_key) {
            return Err(MultisigError::SignerAlreadyExists);
        }
        signers.push(new_key);
        write_signers(st, &signers);
        proof {
            let old_keys = old(st)@.signers_value();
            assert forall|i: int, j: int|
                distinct(old_keys) && 0 <= i < j < signers@.len() implies #[trigger] signers@[i]
                != #[trigger] signers@[j] by {
                if j == old_keys.len() {
                    assert(old_keys.contains(signers@[i]));
                }
            }
        }
        Ok(())
    }

    /// Remove a signer public key. The multisig itself must authorize this call.
    pub fn remove_signer(st: &mut MultisigStorage, key: PublicKey) -> (r: Result<(), MultisigError>)
        ensures
            r == (if old(st)@.signers_value().len() <= old(st)@.threshold_value() {
                Err::<(), MultisigError>(MultisigError::ThresholdExceedsSigners)
            } else if !old(st)@.signers_value().contains(key) {
                Err(MultisigError::SignerNotFound)
            } else {
                Ok(())
            }),
            r is Err ==> final(st)@ == old(st)@,
            r is Ok ==> final(st)@ == (MultisigView {
                signers: Some(without_key(old(st)@.signers_value(), key)),
                ..old(st)@
            }),
            r is Ok && distinct(old(st)@.signers_value()) ==> final(st)@.signers_value().len()
                == old(st)@.signers_value().len() - 1 && distinct(final(st)@.signers_value()),
            signer_config_valid(old(st)@) ==> signer_config_valid(final(st)@),
    {
        let signers = read_signers(st);
        let threshold = read_threshold(st);
        if signers.len() <= threshold as usize {
            return Err(MultisigError::ThresholdExceedsSigners);
        }
        let mut new_signers: Vec<PublicKey> = Vec::new();
        let mut found = false;
        let mut i: usize = 0;
        while i < signers.len()
            invariant
                0 <= i <= signers@.len(),
                new_signers@ == without_key(signers@.take(i as int), key),
                found == signers@.take(i as int).contains(key),
            decreases signers@.len() - i,
        {
            let s = signers[i];
            proof {
                reveal(Seq::filter);
                assert(signers@.take(i + 1).drop_last() =~= signers@.take(i as int));
                assert(signers@.take(i + 1).last() == s);
            }
            if key_eq(&s, &key) {
                found = true;
                assert(signers@.take(i + 1)[i as int] == key);
            } else {
                new_signers.push(s);
                proof {
                    if signers@.take(i + 1).contains(key) {
                        let k = choose|k: int|
                            0 <= k < i + 1 && #[trigger] signers@.take(i + 1)[k] == key;
                        assert(signers@.take(i as int)[k] == key);
                    }
                }
            }
            i = i + 1;
        }
        assert(signers@.take(signers@.len() as int) =~= signers@);
        if !found {
            return Err(MultisigError::SignerNotFound);
        }
        write_signers(st, &new_signers);
        proof {
            if distinct(signers@) {
                lemma_without_present(signers@, key);
            }
        }
        Ok(())
    }

    /// Update the approval threshold. The multisig itself must authorize this call.
    pub fn set_threshold(st: &mut MultisigStorage, threshold: u32) -> (r: Result<(), MultisigError>)
        ensures
            r == (if threshold == 0 || threshold > old(st)@.signers_value().len() {
                Err::<(), MultisigError>(MultisigError::InvalidThreshold)
            } else {
                Ok(())
            }),
            r is Err ==> final(st)@ == old(st)@,
            r is Ok ==> final(st)@ == (MultisigView { threshold: Some(threshold), ..old(st)@ }),
            signer_config_valid(old(st)@) ==> signer_config_valid(final(st)@),
    {
        let signers = read_signers(st);
        if threshold == 0 || threshold as usize > signers.len() {
            return Err(MultisigError::InvalidThreshold);
        }
        write_threshold(st, threshold);
        Ok(())
    }

    /// Returns the current list of registered signer public keys.
    pub fn get_signers(st: &MultisigStorage) -> (signers: Vec<PublicKey>)
        ensures
            signers@ == st@.signers_value(),
    {
        read_signers(st)
    }

    /// Returns the current threshold.
    pub fn get_threshold(st: &MultisigStorage) -> (threshold: u32)
        ensures
            threshold == st@.threshold_value(),
    {
        read_threshold(st)
    }

    // --- helpers ---

    fn _validate_and_store_signers(
        st: &mut MultisigStorage,
        signers: &Vec<PublicKey>,
        threshold: u32,
    ) -> (r: Result<(), MultisigError>)
        ensures
            r == check(signer_set_error(signers@, threshold)),
            r is Err ==> final(st)@ == old(st)@,
            r is Ok ==> final(st)@ == (MultisigView {
                signers: Some(signers@),
                threshold: Some(threshold),
            }),
            r is Ok ==> signer_config_valid(final(st)@),
    {
        let n = signers.len();
        if n == 0 || threshold == 0 || threshold as usize > n {
            return Err(MultisigError::InvalidThreshold);
        }
        if n > MAX_SIGNERS as usize {
            return Err(MultisigError::TooManySigners);
        }
        // Enforce strictly ascending order: this also rejects duplicates
        let mut i: usize = 1;
        while i < n
            invariant
                1 <= i <= n,
                n == signers@.len(),
                0 < threshold <= n <= 20,
                forall|k: int| 1 <= k < i ==> key_lt(#[trigger] signers@[k - 1], signers@[k]),
            decreases n - i,
        {
            if !key_less(&signers[i - 1], &signers[i]) {
                proof {
                    let k = i as int;
                    assert(!key_lt(signers@[k - 1], signers@[k]));
                    assert(!strictly_ascending(signers@));
                }
                return Err(MultisigError::SignerAlreadyExists);
            }
            i = i + 1;
        }
        write_signers(st, signers);
        write_threshold(st, threshold);
        proof {
            lemma_ascending_distinct(signers@);
        }
        Ok(())
    }

    /// Check the signatures that authorize the account.
    ///
    /// Expects signatures sorted in strictly ascending order by `public_key`.
    /// Every public_key in the list must be a registered signer. The result
    /// says how many of the signatures the host must verify over the payload
    /// before the outcome stands.
    pub fn __check_auth(st: &MultisigStorage, signatures: &Vec<AccountSignature>) -> (r: AuthCheck)
        ensures
            r.verify_count <= signatures@.len(),
            forall|i: int|
                0 <= i < r.verify_count ==> signature_error(
                    st@.signers_value(),
                    signatures@,
                    i,
                ) is None,
            r.verify_count < signatures@.len() ==> r.result == Err::<(), MultisigError>(
                signature_error(st@.signers_value(), signatures@, r.verify_count as int).unwrap(),
            ) && signature_error(st@.signers_value(), signatures@, r.verify_count as int) is Some,
            r.verify_count == signatures@.len() ==> r.result == (if signatures@.len()
                < st@.threshold_value() {
                Err::<(), MultisigError>(MultisigError::InsufficientSignatures)
            } else {
                Ok(())
            }),
    {
        let signers = read_signers(st);
        let threshold = read_threshold(st);
        let mut i: usize = 0;
        while i < signatures.len()
            invariant
                0 <= i <= signatures@.len(),
                signers@ == st@.signers_value(),
                forall|k: int| 0 <= k < i ==> signature_error(signers@, signatures@, k) is None,
            decreases signatures@.len() - i,
        {
            let sig = signatures[i];
            // Enforce strictly ascending public key order
            if i > 0 {
                if !key_less(&signatures[i - 1].public_key, &sig.public_key) {
                    return AuthCheck { verify_count: i, result: Err(MultisigError::InvalidSignatureOrder) };
                }
            }
            // Reject signatures from unknown signers
            if !contains_key(&signers, &sig.public_key) {
                return AuthCheck { verify_count: i, result: Err(MultisigError::UnknownSigner) };
            }
            // The host verifies this signature before the next one is looked at.
            i = i + 1;
        }
        if signatures.len() < threshold as usize {
            return AuthCheck {
                verify_count: signatures.len(),
                result: Err(MultisigError::InsufficientSignatures),
            };
        }
        AuthCheck { verify_count: signatures.len(), result: Ok(()) }
    }
}

/// The outcome of a check: the error that it found, if any.
pub open spec fn check(error: Option<MultisigError>) -> Result<(), MultisigError> {
    match error {
        Some(e) => Err(e),
        None => Ok(()),
    }
}

} // verus!
