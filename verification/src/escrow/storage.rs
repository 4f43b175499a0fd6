use crate::address::Address;
use crate::escrow::error::EscrowError;
use std::collections::HashMap;
use vstd::prelude::*;

verus! {

broadcast use vstd::std_specs::hash::group_hash_axioms;

/// Storage keys for the escrow contract
#[derive(Clone, Copy, Debug)]
pub enum DataKey {
    Escrow(u64),
    Counter,
    Config,
    Nonce(Address),
    AllowedTokens,
    /// The fee-collection mode that an escrow was created with.
    FeeMode(u64),
}

/// Status of an escrow
#[derive(Clone, Copy, Debug, PartialEq, Eq, Structural)]
pub enum EscrowStatus {
    Active,
    Released,
    Refunded,
    Disputed,
}

/// Contract configuration
#[derive(Clone, Copy, Debug, PartialEq, Eq)]
pub struct Config {
    pub admin: Address,
    /// true: collect on create; false: collect on release
    pub collect_on_create: bool,
}

/// Escrow data record
#[derive(Debug)]
pub struct EscrowData {
    pub buyer: Address,
    pub seller: Address,
    pub amount: i128,
    pub asset: Address,
    pub created_at: u64,
    pub release_at: u64,
    pub status: EscrowStatus,
    /// The product's identifier, as the bytes of its string.
    pub product_id: Vec<u8>,
    pub guarantee_days: u32,
    /// Fee snapshot used at creation (comes as parameter from backend)
    pub fee_bps: u32,
    /// Whether seller can release payment before guarantee period expires
    pub allow_early_release: bool,
    /// Buyer's proposal for dispute resolution (Some(true) = favor buyer, Some(false) = favor seller)
    pub buyer_proposal: Option<bool>,
    /// Seller's proposal for dispute resolution
    pub seller_proposal: Option<bool>,
}

/// The mathematical value of an escrow record.
#[verifier::ext_equal]
pub struct EscrowRecord {
    pub buyer: Address,
    pub seller: Address,
    pub amount: i128,
    pub asset: Address,
    pub created_at: u64,
    pub release_at: u64,
    pub status: EscrowStatus,
    pub product_id: Seq<u8>,
    pub guarantee_days: u32,
    pub fee_bps: u32,
    pub allow_early_release: bool,
    pub buyer_proposal: Option<bool>,
    pub seller_proposal: Option<bool>,
}

impl EscrowRecord {
    /// The same record with another status.
    pub open spec fn with_status(self, status: EscrowStatus) -> EscrowRecord {
        EscrowRecord { status, ..self }
    }

    /// The same record with the buyer's proposal set.
    pub open spec fn with_buyer_proposal(self, p: Option<bool>) -> EscrowRecord {
        EscrowRecord { buyer_proposal: p, ..self }
    }

    /// The same record with the seller's proposal set.
    pub open spec fn with_seller_proposal(self, p: Option<bool>) -> EscrowRecord {
        EscrowRecord { seller_proposal: p, ..self }
    }
}

impl View for EscrowData {
    type V = EscrowRecord;

    open spec fn view(&self) -> EscrowRecord {
        EscrowRecord {
            buyer: self.buyer,
            seller: self.seller,
            amount: self.amount,
            asset: self.asset,
            created_at: self.created_at,
            release_at: self.release_at,
            status: self.status,
            product_id: self.product_id@,
            guarantee_days: self.guarantee_days,
            fee_bps: self.fee_bps,
            allow_early_release: self.allow_early_release,
            buyer_proposal: self.buyer_proposal,
            seller_proposal: self.seller_proposal,
        }
    }
}

/// A copy of a byte string.
pub fn copy_bytes(v: &Vec<u8>) -> (r: Vec<u8>)
    ensures
        r@ == v@,
{
    let mut r: Vec<u8> = Vec::new();
    let mut i: usize = 0;
    while i < v.len()
        invariant
            0 <= i <= v.len(),
            r@ == v@.subrange(0, i as int),
        decreases v.len() - i,
    {
        r.push(v[i]);
        i = i + 1;
        assert(r@ =~= v@.subrange(0, i as int));
    }
    assert(v@.subrange(0, v.len() as int) =~= v@);
    r
}

/// A copy of a list of addresses.
pub fn copy_addresses(v: &Vec<Address>) -> (r: Vec<Address>)
    ensures
        r@ == v@,
{
    let mut r: Vec<Address> = Vec::new();
    let mut i: usize = 0;
    while i < v.len()
        invariant
            0 <= i <= v.len(),
            r@ == v@.subrange(0, i as int),
        decreases v.len() - i,
    {
        r.push(v[i]);
        i = i + 1;
        assert(r@ =~= v@.subrange(0, i as int));
    }
    assert(v@.subrange(0, v.len() as int) =~= v@);
    r
}

impl Clone for EscrowData {
    fn clone(&self) -> (r: Self)
        ensures
            r@ == self@,
    {
        EscrowData {
            buyer: self.buyer,
            seller: self.seller,
            amount: self.amount,
            asset: self.asset,
            created_at: self.created_at,
            release_at: self.release_at,
            status: self.status,
            product_id: copy_bytes(&self.product_id),
            guarantee_days: self.guarantee_days,
            fee_bps: self.fee_bps,
            allow_early_release: self.allow_early_release,
            buyer_proposal: self.buyer_proposal,
            seller_proposal: self.seller_proposal,
        }
    }
}

/// The mathematical value of the contract's storage.
#[verifier::ext_equal]
pub struct StorageView {
    pub config: Option<Config>,
    pub counter: Option<u64>,
    pub escrows: Map<u64, EscrowRecord>,
    pub nonces: Map<Address, u64>,
    pub allowed_tokens: Option<Seq<Address>>,
    /// Per escrow, whether its fee was collected on creation.
    pub fee_modes: Map<u64, bool>,
}

impl StorageView {
    /// Storage with nothing written.
    pub open spec fn empty() -> StorageView {
        StorageView {
            config: None,
            counter: None,
            escrows: Map::empty(),
            nonces: Map::empty(),
            allowed_tokens: None,
            fee_modes: Map::empty(),
        }
    }

    /// The counter as read: 0 where none was written.
    pub open spec fn counter_value(self) -> u64 {
        match self.counter {
            Some(c) => c,
            None => 0,
        }
    }

    /// The nonce of a user as read: 0 where none was written.
    pub open spec fn nonce_of(self, user: Address) -> u64 {
        if self.nonces.contains_key(user) {
            self.nonces[user]
        } else {
            0
        }
    }

    /// The allowed tokens as read: none where no list was written.
    pub open spec fn allowed(self) -> Seq<Address> {
        match self.allowed_tokens {
            Some(s) => s,
            None => Seq::empty(),
        }
    }

    /// Whether a value is stored under the key.
    pub open spec fn has(self, key: DataKey) -> bool {
        match key {
            DataKey::Escrow(id) => self.escrows.contains_key(id),
            DataKey::Counter => self.counter is Some,
            DataKey::Config => self.config is Some,
            DataKey::Nonce(user) => self.nonces.contains_key(user),
            DataKey::AllowedTokens => self.allowed_tokens is Some,
            DataKey::FeeMode(id) => self.fee_modes.contains_key(id),
        }
    }

    /// The same storage with a new configuration.
    pub open spec fn with_config(self, cfg: Config) -> StorageView {
        StorageView { config: Some(cfg), ..self }
    }

    /// The same storage with a record written under an id.
    pub open spec fn with_escrow(self, id: u64, rec: EscrowRecord) -> StorageView {
        StorageView { escrows: self.escrows.insert(id, rec), ..self }
    }

    /// The same storage with a new counter.
    pub open spec fn with_counter(self, value: u64) -> StorageView {
        StorageView { counter: Some(value), ..self }
    }

    /// The same storage with a user's nonce set.
    pub open spec fn with_nonce(self, user: Address, nonce: u64) -> StorageView {
        StorageView { nonces: self.nonces.insert(user, nonce), ..self }
    }

    /// The same storage with an escrow's fee-collection mode recorded.
    pub open spec fn with_fee_mode(self, id: u64, collect_on_create: bool) -> StorageView {
        StorageView { fee_modes: self.fee_modes.insert(id, collect_on_create), ..self }
    }

    /// The same storage with a new list of allowed tokens.
    pub open spec fn with_allowed(self, tokens: Seq<Address>) -> StorageView {
        StorageView { allowed_tokens: Some(tokens), ..self }
    }
}

/// The map that a list of (user, nonce) entries denotes.
pub open spec fn nonce_map(entries: Seq<(Address, u64)>) -> Map<Address, u64>
    decreases entries.len(),
{
    if entries.len() == 0 {
        Map::empty()
    } else {
        nonce_map(entries.drop_last()).insert(entries.last().0, entries.last().1)
    }
}

/// No entry after position `i` is for the same user: entry `i` is the one that counts.
pub open spec fn last_for_user(entries: Seq<(Address, u64)>, i: int) -> bool {
    forall|j: int| i < j < entries.len() ==> #[trigger] entries[j].0 != entries[i].0
}

proof fn lemma_nonce_map_absent(entries: Seq<(Address, u64)>, user: Address)
    requires
        forall|i: int| 0 <= i < entries.len() ==> #[trigger] entries[i].0 != user,
    ensures
        !nonce_map(entries).contains_key(user),
    decreases entries.len(),
{
    if entries.len() > 0 {
        lemma_nonce_map_absent(entries.drop_last(), user);
    }
}

proof fn lemma_nonce_map_index(entries: Seq<(Address, u64)>, i: int)
    requires
        0 <= i < entries.len(),
        last_for_user(entries, i),
    ensures
        nonce_map(entries).contains_key(entries[i].0),
        nonce_map(entries)[entries[i].0] == entries[i].1,
    decreases entries.len(),
{
    if i < entries.len() - 1 {
        assert(entries[i].0 != entries[entries.len() - 1].0);
        lemma_nonce_map_index(entries.drop_last(), i);
    }
}

proof fn lemma_nonce_map_update(entries: Seq<(Address, u64)>, i: int, nonce: u64)
    requires
        0 <= i < entries.len(),
        last_for_user(entries, i),
    ensures
        nonce_map(entries.update(i, (entries[i].0, nonce))) == nonce_map(entries).insert(
            entries[i].0,
            nonce,
        ),
    decreases entries.len(),
{
    let updated = entries.update(i, (entries[i].0, nonce));
    if i == entries.len() - 1 {
        assert(updated.drop_last() =~= entries.drop_last());
        assert(nonce_map(updated) =~= nonce_map(entries).insert(entries[i].0, nonce));
    } else {
        assert(updated.drop_last() =~= entries.drop_last().update(i, (entries[i].0, nonce)));
        assert(entries[i].0 != entries[entries.len() - 1].0);
        lemma_nonce_map_update(entries.drop_last(), i, nonce);
        assert(nonce_map(updated) =~= nonce_map(entries).insert(entries[i].0, nonce));
    }
}

proof fn lemma_nonce_map_push(entries: Seq<(Address, u64)>, user: Address, nonce: u64)
    ensures
        nonce_map(entries.push((user, nonce))) == nonce_map(entries).insert(user, nonce),
{
    assert(entries.push((user, nonce)).drop_last() =~= entries);
}

/// The contract's storage: configuration, escrow counter, escrow records,
/// per-user nonces, the allowed token list, and per escrow the fee mode it
/// was created with.
pub struct EscrowStorage {
    config: Option<Config>,
    counter: Option<u64>,
    escrows: HashMap<u64, EscrowData>,
    nonces: Vec<(Address, u64)>,
    allowed_tokens: Option<Vec<Address>>,
    fee_modes: HashMap<u64, bool>,
}

impl View for EscrowStorage {
    type V = StorageView;

    closed spec fn view(&self) -> StorageView {
        StorageView {
            config: self.config,
            counter: self.counter,
            escrows: self.escrows@.map_values(|d: EscrowData| d@),
            nonces: nonce_map(self.nonces@),
            allowed_tokens: match self.allowed_tokens {
                Some(v) => Some(v@),
                None => None,
            },
            fee_modes: self.fee_modes@,
        }
    }
}

impl EscrowStorage {
    /// Storage with nothing written.
    pub fn new() -> (st: EscrowStorage)
        ensures
            st@ == StorageView::empty(),
    {
        let st = EscrowStorage {
            config: None,
            counter: None,
            escrows: HashMap::new(),
            nonces: Vec::new(),
            allowed_tokens: None,
            fee_modes: HashMap::new(),
        };
        assert(st@.escrows =~= Map::empty());
        st
    }

    /// The position of the entry that holds a user's nonce.
    fn find_nonce(&self, user: &Address) -> (r: Option<usize>)
        ensures
            match r {
                Some(i) => i < self.nonces@.len() && self.nonces@[i as int].0 == *user
                    && last_for_user(self.nonces@, i as int),
                None => forall|i: int|
                    0 <= i < self.nonces@.len() ==> #[trigger] self.nonces@[i].0 != *user,
            },
    {
        let mut i: usize = self.nonces.len();
        while i > 0
            invariant
                0 <= i <= self.nonces@.len(),
                forall|j: int| i <= j < self.nonces@.len() ==> #[trigger] self.nonces@[j].0 != *user,
            decreases i,
        {
            i = i - 1;
            if self.nonces[i].0 == *user {
                return Some(i);
            }
        }
        None
    }

    /// Whether a value is stored under the key.
    pub fn has(&self, key: &DataKey) -> (r: bool)
        ensures
            r == self@.has(*key),
    {
        match key {
            DataKey::Escrow(id) => self.escrows.contains_key(id),
            DataKey::Counter => self.counter.is_some(),
            DataKey::Config => self.config.is_some(),
            DataKey::Nonce(user) => {
                match self.find_nonce(user) {
                    Some(i) => {
                        proof {
                            lemma_nonce_map_index(self.nonces@, i as int);
                        }
                        true
                    },
                    None => {
                        proof {
                            lemma_nonce_map_absent(self.nonces@, *user);
                        }
                        false
                    },
                }
            },
            DataKey::AllowedTokens => self.allowed_tokens.is_some(),
            DataKey::FeeMode(id) => self.fee_modes.contains_key(id),
        }
    }
}

// ============================================================================
// Config Storage Access
// ============================================================================

/// The stored configuration; there is always one once the contract is set up.
pub fn read_config(st: &EscrowStorage) -> (cfg: Config)
    requires
        st@.config is Some,
    ensures
        st@.config == Some(cfg),
{
    match st.config {
        Some(cfg) => cfg,
        None => {
            proof {
                assert(false);
            }
            Config { admin: Address::account([0u8; 32]), collect_on_create: false }
        },
    }
}

pub fn write_config(st: &mut EscrowStorage, cfg: &Config)
    ensures
        final(st)@ == old(st)@.with_config(*cfg),
{
    st.config = Some(*cfg);
}

// ============================================================================
// Escrow Storage Access
// ============================================================================

pub fn read_escrow(st: &EscrowStorage, escrow_id: u64) -> (r: Result<EscrowData, EscrowError>)
    ensures
        match r {
            Ok(data) => st@.escrows.contains_key(escrow_id) && data@ == st@.escrows[escrow_id],
            Err(e) => !st@.escrows.contains_key(escrow_id) && e == EscrowError::EscrowNotFound,
        },
{
    match st.escrows.get(&escrow_id) {
        Some(data) => Ok(data.clone()),
        None => Err(EscrowError::EscrowNotFound),
    }
}

pub fn write_escrow(st: &mut EscrowStorage, escrow_id: u64, escrow: &EscrowData)
    ensures
        final(st)@ == old(st)@.with_escrow(escrow_id, escrow@),
{
    let copy = escrow.clone();
    st.escrows.insert(escrow_id, copy);
    assert(st@.escrows =~= old(st)@.escrows.insert(escrow_id, escrow@));
}

// ============================================================================
// Per-escrow Fee Modes
// ============================================================================

/// The fee-collection mode recorded for an escrow, if any.
pub fn read_fee_mode(st: &EscrowStorage, escrow_id: u64) -> (mode: Option<bool>)
    ensures
        mode == (if st@.fee_modes.contains_key(escrow_id) {
            Some(st@.fee_modes[escrow_id])
        } else {
            None
        }),
{
    match st.fee_modes.get(&escrow_id) {
        Some(mode) => Some(*mode),
        None => None,
    }
}

/// Records the fee-collection mode of an escrow.
pub fn write_fee_mode(st: &mut EscrowStorage, escrow_id: u64, collect_on_create: bool)
    ensures
        final(st)@ == old(st)@.with_fee_mode(escrow_id, collect_on_create),
{
    st.fee_modes.insert(escrow_id, collect_on_create);
}

// ============================================================================
// Counter Storage Access
// ============================================================================

pub fn read_counter(st: &EscrowStorage) -> (value: u64)
    ensures
        value == st@.counter_value(),
{
    match st.counter {
        Some(c) => c,
        None => 0u64,
    }
}

pub fn write_counter(st: &mut EscrowStorage, value: u64)
    ensures
        final(st)@ == old(st)@.with_counter(value),
{
    st.counter = Some(value);
}

// ============================================================================
// Nonce Storage Access (for meta-transactions)
// ============================================================================

/// Read the current nonce for a user (for replay protection in meta-transactions)
pub fn read_nonce(st: &EscrowStorage, user: &Address) -> (nonce: u64)
    ensures
        nonce == st@.nonce_of(*user),
{
    match st.find_nonce(user) {
        Some(i) => {
            proof {
                lemma_nonce_map_index(st.nonces@, i as int);
            }
            st.nonces[i].1
        },
        None => {
            proof {
                lemma_nonce_map_absent(st.nonces@, *user);
            }
            0u64
        },
    }
}

/// Write the nonce for a user
pub fn write_nonce(st: &mut EscrowStorage, user: &Address, nonce: u64)
    ensures
        final(st)@ == old(st)@.with_nonce(*user, nonce),
{
    match st.find_nonce(user) {
        Some(i) => {
            proof {
                lemma_nonce_map_update(st.nonces@, i as int, nonce);
            }
            st.nonces.set(i, (*user, nonce));
        },
        None => {
            proof {
                lemma_nonce_map_push(st.nonces@, *user, nonce);
            }
            st.nonces.push((*user, nonce));
        },
    }
}

/// Increment and return the previous nonce for a user
pub fn increment_nonce(st: &mut EscrowStorage, user: &Address) -> (previous: u64)
    requires
        old(st)@.nonce_of(*user) < u64::MAX,
    ensures
        previous == old(st)@.nonce_of(*user),
        final(st)@ == old(st)@.with_nonce(*user, (previous + 1) as u64),
{
    let current = read_nonce(st, user);
    let next = current + 1;
    write_nonce(st, user, next);
    current
}

// ============================================================================
// Allowed Tokens Storage Access
// ============================================================================

/// Read the list of allowed tokens
pub fn read_allowed_tokens(st: &EscrowStorage) -> (tokens: Vec<Address>)
    ensures
        tokens@ == st@.allowed(),
{
    match &st.allowed_tokens {
        Some(v) => copy_addresses(v),
        None => Vec::new(),
    }
}

/// Write the list of allowed tokens
pub fn write_allowed_tokens(st: &mut EscrowStorage, tokens: &Vec<Address>)
    ensures
        final(st)@ == old(st)@.with_allowed(tokens@),
{
    st.allowed_tokens = Some(copy_addresses(tokens));
}

/// Whether a token occurs in a list.
fn contains_address(list: &Vec<Address>, token: &Address) -> (r: bool)
    ensures
        r == list@.contains(*token),
{
    let mut i: usize = 0;
    while i < list.len()
        invariant
            0 <= i <= list@.len(),
            forall|j: int| 0 <= j < i ==> list@[j] != *token,
        decreases list@.len() - i,
    {
        if list[i] == *token {
            assert(list@[i as int] == *token);
            return true;
        }
        i = i + 1;
    }
    false
}

/// Check if a token is in the allowed list
pub fn is_token_allowed(st: &EscrowStorage, token: &Address) -> (r: bool)
    ensures
        r == st@.allowed().contains(*token),
{
    let allowed = read_allowed_tokens(st);
    contains_address(&allowed, token)
}

/// The allowed list after adding a token: unchanged where it is there already.
pub open spec fn with_token_added(tokens: Seq<Address>, token: Address) -> Seq<Address> {
    if tokens.contains(token) {
        tokens
    } else {
        tokens.push(token)
    }
}

/// The allowed list after removing a token: every occurrence goes, the rest keep their order.
pub open spec fn with_token_removed(tokens: Seq<Address>, token: Address) -> Seq<Address> {
    tokens.filter(|t: Address| t != token)
}

/// Add a token to the allowed list
pub fn add_allowed_token(st: &mut EscrowStorage, token: &Address)
    ensures
        final(st)@ == old(st)@.with_allowed(with_token_added(old(st)@.allowed(), *token)),
{
    let mut allowed = read_allowed_tokens(st);
    if !contains_address(&allowed, token) {
        allowed.push(*token);
    }
    write_allowed_tokens(st, &allowed);
}

/// Remove a token from the allowed list
pub fn remove_allowed_token(st: &mut EscrowStorage, token: &Address)
    ensures
        final(st)@ == old(st)@.with_allowed(with_token_removed(old(st)@.allowed(), *token)),
{
    let allowed = read_allowed_tokens(st);
    let mut new_allowed: Vec<Address> = Vec::new();
    let mut i: usize = 0;
    while i < allowed.len()
        invariant
            0 <= i <= allowed@.len(),
            new_allowed@ == with_token_removed(allowed@.take(i as int), *token),
        decreases allowed@.len() - i,
    {
        let t = allowed[i];
        proof {
            reveal(Seq::filter);
            assert(allowed@.take(i + 1).drop_last() =~= allowed@.take(i as int));
        }
        if t != *token {
            new_allowed.push(t);
        }
        i = i + 1;
    }
    assert(allowed@.take(allowed@.len() as int) =~= allowed@);
    write_allowed_tokens(st, &new_allowed);
}

} // verus!
