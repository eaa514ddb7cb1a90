//! The values that the contract reads, stores and publishes.
use crate::assoc_map::KeyEq;
use vstd::prelude::*;

verus! {

broadcast use vstd::array::group_array_axioms;

/// Compares two byte strings.
pub fn bytes_eq(a: &Vec<u8>, b: &Vec<u8>) -> (same: bool)
    ensures
        same == (a@ == b@),
{
    if a.len() != b.len() {
        return false;
    }
    let mut i: usize = 0;
    while i < a.len()
        invariant
            i <= a@.len(),
            a@.len() == b@.len(),
            forall|j: int| 0 <= j < i ==> a@[j] == b@[j],
        decreases a@.len() - i,
    {
        if a[i] != b[i] {
            return false;
        }
        i = i + 1;
    }
    assert(a@ =~= b@);
    true
}

/// Copies a byte string.
pub fn bytes_copy(a: &Vec<u8>) -> (c: Vec<u8>)
    ensures
        c@ == a@,
{
    let c = a.clone();
    assert(c@ =~= a@);
    c
}

/// Compares two 32-byte values.
pub fn bytes32_eq(a: &[u8; 32], b: &[u8; 32]) -> (same: bool)
    ensures
        same == (*a == *b),
{
    let mut i: usize = 0;
    while i < 32
        invariant
            i <= 32,
            forall|j: int| 0 <= j < i ==> a@[j] == b@[j],
        decreases 32 - i,
    {
        if a[i] != b[i] {
            return false;
        }
        i = i + 1;
    }
    assert forall|j: int| 0 <= j < 32 implies a[j] == b[j] by {
        assert(a@[j] == b@[j]);
    }
    assert(*a =~= *b);
    true
}

impl KeyEq for [u8; 32] {
    fn key_eq(&self, other: &Self) -> (same: bool) {
        let same = bytes32_eq(self, other);
        proof {
            if self@ == other@ {
                assert forall|j: int| 0 <= j < 32 implies self[j] == other[j] by {
                    assert(self@[j] == other@[j]);
                }
                assert(*self =~= *other);
            }
        }
        same
    }
}

/// A short name: an event type or a tag.
/// Two symbols are the same symbol when their characters are.
#[derive(Debug, PartialEq, Eq)]
pub struct Symbol {
    pub chars: Vec<u8>,
}

impl Symbol {
    /// The symbol made of the given characters.
    pub fn new(chars: Vec<u8>) -> (s: Symbol)
        ensures
            s@ == chars@,
    {
        Symbol { chars }
    }
}

impl View for Symbol {
    type V = Seq<u8>;

    open spec fn view(&self) -> Seq<u8> {
        self.chars@
    }
}

impl KeyEq for Symbol {
    fn key_eq(&self, other: &Self) -> (same: bool) {
        bytes_eq(&self.chars, &other.chars)
    }
}

impl Clone for Symbol {
    fn clone(&self) -> (s: Self)
        ensures
            s@ == self@,
    {
        Symbol { chars: bytes_copy(&self.chars) }
    }
}

/// An account or contract address, identified by its encoded bytes.
/// Two addresses are the same address when their bytes are.
#[derive(Debug, PartialEq, Eq)]
pub struct Address {
    pub id: Vec<u8>,
}

impl Address {
    /// The address with the given encoded bytes.
    pub fn new(id: Vec<u8>) -> (a: Address)
        ensures
            a@ == id@,
    {
        Address { id }
    }
}

impl View for Address {
    type V = Seq<u8>;

    open spec fn view(&self) -> Seq<u8> {
        self.id@
    }
}

impl KeyEq for Address {
    fn key_eq(&self, other: &Self) -> (same: bool) {
        bytes_eq(&self.id, &other.id)
    }
}

impl Clone for Address {
    fn clone(&self) -> (a: Self)
        ensures
            a@ == self@,
    {
        Address { id: bytes_copy(&self.id) }
    }
}

/// Copies a list of symbols.
pub fn symbols_copy(v: &Vec<Symbol>) -> (c: Vec<Symbol>)
    ensures
        c@.map_values(|s: Symbol| s@) == v@.map_values(|s: Symbol| s@),
{
    let mut c: Vec<Symbol> = Vec::new();
    let mut i: usize = 0;
    while i < v.len()
        invariant
            i <= v@.len(),
            c@.len() == i,
            forall|j: int| 0 <= j < i ==> #[trigger] c@[j]@ == v@[j]@,
        decreases v@.len() - i,
    {
        c.push(v[i].clone());
        i = i + 1;
    }
    assert(c@.map_values(|s: Symbol| s@) =~= v@.map_values(|s: Symbol| s@));
    c
}

/// The sequence number and close time of the ledger that a call runs in.
#[derive(Clone, Copy, Debug, PartialEq, Eq, Structural)]
pub struct LedgerInfo {
    pub sequence: u32,
    pub timestamp: u64,
}

/// A recorded event from an indexed contract.
#[derive(Debug, PartialEq, Eq)]
pub struct EventRecord {
    /// The contract that emitted the recorded event.
    pub contract_id: Address,
    /// The type/category of the event.
    pub event_type: Symbol,
    /// SHA-256 hash of the event payload.
    pub payload_hash: [u8; 32],
    /// Ledger sequence number when recorded.
    pub ledger: u32,
    /// Unix timestamp when recorded.
    pub timestamp: u64,
}

pub struct EventRecordView {
    pub contract_id: Seq<u8>,
    pub event_type: Seq<u8>,
    pub payload_hash: [u8; 32],
    pub ledger: u32,
    pub timestamp: u64,
}

impl View for EventRecord {
    type V = EventRecordView;

    open spec fn view(&self) -> EventRecordView {
        EventRecordView {
            contract_id: self.contract_id@,
            event_type: self.event_type@,
            payload_hash: self.payload_hash,
            ledger: self.ledger,
            timestamp: self.timestamp,
        }
    }
}

impl Clone for EventRecord {
    fn clone(&self) -> (r: Self)
        ensures
            r@ == self@,
    {
        EventRecord {
            contract_id: self.contract_id.clone(),
            event_type: self.event_type.clone(),
            payload_hash: self.payload_hash,
            ledger: self.ledger,
            timestamp: self.timestamp,
        }
    }
}

/// A tagged event record: tags are short producer-defined symbols that let
/// off-chain indexers filter events without decoding the payload.
#[derive(Debug, PartialEq, Eq)]
pub struct TaggedEventRecord {
    pub contract_id: Address,
    pub event_type: Symbol,
    pub payload_hash: [u8; 32],
    /// Producer-defined tags (at most `MAX_TAGS`).
    pub tags: Vec<Symbol>,
    pub ledger: u32,
    pub timestamp: u64,
}

pub struct TaggedEventRecordView {
    pub contract_id: Seq<u8>,
    pub event_type: Seq<u8>,
    pub payload_hash: [u8; 32],
    pub tags: Seq<Seq<u8>>,
    pub ledger: u32,
    pub timestamp: u64,
}

impl View for TaggedEventRecord {
    type V = TaggedEventRecordView;

    open spec fn view(&self) -> TaggedEventRecordView {
        TaggedEventRecordView {
            contract_id: self.contract_id@,
            event_type: self.event_type@,
            payload_hash: self.payload_hash,
            tags: self.tags@.map_values(|s: Symbol| s@),
            ledger: self.ledger,
            timestamp: self.timestamp,
        }
    }
}

impl Clone for TaggedEventRecord {
    fn clone(&self) -> (r: Self)
        ensures
            r@ == self@,
    {
        TaggedEventRecord {
            contract_id: self.contract_id.clone(),
            event_type: self.event_type.clone(),
            payload_hash: self.payload_hash,
            tags: symbols_copy(&self.tags),
            ledger: self.ledger,
            timestamp: self.timestamp,
        }
    }
}

/// A structured event record: it carries a producer-defined schema version and
/// a correlation id under which retries are recognised.
#[derive(Debug, PartialEq, Eq)]
pub struct StructuredEventRecord {
    pub contract_id: Address,
    pub event_type: Symbol,
    pub payload_hash: [u8; 32],
    /// Producer-defined payload schema version; never zero.
    pub schema_version: u32,
    /// Stable id supplied by the producer for safe retry and deduplication.
    pub correlation_id: [u8; 32],
    pub ledger: u32,
    pub timestamp: u64,
}

pub struct StructuredEventRecordView {
    pub contract_id: Seq<u8>,
    pub event_type: Seq<u8>,
    pub payload_hash: [u8; 32],
    pub schema_version: u32,
    pub correlation_id: [u8; 32],
    pub ledger: u32,
    pub timestamp: u64,
}

impl View for StructuredEventRecord {
    type V = StructuredEventRecordView;

    open spec fn view(&self) -> StructuredEventRecordView {
        StructuredEventRecordView {
            contract_id: self.contract_id@,
            event_type: self.event_type@,
            payload_hash: self.payload_hash,
            schema_version: self.schema_version,
            correlation_id: self.correlation_id,
            ledger: self.ledger,
            timestamp: self.timestamp,
        }
    }
}

impl Clone for StructuredEventRecord {
    fn clone(&self) -> (r: Self)
        ensures
            r@ == self@,
    {
        StructuredEventRecord {
            contract_id: self.contract_id.clone(),
            event_type: self.event_type.clone(),
            payload_hash: self.payload_hash,
            schema_version: self.schema_version,
            correlation_id: self.correlation_id,
            ledger: self.ledger,
            timestamp: self.timestamp,
        }
    }
}

/// Contract errors; `code` gives each its number.
#[derive(Copy, Clone, Debug, PartialEq, Eq, Structural)]
pub enum ContractError {
    /// Caller is not authorized to perform this action.
    Unauthorized,
    /// The specified indexer address is not registered.
    IndexerNotFound,
    /// Contract has already been initialized.
    AlreadyInitialized,
    /// Contract has not been initialized.
    NotInitialized,
    /// Structured events require a non-zero schema version.
    InvalidSchemaVersion,
    /// A structured event with this correlation ID was already submitted.
    DuplicateCorrelation,
    /// The tags list exceeds the per-event maximum.
    TooManyTags,
}

pub open spec fn error_code(e: ContractError) -> u32 {
    match e {
        ContractError::Unauthorized => 1,
        ContractError::IndexerNotFound => 2,
        ContractError::AlreadyInitialized => 3,
        ContractError::NotInitialized => 4,
        ContractError::InvalidSchemaVersion => 5,
        ContractError::DuplicateCorrelation => 6,
        ContractError::TooManyTags => 7,
    }
}

impl ContractError {
    /// The error's number, as the contract reports it to callers.
    pub fn code(&self) -> (c: u32)
        ensures
            c == error_code(*self),
    {
        match self {
            ContractError::Unauthorized => 1,
            ContractError::IndexerNotFound => 2,
            ContractError::AlreadyInitialized => 3,
            ContractError::NotInitialized => 4,
            ContractError::InvalidSchemaVersion => 5,
            ContractError::DuplicateCorrelation => 6,
            ContractError::TooManyTags => 7,
        }
    }
}

/// An event that the contract publishes for off-chain consumers.
#[derive(Debug, PartialEq, Eq)]
pub enum ContractEvent {
    /// Topics `("indexer", "add")`; data: the indexer.
    IndexerAdded(Address),
    /// Topics `("indexer", "rem")`; data: the indexer.
    IndexerRemoved(Address),
    /// Topics `("soroscan", event_type)`; data: the record.
    EventRecorded(EventRecord),
    /// Topics `("soroscan", "sc24", event_type)`; data: the record.
    TaggedEventRecorded(TaggedEventRecord),
    /// Topics `("soroscan", "sc38", event_type)`; data: the record.
    StructuredEventRecorded(StructuredEventRecord),
}

pub enum ContractEventView {
    IndexerAdded(Seq<u8>),
    IndexerRemoved(Seq<u8>),
    EventRecorded(EventRecordView),
    TaggedEventRecorded(TaggedEventRecordView),
    StructuredEventRecorded(StructuredEventRecordView),
}

impl View for ContractEvent {
    type V = ContractEventView;

    open spec fn view(&self) -> ContractEventView {
        match self {
            ContractEvent::IndexerAdded(a) => ContractEventView::IndexerAdded(a@),
            ContractEvent::IndexerRemoved(a) => ContractEventView::IndexerRemoved(a@),
            ContractEvent::EventRecorded(r) => ContractEventView::EventRecorded(r@),
            ContractEvent::TaggedEventRecorded(r) => ContractEventView::TaggedEventRecorded(r@),
            ContractEvent::StructuredEventRecorded(r) => ContractEventView::StructuredEventRecorded(
                r@,
            ),
        }
    }
}

} // verus!
