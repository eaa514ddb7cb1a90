//! The SoroScan core contract: authorised indexers submit records of events
//! that other contracts emitted; the contract counts them, keeps the latest
//! record of each type and publishes each one for off-chain consumers.
//!
//! [`SoroScanCore`] holds one contract's instance storage and the events it
//! has published. Each entry point is described by a step function from the
//! state before the call to the state after it and the call's result.
//!
//! Authorisation of the caller (`require_auth` on the admin or the indexer)
//! is done by the host before an entry point runs, and the current ledger's
//! sequence number and close time are handed in as a [`LedgerInfo`].
use crate::assoc_map::{AssocMap, KeyEq};
use crate::types::{
    Address, ContractError, ContractEvent, ContractEventView, EventRecord, EventRecordView,
    LedgerInfo, StructuredEventRecord, StructuredEventRecordView, Symbol, TaggedEventRecord,
    TaggedEventRecordView,
};
use vstd::prelude::*;

verus! {

/// Maximum number of producer-defined tags per tagged event.
pub const MAX_TAGS: u32 = 4;

/// The contract's instance storage, slot by slot.
pub struct InstanceStorage {
    /// The admin, once the contract is initialised.
    pub admin: Option<Address>,
    /// The authorised indexers, each with its flag; present once initialised.
    pub indexers: Option<AssocMap<Address, bool>>,
    /// The number of events recorded; present once initialised.
    pub counter: Option<u64>,
    /// The latest plain record of each event type.
    pub latest: AssocMap<Symbol, EventRecord>,
    /// The latest tagged record of each event type.
    pub latest_tagged: AssocMap<Symbol, TaggedEventRecord>,
    /// The latest structured record of each event type.
    pub latest_structured: AssocMap<Symbol, StructuredEventRecord>,
    /// The structured record submitted with each correlation id.
    pub by_correlation: AssocMap<[u8; 32], StructuredEventRecord>,
}

#[verifier::ext_equal]
pub struct StorageView {
    pub admin: Option<Seq<u8>>,
    pub indexers: Option<Map<Seq<u8>, bool>>,
    pub counter: Option<u64>,
    pub latest: Map<Seq<u8>, EventRecordView>,
    pub latest_tagged: Map<Seq<u8>, TaggedEventRecordView>,
    pub latest_structured: Map<Seq<u8>, StructuredEventRecordView>,
    pub by_correlation: Map<Seq<u8>, StructuredEventRecordView>,
}

impl View for InstanceStorage {
    type V = StorageView;

    open spec fn view(&self) -> StorageView {
        StorageView {
            admin: match self.admin {
                Some(a) => Some(a@),
                None => None,
            },
            indexers: match self.indexers {
                Some(m) => Some(m@),
                None => None,
            },
            counter: self.counter,
            latest: self.latest@,
            latest_tagged: self.latest_tagged@,
            latest_structured: self.latest_structured@,
            by_correlation: self.by_correlation@,
        }
    }
}

/// The storage of a freshly deployed contract: every slot empty.
pub open spec fn empty_storage() -> StorageView {
    StorageView {
        admin: None,
        indexers: None,
        counter: None,
        latest: Map::empty(),
        latest_tagged: Map::empty(),
        latest_structured: Map::empty(),
        by_correlation: Map::empty(),
    }
}

impl InstanceStorage {
    /// Storage with every slot empty.
    pub fn new() -> (st: Self)
        ensures
            st@ == empty_storage(),
    {
        InstanceStorage {
            admin: None,
            indexers: None,
            counter: None,
            latest: AssocMap::new(),
            latest_tagged: AssocMap::new(),
            latest_structured: AssocMap::new(),
            by_correlation: AssocMap::new(),
        }
    }
}

/// The contract's state: its instance storage and the events published so far.
#[verifier::ext_equal]
pub struct CoreState {
    pub storage: StorageView,
    pub events: Seq<ContractEventView>,
}

/// A freshly deployed contract.
pub open spec fn fresh() -> CoreState {
    CoreState { storage: empty_storage(), events: Seq::empty() }
}

/// The call fails with `e` and changes nothing.
pub open spec fn fails<R>(s: CoreState, e: ContractError) -> (CoreState, Result<R, ContractError>) {
    (s, Err(e))
}

/// The counter after one more event: one more, saturating at the maximum.
pub open spec fn next_count(n: u64) -> u64 {
    if n == u64::MAX {
        n
    } else {
        (n + 1) as u64
    }
}

/// Whether the indexer map lists `who` with the flag set.
pub open spec fn lists(m: Map<Seq<u8>, bool>, who: Seq<u8>) -> bool {
    m.contains_key(who) && m[who]
}

/// `get_admin`: the admin, if the contract has been initialised.
pub open spec fn admin_of(s: CoreState) -> Option<Seq<u8>> {
    s.storage.admin
}

/// `total_events`: the counter, zero when nothing is stored.
pub open spec fn total_events_of(s: CoreState) -> u64 {
    match s.storage.counter {
        Some(n) => n,
        None => 0,
    }
}

/// `is_indexer`: whether the indexer map lists `who`; false before `init`.
pub open spec fn is_indexer_of(s: CoreState, who: Seq<u8>) -> bool {
    match s.storage.indexers {
        Some(m) => lists(m, who),
        None => false,
    }
}

/// `latest_by_type`: the latest plain record of a type, if any.
pub open spec fn latest_by_type_of(s: CoreState, event_type: Seq<u8>) -> Option<EventRecordView> {
    s.storage.latest.get(event_type)
}

/// `latest_tagged_by_type`: the latest tagged record of a type, if any.
pub open spec fn latest_tagged_by_type_of(s: CoreState, event_type: Seq<u8>) -> Option<
    TaggedEventRecordView,
> {
    s.storage.latest_tagged.get(event_type)
}

/// `latest_structured_by_type`: the latest structured record of a type, if any.
pub open spec fn latest_structured_by_type_of(s: CoreState, event_type: Seq<u8>) -> Option<
    StructuredEventRecordView,
> {
    s.storage.latest_structured.get(event_type)
}

/// `init`: stores the admin, an empty indexer map and a zero counter, once.
pub open spec fn init_step(s: CoreState, admin: Seq<u8>) -> (CoreState, Result<(), ContractError>) {
    if s.storage.admin is Some {
        fails(s, ContractError::AlreadyInitialized)
    } else {
        (
            CoreState {
                storage: StorageView {
                    admin: Some(admin),
                    indexers: Some(Map::empty()),
                    counter: Some(0),
                    ..s.storage
                },
                events: s.events,
            },
            Ok(()),
        )
    }
}

/// The admin check shared by `add_indexer` and `remove_indexer`: the indexer
/// map when the caller is the stored admin.
pub open spec fn admin_check(s: CoreState, admin: Seq<u8>) -> Result<
    Map<Seq<u8>, bool>,
    ContractError,
> {
    match s.storage.admin {
        None => Err(ContractError::NotInitialized),
        Some(stored) => {
            if stored != admin {
                Err(ContractError::Unauthorized)
            } else {
                match s.storage.indexers {
                    None => Err(ContractError::NotInitialized),
                    Some(m) => Ok(m),
                }
            }
        },
    }
}

/// The state with indexer map `m` and one more published event `e`.
pub open spec fn with_indexers(s: CoreState, m: Map<Seq<u8>, bool>, e: ContractEventView) -> CoreState {
    CoreState {
        storage: StorageView { indexers: Some(m), ..s.storage },
        events: s.events.push(e),
    }
}

/// `add_indexer`: the admin adds `indexer` to the indexer map.
pub open spec fn add_indexer_step(s: CoreState, admin: Seq<u8>, indexer: Seq<u8>) -> (
    CoreState,
    Result<(), ContractError>,
) {
    match admin_check(s, admin) {
        Err(e) => fails(s, e),
        Ok(m) => (
            with_indexers(s, m.insert(indexer, true), ContractEventView::IndexerAdded(indexer)),
            Ok(()),
        ),
    }
}

/// `remove_indexer`: the admin removes `indexer` from the indexer map.
pub open spec fn remove_indexer_step(s: CoreState, admin: Seq<u8>, indexer: Seq<u8>) -> (
    CoreState,
    Result<(), ContractError>,
) {
    match admin_check(s, admin) {
        Err(e) => fails(s, e),
        Ok(m) => (
            with_indexers(s, m.remove(indexer), ContractEventView::IndexerRemoved(indexer)),
            Ok(()),
        ),
    }
}

/// The indexer check shared by the three ways of recording an event: the
/// counter's next value when `indexer` is listed.
pub open spec fn indexer_check(s: CoreState, indexer: Seq<u8>) -> Result<u64, ContractError> {
    match s.storage.indexers {
        None => Err(ContractError::NotInitialized),
        Some(m) => {
            if !lists(m, indexer) {
                Err(ContractError::IndexerNotFound)
            } else {
                Ok(next_count(total_events_of(s)))
            }
        },
    }
}

/// `record_event`: a listed indexer records an event; the counter goes up by
/// one and the record becomes the latest plain record of its type.
pub open spec fn record_event_step(
    s: CoreState,
    ledger: LedgerInfo,
    indexer: Seq<u8>,
    contract_id: Seq<u8>,
    event_type: Seq<u8>,
    payload_hash: [u8; 32],
) -> (CoreState, Result<u64, ContractError>) {
    match indexer_check(s, indexer) {
        Err(e) => fails(s, e),
        Ok(count) => {
            let r = EventRecordView {
                contract_id,
                event_type,
                payload_hash,
                ledger: ledger.sequence,
                timestamp: ledger.timestamp,
            };
            (
                CoreState {
                    storage: StorageView {
                        counter: Some(count),
                        latest: s.storage.latest.insert(event_type, r),
                        ..s.storage
                    },
                    events: s.events.push(ContractEventView::EventRecorded(r)),
                },
                Ok(count),
            )
        },
    }
}

/// `record_tagged_event`: like `record_event`, with at most `MAX_TAGS` tags;
/// the record becomes the latest tagged record of its type.
pub open spec fn record_tagged_event_step(
    s: CoreState,
    ledger: LedgerInfo,
    indexer: Seq<u8>,
    contract_id: Seq<u8>,
    event_type: Seq<u8>,
    payload_hash: [u8; 32],
    tags: Seq<Seq<u8>>,
) -> (CoreState, Result<u64, ContractError>) {
    if tags.len() > MAX_TAGS {
        fails(s, ContractError::TooManyTags)
    } else {
        match indexer_check(s, indexer) {
            Err(e) => fails(s, e),
            Ok(count) => {
                let r = TaggedEventRecordView {
                    contract_id,
                    event_type,
                    payload_hash,
                    tags,
                    ledger: ledger.sequence,
                    timestamp: ledger.timestamp,
                };
                (
                    CoreState {
                        storage: StorageView {
                            counter: Some(count),
                            latest_tagged: s.storage.latest_tagged.insert(event_type, r),
                            ..s.storage
                        },
                        events: s.events.push(ContractEventView::TaggedEventRecorded(r)),
                    },
                    Ok(count),
                )
            },
        }
    }
}

/// `record_structured_event`: like `record_event`, with a non-zero schema
/// version and a correlation id that is accepted once; the record is kept
/// under its correlation id and as the latest structured record of its type.
pub open spec fn record_structured_event_step(
    s: CoreState,
    ledger: LedgerInfo,
    indexer: Seq<u8>,
    contract_id: Seq<u8>,
    event_type: Seq<u8>,
    payload_hash: [u8; 32],
    schema_version: u32,
    correlation_id: [u8; 32],
) -> (CoreState, Result<u64, ContractError>) {
    if schema_version == 0 {
        fails(s, ContractError::InvalidSchemaVersion)
    } else {
        match indexer_check(s, indexer) {
            Err(e) => fails(s, e),
            Ok(count) => {
                if s.storage.by_correlation.contains_key(correlation_id@) {
                    fails(s, ContractError::DuplicateCorrelation)
                } else {
                    let r = StructuredEventRecordView {
                        contract_id,
                        event_type,
                        payload_hash,
                        schema_version,
                        correlation_id,
                        ledger: ledger.sequence,
                        timestamp: ledger.timestamp,
                    };
                    (
                        CoreState {
                            storage: StorageView {
                                counter: Some(count),
                                latest_structured: s.storage.latest_structured.insert(
                                    event_type,
                                    r,
                                ),
                                by_correlation: s.storage.by_correlation.insert(
                                    correlation_id@,
                                    r,
                                ),
                                ..s.storage
                            },
                            events: s.events.push(ContractEventView::StructuredEventRecorded(r)),
                        },
                        Ok(count),
                    )
                }
            },
        }
    }
}

pub open spec fn address_opt_view(a: Option<Address>) -> Option<Seq<u8>> {
    match a {
        Some(x) => Some(x@),
        None => None,
    }
}

pub open spec fn event_opt_view(r: Option<EventRecord>) -> Option<EventRecordView> {
    match r {
        Some(x) => Some(x@),
        None => None,
    }
}

pub open spec fn tagged_opt_view(r: Option<TaggedEventRecord>) -> Option<TaggedEventRecordView> {
    match r {
        Some(x) => Some(x@),
        None => None,
    }
}

pub open spec fn structured_opt_view(r: Option<StructuredEventRecord>) -> Option<
    StructuredEventRecordView,
> {
    match r {
        Some(x) => Some(x@),
        None => None,
    }
}

/// One deployed SoroScan core contract.
pub struct SoroScanCore {
    storage: InstanceStorage,
    events: Vec<ContractEvent>,
}

impl View for SoroScanCore {
    type V = CoreState;

    closed spec fn view(&self) -> CoreState {
        CoreState {
            storage: self.storage@,
            events: self.events@.map_values(|e: ContractEvent| e@),
        }
    }
}

impl SoroScanCore {
    /// A freshly deployed contract: nothing stored, nothing published.
    pub fn new() -> (c: Self)
        ensures
            c@ == fresh(),
    {
        let c = SoroScanCore { storage: InstanceStorage::new(), events: Vec::new() };
        assert(c@ =~= fresh());
        c
    }

    /// A contract whose instance storage holds `storage` and that has
    /// published nothing yet.
    pub fn from_storage(storage: InstanceStorage) -> (c: Self)
        ensures
            c@ == (CoreState { storage: storage@, events: Seq::empty() }),
    {
        let c = SoroScanCore { storage, events: Vec::new() };
        assert(c@ =~= (CoreState { storage: storage@, events: Seq::empty() }));
        c
    }

    /// The instance storage.
    pub fn storage(&self) -> (st: &InstanceStorage)
        ensures
            st@ == self@.storage,
    {
        &self.storage
    }

    /// The events published so far, oldest first.
    pub fn events(&self) -> (ev: &Vec<ContractEvent>)
        ensures
            ev@.map_values(|e: ContractEvent| e@) == self@.events,
    {
        &self.events
    }

    /// Appends one published event.
    fn publish(&mut self, e: ContractEvent)
        ensures
            final(self)@ == (CoreState {
                storage: old(self)@.storage,
                events: old(self)@.events.push(e@),
            }),
    {
        let ghost ev = e;
        self.events.push(e);
        assert(self.events@.map_values(|x: ContractEvent| x@) =~= old(self).events@.map_values(
            |x: ContractEvent| x@,
        ).push(ev@));
        assert(self@ =~= (CoreState {
            storage: old(self)@.storage,
            events: old(self)@.events.push(ev@),
        }));
    }

    /// The indexer check and the next counter value, as `indexer_check` says.
    fn check_indexer(&self, indexer: &Address) -> (r: Result<u64, ContractError>)
        ensures
            r == indexer_check(self@, indexer@),
    {
        match &self.storage.indexers {
            None => Err(ContractError::NotInitialized),
            Some(m) => {
                let listed = match m.get(indexer) {
                    Some(flag) => *flag,
                    None => false,
                };
                if !listed {
                    Err(ContractError::IndexerNotFound)
                } else {
                    Ok(self.total_events().saturating_add(1))
                }
            },
        }
    }

    /// Initialize the contract with an admin address. Can only be called once.
    pub fn init(&mut self, admin: Address) -> (result: Result<(), ContractError>)
        ensures
            (final(self)@, result) == init_step(old(self)@, admin@),
            result is Err ==> final(self)@ == old(self)@,
    {
        if self.storage.admin.is_some() {
            return Err(ContractError::AlreadyInitialized);
        }
        self.storage.admin = Some(admin);
        self.storage.indexers = Some(AssocMap::new());
        self.storage.counter = Some(0);
        assert(self@ =~= init_step(old(self)@, admin@).0);
        Ok(())
    }

    /// Checks that `admin` is the stored admin and takes the indexer map out
    /// of storage for a change.
    fn take_indexers_as_admin(&mut self, admin: &Address) -> (r: Result<
        AssocMap<Address, bool>,
        ContractError,
    >)
        ensures
            match r {
                Ok(m) => {
                    &&& admin_check(old(self)@, admin@) == Ok::<Map<Seq<u8>, bool>, ContractError>(
                        m@,
                    )
                    &&& final(self)@ == (CoreState {
                        storage: StorageView { indexers: None, ..old(self)@.storage },
                        events: old(self)@.events,
                    })
                },
                Err(e) => {
                    &&& admin_check(old(self)@, admin@) == Err::<Map<Seq<u8>, bool>, ContractError>(
                        e,
                    )
                    &&& final(self)@ == old(self)@
                },
            },
    {
        match &self.storage.admin {
            None => {
                return Err(ContractError::NotInitialized);
            },
            Some(stored) => {
                if !stored.key_eq(admin) {
                    return Err(ContractError::Unauthorized);
                }
            },
        }
        match self.storage.indexers.take() {
            None => {
                assert(self@ =~= old(self)@);
                Err(ContractError::NotInitialized)
            },
            Some(m) => {
                assert(self@ =~= (CoreState {
                    storage: StorageView { indexers: None, ..old(self)@.storage },
                    events: old(self)@.events,
                }));
                Ok(m)
            },
        }
    }

    /// Add an authorized indexer address; `admin` must be the stored admin.
    pub fn add_indexer(&mut self, admin: Address, indexer: Address) -> (result: Result<
        (),
        ContractError,
    >)
        ensures
            (final(self)@, result) == add_indexer_step(old(self)@, admin@, indexer@),
            result is Err ==> final(self)@ == old(self)@,
    {
        let mut m = match self.take_indexers_as_admin(&admin) {
            Ok(m) => m,
            Err(e) => {
                return Err(e);
            },
        };
        m.insert(indexer.clone(), true);
        self.storage.indexers = Some(m);
        self.publish(ContractEvent::IndexerAdded(indexer));
        assert(self@ =~= add_indexer_step(old(self)@, admin@, indexer@).0);
        Ok(())
    }

    /// Remove an authorized indexer address; `admin` must be the stored admin.
    pub fn remove_indexer(&mut self, admin: Address, indexer: Address) -> (result: Result<
        (),
        ContractError,
    >)
        ensures
            (final(self)@, result) == remove_indexer_step(old(self)@, admin@, indexer@),
            result is Err ==> final(self)@ == old(self)@,
    {
        let mut m = match self.take_indexers_as_admin(&admin) {
            Ok(m) => m,
            Err(e) => {
                return Err(e);
            },
        };
        m.remove(&indexer);
        self.storage.indexers = Some(m);
        self.publish(ContractEvent::IndexerRemoved(indexer));
        assert(self@ =~= remove_indexer_step(old(self)@, admin@, indexer@).0);
        Ok(())
    }

    /// Record an event from an indexed contract; only authorized indexers may.
    /// Returns the new total event count.
    pub fn record_event(
        &mut self,
        ledger: LedgerInfo,
        indexer: Address,
        contract_id: Address,
        event_type: Symbol,
        payload_hash: [u8; 32],
    ) -> (result: Result<u64, ContractError>)
        ensures
            (final(self)@, result) == record_event_step(
                old(self)@,
                ledger,
                indexer@,
                contract_id@,
                event_type@,
                payload_hash,
            ),
            result is Err ==> final(self)@ == old(self)@,
    {
        let count = match self.check_indexer(&indexer) {
            Ok(c) => c,
            Err(e) => {
                return Err(e);
            },
        };
        let record = EventRecord {
            contract_id,
            event_type: event_type.clone(),
            payload_hash,
            ledger: ledger.sequence,
            timestamp: ledger.timestamp,
        };
        self.storage.counter = Some(count);
        self.storage.latest.insert(event_type, record.clone());
        self.publish(ContractEvent::EventRecorded(record));
        assert(self@ =~= record_event_step(
            old(self)@,
            ledger,
            indexer@,
            contract_id@,
            event_type@,
            payload_hash,
        ).0);
        Ok(count)
    }

    /// Get the latest event record for a specific event type, or `None` if
    /// none has been recorded.
    pub fn latest_by_type(&self, event_type: Symbol) -> (r: Option<EventRecord>)
        ensures
            event_opt_view(r) == latest_by_type_of(self@, event_type@),
    {
        match self.storage.latest.get(&event_type) {
            Some(r) => Some(r.clone()),
            None => None,
        }
    }

    /// Get the total number of events recorded.
    pub fn total_events(&self) -> (n: u64)
        ensures
            n == total_events_of(self@),
    {
        match self.storage.counter {
            Some(n) => n,
            None => 0,
        }
    }

    /// Check if an address is an authorized indexer.
    pub fn is_indexer(&self, indexer: Address) -> (b: bool)
        ensures
            b == is_indexer_of(self@, indexer@),
    {
        match &self.storage.indexers {
            Some(m) => match m.get(&indexer) {
                Some(flag) => *flag,
                None => false,
            },
            None => false,
        }
    }

    /// Get the admin address, or `None` if not initialized.
    pub fn get_admin(&self) -> (a: Option<Address>)
        ensures
            address_opt_view(a) == admin_of(self@),
    {
        match &self.storage.admin {
            Some(a) => Some(a.clone()),
            None => None,
        }
    }

    /// Record a tagged event: like `record_event`, with up to `MAX_TAGS`
    /// producer-defined tags. Returns the new total event count.
    pub fn record_tagged_event(
        &mut self,
        ledger: LedgerInfo,
        indexer: Address,
        contract_id: Address,
        event_type: Symbol,
        payload_hash: [u8; 32],
        tags: Vec<Symbol>,
    ) -> (result: Result<u64, ContractError>)
        ensures
            (final(self)@, result) == record_tagged_event_step(
                old(self)@,
                ledger,
                indexer@,
                contract_id@,
                event_type@,
                payload_hash,
                tags@.map_values(|t: Symbol| t@),
            ),
            result is Err ==> final(self)@ == old(self)@,
    {
        if tags.len() > MAX_TAGS as usize {
            return Err(ContractError::TooManyTags);
        }
        let count = match self.check_indexer(&indexer) {
            Ok(c) => c,
            Err(e) => {
                return Err(e);
            },
        };
        let ghost tag_views = tags@.map_values(|t: Symbol| t@);
        let record = TaggedEventRecord {
            contract_id,
            event_type: event_type.clone(),
            payload_hash,
            tags,
            ledger: ledger.sequence,
            timestamp: ledger.timestamp,
        };
        self.storage.counter = Some(count);
        self.storage.latest_tagged.insert(event_type, record.clone());
        self.publish(ContractEvent::TaggedEventRecorded(record));
        assert(self@ =~= record_tagged_event_step(
            old(self)@,
            ledger,
            indexer@,
            contract_id@,
            event_type@,
            payload_hash,
            tag_views,
        ).0);
        Ok(count)
    }

    /// Return the latest tagged record for `event_type`, or `None` if no tagged
    /// event of that type has been recorded yet.
    pub fn latest_tagged_by_type(&self, event_type: Symbol) -> (r: Option<TaggedEventRecord>)
        ensures
            tagged_opt_view(r) == latest_tagged_by_type_of(self@, event_type@),
    {
        match self.storage.latest_tagged.get(&event_type) {
            Some(r) => Some(r.clone()),
            None => None,
        }
    }

    /// Record a structured event: like `record_event`, with a non-zero schema
    /// version and a correlation id that rejects retries of the same event.
    /// Returns the new total event count.
    pub fn record_structured_event(
        &mut self,
        ledger: LedgerInfo,
        indexer: Address,
        contract_id: Address,
        event_type: Symbol,
        payload_hash: [u8; 32],
        schema_version: u32,
        correlation_id: [u8; 32],
    ) -> (result: Result<u64, ContractError>)
        ensures
            (final(self)@, result) == record_structured_event_step(
                old(self)@,
                ledger,
                indexer@,
                contract_id@,
                event_type@,
                payload_hash,
                schema_version,
                correlation_id,
            ),
            result is Err ==> final(self)@ == old(self)@,
    {
        if schema_version == 0 {
            return Err(ContractError::InvalidSchemaVersion);
        }
        let count = match self.check_indexer(&indexer) {
            Ok(c) => c,
            Err(e) => {
                return Err(e);
            },
        };
        if self.storage.by_correlation.contains_key(&correlation_id) {
            return Err(ContractError::DuplicateCorrelation);
        }
        let record = StructuredEventRecord {
            contract_id,
            event_type: event_type.clone(),
            payload_hash,
            schema_version,
            correlation_id,
            ledger: ledger.sequence,
            timestamp: ledger.timestamp,
        };
        self.storage.counter = Some(count);
        self.storage.latest_structured.insert(event_type, record.clone());
        self.storage.by_correlation.insert(correlation_id, record.clone());
        self.publish(ContractEvent::StructuredEventRecorded(record));
        assert(self@ =~= record_structured_event_step(
            old(self)@,
            ledger,
            indexer@,
            contract_id@,
            event_type@,
            payload_hash,
            schema_version,
            correlation_id,
        ).0);
        Ok(count)
    }

    /// Return the latest structured record for `event_type`, or `None` if no
    /// structured event of that type has been recorded yet.
    pub fn latest_structured_by_type(&self, event_type: Symbol) -> (r: Option<
        StructuredEventRecord,
    >)
        ensures
            structured_opt_view(r) == latest_structured_by_type_of(self@, event_type@),
    {
        match self.storage.latest_structured.get(&event_type) {
            Some(r) => Some(r.clone()),
            None => None,
        }
    }
}

} // verus!
