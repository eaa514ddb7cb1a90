//! Properties of the contract that span calls, proved over the step functions
//! that the entry points' contracts are stated in.
use crate::contract::{
    add_indexer_step, admin_of, fails, fresh, init_step, is_indexer_of, latest_by_type_of,
    latest_structured_by_type_of, latest_tagged_by_type_of, next_count, record_event_step,
    record_structured_event_step, record_tagged_event_step, remove_indexer_step,
    total_events_of, CoreState, MAX_TAGS,
};
use crate::types::{
    ContractError, ContractEventView, EventRecordView, LedgerInfo, StructuredEventRecordView,
    TaggedEventRecordView,
};
use vstd::prelude::*;

verus! {

// ---------------------------------------------------------------------------
// Reachable states

/// The configuration slots are written together: the admin, the indexer map
/// and the counter are all present or all absent.
pub open spec fn consistent(s: CoreState) -> bool {
    &&& (s.storage.admin is Some) == (s.storage.indexers is Some)
    &&& (s.storage.admin is Some) == (s.storage.counter is Some)
}

/// Every entry point that changes state keeps the configuration consistent.
pub proof fn law_steps_keep_consistency(s: CoreState, call: Call)
    requires
        consistent(s),
    ensures
        consistent(apply(s, call)),
{
}

// ---------------------------------------------------------------------------
// Initialisation

/// `init` fails exactly when an admin is stored, with `AlreadyInitialized`
/// and no change; otherwise it succeeds.
pub proof fn law_init_fails_iff_initialised(s: CoreState, admin: Seq<u8>)
    ensures
        init_step(s, admin).1 is Err <==> admin_of(s) is Some,
        admin_of(s) is Some ==> init_step(s, admin) == fails::<()>(
            s,
            ContractError::AlreadyInitialized,
        ),
{
}

/// `init` succeeds at most once: after a successful `init`, every later `init`
/// fails with `AlreadyInitialized` and changes nothing.
pub proof fn law_init_only_once(s: CoreState, admin: Seq<u8>, other: Seq<u8>, s1: CoreState)
    requires
        init_step(s, admin) == (s1, Ok::<(), ContractError>(())),
    ensures
        init_step(s1, other) == fails::<()>(s1, ContractError::AlreadyInitialized),
{
}

/// A successful `init` leaves `admin` as the admin, no event counted and no
/// indexer listed, and publishes nothing.
pub proof fn law_init_state(s: CoreState, admin: Seq<u8>, s1: CoreState, who: Seq<u8>)
    requires
        init_step(s, admin) == (s1, Ok::<(), ContractError>(())),
    ensures
        admin_of(s1) == Some(admin),
        total_events_of(s1) == 0,
        !is_indexer_of(s1, who),
        s1.events == s.events,
{
}

// ---------------------------------------------------------------------------
// Indexer management

/// In a consistent state, indexer management answers `NotInitialized` exactly
/// before `init`, `Unauthorized` exactly to a caller other than the stored
/// admin, and succeeds for the admin; a refusal changes nothing.
pub proof fn law_indexer_management_answers(
    s: CoreState,
    caller: Seq<u8>,
    indexer: Seq<u8>,
)
    requires
        consistent(s),
    ensures
        admin_of(s) is None ==> add_indexer_step(s, caller, indexer) == fails::<()>(
            s,
            ContractError::NotInitialized,
        ) && remove_indexer_step(s, caller, indexer) == fails::<()>(
            s,
            ContractError::NotInitialized,
        ),
        admin_of(s) matches Some(a) && a != caller ==> add_indexer_step(s, caller, indexer)
            == fails::<()>(s, ContractError::Unauthorized) && remove_indexer_step(
            s,
            caller,
            indexer,
        ) == fails::<()>(s, ContractError::Unauthorized),
        admin_of(s) == Some(caller) ==> add_indexer_step(s, caller, indexer).1 is Ok
            && remove_indexer_step(s, caller, indexer).1 is Ok,
{
}

/// After a successful `add_indexer`, the indexer is listed; every other
/// address is listed as before, and the admin, the counter and every latest
/// record are unchanged; one `IndexerAdded` event is published.
pub proof fn law_add_then_listed(
    s: CoreState,
    admin: Seq<u8>,
    indexer: Seq<u8>,
    s1: CoreState,
    other: Seq<u8>,
)
    requires
        add_indexer_step(s, admin, indexer) == (s1, Ok::<(), ContractError>(())),
        other != indexer,
    ensures
        is_indexer_of(s1, indexer),
        is_indexer_of(s1, other) == is_indexer_of(s, other),
        admin_of(s1) == admin_of(s),
        total_events_of(s1) == total_events_of(s),
        s1.storage.latest == s.storage.latest,
        s1.storage.latest_tagged == s.storage.latest_tagged,
        s1.storage.latest_structured == s.storage.latest_structured,
        s1.storage.by_correlation == s.storage.by_correlation,
        s1.events == s.events.push(ContractEventView::IndexerAdded(indexer)),
{
}

/// After a successful `remove_indexer`, the indexer is not listed; every other
/// address is listed as before, and the admin, the counter and every latest
/// record are unchanged; one `IndexerRemoved` event is published.
pub proof fn law_remove_then_unlisted(
    s: CoreState,
    admin: Seq<u8>,
    indexer: Seq<u8>,
    s1: CoreState,
    other: Seq<u8>,
)
    requires
        remove_indexer_step(s, admin, indexer) == (s1, Ok::<(), ContractError>(())),
        other != indexer,
    ensures
        !is_indexer_of(s1, indexer),
        is_indexer_of(s1, other) == is_indexer_of(s, other),
        admin_of(s1) == admin_of(s),
        total_events_of(s1) == total_events_of(s),
        s1.storage.latest == s.storage.latest,
        s1.storage.latest_tagged == s.storage.latest_tagged,
        s1.storage.latest_structured == s.storage.latest_structured,
        s1.storage.by_correlation == s.storage.by_correlation,
        s1.events == s.events.push(ContractEventView::IndexerRemoved(indexer)),
{
}

// ---------------------------------------------------------------------------
// Recording

/// An address that is not a listed indexer records nothing, in any of the
/// three forms: the call fails and changes nothing. In a consistent state the
/// answer is `NotInitialized` before `init` and `IndexerNotFound` after it
/// (for tagged records, `TooManyTags` comes first).
pub proof fn law_unlisted_cannot_record(
    s: CoreState,
    ledger: LedgerInfo,
    who: Seq<u8>,
    contract_id: Seq<u8>,
    event_type: Seq<u8>,
    payload_hash: [u8; 32],
    tags: Seq<Seq<u8>>,
    schema_version: u32,
    correlation_id: [u8; 32],
)
    requires
        !is_indexer_of(s, who),
    ensures
        record_event_step(s, ledger, who, contract_id, event_type, payload_hash).0 == s,
        record_event_step(s, ledger, who, contract_id, event_type, payload_hash).1 is Err,
        record_tagged_event_step(s, ledger, who, contract_id, event_type, payload_hash, tags).0
            == s,
        record_tagged_event_step(
            s,
            ledger,
            who,
            contract_id,
            event_type,
            payload_hash,
            tags,
        ).1 is Err,
        record_structured_event_step(
            s,
            ledger,
            who,
            contract_id,
            event_type,
            payload_hash,
            schema_version,
            correlation_id,
        ).0 == s,
        record_structured_event_step(
            s,
            ledger,
            who,
            contract_id,
            event_type,
            payload_hash,
            schema_version,
            correlation_id,
        ).1 is Err,
        consistent(s) ==> record_event_step(s, ledger, who, contract_id, event_type, payload_hash).1
            == (if admin_of(s) is None {
            Err::<u64, ContractError>(ContractError::NotInitialized)
        } else {
            Err::<u64, ContractError>(ContractError::IndexerNotFound)
        }),
        consistent(s) && tags.len() <= MAX_TAGS ==> record_tagged_event_step(
            s,
            ledger,
            who,
            contract_id,
            event_type,
            payload_hash,
            tags,
        ).1 == (if admin_of(s) is None {
            Err::<u64, ContractError>(ContractError::NotInitialized)
        } else {
            Err::<u64, ContractError>(ContractError::IndexerNotFound)
        }),
        consistent(s) && schema_version != 0 ==> record_structured_event_step(
            s,
            ledger,
            who,
            contract_id,
            event_type,
            payload_hash,
            schema_version,
            correlation_id,
        ).1 == (if admin_of(s) is None {
            Err::<u64, ContractError>(ContractError::NotInitialized)
        } else {
            Err::<u64, ContractError>(ContractError::IndexerNotFound)
        }),
{
}

/// A listed indexer's records succeed: plain records always, tagged records
/// with at most `MAX_TAGS` tags, structured records with a non-zero schema
/// version and a correlation id not used before.
pub proof fn law_listed_indexer_records(
    s: CoreState,
    ledger: LedgerInfo,
    who: Seq<u8>,
    contract_id: Seq<u8>,
    event_type: Seq<u8>,
    payload_hash: [u8; 32],
    tags: Seq<Seq<u8>>,
    schema_version: u32,
    correlation_id: [u8; 32],
)
    requires
        is_indexer_of(s, who),
    ensures
        record_event_step(s, ledger, who, contract_id, event_type, payload_hash).1 is Ok,
        tags.len() <= MAX_TAGS ==> record_tagged_event_step(
            s,
            ledger,
            who,
            contract_id,
            event_type,
            payload_hash,
            tags,
        ).1 is Ok,
        schema_version != 0 && !s.storage.by_correlation.contains_key(correlation_id@)
            ==> record_structured_event_step(
            s,
            ledger,
            who,
            contract_id,
            event_type,
            payload_hash,
            schema_version,
            correlation_id,
        ).1 is Ok,
        schema_version != 0 && s.storage.by_correlation.contains_key(correlation_id@)
            ==> record_structured_event_step(
            s,
            ledger,
            who,
            contract_id,
            event_type,
            payload_hash,
            schema_version,
            correlation_id,
        ) == fails::<u64>(s, ContractError::DuplicateCorrelation),
{
}

/// A successful `record_event`, of any event type, returns the new total,
/// one more than before (saturating), which `total_events` then reports. Its
/// record becomes the latest plain record of its type and is published; the
/// admin, the indexers, every other latest record and the tagged and
/// structured records are unchanged.
pub proof fn law_record_event_effect(
    s: CoreState,
    ledger: LedgerInfo,
    who: Seq<u8>,
    contract_id: Seq<u8>,
    event_type: Seq<u8>,
    payload_hash: [u8; 32],
    s1: CoreState,
    n: u64,
    t: Seq<u8>,
    x: Seq<u8>,
    u: Seq<u8>,
)
    requires
        record_event_step(s, ledger, who, contract_id, event_type, payload_hash) == (
            s1,
            Ok::<u64, ContractError>(n),
        ),
        t != event_type,
    ensures
        n == next_count(total_events_of(s)),
        total_events_of(s1) == n,
        ({
            let r = EventRecordView {
                contract_id,
                event_type,
                payload_hash,
                ledger: ledger.sequence,
                timestamp: ledger.timestamp,
            };
            &&& latest_by_type_of(s1, event_type) == Some(r)
            &&& s1.events == s.events.push(ContractEventView::EventRecorded(r))
        }),
        latest_by_type_of(s1, t) == latest_by_type_of(s, t),
        admin_of(s1) == admin_of(s),
        is_indexer_of(s1, x) == is_indexer_of(s, x),
        s1.storage.latest_tagged == s.storage.latest_tagged,
        s1.storage.latest_structured == s.storage.latest_structured,
        s1.storage.by_correlation == s.storage.by_correlation,
        latest_tagged_by_type_of(s1, u) == latest_tagged_by_type_of(s, u),
        latest_structured_by_type_of(s1, u) == latest_structured_by_type_of(s, u),
{
}

/// A successful `record_tagged_event` returns the new total, one more than
/// before (saturating), which `total_events` then reports. Its record becomes
/// the latest tagged record of its type and is published; the admin, the
/// indexers, every plain record, every other tagged record and the structured
/// records are unchanged.
pub proof fn law_record_tagged_event_effect(
    s: CoreState,
    ledger: LedgerInfo,
    who: Seq<u8>,
    contract_id: Seq<u8>,
    event_type: Seq<u8>,
    payload_hash: [u8; 32],
    tags: Seq<Seq<u8>>,
    s1: CoreState,
    n: u64,
    t: Seq<u8>,
    x: Seq<u8>,
    u: Seq<u8>,
)
    requires
        record_tagged_event_step(s, ledger, who, contract_id, event_type, payload_hash, tags)
            == (s1, Ok::<u64, ContractError>(n)),
        t != event_type,
    ensures
        n == next_count(total_events_of(s)),
        total_events_of(s1) == n,
        ({
            let r = TaggedEventRecordView {
                contract_id,
                event_type,
                payload_hash,
                tags,
                ledger: ledger.sequence,
                timestamp: ledger.timestamp,
            };
            &&& latest_tagged_by_type_of(s1, event_type) == Some(r)
            &&& s1.events == s.events.push(ContractEventView::TaggedEventRecorded(r))
        }),
        latest_tagged_by_type_of(s1, t) == latest_tagged_by_type_of(s, t),
        s1.storage.latest == s.storage.latest,
        admin_of(s1) == admin_of(s),
        is_indexer_of(s1, x) == is_indexer_of(s, x),
        s1.storage.latest_structured == s.storage.latest_structured,
        s1.storage.by_correlation == s.storage.by_correlation,
        latest_by_type_of(s1, u) == latest_by_type_of(s, u),
        latest_structured_by_type_of(s1, u) == latest_structured_by_type_of(s, u),
{
}

/// A successful `record_structured_event` returns the new total, one more
/// than before (saturating), which `total_events` then reports. Its record
/// becomes the latest structured record of its type, is kept under its
/// correlation id and is published; the admin, the indexers, the plain and
/// tagged records and every other structured record are unchanged.
pub proof fn law_record_structured_event_effect(
    s: CoreState,
    ledger: LedgerInfo,
    who: Seq<u8>,
    contract_id: Seq<u8>,
    event_type: Seq<u8>,
    payload_hash: [u8; 32],
    schema_version: u32,
    correlation_id: [u8; 32],
    s1: CoreState,
    n: u64,
    t: Seq<u8>,
    x: Seq<u8>,
    u: Seq<u8>,
)
    requires
        record_structured_event_step(
            s,
            ledger,
            who,
            contract_id,
            event_type,
            payload_hash,
            schema_version,
            correlation_id,
        ) == (s1, Ok::<u64, ContractError>(n)),
        t != event_type,
    ensures
        n == next_count(total_events_of(s)),
        total_events_of(s1) == n,
        ({
            let r = StructuredEventRecordView {
                contract_id,
                event_type,
                payload_hash,
                schema_version,
                correlation_id,
                ledger: ledger.sequence,
                timestamp: ledger.timestamp,
            };
            &&& latest_structured_by_type_of(s1, event_type) == Some(r)
            &&& s1.storage.by_correlation == s.storage.by_correlation.insert(correlation_id@, r)
            &&& s1.events == s.events.push(ContractEventView::StructuredEventRecorded(r))
        }),
        latest_structured_by_type_of(s1, t) == latest_structured_by_type_of(s, t),
        s1.storage.latest == s.storage.latest,
        s1.storage.latest_tagged == s.storage.latest_tagged,
        admin_of(s1) == admin_of(s),
        is_indexer_of(s1, x) == is_indexer_of(s, x),
        latest_by_type_of(s1, u) == latest_by_type_of(s, u),
        latest_tagged_by_type_of(s1, u) == latest_tagged_by_type_of(s, u),
{
}

/// More than `MAX_TAGS` tags are refused with `TooManyTags` before anything
/// else is looked at, and nothing changes.
pub proof fn law_too_many_tags(
    s: CoreState,
    ledger: LedgerInfo,
    who: Seq<u8>,
    contract_id: Seq<u8>,
    event_type: Seq<u8>,
    payload_hash: [u8; 32],
    tags: Seq<Seq<u8>>,
)
    requires
        tags.len() > MAX_TAGS,
    ensures
        record_tagged_event_step(s, ledger, who, contract_id, event_type, payload_hash, tags)
            == fails::<u64>(s, ContractError::TooManyTags),
{
}

/// A structured event with schema version zero is refused with
/// `InvalidSchemaVersion` before anything else is looked at, and nothing changes.
pub proof fn law_zero_schema_version(
    s: CoreState,
    ledger: LedgerInfo,
    who: Seq<u8>,
    contract_id: Seq<u8>,
    event_type: Seq<u8>,
    payload_hash: [u8; 32],
    correlation_id: [u8; 32],
)
    ensures
        record_structured_event_step(
            s,
            ledger,
            who,
            contract_id,
            event_type,
            payload_hash,
            0,
            correlation_id,
        ) == fails::<u64>(s, ContractError::InvalidSchemaVersion),
{
}

/// A correlation id is accepted once: after a structured event was recorded
/// with it, a retry with the same id by a listed indexer is refused with
/// `DuplicateCorrelation` and changes nothing, whatever else it carries.
pub proof fn law_correlation_id_accepted_once(
    s: CoreState,
    ledger: LedgerInfo,
    who: Seq<u8>,
    contract_id: Seq<u8>,
    event_type: Seq<u8>,
    payload_hash: [u8; 32],
    schema_version: u32,
    correlation_id: [u8; 32],
    s1: CoreState,
    n: u64,
    ledger2: LedgerInfo,
    who2: Seq<u8>,
    contract_id2: Seq<u8>,
    event_type2: Seq<u8>,
    payload_hash2: [u8; 32],
    schema_version2: u32,
)
    requires
        record_structured_event_step(
            s,
            ledger,
            who,
            contract_id,
            event_type,
            payload_hash,
            schema_version,
            correlation_id,
        ) == (s1, Ok::<u64, ContractError>(n)),
        is_indexer_of(s1, who2),
        schema_version2 != 0,
    ensures
        record_structured_event_step(
            s1,
            ledger2,
            who2,
            contract_id2,
            event_type2,
            payload_hash2,
            schema_version2,
            correlation_id,
        ) == fails::<u64>(s1, ContractError::DuplicateCorrelation),
{
}

// ---------------------------------------------------------------------------
// Sequences of calls

/// A call of an entry point that may change the contract's state.
pub enum Call {
    Init { admin: Seq<u8> },
    AddIndexer { admin: Seq<u8>, indexer: Seq<u8> },
    RemoveIndexer { admin: Seq<u8>, indexer: Seq<u8> },
    RecordEvent {
        ledger: LedgerInfo,
        indexer: Seq<u8>,
        contract_id: Seq<u8>,
        event_type: Seq<u8>,
        payload_hash: [u8; 32],
    },
    RecordTaggedEvent {
        ledger: LedgerInfo,
        indexer: Seq<u8>,
        contract_id: Seq<u8>,
        event_type: Seq<u8>,
        payload_hash: [u8; 32],
        tags: Seq<Seq<u8>>,
    },
    RecordStructuredEvent {
        ledger: LedgerInfo,
        indexer: Seq<u8>,
        contract_id: Seq<u8>,
        event_type: Seq<u8>,
        payload_hash: [u8; 32],
        schema_version: u32,
        correlation_id: [u8; 32],
    },
}

/// The state after `call`.
pub open spec fn apply(s: CoreState, call: Call) -> CoreState {
    match call {
        Call::Init { admin } => init_step(s, admin).0,
        Call::AddIndexer { admin, indexer } => add_indexer_step(s, admin, indexer).0,
        Call::RemoveIndexer { admin, indexer } => remove_indexer_step(s, admin, indexer).0,
        Call::RecordEvent { ledger, indexer, contract_id, event_type, payload_hash } =>
            record_event_step(s, ledger, indexer, contract_id, event_type, payload_hash).0,
        Call::RecordTaggedEvent {
            ledger,
            indexer,
            contract_id,
            event_type,
            payload_hash,
            tags,
        } => record_tagged_event_step(
            s,
            ledger,
            indexer,
            contract_id,
            event_type,
            payload_hash,
            tags,
        ).0,
        Call::RecordStructuredEvent {
            ledger,
            indexer,
            contract_id,
            event_type,
            payload_hash,
            schema_version,
            correlation_id,
        } => record_structured_event_step(
            s,
            ledger,
            indexer,
            contract_id,
            event_type,
            payload_hash,
            schema_version,
            correlation_id,
        ).0,
    }
}

/// Whether `call` succeeds in state `s`.
pub open spec fn succeeds(s: CoreState, call: Call) -> bool {
    match call {
        Call::Init { admin } => init_step(s, admin).1 is Ok,
        Call::AddIndexer { admin, indexer } => add_indexer_step(s, admin, indexer).1 is Ok,
        Call::RemoveIndexer { admin, indexer } => remove_indexer_step(s, admin, indexer).1 is Ok,
        Call::RecordEvent { ledger, indexer, contract_id, event_type, payload_hash } =>
            record_event_step(s, ledger, indexer, contract_id, event_type, payload_hash).1 is Ok,
        Call::RecordTaggedEvent {
            ledger,
            indexer,
            contract_id,
            event_type,
            payload_hash,
            tags,
        } => record_tagged_event_step(
            s,
            ledger,
            indexer,
            contract_id,
            event_type,
            payload_hash,
            tags,
        ).1 is Ok,
        Call::RecordStructuredEvent {
            ledger,
            indexer,
            contract_id,
            event_type,
            payload_hash,
            schema_version,
            correlation_id,
        } => record_structured_event_step(
            s,
            ledger,
            indexer,
            contract_id,
            event_type,
            payload_hash,
            schema_version,
            correlation_id,
        ).1 is Ok,
    }
}

/// The state after the calls, in order, starting from `s`.
pub open spec fn run(s: CoreState, calls: Seq<Call>) -> CoreState
    decreases calls.len(),
{
    if calls.len() == 0 {
        s
    } else {
        apply(run(s, calls.drop_last()), calls.last())
    }
}

/// Whether a call records an event (of any of the three forms).
pub open spec fn is_record(call: Call) -> bool {
    call is RecordEvent || call is RecordTaggedEvent || call is RecordStructuredEvent
}

/// How many of the calls recorded an event successfully.
pub open spec fn successful_records(s: CoreState, calls: Seq<Call>) -> nat
    decreases calls.len(),
{
    if calls.len() == 0 {
        0
    } else {
        let before = run(s, calls.drop_last());
        successful_records(s, calls.drop_last()) + if is_record(calls.last()) && succeeds(
            before,
            calls.last(),
        ) {
            1nat
        } else {
            0nat
        }
    }
}

/// The number `n`, saturating at the counter's maximum.
pub open spec fn saturating(n: nat) -> u64 {
    if n >= u64::MAX {
        u64::MAX
    } else {
        n as u64
    }
}

/// Whether the last successful `add_indexer` or `remove_indexer` naming `who`
/// among the calls was an add (`Some(true)`), a remove (`Some(false)`), or
/// there was none.
pub open spec fn last_membership(s: CoreState, calls: Seq<Call>, who: Seq<u8>) -> Option<bool>
    decreases calls.len(),
{
    if calls.len() == 0 {
        None
    } else {
        let before = run(s, calls.drop_last());
        let c = calls.last();
        if succeeds(before, c) && (c matches Call::AddIndexer { indexer, .. } && indexer == who) {
            Some(true)
        } else if succeeds(before, c) && (c matches Call::RemoveIndexer { indexer, .. } && indexer
            == who) {
            Some(false)
        } else {
            last_membership(s, calls.drop_last(), who)
        }
    }
}

/// The record of the last successful `record_event` of type `t` among the
/// calls, if any.
pub open spec fn last_plain_record(s: CoreState, calls: Seq<Call>, t: Seq<u8>) -> Option<
    EventRecordView,
>
    decreases calls.len(),
{
    if calls.len() == 0 {
        None
    } else {
        let before = run(s, calls.drop_last());
        let c = calls.last();
        match c {
            Call::RecordEvent { ledger, indexer: _, contract_id, event_type, payload_hash } => {
                if event_type == t && succeeds(before, c) {
                    Some(
                        EventRecordView {
                            contract_id,
                            event_type,
                            payload_hash,
                            ledger: ledger.sequence,
                            timestamp: ledger.timestamp,
                        },
                    )
                } else {
                    last_plain_record(s, calls.drop_last(), t)
                }
            },
            _ => last_plain_record(s, calls.drop_last(), t),
        }
    }
}

/// Every state reached from a fresh contract is consistent.
pub proof fn law_reachable_consistent(calls: Seq<Call>)
    ensures
        consistent(run(fresh(), calls)),
    decreases calls.len(),
{
    if calls.len() > 0 {
        law_reachable_consistent(calls.drop_last());
    }
}

/// From a fresh contract, `total_events` is the number of successful records
/// (of all three forms), saturating at the counter's maximum, whatever the
/// sequence of calls.
pub proof fn law_total_counts_successful_records(calls: Seq<Call>)
    ensures
        total_events_of(run(fresh(), calls)) == saturating(successful_records(fresh(), calls)),
    decreases calls.len(),
{
    if calls.len() > 0 {
        law_total_counts_successful_records(calls.drop_last());
        law_reachable_consistent(calls.drop_last());
    }
}

/// From a fresh contract, an address is listed exactly when the last
/// successful `add_indexer` or `remove_indexer` naming it was an add (which
/// can only succeed once `init` has).
pub proof fn law_listed_iff_last_added(calls: Seq<Call>, who: Seq<u8>)
    ensures
        is_indexer_of(run(fresh(), calls), who) == (last_membership(fresh(), calls, who) == Some(
            true,
        )),
    decreases calls.len(),
{
    if calls.len() > 0 {
        law_listed_iff_last_added(calls.drop_last(), who);
        law_reachable_consistent(calls.drop_last());
    }
}

/// Once an admin is stored, no sequence of calls changes it.
pub proof fn law_admin_never_changes(s: CoreState, calls: Seq<Call>)
    requires
        admin_of(s) is Some,
    ensures
        admin_of(run(s, calls)) == admin_of(s),
    decreases calls.len(),
{
    if calls.len() > 0 {
        law_admin_never_changes(s, calls.drop_last());
    }
}

/// From a fresh contract, `latest_by_type(t)` is `None` until a record of type
/// `t` has been recorded, and then the record of the last successful
/// `record_event` of that type.
pub proof fn law_latest_is_last_record(calls: Seq<Call>, t: Seq<u8>)
    ensures
        latest_by_type_of(run(fresh(), calls), t) == last_plain_record(fresh(), calls, t),
    decreases calls.len(),
{
    if calls.len() > 0 {
        law_latest_is_last_record(calls.drop_last(), t);
    }
}

/// The record of the last successful `record_tagged_event` of type `t` among
/// the calls, if any.
pub open spec fn last_tagged_record(s: CoreState, calls: Seq<Call>, t: Seq<u8>) -> Option<
    TaggedEventRecordView,
>
    decreases calls.len(),
{
    if calls.len() == 0 {
        None
    } else {
        let before = run(s, calls.drop_last());
        let c = calls.last();
        match c {
            Call::RecordTaggedEvent {
                ledger,
                indexer: _,
                contract_id,
                event_type,
                payload_hash,
                tags,
            } => {
                if event_type == t && succeeds(before, c) {
                    Some(
                        TaggedEventRecordView {
                            contract_id,
                            event_type,
                            payload_hash,
                            tags,
                            ledger: ledger.sequence,
                            timestamp: ledger.timestamp,
                        },
                    )
                } else {
                    last_tagged_record(s, calls.drop_last(), t)
                }
            },
            _ => last_tagged_record(s, calls.drop_last(), t),
        }
    }
}

/// The record of the last successful `record_structured_event` of type `t`
/// among the calls, if any.
pub open spec fn last_structured_record(s: CoreState, calls: Seq<Call>, t: Seq<u8>) -> Option<
    StructuredEventRecordView,
>
    decreases calls.len(),
{
    if calls.len() == 0 {
        None
    } else {
        let before = run(s, calls.drop_last());
        let c = calls.last();
        match c {
            Call::RecordStructuredEvent {
                ledger,
                indexer: _,
                contract_id,
                event_type,
                payload_hash,
                schema_version,
                correlation_id,
            } => {
                if event_type == t && succeeds(before, c) {
                    Some(
                        StructuredEventRecordView {
                            contract_id,
                            event_type,
                            payload_hash,
                            schema_version,
                            correlation_id,
                            ledger: ledger.sequence,
                            timestamp: ledger.timestamp,
                        },
                    )
                } else {
                    last_structured_record(s, calls.drop_last(), t)
                }
            },
            _ => last_structured_record(s, calls.drop_last(), t),
        }
    }
}

/// The admin named by the first successful `init` among the calls, if any.
pub open spec fn first_admin(s: CoreState, calls: Seq<Call>) -> Option<Seq<u8>>
    decreases calls.len(),
{
    if calls.len() == 0 {
        None
    } else {
        let earlier = first_admin(s, calls.drop_last());
        if earlier is Some {
            earlier
        } else {
            match calls.last() {
                Call::Init { admin } => {
                    if succeeds(run(s, calls.drop_last()), calls.last()) {
                        Some(admin)
                    } else {
                        None
                    }
                },
                _ => None,
            }
        }
    }
}

/// The events that a successful call publishes, in terms of its arguments.
pub open spec fn events_of(call: Call) -> Seq<ContractEventView> {
    match call {
        Call::Init { .. } => Seq::empty(),
        Call::AddIndexer { indexer, .. } => seq![ContractEventView::IndexerAdded(indexer)],
        Call::RemoveIndexer { indexer, .. } => seq![ContractEventView::IndexerRemoved(indexer)],
        Call::RecordEvent { ledger, indexer: _, contract_id, event_type, payload_hash } => seq![
            ContractEventView::EventRecorded(
                EventRecordView {
                    contract_id,
                    event_type,
                    payload_hash,
                    ledger: ledger.sequence,
                    timestamp: ledger.timestamp,
                },
            ),
        ],
        Call::RecordTaggedEvent {
            ledger,
            indexer: _,
            contract_id,
            event_type,
            payload_hash,
            tags,
        } => seq![
            ContractEventView::TaggedEventRecorded(
                TaggedEventRecordView {
                    contract_id,
                    event_type,
                    payload_hash,
                    tags,
                    ledger: ledger.sequence,
                    timestamp: ledger.timestamp,
                },
            ),
        ],
        Call::RecordStructuredEvent {
            ledger,
            indexer: _,
            contract_id,
            event_type,
            payload_hash,
            schema_version,
            correlation_id,
        } => seq![
            ContractEventView::StructuredEventRecorded(
                StructuredEventRecordView {
                    contract_id,
                    event_type,
                    payload_hash,
                    schema_version,
                    correlation_id,
                    ledger: ledger.sequence,
                    timestamp: ledger.timestamp,
                },
            ),
        ],
    }
}

/// The events published by the successful calls, in order.
pub open spec fn published(s: CoreState, calls: Seq<Call>) -> Seq<ContractEventView>
    decreases calls.len(),
{
    if calls.len() == 0 {
        Seq::empty()
    } else {
        let before = run(s, calls.drop_last());
        published(s, calls.drop_last()) + if succeeds(before, calls.last()) {
            events_of(calls.last())
        } else {
            Seq::empty()
        }
    }
}

/// From a fresh contract, `latest_tagged_by_type(t)` is `None` until a tagged
/// record of type `t` has been recorded, and then the record of the last
/// successful `record_tagged_event` of that type; plain and structured records
/// never show there.
pub proof fn law_latest_tagged_is_last_tagged_record(calls: Seq<Call>, t: Seq<u8>)
    ensures
        latest_tagged_by_type_of(run(fresh(), calls), t) == last_tagged_record(fresh(), calls, t),
    decreases calls.len(),
{
    if calls.len() > 0 {
        law_latest_tagged_is_last_tagged_record(calls.drop_last(), t);
    }
}

/// From a fresh contract, `latest_structured_by_type(t)` is `None` until a
/// structured record of type `t` has been recorded, and then the record of the
/// last successful `record_structured_event` of that type.
pub proof fn law_latest_structured_is_last_structured_record(calls: Seq<Call>, t: Seq<u8>)
    ensures
        latest_structured_by_type_of(run(fresh(), calls), t) == last_structured_record(
            fresh(),
            calls,
            t,
        ),
    decreases calls.len(),
{
    if calls.len() > 0 {
        law_latest_structured_is_last_structured_record(calls.drop_last(), t);
    }
}

/// From a fresh contract, `get_admin` is `None` until an `init` succeeds, and
/// then the admin that the first successful `init` named.
pub proof fn law_admin_is_first_initialised(calls: Seq<Call>)
    ensures
        admin_of(run(fresh(), calls)) == first_admin(fresh(), calls),
    decreases calls.len(),
{
    if calls.len() > 0 {
        law_admin_is_first_initialised(calls.drop_last());
    }
}

/// From a fresh contract, the published events are exactly those of the
/// successful calls, in order: one per successful indexer change or record,
/// none for `init` and none for a refused call.
pub proof fn law_published_events(calls: Seq<Call>)
    ensures
        run(fresh(), calls).events == published(fresh(), calls),
    decreases calls.len(),
{
    if calls.len() > 0 {
        law_published_events(calls.drop_last());
        let prefix = calls.drop_last();
        let before = run(fresh(), prefix);
        assert(run(fresh(), calls).events =~= published(fresh(), prefix) + if succeeds(
            before,
            calls.last(),
        ) {
            events_of(calls.last())
        } else {
            Seq::empty()
        });
    }
}

} // verus!
