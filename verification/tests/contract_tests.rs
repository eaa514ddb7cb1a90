use soroscan_core::assoc_map::AssocMap;
use soroscan_core::contract::{InstanceStorage, SoroScanCore, MAX_TAGS};
use soroscan_core::types::{
    Address, ContractError, ContractEvent, EventRecord, LedgerInfo, Symbol,
};

fn addr(n: u8) -> Address {
    Address::new(vec![n; 32])
}

fn sym(s: &str) -> Symbol {
    Symbol::new(s.as_bytes().to_vec())
}

fn ledger() -> LedgerInfo {
    LedgerInfo { sequence: 0, timestamp: 0 }
}

/// A contract initialised with admin `addr(1)` and indexer `addr(2)`.
fn with_indexer() -> SoroScanCore {
    let mut core = SoroScanCore::new();
    core.init(addr(1)).unwrap();
    core.add_indexer(addr(1), addr(2)).unwrap();
    core
}

#[test]
fn test_init() {
    let mut core = SoroScanCore::new();
    let admin = addr(1);
    core.init(admin.clone()).unwrap();

    assert_eq!(core.get_admin(), Some(admin));
    assert_eq!(core.total_events(), 0);
}

#[test]
fn test_add_and_remove_indexer() {
    let mut core = SoroScanCore::new();
    let admin = addr(1);
    let indexer = addr(2);

    core.init(admin.clone()).unwrap();

    assert!(!core.is_indexer(indexer.clone()));

    core.add_indexer(admin.clone(), indexer.clone()).unwrap();
    assert!(core.is_indexer(indexer.clone()));

    core.remove_indexer(admin.clone(), indexer.clone()).unwrap();
    assert!(!core.is_indexer(indexer.clone()));
}

#[test]
fn test_record_event() {
    let mut core = SoroScanCore::new();
    let admin = addr(1);
    let indexer = addr(2);
    let target_contract = addr(3);

    core.init(admin.clone()).unwrap();
    core.add_indexer(admin.clone(), indexer.clone()).unwrap();

    let event_type = sym("swap");
    let payload_hash = [0u8; 32];

    let count = core
        .record_event(ledger(), indexer.clone(), target_contract, event_type.clone(), payload_hash)
        .unwrap();
    assert_eq!(count, 1);
    assert_eq!(core.total_events(), 1);

    let latest = core.latest_by_type(event_type.clone());
    assert!(latest.is_some());
    assert_eq!(latest.unwrap().event_type, event_type);
}

#[test]
fn test_add_indexer_as_non_admin() {
    let mut core = SoroScanCore::new();
    let admin = addr(1);
    let non_admin = addr(2);
    let indexer = addr(3);

    core.init(admin).unwrap();

    let result = core.add_indexer(non_admin, indexer);
    assert_eq!(result, Err(ContractError::Unauthorized));
}

#[test]
fn test_record_event_not_whitelisted() {
    let mut core = SoroScanCore::new();
    let admin = addr(1);
    let rogue = addr(2);
    let target = addr(3);

    core.init(admin).unwrap();

    let event_type = sym("swap");
    let payload_hash = [0u8; 32];

    let result = core.record_event(ledger(), rogue, target, event_type, payload_hash);
    assert_eq!(result, Err(ContractError::IndexerNotFound));
}

#[test]
fn test_double_initialize() {
    let mut core = SoroScanCore::new();
    let admin = addr(1);
    core.init(admin.clone()).unwrap();

    let result = core.init(admin);
    assert_eq!(result, Err(ContractError::AlreadyInitialized));
}

#[test]
fn test_record_tagged_event_happy_path() {
    let mut core = SoroScanCore::new();
    let admin = addr(1);
    let indexer = addr(2);
    let target = addr(3);
    let payload_hash = [5u8; 32];

    core.init(admin.clone()).unwrap();
    core.add_indexer(admin, indexer.clone()).unwrap();

    let event_type = sym("transfer");
    let tags = vec![sym("defi"), sym("token")];

    let count = core
        .record_tagged_event(ledger(), indexer, target, event_type.clone(), payload_hash, tags)
        .unwrap();
    assert_eq!(count, 1);
    assert_eq!(core.total_events(), 1);

    let latest = core.latest_tagged_by_type(event_type.clone()).unwrap();
    assert_eq!(latest.event_type, event_type);
    assert_eq!(latest.payload_hash, payload_hash);
    assert_eq!(latest.tags.len(), 2);
}

#[test]
fn test_record_tagged_event_empty_tags() {
    let mut core = SoroScanCore::new();
    let admin = addr(1);
    let indexer = addr(2);
    core.init(admin.clone()).unwrap();
    core.add_indexer(admin, indexer.clone()).unwrap();

    let event_type = sym("mint");
    let empty_tags: Vec<Symbol> = vec![];

    let count = core
        .record_tagged_event(ledger(), indexer, addr(3), event_type.clone(), [6u8; 32], empty_tags)
        .unwrap();
    assert_eq!(count, 1);
    let latest = core.latest_tagged_by_type(event_type).unwrap();
    assert_eq!(latest.tags.len(), 0);
}

#[test]
fn test_record_tagged_event_rejects_too_many_tags() {
    let mut core = SoroScanCore::new();
    let admin = addr(1);
    let indexer = addr(2);
    core.init(admin.clone()).unwrap();
    core.add_indexer(admin, indexer.clone()).unwrap();

    // Five tags: one more than MAX_TAGS = 4.
    let five_tags = vec![sym("a"), sym("b"), sym("c"), sym("d"), sym("e")];
    let result =
        core.record_tagged_event(ledger(), indexer, addr(3), sym("burn"), [7u8; 32], five_tags);
    assert_eq!(result, Err(ContractError::TooManyTags));
}

#[test]
fn test_record_tagged_event_rejects_unauthorized_indexer() {
    let mut core = SoroScanCore::new();
    let admin = addr(1);
    core.init(admin).unwrap();

    // No indexer registered.
    let rogue = addr(2);
    let result = core.record_tagged_event(ledger(), rogue, addr(3), sym("swap"), [8u8; 32], vec![]);
    assert_eq!(result, Err(ContractError::IndexerNotFound));
}

#[test]
fn test_latest_tagged_by_type_returns_none_before_first_event() {
    let mut core = SoroScanCore::new();
    core.init(addr(1)).unwrap();

    assert_eq!(core.latest_tagged_by_type(sym("swap")), None);
}

#[test]
fn test_tagged_and_legacy_event_coexist() {
    // A plain and a tagged event of the same type are kept in separate slots.
    let mut core = SoroScanCore::new();
    let admin = addr(1);
    let indexer = addr(2);
    let target = addr(3);
    core.init(admin.clone()).unwrap();
    core.add_indexer(admin, indexer.clone()).unwrap();

    let event_type = sym("swap");
    let hash_legacy = [9u8; 32];
    let hash_tagged = [10u8; 32];

    core.record_event(ledger(), indexer.clone(), target.clone(), event_type.clone(), hash_legacy)
        .unwrap();
    core.record_tagged_event(
        ledger(),
        indexer,
        target,
        event_type.clone(),
        hash_tagged,
        vec![sym("dex")],
    )
    .unwrap();

    assert_eq!(core.latest_by_type(event_type.clone()).unwrap().payload_hash, hash_legacy);
    assert_eq!(core.latest_tagged_by_type(event_type).unwrap().payload_hash, hash_tagged);
}

// ---- further cases ----

#[test]
fn error_codes() {
    assert_eq!(ContractError::Unauthorized.code(), 1);
    assert_eq!(ContractError::IndexerNotFound.code(), 2);
    assert_eq!(ContractError::AlreadyInitialized.code(), 3);
    assert_eq!(ContractError::NotInitialized.code(), 4);
    assert_eq!(ContractError::InvalidSchemaVersion.code(), 5);
    assert_eq!(ContractError::DuplicateCorrelation.code(), 6);
    assert_eq!(ContractError::TooManyTags.code(), 7);
}

#[test]
fn calls_before_init() {
    let mut core = SoroScanCore::new();
    assert_eq!(core.get_admin(), None);
    assert_eq!(core.total_events(), 0);
    assert!(!core.is_indexer(addr(2)));
    assert_eq!(core.latest_by_type(sym("swap")), None);
    assert_eq!(core.add_indexer(addr(1), addr(2)), Err(ContractError::NotInitialized));
    assert_eq!(core.remove_indexer(addr(1), addr(2)), Err(ContractError::NotInitialized));
    assert_eq!(
        core.record_event(ledger(), addr(2), addr(3), sym("swap"), [0u8; 32]),
        Err(ContractError::NotInitialized)
    );
    assert_eq!(
        core.record_structured_event(ledger(), addr(2), addr(3), sym("swap"), [0u8; 32], 1, [1u8; 32]),
        Err(ContractError::NotInitialized)
    );
    assert!(core.events().is_empty());
}

#[test]
fn failed_calls_change_nothing() {
    let mut core = with_indexer();
    let before_events = core.events().len();
    assert_eq!(core.remove_indexer(addr(9), addr(2)), Err(ContractError::Unauthorized));
    assert!(core.is_indexer(addr(2)));
    assert_eq!(core.init(addr(9)), Err(ContractError::AlreadyInitialized));
    assert_eq!(core.get_admin(), Some(addr(1)));
    assert_eq!(core.events().len(), before_events);
    assert_eq!(core.total_events(), 0);
}

#[test]
fn indexer_changes_are_published() {
    let mut core = with_indexer();
    core.remove_indexer(addr(1), addr(2)).unwrap();
    assert_eq!(
        core.events(),
        &vec![ContractEvent::IndexerAdded(addr(2)), ContractEvent::IndexerRemoved(addr(2))]
    );
}

#[test]
fn record_keeps_ledger_and_publishes() {
    let mut core = with_indexer();
    let info = LedgerInfo { sequence: 1234, timestamp: 1_700_000_000 };
    core.record_event(info, addr(2), addr(3), sym("swap"), [4u8; 32]).unwrap();
    let expected = EventRecord {
        contract_id: addr(3),
        event_type: sym("swap"),
        payload_hash: [4u8; 32],
        ledger: 1234,
        timestamp: 1_700_000_000,
    };
    assert_eq!(core.latest_by_type(sym("swap")), Some(expected.clone()));
    assert_eq!(core.events().last(), Some(&ContractEvent::EventRecorded(expected)));
}

#[test]
fn counter_is_shared_by_all_kinds() {
    let mut core = with_indexer();
    assert_eq!(core.record_event(ledger(), addr(2), addr(3), sym("swap"), [0u8; 32]), Ok(1));
    assert_eq!(
        core.record_tagged_event(ledger(), addr(2), addr(3), sym("swap"), [0u8; 32], vec![]),
        Ok(2)
    );
    assert_eq!(
        core.record_structured_event(ledger(), addr(2), addr(3), sym("swap"), [0u8; 32], 1, [1u8; 32]),
        Ok(3)
    );
    assert_eq!(core.total_events(), 3);
}

#[test]
fn four_tags_are_accepted() {
    let mut core = with_indexer();
    let tags = vec![sym("a"), sym("b"), sym("c"), sym("d")];
    assert_eq!(tags.len(), MAX_TAGS as usize);
    assert_eq!(core.record_tagged_event(ledger(), addr(2), addr(3), sym("t"), [0u8; 32], tags), Ok(1));
}

#[test]
fn structured_events() {
    let mut core = with_indexer();
    assert_eq!(
        core.record_structured_event(ledger(), addr(2), addr(3), sym("swap"), [1u8; 32], 0, [7u8; 32]),
        Err(ContractError::InvalidSchemaVersion)
    );
    assert_eq!(
        core.record_structured_event(ledger(), addr(9), addr(3), sym("swap"), [1u8; 32], 2, [7u8; 32]),
        Err(ContractError::IndexerNotFound)
    );
    assert_eq!(core.latest_structured_by_type(sym("swap")), None);
    assert_eq!(
        core.record_structured_event(ledger(), addr(2), addr(3), sym("swap"), [1u8; 32], 2, [7u8; 32]),
        Ok(1)
    );
    let latest = core.latest_structured_by_type(sym("swap")).unwrap();
    assert_eq!(latest.schema_version, 2);
    assert_eq!(latest.correlation_id, [7u8; 32]);
    // A retry with the same correlation id is refused, whatever it carries.
    assert_eq!(
        core.record_structured_event(ledger(), addr(2), addr(4), sym("mint"), [2u8; 32], 3, [7u8; 32]),
        Err(ContractError::DuplicateCorrelation)
    );
    assert_eq!(core.total_events(), 1);
    assert_eq!(
        core.record_structured_event(ledger(), addr(2), addr(4), sym("mint"), [2u8; 32], 3, [8u8; 32]),
        Ok(2)
    );
}

#[test]
fn counter_saturates() {
    let mut storage = InstanceStorage::new();
    let mut members = AssocMap::new();
    members.insert(addr(2), true);
    storage.admin = Some(addr(1));
    storage.indexers = Some(members);
    storage.counter = Some(u64::MAX);
    let mut core = SoroScanCore::from_storage(storage);
    assert_eq!(core.record_event(ledger(), addr(2), addr(3), sym("swap"), [0u8; 32]), Ok(u64::MAX));
    assert_eq!(core.total_events(), u64::MAX);
}

#[test]
fn event_types_named_like_settings_leave_settings_alone() {
    let mut core = with_indexer();
    assert_eq!(core.latest_by_type(sym("admin")), None);
    assert_eq!(core.latest_by_type(sym("idxrs")), None);
    assert_eq!(core.latest_by_type(sym("count")), None);
    assert_eq!(core.record_event(ledger(), addr(2), addr(3), sym("count"), [3u8; 32]), Ok(1));
    assert_eq!(core.record_event(ledger(), addr(2), addr(3), sym("idxrs"), [4u8; 32]), Ok(2));
    assert_eq!(core.record_event(ledger(), addr(2), addr(3), sym("admin"), [5u8; 32]), Ok(3));
    assert_eq!(core.total_events(), 3);
    assert!(core.is_indexer(addr(2)));
    assert_eq!(core.get_admin(), Some(addr(1)));
    assert_eq!(core.latest_by_type(sym("count")).unwrap().payload_hash, [3u8; 32]);
    assert_eq!(core.latest_by_type(sym("idxrs")).unwrap().payload_hash, [4u8; 32]);
    assert_eq!(core.latest_by_type(sym("admin")).unwrap().payload_hash, [5u8; 32]);
    core.add_indexer(addr(1), addr(6)).unwrap();
    assert!(core.is_indexer(addr(6)));
    assert_eq!(core.latest_by_type(sym("idxrs")).unwrap().payload_hash, [4u8; 32]);
    assert_eq!(
        core.record_tagged_event(ledger(), addr(6), addr(3), sym("count"), [0u8; 32], vec![]),
        Ok(4)
    );
}

#[test]
fn removing_unknown_indexer_is_fine() {
    let mut core = with_indexer();
    assert_eq!(core.remove_indexer(addr(1), addr(7)), Ok(()));
    assert!(core.is_indexer(addr(2)));
}

#[test]
fn storage_slots_after_init() {
    let core = with_indexer();
    let st = core.storage();
    assert_eq!(st.admin, Some(addr(1)));
    assert_eq!(st.counter, Some(0));
    let members = st.indexers.as_ref().unwrap().entries();
    assert_eq!(members.len(), 1);
    assert_eq!(members[0], (addr(2), true));
    assert_eq!(st.latest.len(), 0);
}

#[test]
fn assoc_map_insert_take_remove() {
    let mut m: AssocMap<Address, bool> = AssocMap::new();
    assert_eq!(m.len(), 0);
    m.insert(addr(1), true);
    m.insert(addr(2), false);
    m.insert(addr(1), false);
    assert_eq!(m.len(), 2);
    assert_eq!(m.get(&addr(1)), Some(&false));
    assert_eq!(m.take(&addr(2)), Some(false));
    assert_eq!(m.take(&addr(2)), None);
    m.remove(&addr(1));
    assert_eq!(m.len(), 0);
    assert_eq!(m.get(&addr(1)), None);
}
