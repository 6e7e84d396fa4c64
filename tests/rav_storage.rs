use indexer_tap::address::Address;
use indexer_tap::rav_notifications::{
    BackoffPolicy, ListenerAction, ListenerEvent, RavNotificationsWatcher,
};
use indexer_tap::rav_storage::{RAVStorageAdapter, RavTable};
use indexer_tap::receipt::{ReceiptAggregateVoucher, SignedMessage, SignedRav};

fn allocation() -> Address {
    Address::from_hex("0xabababababababababababababababababababab").unwrap()
}

fn create_rav(allocation_id: Address, timestamp_ns: u64, value_aggregate: u128) -> SignedRav {
    let mut signature = [0u8; 65];
    signature[0..8].copy_from_slice(&timestamp_ns.to_le_bytes());
    signature[8..24].copy_from_slice(&value_aggregate.to_le_bytes());
    signature[24..44].copy_from_slice(&allocation_id.bytes);
    signature[64] = 27;
    SignedMessage {
        message: ReceiptAggregateVoucher { allocation_id, timestamp_ns, value_aggregate },
        signature,
    }
}

fn same_rav(a: &SignedRav, b: &SignedRav) -> bool {
    a.signature == b.signature
        && a.message.allocation_id == b.message.allocation_id
        && a.message.timestamp_ns == b.message.timestamp_ns
        && a.message.value_aggregate == b.message.value_aggregate
}

#[test]
fn update_and_retrieve_rav() {
    let allocation_id = allocation();
    let timestamp_ns = u64::MAX - 10;
    let value_aggregate = u128::MAX;
    let mut table = RavTable::new();
    let mut rav_storage_adapter = RAVStorageAdapter::new(allocation_id, &table);
    assert!(rav_storage_adapter.last_rav().is_none());

    let mut new_rav = create_rav(allocation_id, timestamp_ns, value_aggregate);
    rav_storage_adapter.update_last_rav(&mut table, new_rav);
    let last_rav = rav_storage_adapter.last_rav();
    assert!(same_rav(&new_rav, &last_rav.unwrap()));

    for i in 0..3 {
        new_rav = create_rav(allocation_id, timestamp_ns + i, value_aggregate - (i as u128));
        rav_storage_adapter.update_last_rav(&mut table, new_rav);
    }
    let last_rav = rav_storage_adapter.last_rav();
    assert!(same_rav(&new_rav, &last_rav.unwrap()));
    assert!(same_rav(&new_rav, &table.get(&allocation_id).unwrap()));
}

#[test]
fn second_cache_converges_on_notification() {
    let allocation_id = allocation();
    let mut table = RavTable::new();
    let mut writer = RAVStorageAdapter::new(allocation_id, &table);
    let mut reader = RAVStorageAdapter::new(allocation_id, &table);
    let rav = create_rav(allocation_id, 100, 5000);
    writer.update_last_rav(&mut table, rav);
    assert!(reader.last_rav().is_none());
    reader.retrieve_last_rav(&table);
    assert!(same_rav(&reader.last_rav().unwrap(), &rav));

    let later = RAVStorageAdapter::new(allocation_id, &table);
    assert!(same_rav(&later.last_rav().unwrap(), &rav));
}

#[test]
fn empty_fetch_keeps_cached_rav() {
    let rav = create_rav(allocation(), 1, 2);
    let mut cache = RAVStorageAdapter::with_fetched(allocation(), Some(rav));
    cache.apply_fetched(None);
    assert!(same_rav(&cache.last_rav().unwrap(), &rav));
    let newer = create_rav(allocation(), 2, 3);
    cache.apply_fetched(Some(newer));
    assert!(same_rav(&cache.last_rav().unwrap(), &newer));
}

#[test]
fn table_keeps_one_row_per_allocation() {
    let a = allocation();
    let b = Address::new([7u8; 20]);
    let mut table = RavTable::new();
    for i in 0..5u64 {
        table.upsert(&a, create_rav(a, i, i as u128));
    }
    table.upsert(&b, create_rav(b, 9, 9));
    assert!(same_rav(&table.get(&a).unwrap(), &create_rav(a, 4, 4)));
    assert!(same_rav(&table.get(&b).unwrap(), &create_rav(b, 9, 9)));
    assert!(table.get(&Address::new([0u8; 20])).is_none());
}

fn policy() -> BackoffPolicy {
    BackoffPolicy { base_delay_ms: 100, max_delay_ms: 1000, max_startup_attempts: 3 }
}

#[test]
fn backoff_doubles_up_to_the_cap() {
    let p = policy();
    let delays: Vec<u64> = (0..7).map(|n| RavNotificationsWatcher::delay_for_retry(p, n)).collect();
    assert_eq!(delays, vec![100, 200, 400, 800, 1000, 1000, 1000]);
    assert_eq!(RavNotificationsWatcher::delay_for_retry(p, u32::MAX), 1000);
    let zero = BackoffPolicy { base_delay_ms: 0, max_delay_ms: 1000, max_startup_attempts: 1 };
    assert_eq!(RavNotificationsWatcher::delay_for_retry(zero, 50), 0);
    let over = BackoffPolicy { base_delay_ms: 5000, max_delay_ms: 1000, max_startup_attempts: 1 };
    assert_eq!(RavNotificationsWatcher::delay_for_retry(over, 0), 1000);
    let huge = BackoffPolicy { base_delay_ms: u64::MAX / 2 + 1, max_delay_ms: u64::MAX, max_startup_attempts: 1 };
    assert_eq!(RavNotificationsWatcher::delay_for_retry(huge, 1), u64::MAX);
}

#[test]
fn watcher_gives_up_only_before_first_subscription() {
    let mut w = RavNotificationsWatcher::new(policy());
    assert_eq!(w.step(ListenerEvent::SubscribeFailed), ListenerAction::Reconnect { delay_ms: 100 });
    assert_eq!(w.step(ListenerEvent::SubscribeFailed), ListenerAction::Reconnect { delay_ms: 200 });
    assert_eq!(w.step(ListenerEvent::SubscribeFailed), ListenerAction::GiveUp);

    let mut w = RavNotificationsWatcher::new(policy());
    assert_eq!(w.step(ListenerEvent::Subscribed), ListenerAction::RefreshRav);
    assert_eq!(w.step(ListenerEvent::Notified), ListenerAction::RefreshRav);
    for expected in [100u64, 200, 400, 800, 1000, 1000] {
        assert_eq!(
            w.step(ListenerEvent::ConnectionLost),
            ListenerAction::Reconnect { delay_ms: expected }
        );
    }
    assert_eq!(w.failures(), 6);
    assert_eq!(w.step(ListenerEvent::Subscribed), ListenerAction::RefreshRav);
    assert_eq!(w.failures(), 0);
    assert_eq!(w.step(ListenerEvent::ConnectionLost), ListenerAction::Reconnect { delay_ms: 100 });
}
