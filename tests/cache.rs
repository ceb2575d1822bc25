use miner_telemetry::cache::{
    DeviceStatusCache, IngestOutcome, TtlConfig, DIRECTORY_TTL, KEY_TTL, STATUS_TTL,
};
use miner_telemetry::coin::{Coin, CoinField};
use miner_telemetry::telemetry::{MessageStatus, RawPayload};

fn status(ip: &str, key: &str, coin: Option<Coin>) -> MessageStatus {
    MessageStatus {
        now_rate: 10.0f64.to_string(),
        avg_rate: 9.5f64.to_string(),
        history_rate: vec![8.0f64.to_string(), 9.0f64.to_string()],
        power_mode: "Hashrate".to_string(),
        dig_time: 100,
        pool: vec![],
        hard_err: "0".to_string(),
        refuse: "0".to_string(),
        temperature: "70 °C".to_string(),
        fan: "1900".to_string(),
        led: 0,
        ip: ip.to_string(),
        key: key.to_string(),
        coin,
    }
}

fn status_payload(ip: &str, key: &str, coin: &str) -> RawPayload {
    RawPayload {
        mode: None,
        now_rate: Some(10.0f64.to_string()),
        avg_rate: Some(10.0f64.to_string()),
        history_rate: Some(vec![]),
        power_mode: Some("Hashrate".to_string()),
        dig_time: Some(0),
        pool: Some(vec![]),
        hard_err: Some("0".to_string()),
        refuse: Some("0".to_string()),
        temperature: Some("65 °C".to_string()),
        fan: Some("1800".to_string()),
        led: Some(0),
        ip: Some(ip.to_string()),
        key: Some(key.to_string()),
        coin: Some(CoinField::Label(coin.to_string())),
    }
}

fn mode_payload(mode: usize) -> RawPayload {
    RawPayload {
        mode: Some(mode),
        now_rate: None,
        avg_rate: None,
        history_rate: None,
        power_mode: None,
        dig_time: None,
        pool: None,
        hard_err: None,
        refuse: None,
        temperature: None,
        fan: None,
        led: None,
        ip: None,
        key: None,
        coin: None,
    }
}

#[test]
fn default_lifetimes() {
    let ttl = TtlConfig::defaults();
    assert_eq!(ttl.status_ttl, 60);
    assert_eq!(ttl.key_ttl, 3 * 24 * 3600);
    assert_eq!(ttl.directory_ttl, 30 * 24 * 3600);
    assert_eq!((STATUS_TTL, KEY_TTL, DIRECTORY_TTL), (60, 259200, 2592000));
}

#[test]
fn stored_status_is_listed_online() {
    let mut cache = DeviceStatusCache::new(TtlConfig::defaults());
    let id = "aa:bb:cc:dd:ee:01".to_string();
    cache.store_status(&id, status("10.0.0.1", "k", None), 7, 1000);
    let list = cache.list_devices(7, 1000);
    assert_eq!(list.len(), 1);
    assert_eq!(list[0].id, id);
    assert!(list[0].online);
    assert_eq!(list[0].snapshot.ip, "10.0.0.1");
    assert_eq!(list[0].history_rate, vec!["8".to_string(), "9".to_string()]);
}

#[test]
fn expired_status_is_listed_offline_from_directory() {
    let mut cache = DeviceStatusCache::new(TtlConfig::defaults());
    let id = "aa:bb:cc:dd:ee:02".to_string();
    cache.store_mode(&id, 2, 1000);
    cache.store_status(&id, status("10.0.0.2", "k", None), 7, 1000);
    let live = cache.list_devices(7, 1059);
    assert!(live[0].online);
    assert_eq!(live[0].mode, Some(2));
    let list = cache.list_devices(7, 1060);
    assert_eq!(list.len(), 1);
    assert_eq!(list[0].id, id);
    assert!(!list[0].online);
    assert_eq!(list[0].mode, None);
    assert_eq!(list[0].snapshot.ip, "10.0.0.2");
    assert!(list[0].history_rate.is_empty());
}

#[test]
fn directory_expires_after_its_lifetime() {
    let mut cache = DeviceStatusCache::new(TtlConfig::defaults());
    cache.store_status(&"aa:bb:cc:dd:ee:03".to_string(), status("1.1.1.1", "k", None), 7, 0);
    assert_eq!(cache.list_devices(7, DIRECTORY_TTL - 1).len(), 1);
    assert_eq!(cache.list_devices(7, DIRECTORY_TTL).len(), 0);
}

#[test]
fn each_device_listed_once_with_latest_report() {
    let mut cache = DeviceStatusCache::new(TtlConfig::defaults());
    let a = "aa:bb:cc:dd:ee:0a".to_string();
    let b = "aa:bb:cc:dd:ee:0b".to_string();
    cache.store_status(&a, status("10.0.0.1", "k", None), 7, 10);
    cache.store_status(&b, status("10.0.0.2", "k", None), 7, 20);
    cache.store_status(&a, status("10.0.0.9", "k", None), 7, 30);
    let list = cache.list_devices(7, 30);
    assert_eq!(list.len(), 2);
    assert_eq!(list[0].id, a);
    assert_eq!(list[0].snapshot.ip, "10.0.0.9");
    assert_eq!(list[1].id, b);
    assert!(cache.list_devices(8, 30).is_empty());
}

#[test]
fn mode_after_expiry_starts_a_fresh_record() {
    let mut cache = DeviceStatusCache::new(TtlConfig::defaults());
    let id = "aa:bb:cc:dd:ee:04".to_string();
    cache.store_status(&id, status("10.0.0.4", "k", None), 7, 0);
    cache.store_mode(&id, 5, 100);
    let list = cache.list_devices(7, 100);
    assert!(list[0].online);
    assert_eq!(list[0].mode, Some(5));
    assert!(list[0].history_rate.is_empty());
    assert_eq!(list[0].snapshot.ip, "10.0.0.4");
}

#[test]
fn resolve_is_memoized_within_key_lifetime() {
    let mut cache = DeviceStatusCache::new(TtlConfig::defaults());
    let key = "k1".to_string();
    let mut lookups = 0;
    let mut resolve = |cache: &mut DeviceStatusCache, now: u64| match cache.resolve_account(&key, now) {
        Some(a) => a,
        None => {
            lookups += 1;
            cache.record_account(key.clone(), 42, now);
            42
        }
    };
    assert_eq!(resolve(&mut cache, 100), 42);
    assert_eq!(resolve(&mut cache, 100 + KEY_TTL - 1), 42);
    assert_eq!(lookups, 1);
}

#[test]
fn resolve_misses_after_key_lifetime() {
    let mut cache = DeviceStatusCache::new(TtlConfig::defaults());
    cache.record_account("k1".to_string(), 42, 100);
    assert_eq!(cache.resolve_account(&"k1".to_string(), 100 + KEY_TTL - 1), Some(42));
    assert_eq!(cache.resolve_account(&"k1".to_string(), 100 + KEY_TTL), None);
    assert_eq!(cache.resolve_account(&"k2".to_string(), 100), None);
}

#[test]
fn concurrent_misses_agree() {
    let mut cache = DeviceStatusCache::new(TtlConfig::defaults());
    let key = "k9".to_string();
    let first = cache.resolve_account(&key, 5);
    let second = cache.resolve_account(&key, 6);
    assert_eq!((first, second), (None, None));
    cache.record_account(key.clone(), 77, 7);
    cache.record_account(key.clone(), 77, 6);
    assert_eq!(cache.resolve_account(&key, 8), Some(77));
}

#[test]
fn blake2b_device_scenario() {
    let mut cache = DeviceStatusCache::new(TtlConfig::defaults());
    let topic = "miner/aa:bb:cc:dd:ee:ff/status";
    let mut durable_lookups = 0;
    let outcome = cache.ingest(topic, status_payload("10.0.0.5", "k1", "blake2b(SC)"), 500);
    match outcome {
        IngestOutcome::AccountUnknown(id, s) => {
            assert_eq!(id, "aa:bb:cc:dd:ee:ff");
            assert_eq!(cache.resolve_account(&s.key, 500), None);
            durable_lookups += 1;
            cache.record_account(s.key.clone(), 42, 500);
            assert_eq!(cache.resolve_account(&s.key, 500), Some(42));
            cache.store_status(&id, s, 42, 500);
        }
        other => panic!("expected an unknown account, got {:?}", other),
    }
    assert_eq!(durable_lookups, 1);
    let list = cache.list_devices(42, 500);
    assert_eq!(list.len(), 1);
    assert_eq!(list[0].id, "aa:bb:cc:dd:ee:ff");
    assert!(list[0].online);
    assert_eq!(list[0].snapshot.ip, "10.0.0.5");
    assert_eq!(
        list[0].snapshot.coin,
        Some(Coin { algorithm: "blake2b".to_string(), symbol: "SC".to_string() })
    );
    let again = cache.ingest(topic, status_payload("10.0.0.5", "k1", "blake2b(SC)"), 510);
    assert!(matches!(again, IngestOutcome::StatusStored(42)));
    assert_eq!(cache.list_devices(42, 510).len(), 1);
}

#[test]
fn ingest_drops_bad_topic_and_payload() {
    let mut cache = DeviceStatusCache::new(TtlConfig::defaults());
    let bad_topic = cache.ingest("miner/none", mode_payload(1), 0);
    assert!(matches!(bad_topic, IngestOutcome::NoDeviceId));
    let mut malformed = mode_payload(1);
    malformed.mode = None;
    let bad_payload = cache.ingest("miner/aa:bb:cc:dd:ee:ff", malformed, 0);
    assert!(matches!(bad_payload, IngestOutcome::Malformed));
    let ok = cache.ingest("miner/AA:BB:CC:DD:EE:FF", mode_payload(1), 0);
    assert!(matches!(ok, IngestOutcome::ModeStored));
}

#[test]
fn incomplete_status_report_is_dropped_without_writes() {
    let mut cache = DeviceStatusCache::new(TtlConfig::defaults());
    cache.record_account("k1".to_string(), 42, 0);
    let mut p = status_payload("10.0.0.5", "k1", "blake2b(SC)");
    p.fan = None;
    let outcome = cache.ingest("miner/aa:bb:cc:dd:ee:ff", p, 0);
    assert!(matches!(outcome, IngestOutcome::Malformed));
    assert!(cache.list_devices(42, 0).is_empty());
}

#[test]
fn address_case_does_not_split_a_device() {
    let mut cache = DeviceStatusCache::new(TtlConfig::defaults());
    cache.record_account("k1".to_string(), 42, 0);
    let a = cache.ingest("miner/AA:BB:CC:DD:EE:FF", status_payload("10.0.0.5", "k1", "x"), 0);
    let b = cache.ingest("miner/aa:bb:cc:dd:ee:ff", status_payload("10.0.0.6", "k1", "x"), 1);
    assert!(matches!(a, IngestOutcome::StatusStored(42)));
    assert!(matches!(b, IngestOutcome::StatusStored(42)));
    let list = cache.list_devices(42, 1);
    assert_eq!(list.len(), 1);
    assert_eq!(list[0].id, "aa:bb:cc:dd:ee:ff");
    assert_eq!(list[0].snapshot.ip, "10.0.0.6");
    assert_eq!(list[0].snapshot.coin, None);
}
