use miner_telemetry::coin::{Coin, CoinField};
use miner_telemetry::telemetry::{
    decode_message, device_id_from_topic, Message, MessageMode, Pool, RawPayload,
};

fn empty_payload() -> RawPayload {
    RawPayload {
        mode: None,
        now_rate: None,
        avg_rate: None,
        history_rate: None,
        power_mode: None,
        dig_time: None,
        pool: None,
        hard_err: None,
        refuse: None,
        temperature: None,
        fan: None,
        led: None,
        ip: None,
        key: None,
        coin: None,
    }
}

fn full_status_payload() -> RawPayload {
    RawPayload {
        mode: None,
        now_rate: Some(220.692f64.to_string()),
        avg_rate: Some(210.25f64.to_string()),
        history_rate: Some(vec![216.759f64.to_string(), 205.234f64.to_string()]),
        power_mode: Some("Hashrate".to_string()),
        dig_time: Some(1314),
        pool: Some(vec![Pool {
            url: "stratum+tcp://192.168.111.225:4001".to_string(),
            user: "shminer.3134".to_string(),
            legal: true,
            active: true,
            drag_id: 0,
            pool_priority: 0,
            pass: "123".to_string(),
        }]),
        hard_err: Some(0.998976f64.to_string()),
        refuse: Some(0.0017f64.to_string()),
        temperature: Some("78.6 °C".to_string()),
        fan: Some("1980 / 1920".to_string()),
        led: Some(0),
        ip: Some("192.168.110.97".to_string()),
        key: Some("dd99c54c08bb2752f5f8ad6e526243cbea722".to_string()),
        coin: Some(CoinField::Label("scrypt(LTC)".to_string())),
    }
}

#[test]
fn mode_only_payload_is_mode_update() {
    let mut p = empty_payload();
    p.mode = Some(3);
    match decode_message(p) {
        Some(Message::MessageMode(m)) => assert_eq!(m, MessageMode { mode: 3 }),
        other => panic!("expected a mode update, got {:?}", other),
    }
}

#[test]
fn full_status_payload_is_status_update() {
    match decode_message(full_status_payload()) {
        Some(Message::MessageStatus(s)) => {
            assert_eq!(s.now_rate, "220.692");
            assert_eq!(s.ip, "192.168.110.97");
            assert_eq!(s.pool.len(), 1);
            assert_eq!(s.history_rate.len(), 2);
            assert_eq!(
                s.coin,
                Some(Coin { algorithm: "scrypt".to_string(), symbol: "LTC".to_string() })
            );
        }
        other => panic!("expected a status update, got {:?}", other),
    }
}

#[test]
fn status_shape_wins_over_mode() {
    let mut p = full_status_payload();
    p.mode = Some(1);
    assert!(matches!(decode_message(p), Some(Message::MessageStatus(_))));
}

#[test]
fn incomplete_status_payload_is_rejected() {
    let mut p = full_status_payload();
    p.key = None;
    assert!(decode_message(p).is_none());
    let mut q = empty_payload();
    q.temperature = Some("70 °C".to_string());
    q.mode = Some(2);
    assert!(decode_message(q).is_none());
}

#[test]
fn empty_payload_is_rejected() {
    assert!(decode_message(empty_payload()).is_none());
}

#[test]
fn unknown_coin_label_gives_status_without_coin() {
    let mut p = full_status_payload();
    p.coin = Some(CoinField::Label("mystery(XYZ)".to_string()));
    match decode_message(p) {
        Some(Message::MessageStatus(s)) => assert_eq!(s.coin, None),
        other => panic!("expected a status update, got {:?}", other),
    }
}

#[test]
fn device_id_is_found_and_lower_cased() {
    assert_eq!(
        device_id_from_topic("miner/28:E2:97:1E:AB:91/status"),
        Some("28:e2:97:1e:ab:91".to_string())
    );
    assert_eq!(
        device_id_from_topic("miner/aa-bb-cc-dd-ee-ff"),
        Some("aa-bb-cc-dd-ee-ff".to_string())
    );
}

#[test]
fn topic_without_address_gives_no_id() {
    assert_eq!(device_id_from_topic("miner/status"), None);
    assert_eq!(device_id_from_topic("aa:bb:cc:dd:ee"), None);
}

#[test]
fn first_address_in_topic_wins() {
    assert_eq!(
        device_id_from_topic("x/11:22:33:44:55:66/AA:BB:CC:DD:EE:FF"),
        Some("11:22:33:44:55:66".to_string())
    );
    assert_eq!(
        device_id_from_topic("zz:aa:bb:cc:dd:ee:Ff"),
        Some("aa:bb:cc:dd:ee:ff".to_string())
    );
    assert_eq!(device_id_from_topic("aa:bb-cc:dd-ee:0f"), Some("aa:bb-cc:dd-ee:0f".to_string()));
    assert_eq!(device_id_from_topic("aa:bb:cc:dd:ee:fg"), None);
    assert_eq!(device_id_from_topic("aa.bb.cc.dd.ee.ff"), None);
}
