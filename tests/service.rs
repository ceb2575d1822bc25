use miner_telemetry::config::MailConfig;
use miner_telemetry::service::{CoinStat, Email, ExchangeRate};
use miner_telemetry::types::RpcErrorCode;

#[test]
fn coin_stat_joins_symbols() {
    let stat = CoinStat::new(
        "https://api.minerstat.com/v2/coins",
        vec!["BTC".to_string(), "BCH".to_string(), "BSV".to_string()],
        60,
    );
    assert_eq!(stat.coins, "BTC,BCH,BSV");
    assert_eq!(stat.duration_secs, 60);
    assert_eq!(stat.request_url(), "https://api.minerstat.com/v2/coins?list=BTC,BCH,BSV");
    assert_eq!(CoinStat::new("h", vec![], 1).coins, "");
    assert_eq!(CoinStat::new("h", vec!["LTC".to_string()], 1).coins, "LTC");
}

#[test]
fn exchange_rate_url() {
    let rate = ExchangeRate::new("https://v6.exchangerate-api.com/v6", "abc");
    assert_eq!(rate.host, "https://v6.exchangerate-api.com/v6");
    assert_eq!(rate.rate_url(), "https://v6.exchangerate-api.com/v6/abc/latest/USD");
}

#[test]
fn email_keeps_its_parts() {
    let cfg = MailConfig {
        username: "ops@example.com".to_string(),
        password: "pw".to_string(),
        host: "smtp.example.com".to_string(),
    };
    let mail = Email::new("to@example.com", "Hi", "Body", cfg);
    assert_eq!(mail.to, "to@example.com");
    assert_eq!(mail.subject, "Hi");
    assert_eq!(mail.body, "Body");
    assert_eq!(mail.config.host, "smtp.example.com");
}

#[test]
fn rpc_error_codes() {
    assert_eq!(RpcErrorCode::Success.code(), 0);
    assert_eq!(RpcErrorCode::ProstDecodeError.code(), 2000);
    assert_eq!(RpcErrorCode::ProstEncodeError.code(), 2001);
    assert_eq!(RpcErrorCode::Other.code(), 9999);
}
