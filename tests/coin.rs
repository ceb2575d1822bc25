use miner_telemetry::coin::{coin_from_label, from_coin, get_coins, Coin, CoinField};
use miner_telemetry::text::{energy_mode_from_lowered, get_energy_modes};
use miner_telemetry::types::EnergyMode;

fn coin(algorithm: &str, symbol: &str) -> Coin {
    Coin { algorithm: algorithm.to_string(), symbol: symbol.to_string() }
}

#[test]
fn legacy_scrypt_label_normalizes() {
    assert_eq!(coin_from_label(&"scrypt(LTC)".to_string()), Some(coin("scrypt", "LTC")));
}

#[test]
fn unknown_label_gives_no_coin() {
    assert_eq!(coin_from_label(&"sha256(BTC)".to_string()), None);
    assert_eq!(from_coin(CoinField::Label("".to_string())), None);
}

#[test]
fn every_legacy_label_maps() {
    let cases = [
        ("blake2b(SC)", "blake2b", "SC"),
        ("eaglesong(CKB)", "eaglesong", "CKB"),
        ("blake3(ALPH)", "blake3", "ALPH"),
        ("blake2s(KDA)", "blake2s", "KDA"),
        ("scrypt(LTC)", "scrypt", "LTC"),
        ("cnr(STC)", "cnr", "STC"),
        ("lbry(LBC)", "lbry", "LBC"),
        ("blake2bsha3(HNS)", "blake2bsha3", "HNS"),
        ("kHeavyHash(kaspa)", "kHeavyHash", "KAS"),
        ("kHeavyHash(KAS)", "kHeavyHash", "KAS"),
    ];
    for (label, algorithm, symbol) in cases {
        assert_eq!(coin_from_label(&label.to_string()), Some(coin(algorithm, symbol)));
    }
}

#[test]
fn labels_match_case_exactly() {
    assert_eq!(coin_from_label(&"SCRYPT(LTC)".to_string()), None);
}

#[test]
fn structured_coin_passes_through() {
    let c = coin("sha256d", "BTC");
    assert_eq!(from_coin(CoinField::Detailed(c.clone())), Some(c));
}

#[test]
fn get_coins_skips_unknown_and_keeps_order() {
    let labels = vec![
        "lbry(LBC)".to_string(),
        "nothing".to_string(),
        "blake3(ALPH)".to_string(),
    ];
    assert_eq!(get_coins(labels), vec![coin("lbry", "LBC"), coin("blake3", "ALPH")]);
    assert_eq!(get_coins(vec![]), vec![]);
}

#[test]
fn energy_modes_ignore_case() {
    let labels = vec![
        "HashRate".to_string(),
        "LowerPower".to_string(),
        "idle".to_string(),
        "BALLANCE".to_string(),
    ];
    assert_eq!(
        get_energy_modes(labels),
        vec![EnergyMode::Power, EnergyMode::Economize, EnergyMode::Balance]
    );
}

#[test]
fn energy_mode_from_lowered_is_exact() {
    assert_eq!(energy_mode_from_lowered(&"hashrate".to_string()), Some(EnergyMode::Power));
    assert_eq!(energy_mode_from_lowered(&"Hashrate".to_string()), None);
}
