use vstd::prelude::*;

use crate::coin::{from_coin, normalized_coin, Coin, CoinField};
use crate::text::{lower_of, lowercase};

verus! {

/// One mining pool as a device reports it.
#[derive(Debug, Clone)]
pub struct Pool {
    pub url: String,
    pub user: String,
    pub legal: bool,
    pub active: bool,
    pub drag_id: i32,
    pub pool_priority: i32,
    pub pass: String,
}

impl Pool {
    /// A field-by-field copy.
    pub fn duplicate(&self) -> (r: Pool)
        ensures
            r == *self,
    {
        Pool {
            url: self.url.clone(),
            user: self.user.clone(),
            legal: self.legal,
            active: self.active,
            drag_id: self.drag_id,
            pool_priority: self.pool_priority,
            pass: self.pass.clone(),
        }
    }
}

pub fn copy_pools(v: &Vec<Pool>) -> (r: Vec<Pool>)
    ensures
        r@ == v@,
{
    let mut out: Vec<Pool> = Vec::new();
    let mut i: usize = 0;
    while i < v.len()
        invariant
            i <= v@.len(),
            out@ == v@.subrange(0, i as int),
        decreases v@.len() - i,
    {
        out.push(v[i].duplicate());
        i = i + 1;
        assert(out@ =~= v@.subrange(0, i as int));
    }
    assert(out@ =~= v@);
    out
}

pub fn copy_texts(v: &Vec<String>) -> (r: Vec<String>)
    ensures
        r@ == v@,
{
    let mut out: Vec<String> = Vec::new();
    let mut i: usize = 0;
    while i < v.len()
        invariant
            i <= v@.len(),
            out@ == v@.subrange(0, i as int),
        decreases v@.len() - i,
    {
        out.push(v[i].clone());
        i = i + 1;
        assert(out@ =~= v@.subrange(0, i as int));
    }
    assert(out@ =~= v@);
    out
}

pub fn copy_coin(c: &Option<Coin>) -> (r: Option<Coin>)
    ensures
        r == *c,
{
    match c {
        Some(c) => Some(Coin { algorithm: c.algorithm.clone(), symbol: c.symbol.clone() }),
        None => None,
    }
}

/// A mode change reported by a device.
#[derive(Debug, Clone, Copy, PartialEq, Eq, Structural)]
pub struct MessageMode {
    pub mode: usize,
}

/// A full status report. Rates and ratios are kept as the decimal text the device sent.
#[derive(Debug, Clone)]
pub struct MessageStatus {
    pub now_rate: String,
    pub avg_rate: String,
    pub history_rate: Vec<String>,
    pub power_mode: String,
    pub dig_time: i32,
    pub pool: Vec<Pool>,
    pub hard_err: String,
    pub refuse: String,
    pub temperature: String,
    pub fan: String,
    pub led: i32,
    pub ip: String,
    pub key: String,
    pub coin: Option<Coin>,
}

/// A decoded telemetry message.
#[derive(Debug, Clone)]
pub enum Message {
    MessageMode(MessageMode),
    MessageStatus(MessageStatus),
}

/// The fields found in a decoded payload, each present or absent, before the message
/// kind is resolved from the payload's shape.
#[derive(Debug, Clone)]
pub struct RawPayload {
    pub mode: Option<usize>,
    pub now_rate: Option<String>,
    pub avg_rate: Option<String>,
    pub history_rate: Option<Vec<String>>,
    pub power_mode: Option<String>,
    pub dig_time: Option<i32>,
    pub pool: Option<Vec<Pool>>,
    pub hard_err: Option<String>,
    pub refuse: Option<String>,
    pub temperature: Option<String>,
    pub fan: Option<String>,
    pub led: Option<i32>,
    pub ip: Option<String>,
    pub key: Option<String>,
    pub coin: Option<CoinField>,
}

/// A payload is a status report when it carries a rate, pool or temperature field.
pub open spec fn is_status_shaped(p: RawPayload) -> bool {
    ||| p.now_rate is Some
    ||| p.avg_rate is Some
    ||| p.history_rate is Some
    ||| p.pool is Some
    ||| p.temperature is Some
}

/// Every field that a status report must carry is there (the coin is optional).
pub open spec fn has_status_fields(p: RawPayload) -> bool {
    &&& p.now_rate is Some
    &&& p.avg_rate is Some
    &&& p.history_rate is Some
    &&& p.power_mode is Some
    &&& p.dig_time is Some
    &&& p.pool is Some
    &&& p.hard_err is Some
    &&& p.refuse is Some
    &&& p.temperature is Some
    &&& p.fan is Some
    &&& p.led is Some
    &&& p.ip is Some
    &&& p.key is Some
}

/// `s` holds the payload's fields, with its coin field normalized.
pub open spec fn status_from_payload(s: MessageStatus, p: RawPayload) -> bool {
    &&& s.now_rate == p.now_rate->Some_0
    &&& s.avg_rate == p.avg_rate->Some_0
    &&& s.history_rate == p.history_rate->Some_0
    &&& s.power_mode == p.power_mode->Some_0
    &&& s.dig_time == p.dig_time->Some_0
    &&& s.pool == p.pool->Some_0
    &&& s.hard_err == p.hard_err->Some_0
    &&& s.refuse == p.refuse->Some_0
    &&& s.temperature == p.temperature->Some_0
    &&& s.fan == p.fan->Some_0
    &&& s.led == p.led->Some_0
    &&& s.ip == p.ip->Some_0
    &&& s.key == p.key->Some_0
    &&& match p.coin {
        Some(f) => match s.coin {
            Some(c) => normalized_coin(f) == Some(c@),
            None => normalized_coin(f) is None,
        },
        None => s.coin is None,
    }
}

/// Resolves a payload to a message by its shape. A status-shaped payload becomes a
/// status report when all its fields are there and is rejected otherwise; any other
/// payload with an integer `mode` becomes a mode change; the rest is rejected.
pub fn decode_message(p: RawPayload) -> (r: Option<Message>)
    ensures
        is_status_shaped(p) ==> match r {
            Some(Message::MessageStatus(s)) => has_status_fields(p) && status_from_payload(s, p),
            Some(Message::MessageMode(_)) => false,
            None => !has_status_fields(p),
        },
        !is_status_shaped(p) ==> r == match p.mode {
            Some(m) => Some(Message::MessageMode(MessageMode { mode: m })),
            None => None,
        },
{
    let ghost p0 = p;
    let shaped = p.now_rate.is_some() || p.avg_rate.is_some() || p.history_rate.is_some()
        || p.pool.is_some() || p.temperature.is_some();
    if !shaped {
        return match p.mode {
            Some(m) => Some(Message::MessageMode(MessageMode { mode: m })),
            None => None,
        };
    }
    let RawPayload {
        mode: _,
        now_rate,
        avg_rate,
        history_rate,
        power_mode,
        dig_time,
        pool,
        hard_err,
        refuse,
        temperature,
        fan,
        led,
        ip,
        key,
        coin,
    } = p;
    match (now_rate, avg_rate, history_rate, power_mode, dig_time, pool, hard_err) {
        (
            Some(now_rate),
            Some(avg_rate),
            Some(history_rate),
            Some(power_mode),
            Some(dig_time),
            Some(pool),
            Some(hard_err),
        ) => match (refuse, temperature, fan, led, ip, key) {
            (Some(refuse), Some(temperature), Some(fan), Some(led), Some(ip), Some(key)) => {
                let coin = match coin {
                    Some(f) => from_coin(f),
                    None => None,
                };
                Some(
                    Message::MessageStatus(
                        MessageStatus {
                            now_rate,
                            avg_rate,
                            history_rate,
                            power_mode,
                            dig_time,
                            pool,
                            hard_err,
                            refuse,
                            temperature,
                            fan,
                            led,
                            ip,
                            key,
                            coin,
                        },
                    ),
                )
            },
            _ => None,
        },
        _ => None,
    }
}

/// A hexadecimal digit, in either case.
pub open spec fn is_hex_digit(c: char) -> bool {
    ('0' <= c && c <= '9') || ('a' <= c && c <= 'f') || ('A' <= c && c <= 'F')
}

/// Length of a hardware address: six hex byte pairs and five separators.
pub open spec fn mac_len() -> int {
    17
}

/// At index `i` of `t` stands a hardware address: six pairs of hex digits, each two
/// pairs separated by `:` or `-`.
pub open spec fn mac_at(t: Seq<char>, i: int) -> bool {
    &&& 0 <= i
    &&& i + mac_len() <= t.len()
    &&& forall|k: int|
        0 <= k < mac_len() ==> if k % 3 == 2 {
            t[i + k] == ':' || t[i + k] == '-'
        } else {
            is_hex_digit(#[trigger] t[i + k])
        }
}

/// The first hardware address in `t` at index `i` or later.
pub open spec fn first_mac_from(t: Seq<char>, i: int) -> Option<Seq<char>>
    decreases t.len() - i,
{
    if i < 0 || i + mac_len() > t.len() {
        None
    } else if mac_at(t, i) {
        Some(t.subrange(i, i + mac_len()))
    } else {
        first_mac_from(t, i + 1)
    }
}

/// The first hardware address in a topic.
pub open spec fn mac_in_topic(topic: Seq<char>) -> Option<Seq<char>> {
    first_mac_from(topic, 0)
}

/// Relies on `regex_lite::Regex::new` (the pattern is valid, so it compiles) and
/// `regex_lite::Regex::find`: every match of `([0-9A-Fa-f]{2}[:-]){5}([0-9A-Fa-f]{2})`
/// is seventeen characters long, so the leftmost match is the address at the lowest
/// index.
#[verifier::external_body]
fn find_mac(topic: &str) -> (r: Option<String>)
    ensures
        match r {
            Some(m) => mac_in_topic(topic@) == Some(m@),
            None => mac_in_topic(topic@) is None,
        },
{
    let re = regex_lite::Regex::new(r"([0-9A-Fa-f]{2}[:-]){5}([0-9A-Fa-f]{2})").ok()?;
    re.find(topic).map(|m| m.as_str().to_string())
}

/// The device identifier named by a topic: its hardware address, lower-cased.
pub open spec fn device_id_of_topic(topic: Seq<char>) -> Option<Seq<char>> {
    match mac_in_topic(topic) {
        Some(m) => Some(lower_of(m)),
        None => None,
    }
}

/// Extracts the device identifier from a topic; a topic without a hardware address
/// gives none.
pub fn device_id_from_topic(topic: &str) -> (r: Option<String>)
    ensures
        match r {
            Some(id) => device_id_of_topic(topic@) == Some(id@),
            None => device_id_of_topic(topic@) is None,
        },
{
    match find_mac(topic) {
        Some(m) => Some(lowercase(m.as_str())),
        None => None,
    }
}

} // verus!
