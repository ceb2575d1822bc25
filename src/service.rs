use vstd::prelude::*;

use crate::config::MailConfig;

verus! {

/// Texts joined with a comma between each two.
pub open spec fn join_comma(parts: Seq<Seq<char>>) -> Seq<char>
    decreases parts.len(),
{
    if parts.len() == 0 {
        Seq::empty()
    } else if parts.len() == 1 {
        parts[0]
    } else {
        join_comma(parts.drop_last()) + ","@ + parts.last()
    }
}

/// Where exchange rates are fetched from, and with which key.
#[derive(Debug, Clone)]
pub struct ExchangeRate {
    pub host: String,
    pub key: String,
}

impl ExchangeRate {
    pub fn new(host: &str, key: &str) -> (r: ExchangeRate)
        ensures
            r.host@ == host@,
            r.key@ == key@,
    {
        ExchangeRate { host: String::from_str(host), key: String::from_str(key) }
    }

    /// The address of the latest rates against the US dollar: `<host>/<key>/latest/USD`.
    pub fn rate_url(&self) -> (r: String)
        ensures
            r@ == self.host@ + "/"@ + self.key@ + "/latest/USD"@,
    {
        let mut url = self.host.clone();
        url.append("/");
        url.append(self.key.as_str());
        url.append("/latest/USD");
        url
    }
}

/// Where coin statistics are fetched from, for which coins, and how often.
#[derive(Debug, Clone)]
pub struct CoinStat {
    pub host: String,
    pub coins: String,
    pub duration_secs: u64,
}

impl CoinStat {
    /// The coin symbols are kept joined by commas, as the statistics service takes them.
    pub fn new(host: &str, coins: Vec<String>, duration_secs: u64) -> (r: CoinStat)
        ensures
            r.host@ == host@,
            r.coins@ == join_comma(coins@.map_values(|s: String| s@)),
            r.duration_secs == duration_secs,
    {
        let mut joined = String::new();
        let mut i: usize = 0;
        while i < coins.len()
            invariant
                i <= coins@.len(),
                joined@ == join_comma(coins@.subrange(0, i as int).map_values(|s: String| s@)),
            decreases coins@.len() - i,
        {
            let ghost prefix = coins@.subrange(0, i as int).map_values(|s: String| s@);
            let ghost next = coins@.subrange(0, i as int + 1).map_values(|s: String| s@);
            assert(next.drop_last() =~= prefix);
            if i > 0 {
                joined.append(",");
            } else {
                assert(next =~= seq![coins@[0]@]);
            }
            joined.append(coins[i].as_str());
            i = i + 1;
        }
        assert(coins@.subrange(0, coins@.len() as int) =~= coins@);
        CoinStat { host: String::from_str(host), coins: joined, duration_secs }
    }

    /// The address of the statistics of the chosen coins: `<host>?list=<coins>`.
    pub fn request_url(&self) -> (r: String)
        ensures
            r@ == self.host@ + "?list="@ + self.coins@,
    {
        let mut url = self.host.clone();
        url.append("?list=");
        url.append(self.coins.as_str());
        url
    }
}

/// A plain-text mail to one recipient, with the account it is sent through.
#[derive(Debug, Clone)]
pub struct Email {
    pub to: String,
    pub subject: String,
    pub body: String,
    pub config: MailConfig,
}

impl Email {
    pub fn new(to: &str, subject: &str, body: &str, config: MailConfig) -> (r: Email)
        ensures
            r.to@ == to@,
            r.subject@ == subject@,
            r.body@ == body@,
            r.config == config,
    {
        Email {
            to: String::from_str(to),
            subject: String::from_str(subject),
            body: String::from_str(body),
            config,
        }
    }
}

} // verus!
