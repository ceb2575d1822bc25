use vstd::prelude::*;

verus! {

/// A mined coin: its hashing algorithm and its ticker symbol.
#[derive(Debug, Clone)]
pub struct Coin {
    pub algorithm: String,
    pub symbol: String,
}

impl View for Coin {
    type V = (Seq<char>, Seq<char>);

    open spec fn view(&self) -> (Seq<char>, Seq<char>) {
        (self.algorithm@, self.symbol@)
    }
}

impl PartialEq for Coin {
    fn eq(&self, o: &Coin) -> (r: bool) {
        self.algorithm == o.algorithm && self.symbol == o.symbol
    }
}

impl vstd::std_specs::cmp::PartialEqSpecImpl for Coin {
    open spec fn obeys_eq_spec() -> bool {
        true
    }

    open spec fn eq_spec(&self, o: &Coin) -> bool {
        self.algorithm@ == o.algorithm@ && self.symbol@ == o.symbol@
    }
}

/// The coin field of a status report, in either of the shapes that firmware sends:
/// a combined legacy label such as `scrypt(LTC)`, or the structured pair.
#[derive(Debug, Clone)]
pub enum CoinField {
    Label(String),
    Detailed(Coin),
}

/// The closed table of legacy combined labels and the coin each one stands for.
pub open spec fn legacy_coin(label: Seq<char>) -> Option<(Seq<char>, Seq<char>)> {
    if label == "blake2b(SC)"@ {
        Some(("blake2b"@, "SC"@))
    } else if label == "eaglesong(CKB)"@ {
        Some(("eaglesong"@, "CKB"@))
    } else if label == "blake3(ALPH)"@ {
        Some(("blake3"@, "ALPH"@))
    } else if label == "blake2s(KDA)"@ {
        Some(("blake2s"@, "KDA"@))
    } else if label == "scrypt(LTC)"@ {
        Some(("scrypt"@, "LTC"@))
    } else if label == "cnr(STC)"@ {
        Some(("cnr"@, "STC"@))
    } else if label == "lbry(LBC)"@ {
        Some(("lbry"@, "LBC"@))
    } else if label == "blake2bsha3(HNS)"@ {
        Some(("blake2bsha3"@, "HNS"@))
    } else if label == "kHeavyHash(kaspa)"@ {
        Some(("kHeavyHash"@, "KAS"@))
    } else if label == "kHeavyHash(KAS)"@ {
        Some(("kHeavyHash"@, "KAS"@))
    } else {
        None
    }
}

/// What a coin field normalizes to: a structured coin as it is, a label through the table.
pub open spec fn normalized_coin(field: CoinField) -> Option<(Seq<char>, Seq<char>)> {
    match field {
        CoinField::Label(label) => legacy_coin(label@),
        CoinField::Detailed(c) => Some(c@),
    }
}

/// Coins named by a list of legacy labels, in order, unknown labels left out.
pub open spec fn coins_of_labels(labels: Seq<Seq<char>>) -> Seq<(Seq<char>, Seq<char>)>
    decreases labels.len(),
{
    if labels.len() == 0 {
        Seq::empty()
    } else {
        let rest = coins_of_labels(labels.drop_last());
        match legacy_coin(labels.last()) {
            Some(c) => rest.push(c),
            None => rest,
        }
    }
}

fn coin_of(algorithm: &str, symbol: &str) -> (r: Coin)
    ensures
        r@ == (algorithm@, symbol@),
{
    Coin { algorithm: String::from_str(algorithm), symbol: String::from_str(symbol) }
}

fn is_label(label: &String, known: &str) -> (r: bool)
    ensures
        r == (label@ == known@),
{
    let k = String::from_str(known);
    *label == k
}

/// Looks a legacy combined label up in the table; an unknown label gives no coin.
pub fn coin_from_label(label: &String) -> (r: Option<Coin>)
    ensures
        match r {
            Some(c) => legacy_coin(label@) == Some(c@),
            None => legacy_coin(label@) is None,
        },
{
    if is_label(label, "blake2b(SC)") {
        Some(coin_of("blake2b", "SC"))
    } else if is_label(label, "eaglesong(CKB)") {
        Some(coin_of("eaglesong", "CKB"))
    } else if is_label(label, "blake3(ALPH)") {
        Some(coin_of("blake3", "ALPH"))
    } else if is_label(label, "blake2s(KDA)") {
        Some(coin_of("blake2s", "KDA"))
    } else if is_label(label, "scrypt(LTC)") {
        Some(coin_of("scrypt", "LTC"))
    } else if is_label(label, "cnr(STC)") {
        Some(coin_of("cnr", "STC"))
    } else if is_label(label, "lbry(LBC)") {
        Some(coin_of("lbry", "LBC"))
    } else if is_label(label, "blake2bsha3(HNS)") {
        Some(coin_of("blake2bsha3", "HNS"))
    } else if is_label(label, "kHeavyHash(kaspa)") {
        Some(coin_of("kHeavyHash", "KAS"))
    } else if is_label(label, "kHeavyHash(KAS)") {
        Some(coin_of("kHeavyHash", "KAS"))
    } else {
        None
    }
}

/// Normalizes a coin field: the structured shape passes through unchanged, a legacy
/// label goes through the table, and an unknown label gives no coin data.
pub fn from_coin(field: CoinField) -> (r: Option<Coin>)
    ensures
        match r {
            Some(c) => normalized_coin(field) == Some(c@),
            None => normalized_coin(field) is None,
        },
{
    match field {
        CoinField::Label(label) => coin_from_label(&label),
        CoinField::Detailed(c) => Some(c),
    }
}

/// The coins that a list of legacy labels names, in order; unknown labels are skipped.
pub fn get_coins(coin_list: Vec<String>) -> (r: Vec<Coin>)
    ensures
        r@.map_values(|c: Coin| c@) == coins_of_labels(coin_list@.map_values(|s: String| s@)),
{
    let mut out: Vec<Coin> = Vec::new();
    let mut i: usize = 0;
    while i < coin_list.len()
        invariant
            i <= coin_list@.len(),
            out@.map_values(|c: Coin| c@) == coins_of_labels(
                coin_list@.subrange(0, i as int).map_values(|s: String| s@),
            ),
        decreases coin_list@.len() - i,
    {
        let ghost prefix = coin_list@.subrange(0, i as int).map_values(|s: String| s@);
        let ghost next = coin_list@.subrange(0, i as int + 1).map_values(|s: String| s@);
        assert(next.drop_last() =~= prefix);
        assert(next.last() == coin_list@[i as int]@);
        match coin_from_label(&coin_list[i]) {
            Some(c) => {
                out.push(c);
                assert(out@.map_values(|c: Coin| c@) =~= coins_of_labels(next));
            },
            None => {},
        }
        i = i + 1;
    }
    assert(coin_list@.subrange(0, coin_list@.len() as int) =~= coin_list@);
    out
}

} // verus!
