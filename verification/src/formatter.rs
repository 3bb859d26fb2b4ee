//! Per-symbol decimal precisions of prices and quantities, used to round
//! orders to the exchange's tick and step sizes.

use vstd::prelude::*;
use crate::text::{str_eq, to_upper, unicode_upper};

verus! {

/// The characters and precisions of a table's entries.
pub open spec fn entry_views(v: Seq<(String, u32, u32)>) -> Seq<(Seq<char>, u32, u32)> {
    v.map_values(|e: (String, u32, u32)| (e.0@, e.1, e.2))
}

/// No symbol occurs twice in a table.
pub open spec fn symbols_distinct(s: Seq<(Seq<char>, u32, u32)>) -> bool {
    forall|i: int, j: int| 0 <= i < j < s.len() ==> #[trigger] s[i].0 != #[trigger] s[j].0
}

/// The table as a map from symbol to (price precision, quantity precision).
pub open spec fn table_map(s: Seq<(Seq<char>, u32, u32)>) -> Map<Seq<char>, (u32, u32)>
    decreases s.len(),
{
    if s.len() == 0 {
        Map::empty()
    } else {
        table_map(s.drop_last()).insert(s.last().0, (s.last().1, s.last().2))
    }
}

/// An entry of a table with distinct symbols is what the map gives for its symbol.
proof fn lemma_map_at(s: Seq<(Seq<char>, u32, u32)>, i: int)
    requires
        symbols_distinct(s),
        0 <= i < s.len(),
    ensures
        table_map(s).contains_key(s[i].0),
        table_map(s)[s[i].0] == (s[i].1, s[i].2),
    decreases s.len(),
{
    if i < s.len() - 1 {
        let t = s.drop_last();
        assert(t[i] == s[i]);
        assert(symbols_distinct(t)) by {
            assert forall|a: int, b: int| 0 <= a < b < t.len() implies #[trigger] t[a].0
                != #[trigger] t[b].0 by {
                assert(t[a] == s[a] && t[b] == s[b]);
            }
        }
        lemma_map_at(t, i);
        assert(s[i].0 != s[s.len() - 1].0);
    }
}

/// A symbol that no entry carries is not in the map.
proof fn lemma_map_missing(s: Seq<(Seq<char>, u32, u32)>, k: Seq<char>)
    requires
        forall|i: int| 0 <= i < s.len() ==> #[trigger] s[i].0 != k,
    ensures
        !table_map(s).contains_key(k),
    decreases s.len(),
{
    if s.len() > 0 {
        let t = s.drop_last();
        assert forall|i: int| 0 <= i < t.len() implies #[trigger] t[i].0 != k by {
            assert(t[i] == s[i]);
        }
        lemma_map_missing(t, k);
        assert(s[s.len() - 1].0 != k);
    }
}

/// Replacing the precisions of an entry, symbol kept, updates the map at that symbol.
proof fn lemma_map_update(s: Seq<(Seq<char>, u32, u32)>, i: int, p: u32, q: u32)
    requires
        symbols_distinct(s),
        0 <= i < s.len(),
    ensures
        table_map(s.update(i, (s[i].0, p, q))) == table_map(s).insert(s[i].0, (p, q)),
    decreases s.len(),
{
    let k = s[i].0;
    let u = s.update(i, (k, p, q));
    if i == s.len() - 1 {
        assert(u.drop_last() =~= s.drop_last());
        assert(table_map(u) =~= table_map(s).insert(k, (p, q)));
    } else {
        let t = s.drop_last();
        assert(symbols_distinct(t)) by {
            assert forall|a: int, b: int| 0 <= a < b < t.len() implies #[trigger] t[a].0
                != #[trigger] t[b].0 by {
                assert(t[a] == s[a] && t[b] == s[b]);
            }
        }
        assert(t[i] == s[i]);
        lemma_map_update(t, i, p, q);
        assert(u.drop_last() =~= t.update(i, (k, p, q)));
        assert(u.last() == s.last());
        assert(s.last().0 != k);
        assert(table_map(u) =~= table_map(s).insert(k, (p, q)));
    }
}

/// Precisions used when a symbol has none of its own: 2 for prices, 3 for quantities.
pub open spec fn default_precisions() -> (u32, u32) {
    (2, 3)
}

/// The precisions of a symbol in a table: its own, or the defaults.
pub open spec fn precisions_in(m: Map<Seq<char>, (u32, u32)>, symbol: Seq<char>) -> (u32, u32) {
    if m.contains_key(unicode_upper(symbol)) {
        m[unicode_upper(symbol)]
    } else {
        default_precisions()
    }
}

/// Decimal precisions per symbol (symbols upper-cased).
pub struct PrecisionFormatter {
    precisions: Vec<(String, u32, u32)>,
}

impl View for PrecisionFormatter {
    type V = Map<Seq<char>, (u32, u32)>;

    closed spec fn view(&self) -> Map<Seq<char>, (u32, u32)> {
        table_map(entry_views(self.precisions@))
    }
}

impl PrecisionFormatter {
    /// No symbol occurs twice.
    pub closed spec fn wf(&self) -> bool {
        symbols_distinct(entry_views(self.precisions@))
    }

    /// The table of common symbols: BTCUSDT (2, 5), ETHUSDT (2, 4),
    /// BNBUSDT (2, 3), SOLUSDT (3, 2), XRPUSDT (4, 1).
    pub fn new() -> (f: Self)
        ensures
            f.wf(),
            f@ == map![
                "BTCUSDT"@ => (2u32, 5u32),
                "ETHUSDT"@ => (2u32, 4u32),
                "BNBUSDT"@ => (2u32, 3u32),
                "SOLUSDT"@ => (3u32, 2u32),
                "XRPUSDT"@ => (4u32, 1u32),
            ],
    {
        let mut precisions: Vec<(String, u32, u32)> = Vec::new();
        precisions.push((String::from_str("BTCUSDT"), 2, 5));
        precisions.push((String::from_str("ETHUSDT"), 2, 4));
        precisions.push((String::from_str("BNBUSDT"), 2, 3));
        precisions.push((String::from_str("SOLUSDT"), 3, 2));
        precisions.push((String::from_str("XRPUSDT"), 4, 1));
        let f = PrecisionFormatter { precisions };
        proof {
            reveal_strlit("BTCUSDT");
            reveal_strlit("ETHUSDT");
            reveal_strlit("BNBUSDT");
            reveal_strlit("SOLUSDT");
            reveal_strlit("XRPUSDT");
            let s = entry_views(f.precisions@);
            assert(s[0].0 == "BTCUSDT"@ && s[1].0 == "ETHUSDT"@ && s[2].0 == "BNBUSDT"@ && s[3].0
                == "SOLUSDT"@ && s[4].0 == "XRPUSDT"@);
            assert(s[0].0[0] == 'B' && s[1].0[0] == 'E' && s[2].0[0] == 'B' && s[3].0[0] == 'S'
                && s[4].0[0] == 'X');
            assert(s[0].0[1] == 'T' && s[2].0[1] == 'N');
            assert(symbols_distinct(s));
            let s4 = s.drop_last();
            let s3 = s4.drop_last();
            let s2 = s3.drop_last();
            let s1 = s2.drop_last();
            let s0 = s1.drop_last();
            assert(s0 =~= Seq::<(Seq<char>, u32, u32)>::empty());
            assert(table_map(s0) == Map::<Seq<char>, (u32, u32)>::empty());
            assert(table_map(s1) == table_map(s0).insert(s[0].0, (2u32, 5u32)));
            assert(table_map(s2) == table_map(s1).insert(s[1].0, (2u32, 4u32)));
            assert(table_map(s3) == table_map(s2).insert(s[2].0, (2u32, 3u32)));
            assert(table_map(s4) == table_map(s3).insert(s[3].0, (3u32, 2u32)));
            assert(table_map(s) == table_map(s4).insert(s[4].0, (4u32, 1u32)));
            assert(f@ =~= map![
                "BTCUSDT"@ => (2u32, 5u32),
                "ETHUSDT"@ => (2u32, 4u32),
                "BNBUSDT"@ => (2u32, 3u32),
                "SOLUSDT"@ => (3u32, 2u32),
                "XRPUSDT"@ => (4u32, 1u32),
            ]);
        }
        f
    }

    fn find(&self, key: &str) -> (r: Option<usize>)
        requires
            self.wf(),
        ensures
            match r {
                Some(i) => i < self.precisions@.len() && self.precisions@[i as int].0@ == key@,
                None => forall|i: int|
                    0 <= i < self.precisions@.len() ==> #[trigger] self.precisions@[i].0@ != key@,
            },
    {
        let mut i: usize = 0;
        while i < self.precisions.len()
            invariant
                i <= self.precisions@.len(),
                forall|j: int| 0 <= j < i ==> #[trigger] self.precisions@[j].0@ != key@,
            decreases self.precisions.len() - i,
        {
            if str_eq(self.precisions[i].0.as_str(), key) {
                return Some(i);
            }
            i = i + 1;
        }
        None
    }

    /// Sets the precisions of a symbol (upper-cased), replacing any it had.
    pub fn set_precision(&mut self, symbol: &str, price_precision: u32, quantity_precision: u32)
        requires
            old(self).wf(),
        ensures
            final(self).wf(),
            final(self)@ == old(self)@.insert(
                unicode_upper(symbol@),
                (price_precision, quantity_precision),
            ),
    {
        let key = to_upper(symbol);
        let ghost before = entry_views(self.precisions@);
        match self.find(key.as_str()) {
            Some(i) => {
                self.precisions.set(i, (key, price_precision, quantity_precision));
                proof {
                    let after = entry_views(self.precisions@);
                    assert(after =~= before.update(
                        i as int,
                        (before[i as int].0, price_precision, quantity_precision),
                    ));
                    lemma_map_update(before, i as int, price_precision, quantity_precision);
                    assert forall|a: int, b: int| 0 <= a < b < after.len() implies #[trigger] after[a].0
                        != #[trigger] after[b].0 by {
                        assert(after[a].0 == before[a].0 && after[b].0 == before[b].0);
                    }
                }
            },
            None => {
                self.precisions.push((key, price_precision, quantity_precision));
                proof {
                    let after = entry_views(self.precisions@);
                    assert(after.drop_last() =~= before);
                    assert forall|a: int, b: int| 0 <= a < b < after.len() implies #[trigger] after[a].0
                        != #[trigger] after[b].0 by {
                        if b < before.len() {
                            assert(after[a] == before[a] && after[b] == before[b]);
                        } else {
                            assert(after[a] == before[a]);
                        }
                    }
                }
            },
        }
    }

    /// The (price, quantity) precisions of a symbol (upper-cased), or (2, 3)
    /// when it has none of its own.
    pub fn precision_for(&self, symbol: &str) -> (r: (u32, u32))
        requires
            self.wf(),
        ensures
            r == precisions_in(self@, symbol@),
    {
        let key = to_upper(symbol);
        match self.find(key.as_str()) {
            Some(i) => {
                proof {
                    lemma_map_at(entry_views(self.precisions@), i as int);
                }
                (self.precisions[i].1, self.precisions[i].2)
            },
            None => {
                proof {
                    let s = entry_views(self.precisions@);
                    assert forall|j: int| 0 <= j < s.len() implies #[trigger] s[j].0 != key@ by {
                        assert(s[j].0 == self.precisions@[j].0@);
                    }
                    lemma_map_missing(s, key@);
                }
                (2, 3)
            },
        }
    }
}

impl Default for PrecisionFormatter {
    fn default() -> (f: Self)
        ensures
            f.wf(),
            f@ == map![
                "BTCUSDT"@ => (2u32, 5u32),
                "ETHUSDT"@ => (2u32, 4u32),
                "BNBUSDT"@ => (2u32, 3u32),
                "SOLUSDT"@ => (3u32, 2u32),
                "XRPUSDT"@ => (4u32, 1u32),
            ],
    {
        PrecisionFormatter::new()
    }
}

/// What a symbol's precisions read after they are set: the values set, for
/// any way of writing the symbol with the same upper-case form; every other
/// symbol reads as before.
pub proof fn lemma_precision_read_after_write(
    table: Map<Seq<char>, (u32, u32)>,
    written: Seq<char>,
    read: Seq<char>,
    price_precision: u32,
    quantity_precision: u32,
)
    ensures
        unicode_upper(read) == unicode_upper(written) ==> precisions_in(
            table.insert(unicode_upper(written), (price_precision, quantity_precision)),
            read,
        ) == (price_precision, quantity_precision),
        unicode_upper(read) != unicode_upper(written) ==> precisions_in(
            table.insert(unicode_upper(written), (price_precision, quantity_precision)),
            read,
        ) == precisions_in(table, read),
{
}

} // verus!
