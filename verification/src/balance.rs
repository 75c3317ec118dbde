//! Per-currency balances folded from a transaction history.
//!
//! The fold walks the transactions in input order; each net change is
//! normalized to the precision of the transaction's own asset and added to
//! that asset's running total. Both operands of every addition carry the
//! same scale, because both were normalized against the same table entry.
//! The first transaction that cannot be normalized aborts the whole
//! aggregation; no partial balance map is ever returned.

use vstd::prelude::*;

use crate::FTXDerivativesError;
use crate::currency::{spec_lookup, PrecisionTable};
use crate::decimal::{normalize, spec_normalize, FixedDecimal, MAX_MANTISSA};
use crate::transaction::Transaction;

verus! {

/// Pairwise-distinct currency keys.
pub open spec fn keys_unique(s: Seq<(Seq<char>, FixedDecimal)>) -> bool {
    forall|i: int, j: int| 0 <= i < j < s.len() ==> (#[trigger] s[i]).0 != (#[trigger] s[j]).0
}

/// The mapping an entry list denotes; a later entry shadows an earlier one
/// with the same key, though the aggregator keeps keys unique.
pub open spec fn seq_to_map(s: Seq<(Seq<char>, FixedDecimal)>) -> Map<Seq<char>, FixedDecimal>
    decreases s.len(),
{
    if s.len() == 0 {
        Map::empty()
    } else {
        seq_to_map(s.drop_last()).insert(s.last().0, s.last().1)
    }
}

proof fn lemma_seq_to_map_contains(s: Seq<(Seq<char>, FixedDecimal)>, key: Seq<char>)
    ensures
        seq_to_map(s).contains_key(key) <==> exists|i: int|
            0 <= i < s.len() && (#[trigger] s[i]).0 == key,
    decreases s.len(),
{
    if s.len() > 0 {
        lemma_seq_to_map_contains(s.drop_last(), key);
        if seq_to_map(s).contains_key(key) {
            if s.last().0 == key {
                assert(s[s.len() - 1].0 == key);
            } else {
                let i = choose|i: int|
                    0 <= i < s.drop_last().len() && (#[trigger] s.drop_last()[i]).0 == key;
                assert(s[i].0 == key);
            }
        }
        if exists|i: int| 0 <= i < s.len() && (#[trigger] s[i]).0 == key {
            let i = choose|i: int| 0 <= i < s.len() && (#[trigger] s[i]).0 == key;
            if i < s.len() - 1 {
                assert(s.drop_last()[i].0 == key);
            }
        }
    }
}

proof fn lemma_seq_to_map_index(s: Seq<(Seq<char>, FixedDecimal)>, i: int)
    requires
        keys_unique(s),
        0 <= i < s.len(),
    ensures
        seq_to_map(s).contains_key(s[i].0),
        seq_to_map(s)[s[i].0] == s[i].1,
    decreases s.len(),
{
    if i == s.len() - 1 {
    } else {
        assert(keys_unique(s.drop_last())) by {
            assert(forall|p: int, q: int|
                0 <= p < q < s.drop_last().len() ==> (#[trigger] s.drop_last()[p]).0 != (
                #[trigger] s.drop_last()[q]).0);
        }
        lemma_seq_to_map_index(s.drop_last(), i);
        assert(s.drop_last()[i] == s[i]);
        assert(s[i].0 != s.last().0);
    }
}

proof fn lemma_seq_to_map_update(s: Seq<(Seq<char>, FixedDecimal)>, j: int, v: FixedDecimal)
    requires
        keys_unique(s),
        0 <= j < s.len(),
    ensures
        seq_to_map(s.update(j, (s[j].0, v))) == seq_to_map(s).insert(s[j].0, v),
    decreases s.len(),
{
    let t = s.update(j, (s[j].0, v));
    if j == s.len() - 1 {
        assert(t.drop_last() =~= s.drop_last());
        assert(t.last() == (s[j].0, v));
        assert(seq_to_map(s.drop_last()).insert(s[j].0, v) =~= seq_to_map(s.drop_last()).insert(
            s.last().0,
            s.last().1,
        ).insert(s[j].0, v));
    } else {
        assert(keys_unique(s.drop_last())) by {
            assert(forall|p: int, q: int|
                0 <= p < q < s.drop_last().len() ==> (#[trigger] s.drop_last()[p]).0 != (
                #[trigger] s.drop_last()[q]).0);
        }
        lemma_seq_to_map_update(s.drop_last(), j, v);
        assert(t.drop_last() =~= s.drop_last().update(j, (s[j].0, v)));
        assert(t.last() == s.last());
        assert(s[j].0 != s.last().0);
        assert(seq_to_map(s.drop_last()).insert(s[j].0, v).insert(s.last().0, s.last().1)
            =~= seq_to_map(s.drop_last()).insert(s.last().0, s.last().1).insert(s[j].0, v));
    }
}

/// Per-currency running totals: one entry per currency encountered, in
/// order of first appearance.
#[derive(Debug, Clone, PartialEq, Eq)]
pub struct BalanceMap {
    pub entries: Vec<(String, FixedDecimal)>,
}

impl View for BalanceMap {
    type V = Seq<(Seq<char>, FixedDecimal)>;

    open spec fn view(&self) -> Seq<(Seq<char>, FixedDecimal)> {
        self.entries@.map_values(|e: (String, FixedDecimal)| (e.0@, e.1))
    }
}

impl BalanceMap {
    /// The mapping this balance list denotes.
    pub open spec fn as_map(&self) -> Map<Seq<char>, FixedDecimal> {
        seq_to_map(self@)
    }

    /// One entry per currency, every total representable.
    pub open spec fn wf(&self) -> bool {
        &&& keys_unique(self@)
        &&& forall|i: int| 0 <= i < self@.len() ==> (#[trigger] self@[i]).1.wf()
    }

    /// An empty balance map.
    pub fn new() -> (b: BalanceMap)
        ensures
            b.wf(),
            b@ == Seq::<(Seq<char>, FixedDecimal)>::empty(),
            b.as_map() == Map::<Seq<char>, FixedDecimal>::empty(),
    {
        let b = BalanceMap { entries: Vec::new() };
        proof {
            assert(b@ =~= Seq::<(Seq<char>, FixedDecimal)>::empty());
        }
        b
    }

    /// How many currencies have a total.
    pub fn len(&self) -> (n: usize)
        ensures
            n == self@.len(),
    {
        self.entries.len()
    }

    /// The total recorded for a currency, if any.
    pub fn get(&self, currency: &str) -> (r: Option<FixedDecimal>)
        requires
            self.wf(),
        ensures
            match r {
                Some(d) => self.as_map().contains_key(currency@) && self.as_map()[currency@] == d,
                None => !self.as_map().contains_key(currency@),
            },
    {
        let c = currency.to_owned();
        let mut j: usize = 0;
        while j < self.entries.len()
            invariant
                j <= self@.len(),
                c@ == currency@,
                self.wf(),
                forall|k: int| 0 <= k < j ==> (#[trigger] self@[k]).0 != currency@,
            decreases self@.len() - j,
        {
            if self.entries[j].0 == c {
                proof {
                    lemma_seq_to_map_index(self@, j as int);
                }
                return Some(self.entries[j].1);
            }
            j = j + 1;
        }
        proof {
            lemma_seq_to_map_contains(self@, currency@);
        }
        None
    }
}

/// What normalizing one transaction's net change returns: the precision of
/// the transaction's own asset is looked up, then the net change is
/// normalized to it.
pub open spec fn spec_normalized_net(t: Transaction, entries: Seq<(Seq<char>, u32)>) -> Result<
    FixedDecimal,
    FTXDerivativesError,
> {
    match spec_lookup(entries, t.asset@) {
        None => Err(FTXDerivativesError::UnknownCurrency { currency: t.asset }),
        Some(nd) => spec_normalize(t.net_change, nd),
    }
}

/// What aggregating a transaction list returns: the exact per-currency sum
/// of normalized net changes, or the error of the first transaction that
/// cannot be normalized (or whose running total leaves the representation).
pub open spec fn spec_aggregate(ts: Seq<Transaction>, entries: Seq<(Seq<char>, u32)>) -> Result<
    Map<Seq<char>, FixedDecimal>,
    FTXDerivativesError,
>
    decreases ts.len(),
{
    if ts.len() == 0 {
        Ok(Map::empty())
    } else {
        match spec_aggregate(ts.drop_last(), entries) {
            Err(e) => Err(e),
            Ok(m) => match spec_normalized_net(ts.last(), entries) {
                Err(e) => Err(e),
                Ok(d) => {
                    let key = ts.last().asset@;
                    if m.contains_key(key) {
                        let sum = m[key].mantissa + d.mantissa;
                        if -MAX_MANTISSA <= sum <= MAX_MANTISSA {
                            Ok(m.insert(key, FixedDecimal { mantissa: sum as i128, scale: d.scale }))
                        } else {
                            Err(FTXDerivativesError::DecimalError)
                        }
                    } else {
                        Ok(m.insert(key, d))
                    }
                },
            },
        }
    }
}

/// An error reached on some prefix is the error of the whole fold: nothing
/// after the first failing transaction can rescue an aggregation.
pub proof fn lemma_aggregate_prefix_error(
    ts: Seq<Transaction>,
    entries: Seq<(Seq<char>, u32)>,
    k: int,
)
    requires
        0 <= k <= ts.len(),
        spec_aggregate(ts.take(k), entries) is Err,
    ensures
        spec_aggregate(ts, entries) == spec_aggregate(ts.take(k), entries),
    decreases ts.len(),
{
    if ts.len() == k {
        assert(ts.take(k) =~= ts);
    } else {
        assert(ts.drop_last().take(k) =~= ts.take(k));
        lemma_aggregate_prefix_error(ts.drop_last(), entries, k);
    }
}

/// Folds a transaction list into per-currency balances: for each
/// transaction the net change is normalized to the precision of its own
/// asset and added into that asset's running total.
pub fn aggregate_balances(transactions: &Vec<Transaction>, table: &PrecisionTable) -> (r: Result<
    BalanceMap,
    FTXDerivativesError,
>)
    requires
        forall|i: int| 0 <= i < transactions@.len() ==> (#[trigger] transactions@[i]).wf(),
    ensures
        match spec_aggregate(transactions@, table@) {
            Ok(m) => r matches Ok(b) && b.wf() && b.as_map() == m,
            Err(e) => r == Err::<BalanceMap, FTXDerivativesError>(e),
        },
{
    let mut bal = BalanceMap::new();
    let mut i: usize = 0;
    proof {
        assert(transactions@.take(0) =~= Seq::<Transaction>::empty());
    }
    while i < transactions.len()
        invariant
            i <= transactions@.len(),
            forall|k: int| 0 <= k < transactions@.len() ==> (#[trigger] transactions@[k]).wf(),
            bal.wf(),
            spec_aggregate(transactions@.take(i as int), table@) == Ok::<
                Map<Seq<char>, FixedDecimal>,
                FTXDerivativesError,
            >(bal.as_map()),
        decreases transactions@.len() - i,
    {
        let t = &transactions[i];
        proof {
            assert(transactions@.take(i + 1).drop_last() =~= transactions@.take(i as int));
            assert(transactions@.take(i + 1).last() == transactions@[i as int]);
        }
        let nd = match table.precision_of(t.asset.as_str()) {
            Ok(nd) => nd,
            Err(_) => {
                proof {
                    lemma_aggregate_prefix_error(transactions@, table@, i + 1);
                }
                return Err(FTXDerivativesError::UnknownCurrency { currency: t.asset.clone() });
            },
        };
        let d = match normalize(t.net_change, nd) {
            Ok(d) => d,
            Err(e) => {
                proof {
                    lemma_aggregate_prefix_error(transactions@, table@, i + 1);
                }
                return Err(e);
            },
        };
        let n = bal.entries.len();
        let mut j: usize = 0;
        let mut idx: usize = n;
        while j < n
            invariant
                j <= n,
                n == bal@.len(),
                idx == n || idx < j,
                idx == n ==> forall|k: int| 0 <= k < j ==> (#[trigger] bal@[k]).0 != t.asset@,
                idx < n ==> bal@[idx as int].0 == t.asset@,
                t == &transactions@[i as int],
            decreases n - j,
        {
            if idx == n && bal.entries[j].0 == t.asset {
                idx = j;
            }
            j = j + 1;
        }
        let ghost oldv = bal@;
        if idx < bal.entries.len() {
            proof {
                lemma_seq_to_map_contains(oldv, t.asset@);
                lemma_seq_to_map_index(oldv, idx as int);
            }
            let cur = bal.entries[idx].1;
            let sum = cur.mantissa + d.mantissa;
            if sum > MAX_MANTISSA || sum < -MAX_MANTISSA {
                proof {
                    lemma_aggregate_prefix_error(transactions@, table@, i + 1);
                }
                return Err(FTXDerivativesError::DecimalError);
            }
            let updated = FixedDecimal { mantissa: sum, scale: d.scale };
            let pair = bal.entries.remove(idx);
            bal.entries.insert(idx, (pair.0, updated));
            proof {
                assert(bal@ =~= oldv.update(idx as int, (t.asset@, updated)));
                lemma_seq_to_map_update(oldv, idx as int, updated);
            }
        } else {
            proof {
                lemma_seq_to_map_contains(oldv, t.asset@);
            }
            bal.entries.push((t.asset.clone(), d));
            proof {
                assert(bal@ =~= oldv.push((t.asset@, d)));
                assert(bal@.drop_last() =~= oldv);
            }
        }
        i = i + 1;
    }
    proof {
        assert(transactions@.take(transactions@.len() as int) =~= transactions@);
    }
    Ok(bal)
}

/// Law: aggregating an empty transaction list yields an empty balance map.
pub proof fn lemma_aggregate_empty(entries: Seq<(Seq<char>, u32)>)
    ensures
        spec_aggregate(Seq::<Transaction>::empty(), entries) == Ok::<
            Map<Seq<char>, FixedDecimal>,
            FTXDerivativesError,
        >(Map::<Seq<char>, FixedDecimal>::empty()),
{
}

/// Law: two transactions in the same currency aggregate to the same
/// balances in either order — the running total is a commutative sum.
pub proof fn lemma_aggregate_pair_commutes(
    a: Transaction,
    b: Transaction,
    entries: Seq<(Seq<char>, u32)>,
)
    requires
        a.asset@ == b.asset@,
        spec_normalized_net(a, entries) is Ok,
        spec_normalized_net(b, entries) is Ok,
    ensures
        spec_aggregate(seq![a, b], entries) == spec_aggregate(seq![b, a], entries),
{
    reveal_with_fuel(spec_aggregate, 3);
    let da = spec_normalized_net(a, entries)->Ok_0;
    let db = spec_normalized_net(b, entries)->Ok_0;
    let nd = spec_lookup(entries, a.asset@)->Some_0;
    assert(da.scale == nd && db.scale == nd);
    assert(spec_aggregate(Seq::<Transaction>::empty(), entries) == Ok::<
        Map<Seq<char>, FixedDecimal>,
        FTXDerivativesError,
    >(Map::<Seq<char>, FixedDecimal>::empty()));
    assert(seq![a, b].last() == b && seq![b, a].last() == a);
    assert(seq![a].last() == a && seq![b].last() == b);
    assert(seq![a, b].drop_last() =~= seq![a]);
    assert(seq![b, a].drop_last() =~= seq![b]);
    assert(seq![a].drop_last() =~= Seq::<Transaction>::empty());
    assert(seq![b].drop_last() =~= Seq::<Transaction>::empty());
    let ma = Map::<Seq<char>, FixedDecimal>::empty().insert(a.asset@, da);
    let mb = Map::<Seq<char>, FixedDecimal>::empty().insert(b.asset@, db);
    assert(spec_aggregate(seq![a], entries) == Ok::<_, FTXDerivativesError>(ma));
    assert(spec_aggregate(seq![b], entries) == Ok::<_, FTXDerivativesError>(mb));
    assert(ma.contains_key(b.asset@) && ma[b.asset@] == da);
    assert(mb.contains_key(a.asset@) && mb[a.asset@] == db);
    let sum = da.mantissa + db.mantissa;
    if -MAX_MANTISSA <= sum <= MAX_MANTISSA {
        assert(ma.insert(b.asset@, FixedDecimal { mantissa: sum as i128, scale: db.scale })
            =~= mb.insert(a.asset@, FixedDecimal { mantissa: sum as i128, scale: da.scale }));
    }
}

} // verus!
