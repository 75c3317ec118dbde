//! Merging a concurrent multi-key ticker fetch, with all-or-nothing error
//! semantics.
//!
//! The unverified edge fans one fetch out per requested contract id and
//! hands back the results in request order. Merging either fails with the
//! first error observed — no partial map ever escapes — or produces a map
//! with exactly one entry per requested id. A duplicated id keeps the value
//! of its last fetch; fetches of the same key within one call are expected
//! to be referentially consistent, so which one wins is immaterial.

use std::collections::HashMap;

use vstd::prelude::*;

use crate::FTXDerivativesError;
use crate::contract::ContractTicker;

verus! {

broadcast use vstd::std_specs::hash::group_hash_axioms;

/// The first error among the per-key results, in request order.
pub open spec fn spec_first_error(
    results: Seq<Result<ContractTicker, FTXDerivativesError>>,
) -> Option<FTXDerivativesError>
    decreases results.len(),
{
    if results.len() == 0 {
        None
    } else {
        match results[0] {
            Err(e) => Some(e),
            Ok(_) => spec_first_error(results.skip(1)),
        }
    }
}

/// The fetched tickers of an all-success result list.
pub open spec fn spec_ok_values(
    results: Seq<Result<ContractTicker, FTXDerivativesError>>,
) -> Seq<ContractTicker> {
    results.map_values(|r: Result<ContractTicker, FTXDerivativesError>| r->Ok_0)
}

/// The map that pairing each id with its fetched ticker builds, later
/// occurrences of a duplicated id overwriting earlier ones.
pub open spec fn spec_zip_map(ids: Seq<u64>, tickers: Seq<ContractTicker>) -> Map<
    u64,
    ContractTicker,
>
    decreases ids.len(),
{
    if ids.len() == 0 || tickers.len() == 0 {
        Map::empty()
    } else {
        spec_zip_map(ids.drop_last(), tickers.drop_last()).insert(ids.last(), tickers.last())
    }
}

proof fn lemma_first_error_at(results: Seq<Result<ContractTicker, FTXDerivativesError>>, i: int)
    requires
        0 <= i < results.len(),
        forall|k: int| 0 <= k < i ==> (#[trigger] results[k]) is Ok,
        results[i] is Err,
    ensures
        spec_first_error(results) == Some(results[i]->Err_0),
    decreases i,
{
    if i > 0 {
        lemma_first_error_at(results.skip(1), i - 1);
    }
}

proof fn lemma_no_first_error(results: Seq<Result<ContractTicker, FTXDerivativesError>>)
    requires
        forall|k: int| 0 <= k < results.len() ==> (#[trigger] results[k]) is Ok,
    ensures
        spec_first_error(results) == None::<FTXDerivativesError>,
    decreases results.len(),
{
    if results.len() > 0 {
        lemma_no_first_error(results.skip(1));
    }
}

/// Law: an all-success merge holds exactly one entry per requested id — a
/// key is in the map if and only if it was asked for.
pub proof fn lemma_zip_map_domain(ids: Seq<u64>, tickers: Seq<ContractTicker>, key: u64)
    requires
        ids.len() == tickers.len(),
    ensures
        spec_zip_map(ids, tickers).contains_key(key) <==> ids.contains(key),
    decreases ids.len(),
{
    if ids.len() > 0 {
        lemma_zip_map_domain(ids.drop_last(), tickers.drop_last(), key);
        if spec_zip_map(ids, tickers).contains_key(key) {
            if key == ids.last() {
                assert(ids[ids.len() - 1] == key);
            } else {
                let i = choose|i: int|
                    0 <= i < ids.drop_last().len() && (#[trigger] ids.drop_last()[i]) == key;
                assert(ids[i] == key);
            }
        }
        if ids.contains(key) {
            let i = choose|i: int| 0 <= i < ids.len() && (#[trigger] ids[i]) == key;
            if i < ids.len() - 1 {
                assert(ids.drop_last()[i] == key);
            }
        }
    }
}

/// Law: each merged value corresponds positionally to its id's fetch; a
/// duplicated id keeps the value fetched for its last occurrence.
pub proof fn lemma_zip_map_positional(ids: Seq<u64>, tickers: Seq<ContractTicker>, i: int)
    requires
        ids.len() == tickers.len(),
        0 <= i < ids.len(),
        forall|j: int| i < j < ids.len() ==> (#[trigger] ids[j]) != ids[i],
    ensures
        spec_zip_map(ids, tickers).contains_key(ids[i]),
        spec_zip_map(ids, tickers)[ids[i]] == tickers[i],
    decreases ids.len(),
{
    if i == ids.len() - 1 {
    } else {
        assert(ids.last() != ids[i]);
        assert(ids.drop_last()[i] == ids[i]);
        lemma_zip_map_positional(ids.drop_last(), tickers.drop_last(), i);
    }
}

/// Merges the per-key results of a concurrent ticker fetch: the first error
/// fails the whole batch, otherwise the map pairs each requested id with
/// its fetched ticker.
#[verifier::loop_isolation(false)]
pub fn collect_tickers(
    contract_ids: &Vec<u64>,
    results: Vec<Result<ContractTicker, FTXDerivativesError>>,
) -> (r: Result<HashMap<u64, ContractTicker>, FTXDerivativesError>)
    requires
        contract_ids@.len() == results@.len(),
    ensures
        match spec_first_error(results@) {
            Some(e) => r == Err::<HashMap<u64, ContractTicker>, FTXDerivativesError>(e),
            None => r matches Ok(m) && m@ == spec_zip_map(contract_ids@, spec_ok_values(results@)),
        },
{
    let ghost orig = results@;
    let mut rem = results;
    let mut m: HashMap<u64, ContractTicker> = HashMap::new();
    let mut i: usize = 0;
    proof {
        assert(orig.skip(0) =~= orig);
        assert(contract_ids@.take(0) =~= Seq::<u64>::empty());
    }
    while i < contract_ids.len()
        invariant
            i <= contract_ids@.len(),
            contract_ids@.len() == orig.len(),
            rem@ == orig.skip(i as int),
            forall|k: int| 0 <= k < i ==> (#[trigger] orig[k]) is Ok,
            m@ == spec_zip_map(contract_ids@.take(i as int), spec_ok_values(orig.take(i as int))),
        decreases contract_ids@.len() - i,
    {
        let x = rem.remove(0);
        proof {
            assert(x == orig[i as int]);
            assert(orig.skip(i as int).remove(0) =~= orig.skip(i + 1));
        }
        match x {
            Err(e) => {
                proof {
                    lemma_first_error_at(orig, i as int);
                }
                return Err(e);
            },
            Ok(v) => {
                let ghost oldm = m@;
                m.insert(contract_ids[i], v);
                proof {
                    let ghost ids1 = contract_ids@.take(i + 1);
                    let ghost vals1 = spec_ok_values(orig.take(i + 1));
                    assert(ids1.drop_last() =~= contract_ids@.take(i as int));
                    assert(vals1.drop_last() =~= spec_ok_values(orig.take(i as int)));
                    assert(ids1.last() == contract_ids@[i as int]);
                    assert(vals1.last() == v);
                    assert(m@ == spec_zip_map(ids1, vals1));
                }
            },
        }
        i = i + 1;
    }
    proof {
        lemma_no_first_error(orig);
        assert(contract_ids@.take(orig.len() as int) =~= contract_ids@);
        assert(orig.take(orig.len() as int) =~= orig);
    }
    Ok(m)
}

} // verus!
