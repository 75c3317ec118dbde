//! Currency precision: how many fractional digits each currency carries.
//!
//! The table is injectable configuration: the enumerated venue currencies are
//! its defaults, and a caller may supply a different table when the wire
//! precision drifts between API revisions. A currency code absent from the
//! table is a hard error — precision is never defaulted silently, because a
//! silently defaulted precision silently corrupts money.

use vstd::prelude::*;

use crate::FTXDerivativesError;

verus! {

/// The precision the default table assigns to a currency code.
pub open spec fn default_precision(currency: Seq<char>) -> Option<u32> {
    if currency == "USD"@ {
        Some(2u32)
    } else if currency == "CBTC"@ {
        Some(8u32)
    } else if currency == "ETH"@ {
        Some(9u32)
    } else {
        None
    }
}

/// The entries of the default precision table, in order.
pub open spec fn default_entries() -> Seq<(Seq<char>, u32)> {
    seq![("USD"@, 2u32), ("CBTC"@, 8u32), ("ETH"@, 9u32)]
}

/// First-match lookup of a currency code among table entries.
pub open spec fn spec_lookup(entries: Seq<(Seq<char>, u32)>, currency: Seq<char>) -> Option<u32>
    decreases entries.len(),
{
    if entries.len() == 0 {
        None
    } else if entries[0].0 == currency {
        Some(entries[0].1)
    } else {
        spec_lookup(entries.skip(1), currency)
    }
}

/// Fractional-digit count for the venue's built-in currencies; any other
/// code fails with [`FTXDerivativesError::UnknownCurrency`].
pub fn get_num_decimals(currency: &str) -> (r: Result<u32, FTXDerivativesError>)
    ensures
        match default_precision(currency@) {
            Some(p) => r == Ok::<u32, FTXDerivativesError>(p),
            None => (r matches Err(e) && e matches FTXDerivativesError::UnknownCurrency {
                currency: c,
            } && c@ == currency@),
        },
{
    let c = currency.to_owned();
    if c == "USD".to_owned() {
        Ok(2)
    } else if c == "CBTC".to_owned() {
        Ok(8)
    } else if c == "ETH".to_owned() {
        Ok(9)
    } else {
        Err(FTXDerivativesError::UnknownCurrency { currency: c })
    }
}

/// Maps currency codes to their fractional-digit counts. Lookup takes the
/// first matching entry, so earlier entries shadow later ones.
pub struct PrecisionTable {
    pub entries: Vec<(String, u32)>,
}

impl View for PrecisionTable {
    type V = Seq<(Seq<char>, u32)>;

    open spec fn view(&self) -> Seq<(Seq<char>, u32)> {
        self.entries@.map_values(|e: (String, u32)| (e.0@, e.1))
    }
}

impl PrecisionTable {
    /// A table with exactly the given entries.
    pub fn new(entries: Vec<(String, u32)>) -> (t: PrecisionTable)
        ensures
            t@ == entries@.map_values(|e: (String, u32)| (e.0@, e.1)),
    {
        PrecisionTable { entries }
    }

    /// The default table: the venue's built-in currencies.
    pub fn defaults() -> (t: PrecisionTable)
        ensures
            t@ == default_entries(),
    {
        let mut entries: Vec<(String, u32)> = Vec::new();
        entries.push(("USD".to_owned(), 2));
        entries.push(("CBTC".to_owned(), 8));
        entries.push(("ETH".to_owned(), 9));
        let t = PrecisionTable { entries };
        proof {
            assert(t@ =~~= default_entries());
        }
        t
    }

    /// Looks the currency up; absence is a hard error carrying the code.
    pub fn precision_of(&self, currency: &str) -> (r: Result<u32, FTXDerivativesError>)
        ensures
            match spec_lookup(self@, currency@) {
                Some(p) => r == Ok::<u32, FTXDerivativesError>(p),
                None => (r matches Err(e) && e matches FTXDerivativesError::UnknownCurrency {
                    currency: c,
                } && c@ == currency@),
            },
    {
        let c = currency.to_owned();
        let mut i: usize = 0;
        proof {
            assert(self@.skip(0) =~= self@);
        }
        while i < self.entries.len()
            invariant
                i <= self.entries.len(),
                c@ == currency@,
                spec_lookup(self@.skip(i as int), currency@) == spec_lookup(self@, currency@),
            decreases self.entries.len() - i,
        {
            if self.entries[i].0 == c {
                assert(self@.skip(i as int)[0] == (self@[i as int].0, self@[i as int].1));
                return Ok(self.entries[i].1);
            }
            proof {
                assert(self@.skip(i as int).skip(1) =~= self@.skip(i + 1int));
            }
            i = i + 1;
        }
        Err(FTXDerivativesError::UnknownCurrency { currency: c })
    }
}

/// Law: looking a code up in the default table agrees with the built-in
/// precision function, for every currency code.
pub proof fn lemma_default_table_agrees(currency: Seq<char>)
    ensures
        spec_lookup(default_entries(), currency) == default_precision(currency),
{
    let e = default_entries();
    reveal_with_fuel(spec_lookup, 5);
    assert(e.skip(1) =~= seq![("CBTC"@, 8u32), ("ETH"@, 9u32)]);
    assert(e.skip(1).skip(1) =~= seq![("ETH"@, 9u32)]);
    assert(e.skip(1).skip(1).skip(1) =~= Seq::<(Seq<char>, u32)>::empty());
    assert(e[0] == ("USD"@, 2u32));
    assert(e.skip(1)[0] == ("CBTC"@, 8u32));
    assert(e.skip(1).skip(1)[0] == ("ETH"@, 9u32));
}

} // verus!
