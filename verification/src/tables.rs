//! First-match lookups over the engine's static tables. A table is a sequence
//! of entries `(name, (a, b))`: for the band tables `(a, b)` is a closed
//! integer interval, for the coefficient tables it is a pair of multipliers
//! in hundredths. Entries are scanned in declaration order and the first
//! match wins.

use vstd::prelude::*;

verus! {

/// The pair of the first entry at index `i` or later whose name is `name`.
pub open spec fn lookup_from(
    table: Seq<(Seq<char>, (i32, i32))>,
    name: Seq<char>,
    i: int,
) -> Option<(i32, i32)>
    decreases table.len() - i,
{
    if i < 0 || i >= table.len() {
        None
    } else if table[i].0 == name {
        Some(table[i].1)
    } else {
        lookup_from(table, name, i + 1)
    }
}

/// The pair of the first entry whose name is `name`.
pub open spec fn lookup_by_name(table: Seq<(Seq<char>, (i32, i32))>, name: Seq<char>) -> Option<
    (i32, i32),
> {
    lookup_from(table, name, 0)
}

/// `v` lies in the entry's closed interval.
pub open spec fn in_band(entry: (Seq<char>, (i32, i32)), v: int) -> bool {
    entry.1.0 as int <= v <= entry.1.1 as int
}

/// The name of the first entry at index `i` or later whose interval holds `v`.
pub open spec fn band_from(table: Seq<(Seq<char>, (i32, i32))>, v: int, i: int) -> Option<
    Seq<char>,
>
    decreases table.len() - i,
{
    if i < 0 || i >= table.len() {
        None
    } else if in_band(table[i], v) {
        Some(table[i].0)
    } else {
        band_from(table, v, i + 1)
    }
}

/// The name of the first entry whose interval holds `v`.
pub open spec fn band_of_value(table: Seq<(Seq<char>, (i32, i32))>, v: int) -> Option<Seq<char>> {
    band_from(table, v, 0)
}

/// A successful lookup returns the pair of some entry carrying the looked-up
/// name, so a bound that holds of every entry of a table holds of the result.
pub proof fn lemma_lookup_is_entry(table: Seq<(Seq<char>, (i32, i32))>, name: Seq<char>, i: int)
    ensures
        lookup_from(table, name, i) matches Some(p) ==> exists|j: int|
            i <= j < table.len() && #[trigger] table[j] == (name, p),
    decreases table.len() - i,
{
    if 0 <= i < table.len() && table[i].0 != name {
        lemma_lookup_is_entry(table, name, i + 1);
    }
}

} // verus!
