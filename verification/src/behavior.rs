//! Behavior categories and their value ranges. Categories fall into two
//! disjoint families: positive categories always take the positive
//! multiplier, negative categories the negative one.

use vstd::prelude::*;

use crate::tables::{band_of_value, lookup_by_name, lookup_from};
use crate::text::str_eq;

verus! {

/// The positive-family categories with their closed value ranges, in scan
/// order.
pub open spec fn positive_table() -> Seq<(Seq<char>, (i32, i32))> {
    seq![
        ("Neutral Behavior"@, (0i32, 0i32)),
        ("LightPositiveBehavior"@, (1i32, 4i32)),
        ("ModeratePositiveBehavior"@, (5i32, 9i32)),
        ("StrongPositiveBehavior"@, (10i32, 16i32)),
        ("ExtremePositiveBehavior"@, (17i32, 25i32)),
        ("Sexual_Neutral"@, (-1i32, 1i32)),
        ("Sexual_Light"@, (2i32, 5i32)),
        ("Sexual_Moderate"@, (6i32, 10i32)),
        ("Sexual_Strong"@, (11i32, 19i32)),
        ("Sexual_Extreme"@, (20i32, 40i32)),
    ]
}

/// The negative-family categories with their closed value ranges, in scan
/// order.
pub open spec fn negative_table() -> Seq<(Seq<char>, (i32, i32))> {
    seq![
        ("LightNegativeBehavior"@, (-5i32, -1i32)),
        ("ModerateNegativeBehavior"@, (-15i32, -6i32)),
        ("StrongNegativeBehavior"@, (-30i32, -16i32)),
        ("ExtremeNegativeBehavior"@, (-50i32, -31i32)),
        ("Sexual_Neg_Light"@, (-10i32, -1i32)),
        ("Sexual_Neg_Moderate"@, (-20i32, -11i32)),
        ("Sexual_Neg_Strong"@, (-80i32, -21i32)),
        ("Sexual_Neg_Extreme"@, (-100i32, -81i32)),
    ]
}

/// The category is in the positive family.
pub open spec fn is_positive_spec(name: Seq<char>) -> bool {
    lookup_by_name(positive_table(), name) is Some
}

/// The category is in the negative family.
pub open spec fn is_negative_spec(name: Seq<char>) -> bool {
    lookup_by_name(negative_table(), name) is Some
}

/// The range of a category of either family, the positive family checked
/// first.
pub open spec fn behavior_range_spec(name: Seq<char>) -> Option<(i32, i32)> {
    match lookup_by_name(positive_table(), name) {
        Some(r) => Some(r),
        None => lookup_by_name(negative_table(), name),
    }
}

/// The name of the first category of either family whose range holds `v`,
/// the positive family scanned first.
pub open spec fn behavior_from_value_spec(v: int) -> Option<Seq<char>> {
    match band_of_value(positive_table(), v) {
        Some(n) => Some(n),
        None => band_of_value(negative_table(), v),
    }
}

/// Get behavior range from positive behaviors.
pub fn get_positive_behavior_range(behavior: &str) -> (r: Option<(i32, i32)>)
    ensures
        r == lookup_by_name(positive_table(), behavior@),
{
    let ghost t = positive_table();
    if str_eq(behavior, "Neutral Behavior") {
        proof {
            assert(lookup_from(t, behavior@, 0) == Some((0i32, 0i32)));
        }
        return Some((0, 0));
    }
    proof {
        assert(lookup_from(t, behavior@, 0) == lookup_from(t, behavior@, 1));
    }
    if str_eq(behavior, "LightPositiveBehavior") {
        return Some((1, 4));
    }
    proof {
        assert(lookup_from(t, behavior@, 1) == lookup_from(t, behavior@, 2));
    }
    if str_eq(behavior, "ModeratePositiveBehavior") {
        return Some((5, 9));
    }
    proof {
        assert(lookup_from(t, behavior@, 2) == lookup_from(t, behavior@, 3));
    }
    if str_eq(behavior, "StrongPositiveBehavior") {
        return Some((10, 16));
    }
    proof {
        assert(lookup_from(t, behavior@, 3) == lookup_from(t, behavior@, 4));
    }
    if str_eq(behavior, "ExtremePositiveBehavior") {
        return Some((17, 25));
    }
    proof {
        assert(lookup_from(t, behavior@, 4) == lookup_from(t, behavior@, 5));
    }
    if str_eq(behavior, "Sexual_Neutral") {
        return Some((-1, 1));
    }
    proof {
        assert(lookup_from(t, behavior@, 5) == lookup_from(t, behavior@, 6));
    }
    if str_eq(behavior, "Sexual_Light") {
        return Some((2, 5));
    }
    proof {
        assert(lookup_from(t, behavior@, 6) == lookup_from(t, behavior@, 7));
    }
    if str_eq(behavior, "Sexual_Moderate") {
        return Some((6, 10));
    }
    proof {
        assert(lookup_from(t, behavior@, 7) == lookup_from(t, behavior@, 8));
    }
    if str_eq(behavior, "Sexual_Strong") {
        return Some((11, 19));
    }
    proof {
        assert(lookup_from(t, behavior@, 8) == lookup_from(t, behavior@, 9));
    }
    if str_eq(behavior, "Sexual_Extreme") {
        return Some((20, 40));
    }
    proof {
        assert(lookup_from(t, behavior@, 9) == lookup_from(t, behavior@, 10));
    }
    None
}

/// Get behavior range from negative behaviors.
pub fn get_negative_behavior_range(behavior: &str) -> (r: Option<(i32, i32)>)
    ensures
        r == lookup_by_name(negative_table(), behavior@),
{
    let ghost t = negative_table();
    if str_eq(behavior, "LightNegativeBehavior") {
        proof {
            assert(lookup_from(t, behavior@, 0) == Some((-5i32, -1i32)));
        }
        return Some((-5, -1));
    }
    proof {
        assert(lookup_from(t, behavior@, 0) == lookup_from(t, behavior@, 1));
    }
    if str_eq(behavior, "ModerateNegativeBehavior") {
        return Some((-15, -6));
    }
    proof {
        assert(lookup_from(t, behavior@, 1) == lookup_from(t, behavior@, 2));
    }
    if str_eq(behavior, "StrongNegativeBehavior") {
        return Some((-30, -16));
    }
    proof {
        assert(lookup_from(t, behavior@, 2) == lookup_from(t, behavior@, 3));
    }
    if str_eq(behavior, "ExtremeNegativeBehavior") {
        return Some((-50, -31));
    }
    proof {
        assert(lookup_from(t, behavior@, 3) == lookup_from(t, behavior@, 4));
    }
    if str_eq(behavior, "Sexual_Neg_Light") {
        return Some((-10, -1));
    }
    proof {
        assert(lookup_from(t, behavior@, 4) == lookup_from(t, behavior@, 5));
    }
    if str_eq(behavior, "Sexual_Neg_Moderate") {
        return Some((-20, -11));
    }
    proof {
        assert(lookup_from(t, behavior@, 5) == lookup_from(t, behavior@, 6));
    }
    if str_eq(behavior, "Sexual_Neg_Strong") {
        return Some((-80, -21));
    }
    proof {
        assert(lookup_from(t, behavior@, 6) == lookup_from(t, behavior@, 7));
    }
    if str_eq(behavior, "Sexual_Neg_Extreme") {
        return Some((-100, -81));
    }
    proof {
        assert(lookup_from(t, behavior@, 7) == lookup_from(t, behavior@, 8));
    }
    None
}

/// Get behavior range by name, the positive family checked first.
pub fn get_behavior_range(behavior: &str) -> (r: Option<(i32, i32)>)
    ensures
        r == behavior_range_spec(behavior@),
{
    if let Some(range) = get_positive_behavior_range(behavior) {
        return Some(range);
    }
    get_negative_behavior_range(behavior)
}

/// Check if a behavior is in the positive behaviors list.
pub fn is_positive_behavior(behavior_category: &str) -> (r: bool)
    ensures
        r == is_positive_spec(behavior_category@),
{
    get_positive_behavior_range(behavior_category).is_some()
}

/// Check if a behavior is in the negative behaviors list.
pub fn is_negative_behavior(behavior_category: &str) -> (r: bool)
    ensures
        r == is_negative_spec(behavior_category@),
{
    get_negative_behavior_range(behavior_category).is_some()
}

/// Determine the behavior category whose range holds a value, the positive
/// family scanned first.
pub fn get_behavior_from_value(value: i32) -> (r: Option<&'static str>)
    ensures
        match r {
            Some(s) => behavior_from_value_spec(value as int) == Some(s@),
            None => behavior_from_value_spec(value as int) is None,
        },
{
    let ghost p = positive_table();
    let ghost n = negative_table();
    let ghost v = value as int;
    if value == 0 {
        proof {
            assert(crate::tables::band_from(p, v, 0) == Some("Neutral Behavior"@));
        }
        return Some("Neutral Behavior");
    }
    proof {
        assert(crate::tables::band_from(p, v, 0) == crate::tables::band_from(p, v, 1));
    }
    if 1 <= value && value <= 4 {
        return Some("LightPositiveBehavior");
    }
    proof {
        assert(crate::tables::band_from(p, v, 1) == crate::tables::band_from(p, v, 2));
    }
    if 5 <= value && value <= 9 {
        return Some("ModeratePositiveBehavior");
    }
    proof {
        assert(crate::tables::band_from(p, v, 2) == crate::tables::band_from(p, v, 3));
    }
    if 10 <= value && value <= 16 {
        return Some("StrongPositiveBehavior");
    }
    proof {
        assert(crate::tables::band_from(p, v, 3) == crate::tables::band_from(p, v, 4));
    }
    if 17 <= value && value <= 25 {
        return Some("ExtremePositiveBehavior");
    }
    proof {
        assert(crate::tables::band_from(p, v, 4) == crate::tables::band_from(p, v, 5));
    }
    if -1 <= value && value <= 1 {
        return Some("Sexual_Neutral");
    }
    proof {
        assert(crate::tables::band_from(p, v, 5) == crate::tables::band_from(p, v, 6));
    }
    if 2 <= value && value <= 5 {
        return Some("Sexual_Light");
    }
    proof {
        assert(crate::tables::band_from(p, v, 6) == crate::tables::band_from(p, v, 7));
    }
    if 6 <= value && value <= 10 {
        return Some("Sexual_Moderate");
    }
    proof {
        assert(crate::tables::band_from(p, v, 7) == crate::tables::band_from(p, v, 8));
    }
    if 11 <= value && value <= 19 {
        return Some("Sexual_Strong");
    }
    proof {
        assert(crate::tables::band_from(p, v, 8) == crate::tables::band_from(p, v, 9));
    }
    if 20 <= value && value <= 40 {
        return Some("Sexual_Extreme");
    }
    proof {
        assert(crate::tables::band_from(p, v, 9) == crate::tables::band_from(p, v, 10));
    }
    if -5 <= value && value <= -1 {
        proof {
            assert(crate::tables::band_from(n, v, 0) == Some("LightNegativeBehavior"@));
        }
        return Some("LightNegativeBehavior");
    }
    proof {
        assert(crate::tables::band_from(n, v, 0) == crate::tables::band_from(n, v, 1));
    }
    if -15 <= value && value <= -6 {
        return Some("ModerateNegativeBehavior");
    }
    proof {
        assert(crate::tables::band_from(n, v, 1) == crate::tables::band_from(n, v, 2));
    }
    if -30 <= value && value <= -16 {
        return Some("StrongNegativeBehavior");
    }
    proof {
        assert(crate::tables::band_from(n, v, 2) == crate::tables::band_from(n, v, 3));
    }
    if -50 <= value && value <= -31 {
        return Some("ExtremeNegativeBehavior");
    }
    proof {
        assert(crate::tables::band_from(n, v, 3) == crate::tables::band_from(n, v, 4));
    }
    if -10 <= value && value <= -1 {
        return Some("Sexual_Neg_Light");
    }
    proof {
        assert(crate::tables::band_from(n, v, 4) == crate::tables::band_from(n, v, 5));
    }
    if -20 <= value && value <= -11 {
        return Some("Sexual_Neg_Moderate");
    }
    proof {
        assert(crate::tables::band_from(n, v, 5) == crate::tables::band_from(n, v, 6));
    }
    if -80 <= value && value <= -21 {
        return Some("Sexual_Neg_Strong");
    }
    proof {
        assert(crate::tables::band_from(n, v, 6) == crate::tables::band_from(n, v, 7));
    }
    if -100 <= value && value <= -81 {
        return Some("Sexual_Neg_Extreme");
    }
    proof {
        assert(crate::tables::band_from(n, v, 7) == crate::tables::band_from(n, v, 8));
    }
    None
}

/// Every category name is globally unique across both families combined: no
/// name belongs to the positive and the negative family at once.
pub proof fn lemma_families_disjoint(name: Seq<char>)
    ensures
        !(is_positive_spec(name) && is_negative_spec(name)),
{
    if is_positive_spec(name) && is_negative_spec(name) {
        let p = positive_table();
        let n = negative_table();
        let pv = lookup_by_name(p, name)->Some_0;
        let nv = lookup_by_name(n, name)->Some_0;
        crate::tables::lemma_lookup_is_entry(p, name, 0);
        crate::tables::lemma_lookup_is_entry(n, name, 0);
        let i = choose|i: int| 0 <= i < p.len() && p[i] == (name, pv);
        let j = choose|j: int| 0 <= j < n.len() && n[j] == (name, nv);
        reveal_strlit("Neutral Behavior");
        reveal_strlit("LightPositiveBehavior");
        reveal_strlit("ModeratePositiveBehavior");
        reveal_strlit("StrongPositiveBehavior");
        reveal_strlit("ExtremePositiveBehavior");
        reveal_strlit("Sexual_Neutral");
        reveal_strlit("Sexual_Light");
        reveal_strlit("Sexual_Moderate");
        reveal_strlit("Sexual_Strong");
        reveal_strlit("Sexual_Extreme");
        reveal_strlit("LightNegativeBehavior");
        reveal_strlit("ModerateNegativeBehavior");
        reveal_strlit("StrongNegativeBehavior");
        reveal_strlit("ExtremeNegativeBehavior");
        reveal_strlit("Sexual_Neg_Light");
        reveal_strlit("Sexual_Neg_Moderate");
        reveal_strlit("Sexual_Neg_Strong");
        reveal_strlit("Sexual_Neg_Extreme");
        assert("Neutral Behavior"@.len() == 16);
        assert("LightPositiveBehavior"@.len() == 21);
        assert("ModeratePositiveBehavior"@.len() == 24);
        assert("StrongPositiveBehavior"@.len() == 22);
        assert("ExtremePositiveBehavior"@.len() == 23);
        assert("Sexual_Neutral"@.len() == 14);
        assert("Sexual_Light"@.len() == 12);
        assert("Sexual_Moderate"@.len() == 15);
        assert("Sexual_Strong"@.len() == 13);
        assert("Sexual_Extreme"@.len() == 14);
        assert("LightNegativeBehavior"@.len() == 21);
        assert("ModerateNegativeBehavior"@.len() == 24);
        assert("StrongNegativeBehavior"@.len() == 22);
        assert("ExtremeNegativeBehavior"@.len() == 23);
        assert("Sexual_Neg_Light"@.len() == 16);
        assert("Sexual_Neg_Moderate"@.len() == 19);
        assert("Sexual_Neg_Strong"@.len() == 17);
        assert("Sexual_Neg_Extreme"@.len() == 18);
        assert("Neutral Behavior"@[0] == 'N' && "Sexual_Neg_Light"@[0] == 'S');
        assert("LightPositiveBehavior"@[5] == 'P' && "LightNegativeBehavior"@[5] == 'N');
        assert("ModeratePositiveBehavior"@[8] == 'P' && "ModerateNegativeBehavior"@[8] == 'N');
        assert("StrongPositiveBehavior"@[6] == 'P' && "StrongNegativeBehavior"@[6] == 'N');
        assert("ExtremePositiveBehavior"@[7] == 'P' && "ExtremeNegativeBehavior"@[7] == 'N');
        assert(p[i].0 == n[j].0);
        assert(false);
    }
}

} // verus!
