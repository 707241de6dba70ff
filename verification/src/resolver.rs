//! Resolves free-text classifier output to exactly one canonical behavior
//! category. The canonical names are checked for containment in a fixed
//! enumeration order and the first hit wins; if none occurs, keyword
//! heuristics apply, sexual content taking priority over intensity and
//! polarity keywords; if nothing matches, the neutral category is returned.

use vstd::prelude::*;

use crate::text::{contains_seq, str_contains};

verus! {

/// The 18 canonical category names, in the fixed enumeration order whose
/// first containment match wins.
pub open spec fn canonical_names() -> Seq<Seq<char>> {
    seq![
        "Neutral Behavior"@,
        "LightPositiveBehavior"@,
        "LightNegativeBehavior"@,
        "ModeratePositiveBehavior"@,
        "ModerateNegativeBehavior"@,
        "StrongPositiveBehavior"@,
        "StrongNegativeBehavior"@,
        "ExtremePositiveBehavior"@,
        "ExtremeNegativeBehavior"@,
        "Sexual_Neutral"@,
        "Sexual_Light"@,
        "Sexual_Moderate"@,
        "Sexual_Strong"@,
        "Sexual_Extreme"@,
        "Sexual_Neg_Light"@,
        "Sexual_Neg_Moderate"@,
        "Sexual_Neg_Strong"@,
        "Sexual_Neg_Extreme"@,
    ]
}

/// The first canonical name at position `i` or later of the enumeration that
/// the text contains.
pub open spec fn first_canonical_from(text: Seq<char>, i: int) -> Option<Seq<char>>
    decreases canonical_names().len() - i,
{
    if i < 0 || i >= canonical_names().len() {
        None
    } else if contains_seq(text, canonical_names()[i]) {
        Some(canonical_names()[i])
    } else {
        first_canonical_from(text, i + 1)
    }
}

/// The keyword heuristics applied when no canonical name is contained:
/// sexual content first, then the positive intensity chain, then the
/// negative one, and the neutral category as the last resort.
pub open spec fn fallback_category(text: Seq<char>) -> Seq<char> {
    if contains_seq(text, "Sexual"@) {
        "Sexual_Neutral"@
    } else if contains_seq(text, "Positive"@) && contains_seq(text, "Extreme"@) {
        "ExtremePositiveBehavior"@
    } else if contains_seq(text, "Positive"@) && contains_seq(text, "Strong"@) {
        "StrongPositiveBehavior"@
    } else if contains_seq(text, "Positive"@) && contains_seq(text, "Moderate"@) {
        "ModeratePositiveBehavior"@
    } else if contains_seq(text, "Positive"@) && contains_seq(text, "Light"@) {
        "LightPositiveBehavior"@
    } else if contains_seq(text, "Negative"@) && contains_seq(text, "Extreme"@) {
        "ExtremeNegativeBehavior"@
    } else if contains_seq(text, "Negative"@) && contains_seq(text, "Strong"@) {
        "StrongNegativeBehavior"@
    } else if contains_seq(text, "Negative"@) && contains_seq(text, "Moderate"@) {
        "ModerateNegativeBehavior"@
    } else if contains_seq(text, "Negative"@) && contains_seq(text, "Light"@) {
        "LightNegativeBehavior"@
    } else {
        "Neutral Behavior"@
    }
}

/// The category the resolver assigns to a text: the first canonical name the
/// text contains, else the keyword fallback.
pub open spec fn resolved_category(text: Seq<char>) -> Seq<char> {
    match first_canonical_from(text, 0) {
        Some(n) => n,
        None => fallback_category(text),
    }
}

/// Parse the behavior category from a classifier's free-text reply.
pub fn parse_behavior_from_response(response: &str) -> (r: String)
    ensures
        r@ == resolved_category(response@),
{
    let ghost text = response@;
    if str_contains(response, "Neutral Behavior") {
        proof {
            assert(first_canonical_from(text, 0) == Some("Neutral Behavior"@));
        }
        return "Neutral Behavior".to_string();
    }
    proof {
        assert(first_canonical_from(text, 0) == first_canonical_from(text, 1));
    }
    if str_contains(response, "LightPositiveBehavior") {
        return "LightPositiveBehavior".to_string();
    }
    proof {
        assert(first_canonical_from(text, 1) == first_canonical_from(text, 2));
    }
    if str_contains(response, "LightNegativeBehavior") {
        return "LightNegativeBehavior".to_string();
    }
    proof {
        assert(first_canonical_from(text, 2) == first_canonical_from(text, 3));
    }
    if str_contains(response, "ModeratePositiveBehavior") {
        return "ModeratePositiveBehavior".to_string();
    }
    proof {
        assert(first_canonical_from(text, 3) == first_canonical_from(text, 4));
    }
    if str_contains(response, "ModerateNegativeBehavior") {
        return "ModerateNegativeBehavior".to_string();
    }
    proof {
        assert(first_canonical_from(text, 4) == first_canonical_from(text, 5));
    }
    if str_contains(response, "StrongPositiveBehavior") {
        return "StrongPositiveBehavior".to_string();
    }
    proof {
        assert(first_canonical_from(text, 5) == first_canonical_from(text, 6));
    }
    if str_contains(response, "StrongNegativeBehavior") {
        return "StrongNegativeBehavior".to_string();
    }
    proof {
        assert(first_canonical_from(text, 6) == first_canonical_from(text, 7));
    }
    if str_contains(response, "ExtremePositiveBehavior") {
        return "ExtremePositiveBehavior".to_string();
    }
    proof {
        assert(first_canonical_from(text, 7) == first_canonical_from(text, 8));
    }
    if str_contains(response, "ExtremeNegativeBehavior") {
        return "ExtremeNegativeBehavior".to_string();
    }
    proof {
        assert(first_canonical_from(text, 8) == first_canonical_from(text, 9));
    }
    if str_contains(response, "Sexual_Neutral") {
        return "Sexual_Neutral".to_string();
    }
    proof {
        assert(first_canonical_from(text, 9) == first_canonical_from(text, 10));
    }
    if str_contains(response, "Sexual_Light") {
        return "Sexual_Light".to_string();
    }
    proof {
        assert(first_canonical_from(text, 10) == first_canonical_from(text, 11));
    }
    if str_contains(response, "Sexual_Moderate") {
        return "Sexual_Moderate".to_string();
    }
    proof {
        assert(first_canonical_from(text, 11) == first_canonical_from(text, 12));
    }
    if str_contains(response, "Sexual_Strong") {
        return "Sexual_Strong".to_string();
    }
    proof {
        assert(first_canonical_from(text, 12) == first_canonical_from(text, 13));
    }
    if str_contains(response, "Sexual_Extreme") {
        return "Sexual_Extreme".to_string();
    }
    proof {
        assert(first_canonical_from(text, 13) == first_canonical_from(text, 14));
    }
    if str_contains(response, "Sexual_Neg_Light") {
        return "Sexual_Neg_Light".to_string();
    }
    proof {
        assert(first_canonical_from(text, 14) == first_canonical_from(text, 15));
    }
    if str_contains(response, "Sexual_Neg_Moderate") {
        return "Sexual_Neg_Moderate".to_string();
    }
    proof {
        assert(first_canonical_from(text, 15) == first_canonical_from(text, 16));
    }
    if str_contains(response, "Sexual_Neg_Strong") {
        return "Sexual_Neg_Strong".to_string();
    }
    proof {
        assert(first_canonical_from(text, 16) == first_canonical_from(text, 17));
    }
    if str_contains(response, "Sexual_Neg_Extreme") {
        return "Sexual_Neg_Extreme".to_string();
    }
    proof {
        assert(first_canonical_from(text, 17) == first_canonical_from(text, 18));
        assert(first_canonical_from(text, 0) is None);
    }
    if str_contains(response, "Sexual") {
        return "Sexual_Neutral".to_string();
    }
    let has_positive = str_contains(response, "Positive");
    let has_negative = str_contains(response, "Negative");
    if has_positive && str_contains(response, "Extreme") {
        return "ExtremePositiveBehavior".to_string();
    }
    if has_positive && str_contains(response, "Strong") {
        return "StrongPositiveBehavior".to_string();
    }
    if has_positive && str_contains(response, "Moderate") {
        return "ModeratePositiveBehavior".to_string();
    }
    if has_positive && str_contains(response, "Light") {
        return "LightPositiveBehavior".to_string();
    }
    if has_negative && str_contains(response, "Extreme") {
        return "ExtremeNegativeBehavior".to_string();
    }
    if has_negative && str_contains(response, "Strong") {
        return "StrongNegativeBehavior".to_string();
    }
    if has_negative && str_contains(response, "Moderate") {
        return "ModerateNegativeBehavior".to_string();
    }
    if has_negative && str_contains(response, "Light") {
        return "LightNegativeBehavior".to_string();
    }
    "Neutral Behavior".to_string()
}

/// Resolve free-text classifier output to a canonical category name; never
/// fails, the neutral category being the last resort.
pub fn resolve_category(text: &str) -> (r: String)
    ensures
        r@ == resolved_category(text@),
{
    parse_behavior_from_response(text)
}

/// A text that contains exactly one canonical name, and no other, resolves to
/// that name, wherever it stands in the enumeration order.
pub proof fn lemma_resolve_unique_canonical(text: Seq<char>, k: int)
    requires
        0 <= k < canonical_names().len(),
        contains_seq(text, canonical_names()[k]),
        forall|j: int|
            0 <= j < canonical_names().len() && j != k ==> !contains_seq(
                text,
                #[trigger] canonical_names()[j],
            ),
    ensures
        resolved_category(text) == canonical_names()[k],
{
    lemma_first_canonical_reaches(text, 0, k);
}

/// Scanning from any position at or before a contained name, past positions
/// whose names the text does not contain, finds that name.
proof fn lemma_first_canonical_reaches(text: Seq<char>, i: int, k: int)
    requires
        0 <= i <= k < canonical_names().len(),
        contains_seq(text, canonical_names()[k]),
        forall|j: int|
            i <= j < k ==> !contains_seq(text, #[trigger] canonical_names()[j]),
    ensures
        first_canonical_from(text, i) == Some(canonical_names()[k]),
    decreases k - i,
{
    if i < k {
        lemma_first_canonical_reaches(text, i + 1, k);
    }
}

} // verus!
