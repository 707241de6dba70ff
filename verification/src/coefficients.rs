//! Coefficient multipliers for emotion and relationship calculations, keyed
//! by band name. A multiplier is held in hundredths: the stored pair
//! `(130, 70)` means the factors 1.30 and 0.70. Each pair is
//! `(positive_behavior_multiplier, negative_behavior_multiplier)`: a behavior
//! of the positive family uses the left entry, one of the negative family the
//! right.

use vstd::prelude::*;

use crate::tables::{lookup_by_name, lookup_from};
use crate::text::str_eq;

verus! {

/// The hundredths pair meaning the neutral factors 1.0 and 1.0, used when a
/// band name has no coefficient entry.
pub open spec fn neutral_pair() -> (i32, i32) {
    (100i32, 100i32)
}

/// How the relationship band dampens or amplifies behavior intensity, in
/// hundredths, scanned in declaration order.
pub open spec fn relationship_coeff_table() -> Seq<(Seq<char>, (i32, i32))> {
    seq![
        ("Romantic Partner"@, (200i32, 20i32)),
        ("Flirtatious Relationship"@, (150i32, 50i32)),
        ("Close Friend"@, (130i32, 70i32)),
        ("Friend"@, (110i32, 90i32)),
        ("Acquaintance"@, (100i32, 100i32)),
        ("Dislike"@, (90i32, 110i32)),
        ("Hostile"@, (70i32, 130i32)),
        ("Resentment"@, (20i32, 150i32)),
        ("Arch-nemesis"@, (10i32, 200i32)),
    ]
}

/// How the emotion band dampens or amplifies behavior intensity, in
/// hundredths, scanned in declaration order.
pub open spec fn emotion_coeff_table() -> Seq<(Seq<char>, (i32, i32))> {
    seq![
        ("Extremely Happy"@, (150i32, 20i32)),
        ("Very Happy"@, (130i32, 50i32)),
        ("Happy"@, (120i32, 70i32)),
        ("Content"@, (110i32, 90i32)),
        ("Positive Calm"@, (105i32, 95i32)),
        ("Neutral"@, (100i32, 100i32)),
        ("Irritated"@, (80i32, 120i32)),
        ("Frustrated"@, (60i32, 150i32)),
        ("Angry"@, (30i32, 180i32)),
        ("Extremely Angry"@, (10i32, 250i32)),
    ]
}

/// Represents behavior coefficient multipliers, in hundredths.
#[derive(Debug, Clone, Copy, PartialEq, Eq, Structural)]
pub struct BehaviorCoefficients {
    pub positive_multiplier: i32,
    pub negative_multiplier: i32,
}

/// The pair of a coefficient lookup as a `BehaviorCoefficients` value.
pub open spec fn to_coefficients(p: Option<(i32, i32)>) -> Option<BehaviorCoefficients> {
    match p {
        Some(q) => Some(
            BehaviorCoefficients { positive_multiplier: q.0, negative_multiplier: q.1 },
        ),
        None => None,
    }
}

impl BehaviorCoefficients {
    /// Get the appropriate multiplier based on behavior sign.
    pub fn get_multiplier(&self, is_positive_behavior: bool) -> (r: i32)
        ensures
            r == if is_positive_behavior {
                self.positive_multiplier
            } else {
                self.negative_multiplier
            },
    {
        if is_positive_behavior {
            self.positive_multiplier
        } else {
            self.negative_multiplier
        }
    }
}

/// Get the coefficient pair of a relationship band, in hundredths.
pub fn get_relationship_coefficient_tuple(relationship: &str) -> (r: Option<(i32, i32)>)
    ensures
        r == lookup_by_name(relationship_coeff_table(), relationship@),
{
    let ghost t = relationship_coeff_table();
    if str_eq(relationship, "Romantic Partner") {
        proof {
            assert(lookup_from(t, relationship@, 0) == Some((200i32, 20i32)));
        }
        return Some((200, 20));
    }
    proof {
        assert(lookup_from(t, relationship@, 0) == lookup_from(t, relationship@, 1));
    }
    if str_eq(relationship, "Flirtatious Relationship") {
        return Some((150, 50));
    }
    proof {
        assert(lookup_from(t, relationship@, 1) == lookup_from(t, relationship@, 2));
    }
    if str_eq(relationship, "Close Friend") {
        return Some((130, 70));
    }
    proof {
        assert(lookup_from(t, relationship@, 2) == lookup_from(t, relationship@, 3));
    }
    if str_eq(relationship, "Friend") {
        return Some((110, 90));
    }
    proof {
        assert(lookup_from(t, relationship@, 3) == lookup_from(t, relationship@, 4));
    }
    if str_eq(relationship, "Acquaintance") {
        return Some((100, 100));
    }
    proof {
        assert(lookup_from(t, relationship@, 4) == lookup_from(t, relationship@, 5));
    }
    if str_eq(relationship, "Dislike") {
        return Some((90, 110));
    }
    proof {
        assert(lookup_from(t, relationship@, 5) == lookup_from(t, relationship@, 6));
    }
    if str_eq(relationship, "Hostile") {
        return Some((70, 130));
    }
    proof {
        assert(lookup_from(t, relationship@, 6) == lookup_from(t, relationship@, 7));
    }
    if str_eq(relationship, "Resentment") {
        return Some((20, 150));
    }
    proof {
        assert(lookup_from(t, relationship@, 7) == lookup_from(t, relationship@, 8));
    }
    if str_eq(relationship, "Arch-nemesis") {
        return Some((10, 200));
    }
    proof {
        assert(lookup_from(t, relationship@, 8) == lookup_from(t, relationship@, 9));
    }
    None
}

/// Get the coefficient pair of an emotion band, in hundredths.
pub fn get_emotion_coefficient_tuple(emotion: &str) -> (r: Option<(i32, i32)>)
    ensures
        r == lookup_by_name(emotion_coeff_table(), emotion@),
{
    let ghost t = emotion_coeff_table();
    if str_eq(emotion, "Extremely Happy") {
        proof {
            assert(lookup_from(t, emotion@, 0) == Some((150i32, 20i32)));
        }
        return Some((150, 20));
    }
    proof {
        assert(lookup_from(t, emotion@, 0) == lookup_from(t, emotion@, 1));
    }
    if str_eq(emotion, "Very Happy") {
        return Some((130, 50));
    }
    proof {
        assert(lookup_from(t, emotion@, 1) == lookup_from(t, emotion@, 2));
    }
    if str_eq(emotion, "Happy") {
        return Some((120, 70));
    }
    proof {
        assert(lookup_from(t, emotion@, 2) == lookup_from(t, emotion@, 3));
    }
    if str_eq(emotion, "Content") {
        return Some((110, 90));
    }
    proof {
        assert(lookup_from(t, emotion@, 3) == lookup_from(t, emotion@, 4));
    }
    if str_eq(emotion, "Positive Calm") {
        return Some((105, 95));
    }
    proof {
        assert(lookup_from(t, emotion@, 4) == lookup_from(t, emotion@, 5));
    }
    if str_eq(emotion, "Neutral") {
        return Some((100, 100));
    }
    proof {
        assert(lookup_from(t, emotion@, 5) == lookup_from(t, emotion@, 6));
    }
    if str_eq(emotion, "Irritated") {
        return Some((80, 120));
    }
    proof {
        assert(lookup_from(t, emotion@, 6) == lookup_from(t, emotion@, 7));
    }
    if str_eq(emotion, "Frustrated") {
        return Some((60, 150));
    }
    proof {
        assert(lookup_from(t, emotion@, 7) == lookup_from(t, emotion@, 8));
    }
    if str_eq(emotion, "Angry") {
        return Some((30, 180));
    }
    proof {
        assert(lookup_from(t, emotion@, 8) == lookup_from(t, emotion@, 9));
    }
    if str_eq(emotion, "Extremely Angry") {
        return Some((10, 250));
    }
    proof {
        assert(lookup_from(t, emotion@, 9) == lookup_from(t, emotion@, 10));
    }
    None
}

/// Get relationship coefficients of a relationship band.
pub fn get_relationship_coefficient(relationship: &str) -> (r: Option<BehaviorCoefficients>)
    ensures
        r == to_coefficients(lookup_by_name(relationship_coeff_table(), relationship@)),
{
    match get_relationship_coefficient_tuple(relationship) {
        Some(pair) => Some(
            BehaviorCoefficients { positive_multiplier: pair.0, negative_multiplier: pair.1 },
        ),
        None => None,
    }
}

/// Get emotion coefficients of an emotion band.
pub fn get_emotion_coefficient(emotion: &str) -> (r: Option<BehaviorCoefficients>)
    ensures
        r == to_coefficients(lookup_by_name(emotion_coeff_table(), emotion@)),
{
    match get_emotion_coefficient_tuple(emotion) {
        Some(pair) => Some(
            BehaviorCoefficients { positive_multiplier: pair.0, negative_multiplier: pair.1 },
        ),
        None => None,
    }
}

/// Get all available relationship types, in table order.
pub fn get_relationship_types() -> (r: Vec<&'static str>)
    ensures
        r@.len() == relationship_coeff_table().len(),
        forall|i: int|
            0 <= i < r@.len() ==> (#[trigger] r@[i])@ == relationship_coeff_table()[i].0,
{
    let mut v: Vec<&'static str> = Vec::new();
    v.push("Romantic Partner");
    v.push("Flirtatious Relationship");
    v.push("Close Friend");
    v.push("Friend");
    v.push("Acquaintance");
    v.push("Dislike");
    v.push("Hostile");
    v.push("Resentment");
    v.push("Arch-nemesis");
    v
}

/// Get all available emotion types, in table order.
pub fn get_emotion_types() -> (r: Vec<&'static str>)
    ensures
        r@.len() == emotion_coeff_table().len(),
        forall|i: int| 0 <= i < r@.len() ==> (#[trigger] r@[i])@ == emotion_coeff_table()[i].0,
{
    let mut v: Vec<&'static str> = Vec::new();
    v.push("Extremely Happy");
    v.push("Very Happy");
    v.push("Happy");
    v.push("Content");
    v.push("Positive Calm");
    v.push("Neutral");
    v.push("Irritated");
    v.push("Frustrated");
    v.push("Angry");
    v.push("Extremely Angry");
    v
}

/// Every multiplier of both coefficient tables, and of the neutral default
/// pair, lies between 10 and 250 hundredths (0.10 to 2.50).
pub proof fn lemma_coefficients_bounded(name: Seq<char>)
    ensures
        lookup_by_name(emotion_coeff_table(), name) matches Some(p) ==> 10 <= p.0 <= 250 && 10
            <= p.1 <= 250,
        lookup_by_name(relationship_coeff_table(), name) matches Some(p) ==> 10 <= p.0 <= 250 && 10
            <= p.1 <= 250,
{
    let e = emotion_coeff_table();
    let r = relationship_coeff_table();
    assert forall|i: int| 0 <= i < 10 implies #[trigger] lookup_from(e, name, i) == (if e[i].0
        == name {
        Some(e[i].1)
    } else {
        lookup_from(e, name, i + 1)
    }) by {
        assert(0 <= i < e.len());
    }
    assert(lookup_from(e, name, 10) is None);
    assert forall|i: int| 0 <= i < 9 implies #[trigger] lookup_from(r, name, i) == (if r[i].0
        == name {
        Some(r[i].1)
    } else {
        lookup_from(r, name, i + 1)
    }) by {
        assert(0 <= i < r.len());
    }
    assert(lookup_from(r, name, 9) is None);
}

} // verus!
