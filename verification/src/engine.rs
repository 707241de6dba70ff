//! The delta calculator: given a resolved behavior category and the current
//! emotion and relationship scores, samples a value from the category's
//! range, selects the multiplier pair of each axis's current band by the
//! category's family, and returns the two rounded integer deltas. Every
//! lookup miss degrades to a neutral default; an unknown category yields
//! `(0, 0)`.

use vstd::prelude::*;

use rand::Rng;

use crate::behavior::{
    behavior_range_spec, get_behavior_range, is_negative_behavior, is_negative_spec,
    is_positive_behavior, is_positive_spec,
};
use crate::coefficients::{
    emotion_coeff_table, get_emotion_coefficient, get_relationship_coefficient,
    lemma_coefficients_bounded, neutral_pair, relationship_coeff_table, BehaviorCoefficients,
};
use crate::ranges::{
    emotion_band_table, get_emotion_from_value, get_relationship_from_value,
    relationship_band_table,
};
use crate::round_hundredths;
use crate::tables::{band_of_value, lemma_lookup_is_entry, lookup_by_name};

verus! {

/// The widest a sampled behavior value may be for the hundredths arithmetic
/// to stay well inside `i32`; every table range lies far inside it.
pub const SAMPLE_BOUND: i32 = 1000000;

/// The emotion band of a score, the baseline "Neutral" where no band matches.
pub open spec fn emotion_band_or_default(e: int) -> Seq<char> {
    match band_of_value(emotion_band_table(), e) {
        Some(n) => n,
        None => "Neutral"@,
    }
}

/// The relationship band of a score, the baseline "Acquaintance" where no
/// band matches.
pub open spec fn relationship_band_or_default(rel: int) -> Seq<char> {
    match band_of_value(relationship_band_table(), rel) {
        Some(n) => n,
        None => "Acquaintance"@,
    }
}

/// The coefficient pair of a lookup, the neutral pair where it missed.
pub open spec fn pair_or_neutral(p: Option<(i32, i32)>) -> (i32, i32) {
    match p {
        Some(q) => q,
        None => neutral_pair(),
    }
}

/// The multiplier pair implied by the current emotion score.
pub open spec fn emotion_multipliers(e: int) -> (i32, i32) {
    pair_or_neutral(lookup_by_name(emotion_coeff_table(), emotion_band_or_default(e)))
}

/// The multiplier pair implied by the current relationship score.
pub open spec fn relationship_multipliers(rel: int) -> (i32, i32) {
    pair_or_neutral(lookup_by_name(relationship_coeff_table(), relationship_band_or_default(rel)))
}

/// The behavior sign: a category of the positive family is positive, one of
/// the negative family is not, and an unknown category falls back to the sign
/// of the sampled value.
pub open spec fn behavior_sign(cat: Seq<char>, v: int) -> bool {
    if is_positive_spec(cat) {
        true
    } else if is_negative_spec(cat) {
        false
    } else {
        v >= 0
    }
}

/// The two deltas of a sampled value `v`: each axis's multiplier is chosen by
/// the behavior sign, applied in hundredths, and rounded with ties away from
/// zero.
pub open spec fn delta_spec(cat: Seq<char>, v: int, e: int, rel: int) -> (int, int) {
    let em = emotion_multipliers(e);
    let rm = relationship_multipliers(rel);
    let sign = behavior_sign(cat, v);
    let emu = if sign {
        em.0
    } else {
        em.1
    };
    let rmu = if sign {
        rm.0
    } else {
        rm.1
    };
    (round_hundredths(v * emu), round_hundredths(v * rmu))
}

/// Relies on `rand::Rng::gen_range` over the closed range `min..=max` of
/// `rand::thread_rng()`: the sample is uniformly distributed in the range; it
/// panics only on an empty range, which the precondition rules out.
#[verifier::external_body]
fn sample_uniform_int(min: i32, max: i32) -> (r: i32)
    requires
        min <= max,
    ensures
        min <= r <= max,
{
    let mut rng = rand::thread_rng();
    rng.gen_range(min..=max)
}

/// Rounds `x` hundredths to the nearest whole unit, ties away from zero.
fn round_scaled(x: i32) -> (r: i32)
    requires
        -1000000000 <= x <= 1000000000,
    ensures
        r as int == round_hundredths(x as int),
{
    if x >= 0 {
        (x + 50) / 100
    } else {
        -((-x + 50) / 100)
    }
}

/// Applies the multipliers implied by the current scores and the category's
/// family to one sampled value: each delta is the product in hundredths,
/// rounded to the nearest integer with ties away from zero.
pub fn deltas_from_sample(
    behavior_category: &str,
    sample: i32,
    current_emotion: i32,
    current_relationship: i32,
) -> (r: (i32, i32))
    requires
        -SAMPLE_BOUND <= sample <= SAMPLE_BOUND,
    ensures
        (r.0 as int, r.1 as int) == delta_spec(
            behavior_category@,
            sample as int,
            current_emotion as int,
            current_relationship as int,
        ),
{
    let neutral = BehaviorCoefficients { positive_multiplier: 100, negative_multiplier: 100 };
    let emotion_name = match get_emotion_from_value(current_emotion) {
        Some(n) => n,
        None => "Neutral",
    };
    let relationship_name = match get_relationship_from_value(current_relationship) {
        Some(n) => n,
        None => "Acquaintance",
    };
    proof {
        assert(emotion_name@ == emotion_band_or_default(current_emotion as int));
        assert(relationship_name@ == relationship_band_or_default(current_relationship as int));
    }
    let emotion_coeff = match get_emotion_coefficient(emotion_name) {
        Some(c) => c,
        None => neutral,
    };
    let relationship_coeff = match get_relationship_coefficient(relationship_name) {
        Some(c) => c,
        None => neutral,
    };
    let sign = if is_positive_behavior(behavior_category) {
        true
    } else if is_negative_behavior(behavior_category) {
        false
    } else {
        sample >= 0
    };
    let emotion_multiplier = emotion_coeff.get_multiplier(sign);
    let relationship_multiplier = relationship_coeff.get_multiplier(sign);
    proof {
        lemma_coefficients_bounded(emotion_name@);
        lemma_coefficients_bounded(relationship_name@);
        assert(10 <= emotion_multiplier <= 250);
        assert(10 <= relationship_multiplier <= 250);
        assert(-1000000000 <= sample as int * emotion_multiplier as int <= 1000000000)
            by (nonlinear_arith)
            requires
                -1000000 <= sample <= 1000000,
                10 <= emotion_multiplier <= 250,
        ;
        assert(-1000000000 <= sample as int * relationship_multiplier as int <= 1000000000)
            by (nonlinear_arith)
            requires
                -1000000 <= sample <= 1000000,
                10 <= relationship_multiplier <= 250,
        ;
    }
    let emotion_delta = round_scaled(sample * emotion_multiplier);
    let relationship_delta = round_scaled(sample * relationship_multiplier);
    (emotion_delta, relationship_delta)
}

/// Calculates the emotion and relationship deltas of one behavior event. An
/// unknown category has no effect; a singleton range (the neutral category)
/// is taken as its one value with no randomness; otherwise the value is drawn
/// uniformly from the category's closed range, so the result is pinned up to
/// that one draw.
pub fn compute_deltas(behavior_category: &str, current_emotion: i32, current_relationship: i32) -> (r:
    (i32, i32))
    ensures
        behavior_range_spec(behavior_category@) is None ==> r == (0i32, 0i32),
        behavior_range_spec(behavior_category@) matches Some(range) ==> exists|v: int|
            range.0 as int <= v <= range.1 as int && (r.0 as int, r.1 as int) == #[trigger] delta_spec(
                behavior_category@,
                v,
                current_emotion as int,
                current_relationship as int,
            ),
        behavior_range_spec(behavior_category@) matches Some(range) ==> (range.0 == range.1 ==> (
        r.0 as int,
        r.1 as int,
        ) == delta_spec(
            behavior_category@,
            range.0 as int,
            current_emotion as int,
            current_relationship as int,
        )),
{
    let range = match get_behavior_range(behavior_category) {
        Some(range) => range,
        None => {
            return (0, 0);
        },
    };
    proof {
        lemma_behavior_ranges_bounded(behavior_category@);
    }
    let sampled = if range.0 == range.1 {
        range.0
    } else {
        sample_uniform_int(range.0, range.1)
    };
    deltas_from_sample(behavior_category, sampled, current_emotion, current_relationship)
}

/// Every range of either behavior family is a non-empty interval within
/// -100..=40.
pub proof fn lemma_behavior_ranges_bounded(name: Seq<char>)
    ensures
        behavior_range_spec(name) matches Some(range) ==> range.0 <= range.1 && -100 <= range.0
            && range.1 <= 40,
{
    let p = crate::behavior::positive_table();
    let n = crate::behavior::negative_table();
    lemma_lookup_is_entry(p, name, 0);
    lemma_lookup_is_entry(n, name, 0);
    assert forall|j: int| 0 <= j < p.len() implies (#[trigger] p[j]).1.0 <= p[j].1.1 && -100
        <= p[j].1.0 && p[j].1.1 <= 40 by {
        if j == 0 {
        } else if j == 1 {
        } else if j == 2 {
        } else if j == 3 {
        } else if j == 4 {
        } else if j == 5 {
        } else if j == 6 {
        } else if j == 7 {
        } else if j == 8 {
        } else {
            assert(j == 9);
        }
    }
    assert forall|j: int| 0 <= j < n.len() implies (#[trigger] n[j]).1.0 <= n[j].1.1 && -100
        <= n[j].1.0 && n[j].1.1 <= 40 by {
        if j == 0 {
        } else if j == 1 {
        } else if j == 2 {
        } else if j == 3 {
        } else if j == 4 {
        } else if j == 5 {
        } else if j == 6 {
        } else {
            assert(j == 7);
        }
    }
}

/// The neutral behavior category has the singleton range `[0, 0]`, and the
/// sampled value 0 yields zero deltas whatever the current scores are.
pub proof fn lemma_neutral_behavior_zero_deltas(e: int, rel: int)
    ensures
        behavior_range_spec("Neutral Behavior"@) == Some((0i32, 0i32)),
        delta_spec("Neutral Behavior"@, 0, e, rel) == (0int, 0int),
{
}

/// A category of the positive family always selects each table's positive
/// multiplier, whatever the sign of the sampled value.
pub proof fn lemma_positive_family_uses_positive_multiplier(
    cat: Seq<char>,
    v: int,
    e: int,
    rel: int,
)
    requires
        is_positive_spec(cat),
    ensures
        behavior_sign(cat, v),
        delta_spec(cat, v, e, rel) == (
            round_hundredths(v * emotion_multipliers(e).0),
            round_hundredths(v * relationship_multipliers(rel).0),
        ),
{
}

/// A category of the negative family always selects each table's negative
/// multiplier, whatever the sign of the sampled value.
pub proof fn lemma_negative_family_uses_negative_multiplier(
    cat: Seq<char>,
    v: int,
    e: int,
    rel: int,
)
    requires
        is_negative_spec(cat),
    ensures
        !behavior_sign(cat, v),
        delta_spec(cat, v, e, rel) == (
            round_hundredths(v * emotion_multipliers(e).1),
            round_hundredths(v * relationship_multipliers(rel).1),
        ),
{
    crate::behavior::lemma_families_disjoint(cat);
}

} // verus!
