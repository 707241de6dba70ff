use emotion_engine::engine::{compute_deltas, deltas_from_sample};

#[test]
fn neutral_behavior_always_yields_zero_deltas() {
    let states = [
        (0, 0),
        (200, 5000),
        (-200, -4000),
        (55, -700),
        (-15, 151),
    ];
    for (emotion, relationship) in states.iter() {
        assert_eq!(compute_deltas("Neutral Behavior", *emotion, *relationship), (0, 0));
    }
}

#[test]
fn unknown_category_yields_zero_deltas() {
    assert_eq!(compute_deltas("NoSuchCategory", 0, 0), (0, 0));
}

#[test]
fn strong_positive_at_neutral_state_samples_within_its_range() {
    // At emotion 0 ("Neutral") and relationship 0 ("Acquaintance") both
    // multipliers are 1.0, so each delta equals the sampled value itself.
    for _ in 0..1000 {
        let (emotion_delta, relationship_delta) = compute_deltas("StrongPositiveBehavior", 0, 0);
        assert_eq!(emotion_delta, relationship_delta);
        assert!(10 <= emotion_delta && emotion_delta <= 16);
    }
}

#[test]
fn positive_family_uses_positive_multiplier_even_for_negative_samples() {
    // "Sexual_Neutral" spans [-1, 1]. At emotion -200 ("Extremely Angry") and
    // relationship -4000 ("Arch-nemesis") the positive multipliers are both
    // 0.1, so every delta rounds to 0; the negative multipliers (2.5 and 2.0)
    // would give nonzero deltas for a sample of -1 or 1.
    for _ in 0..1000 {
        assert_eq!(compute_deltas("Sexual_Neutral", -200, -4000), (0, 0));
    }
}

#[test]
fn deltas_follow_the_multiplier_formula() {
    // Emotion 200 is "Extremely Happy" (positive multiplier 1.5) and
    // relationship 5000 is "Romantic Partner" (positive multiplier 2.0).
    assert_eq!(deltas_from_sample("LightPositiveBehavior", 3, 200, 5000), (5, 6));
    assert_eq!(deltas_from_sample("LightPositiveBehavior", 4, 200, 5000), (6, 8));
    // The negative family takes the negative multipliers: 0.2 on each axis.
    assert_eq!(deltas_from_sample("LightNegativeBehavior", -3, 200, 5000), (-1, -1));
}

#[test]
fn rounding_is_to_nearest_with_ties_away_from_zero() {
    // Emotion 1 is "Positive Calm" (positive multiplier 1.05): 10 * 1.05 is
    // the tie 10.5 and rounds up to 11; relationship 0 keeps 1.0.
    assert_eq!(deltas_from_sample("StrongPositiveBehavior", 10, 1, 0), (11, 10));
    // Relationship -151 is "Hostile" (negative multiplier 1.3): -5 * 1.3 is
    // -6.5 and rounds away from zero to -7; emotion 0 keeps 1.0.
    assert_eq!(deltas_from_sample("LightNegativeBehavior", -5, 0, -151), (-5, -7));
}

#[test]
fn unknown_category_sign_falls_back_to_the_sample_sign() {
    // An unrecognized category takes the sign of the sampled value: at
    // emotion 200 a non-negative sample picks 1.5, a negative one 0.2.
    assert_eq!(deltas_from_sample("NoSuchCategory", 4, 200, 0), (6, 4));
    assert_eq!(deltas_from_sample("NoSuchCategory", -4, 200, 0), (-1, -4));
}

#[test]
fn gap_and_out_of_band_scores_fall_back_to_the_baseline_bands() {
    // Emotion -15 falls in the gap between "Neutral" and "Irritated", and
    // relationship 6000 is above every band: both default to the neutral
    // pair, so the deltas equal the sample.
    assert_eq!(deltas_from_sample("LightPositiveBehavior", 2, -15, 6000), (2, 2));
}

#[test]
fn ambiguous_relationship_band_has_no_coefficient_and_defaults() {
    // Relationship 1500 is the "Ambiguous" band, which has no entry in the
    // coefficient table, so the neutral pair 1.0 applies on that axis.
    assert_eq!(deltas_from_sample("ModeratePositiveBehavior", 7, 0, 1500), (7, 7));
}

#[test]
fn sampled_values_stay_inside_each_category_range() {
    let categories = [
        ("LightPositiveBehavior", 1, 4),
        ("ExtremePositiveBehavior", 17, 25),
        ("Sexual_Extreme", 20, 40),
        ("LightNegativeBehavior", -5, -1),
        ("Sexual_Neg_Extreme", -100, -81),
    ];
    for (name, min, max) in categories.iter() {
        for _ in 0..200 {
            // Both multipliers are 1.0 at the neutral state, so each delta is
            // the sampled value itself.
            let (emotion_delta, relationship_delta) = compute_deltas(name, 0, 0);
            assert_eq!(emotion_delta, relationship_delta);
            assert!(*min <= emotion_delta && emotion_delta <= *max);
        }
    }
}
