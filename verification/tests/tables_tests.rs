use emotion_engine::behavior::{
    get_behavior_from_value, get_behavior_range, get_negative_behavior_range,
    get_positive_behavior_range, is_negative_behavior, is_positive_behavior,
};
use emotion_engine::coefficients::{
    get_emotion_coefficient, get_emotion_coefficient_tuple, get_emotion_types,
    get_relationship_coefficient, get_relationship_coefficient_tuple, get_relationship_types,
    BehaviorCoefficients,
};
use emotion_engine::ranges::{band_for, get_emotion_from_value, get_relationship_from_value};

#[test]
fn band_for_maps_the_reference_scores() {
    assert_eq!(band_for("emotion", 0), Some("Neutral"));
    assert_eq!(band_for("emotion", 200), Some("Extremely Happy"));
    assert_eq!(band_for("relationship", 0), Some("Acquaintance"));
    assert_eq!(band_for("relationship", -4000), Some("Arch-nemesis"));
}

#[test]
fn band_for_rejects_unknown_axes_and_out_of_band_scores() {
    assert_eq!(band_for("charisma", 0), None);
    assert_eq!(band_for("emotion", 201), None);
    assert_eq!(band_for("relationship", 5001), None);
    assert_eq!(band_for("relationship", -4001), None);
}

#[test]
fn emotion_bands_cover_their_domain_except_the_gap() {
    assert_eq!(get_emotion_from_value(151), Some("Extremely Happy"));
    assert_eq!(get_emotion_from_value(150), Some("Very Happy"));
    assert_eq!(get_emotion_from_value(61), Some("Happy"));
    assert_eq!(get_emotion_from_value(31), Some("Content"));
    assert_eq!(get_emotion_from_value(1), Some("Positive Calm"));
    assert_eq!(get_emotion_from_value(0), Some("Neutral"));
    // The scores -30..=-1 lie in no band; callers fall back to "Neutral".
    assert_eq!(get_emotion_from_value(-1), None);
    assert_eq!(get_emotion_from_value(-30), None);
    assert_eq!(get_emotion_from_value(-31), Some("Irritated"));
    assert_eq!(get_emotion_from_value(-61), Some("Frustrated"));
    assert_eq!(get_emotion_from_value(-101), Some("Angry"));
    assert_eq!(get_emotion_from_value(-200), Some("Extremely Angry"));
}

#[test]
fn relationship_bands_cover_their_domain() {
    assert_eq!(get_relationship_from_value(5000), Some("Romantic Partner"));
    assert_eq!(get_relationship_from_value(1500), Some("Ambiguous"));
    assert_eq!(get_relationship_from_value(501), Some("Close Friend"));
    assert_eq!(get_relationship_from_value(151), Some("Friend"));
    assert_eq!(get_relationship_from_value(150), Some("Acquaintance"));
    assert_eq!(get_relationship_from_value(-1), Some("Dislike"));
    assert_eq!(get_relationship_from_value(-151), Some("Hostile"));
    assert_eq!(get_relationship_from_value(-501), Some("Resentment"));
    assert_eq!(get_relationship_from_value(-1001), Some("Arch-nemesis"));
}

#[test]
fn topmost_relationship_bands_meet_at_2000_and_the_first_wins() {
    assert_eq!(get_relationship_from_value(2000), Some("Romantic Partner"));
    assert_eq!(get_relationship_from_value(1999), Some("Ambiguous"));
    assert_eq!(get_relationship_from_value(2001), Some("Romantic Partner"));
}

#[test]
fn behavior_ranges_look_up_by_name() {
    assert_eq!(get_behavior_range("Neutral Behavior"), Some((0, 0)));
    assert_eq!(get_behavior_range("StrongPositiveBehavior"), Some((10, 16)));
    assert_eq!(get_behavior_range("Sexual_Neutral"), Some((-1, 1)));
    assert_eq!(get_behavior_range("Sexual_Neg_Extreme"), Some((-100, -81)));
    assert_eq!(get_behavior_range("NoSuchCategory"), None);
    assert_eq!(get_positive_behavior_range("ExtremePositiveBehavior"), Some((17, 25)));
    assert_eq!(get_positive_behavior_range("LightNegativeBehavior"), None);
    assert_eq!(get_negative_behavior_range("LightNegativeBehavior"), Some((-5, -1)));
    assert_eq!(get_negative_behavior_range("ExtremePositiveBehavior"), None);
}

#[test]
fn family_membership_is_disjoint() {
    assert!(is_positive_behavior("Sexual_Neutral"));
    assert!(!is_negative_behavior("Sexual_Neutral"));
    assert!(is_negative_behavior("ModerateNegativeBehavior"));
    assert!(!is_positive_behavior("ModerateNegativeBehavior"));
    assert!(!is_positive_behavior("nonsense"));
    assert!(!is_negative_behavior("nonsense"));
}

#[test]
fn behavior_from_value_scans_positive_family_first() {
    assert_eq!(get_behavior_from_value(0), Some("Neutral Behavior"));
    assert_eq!(get_behavior_from_value(1), Some("LightPositiveBehavior"));
    // -1 is in the positive family's "Sexual_Neutral" range, which is
    // scanned before any negative category.
    assert_eq!(get_behavior_from_value(-1), Some("Sexual_Neutral"));
    assert_eq!(get_behavior_from_value(-6), Some("ModerateNegativeBehavior"));
    assert_eq!(get_behavior_from_value(40), Some("Sexual_Extreme"));
    assert_eq!(get_behavior_from_value(-100), Some("Sexual_Neg_Extreme"));
    assert_eq!(get_behavior_from_value(41), None);
    assert_eq!(get_behavior_from_value(-101), None);
}

#[test]
fn coefficient_lookups_return_the_table_pairs() {
    assert_eq!(
        get_emotion_coefficient("Happy"),
        Some(BehaviorCoefficients { positive_multiplier: 120, negative_multiplier: 70 })
    );
    assert_eq!(get_emotion_coefficient_tuple("Extremely Angry"), Some((10, 250)));
    assert_eq!(
        get_relationship_coefficient("Arch-nemesis"),
        Some(BehaviorCoefficients { positive_multiplier: 10, negative_multiplier: 200 })
    );
    assert_eq!(get_relationship_coefficient_tuple("Romantic Partner"), Some((200, 20)));
    // "Ambiguous" is a relationship band with no coefficient entry.
    assert_eq!(get_relationship_coefficient("Ambiguous"), None);
    assert_eq!(get_emotion_coefficient("NoSuchBand"), None);
}

#[test]
fn multiplier_selection_follows_the_behavior_sign() {
    let coeffs = BehaviorCoefficients { positive_multiplier: 130, negative_multiplier: 70 };
    assert_eq!(coeffs.get_multiplier(true), 130);
    assert_eq!(coeffs.get_multiplier(false), 70);
}

#[test]
fn type_lists_enumerate_the_tables_in_order() {
    let relationships = get_relationship_types();
    assert_eq!(relationships.len(), 9);
    assert_eq!(relationships[0], "Romantic Partner");
    assert_eq!(relationships[1], "Flirtatious Relationship");
    assert_eq!(relationships[4], "Acquaintance");
    assert_eq!(relationships[8], "Arch-nemesis");
    let emotions = get_emotion_types();
    assert_eq!(emotions.len(), 10);
    assert_eq!(emotions[0], "Extremely Happy");
    assert_eq!(emotions[5], "Neutral");
    assert_eq!(emotions[9], "Extremely Angry");
}
