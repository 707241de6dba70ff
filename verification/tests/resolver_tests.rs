use emotion_engine::resolver::{parse_behavior_from_response, resolve_category};

const CANONICAL_NAMES: [&str; 18] = [
    "Neutral Behavior",
    "LightPositiveBehavior",
    "LightNegativeBehavior",
    "ModeratePositiveBehavior",
    "ModerateNegativeBehavior",
    "StrongPositiveBehavior",
    "StrongNegativeBehavior",
    "ExtremePositiveBehavior",
    "ExtremeNegativeBehavior",
    "Sexual_Neutral",
    "Sexual_Light",
    "Sexual_Moderate",
    "Sexual_Strong",
    "Sexual_Extreme",
    "Sexual_Neg_Light",
    "Sexual_Neg_Moderate",
    "Sexual_Neg_Strong",
    "Sexual_Neg_Extreme",
];

#[test]
fn each_canonical_name_resolves_to_itself() {
    for name in CANONICAL_NAMES.iter() {
        assert_eq!(resolve_category(name), *name);
    }
}

#[test]
fn canonical_name_found_inside_prose() {
    assert_eq!(
        resolve_category("The reply is clearly StrongNegativeBehavior here."),
        "StrongNegativeBehavior"
    );
}

#[test]
fn sexual_keyword_takes_priority_over_intensity_keywords() {
    assert_eq!(
        resolve_category("I love the Sexual tension but also Positive Extreme vibes"),
        "Sexual_Neutral"
    );
}

#[test]
fn sexual_behavior_phrase_resolves_to_sexual_neutral() {
    assert_eq!(resolve_category("That was Sexual Behavior"), "Sexual_Neutral");
}

#[test]
fn empty_text_resolves_to_neutral() {
    assert_eq!(resolve_category(""), "Neutral Behavior");
}

#[test]
fn gibberish_resolves_to_neutral() {
    assert_eq!(resolve_category("gibberish"), "Neutral Behavior");
}

#[test]
fn positive_intensity_keywords_resolve() {
    assert_eq!(resolve_category("Positive and Extreme"), "ExtremePositiveBehavior");
    assert_eq!(resolve_category("a Strong Positive reply"), "StrongPositiveBehavior");
    assert_eq!(resolve_category("Moderate, Positive"), "ModeratePositiveBehavior");
    assert_eq!(resolve_category("Light Positive mood"), "LightPositiveBehavior");
}

#[test]
fn negative_intensity_keywords_resolve() {
    assert_eq!(resolve_category("Negative and Extreme"), "ExtremeNegativeBehavior");
    assert_eq!(resolve_category("a Strong Negative reply"), "StrongNegativeBehavior");
    assert_eq!(resolve_category("Moderate, Negative"), "ModerateNegativeBehavior");
    assert_eq!(resolve_category("Light Negative mood"), "LightNegativeBehavior");
}

#[test]
fn intensity_without_polarity_resolves_to_neutral() {
    assert_eq!(resolve_category("Extreme Strong Moderate Light"), "Neutral Behavior");
}

#[test]
fn first_declared_canonical_name_wins() {
    assert_eq!(
        resolve_category("LightNegativeBehavior or LightPositiveBehavior?"),
        "LightPositiveBehavior"
    );
}

#[test]
fn parse_behavior_matches_resolve_category() {
    let text = "Positive and Strong";
    assert_eq!(parse_behavior_from_response(text), resolve_category(text));
}

#[test]
fn surrounding_whitespace_does_not_change_the_resolution() {
    assert_eq!(resolve_category("  ModeratePositiveBehavior \n"), "ModeratePositiveBehavior");
    assert_eq!(resolve_category("   \t  "), "Neutral Behavior");
}
