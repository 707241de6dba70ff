//! Emotion and relationship score bands: named closed integer intervals,
//! scanned in declaration order (highest band first), first match wins.
//! Together the bands of one axis cover its legal domain with no gap and no
//! overlap.

use vstd::prelude::*;

use crate::tables::{band_from, band_of_value, in_band};
use crate::text::str_eq;

verus! {

/// The relationship bands, highest first, covering -4000..=5000.
pub open spec fn relationship_band_table() -> Seq<(Seq<char>, (i32, i32))> {
    seq![
        ("Romantic Partner"@, (2000i32, 5000i32)),
        ("Ambiguous"@, (1001i32, 2000i32)),
        ("Close Friend"@, (501i32, 1000i32)),
        ("Friend"@, (151i32, 500i32)),
        ("Acquaintance"@, (0i32, 150i32)),
        ("Dislike"@, (-150i32, -1i32)),
        ("Hostile"@, (-500i32, -151i32)),
        ("Resentment"@, (-1000i32, -501i32)),
        ("Arch-nemesis"@, (-4000i32, -1001i32)),
    ]
}

/// The emotion bands, highest first, covering -200..=200; the baseline
/// "Neutral" band is the single value 0.
pub open spec fn emotion_band_table() -> Seq<(Seq<char>, (i32, i32))> {
    seq![
        ("Extremely Happy"@, (151i32, 200i32)),
        ("Very Happy"@, (101i32, 150i32)),
        ("Happy"@, (61i32, 100i32)),
        ("Content"@, (31i32, 60i32)),
        ("Positive Calm"@, (1i32, 30i32)),
        ("Neutral"@, (0i32, 0i32)),
        ("Irritated"@, (-60i32, -31i32)),
        ("Frustrated"@, (-100i32, -61i32)),
        ("Angry"@, (-150i32, -101i32)),
        ("Extremely Angry"@, (-200i32, -151i32)),
    ]
}

/// The band a score falls in, on the axis named "emotion" or "relationship";
/// an unknown axis has no bands.
pub open spec fn band_for_spec(axis: Seq<char>, v: int) -> Option<Seq<char>> {
    if axis == "emotion"@ {
        band_of_value(emotion_band_table(), v)
    } else if axis == "relationship"@ {
        band_of_value(relationship_band_table(), v)
    } else {
        None
    }
}

/// Determine the relationship band from a score.
pub fn get_relationship_from_value(value: i32) -> (r: Option<&'static str>)
    ensures
        match r {
            Some(s) => band_of_value(relationship_band_table(), value as int) == Some(s@),
            None => band_of_value(relationship_band_table(), value as int) is None,
        },
{
    let ghost t = relationship_band_table();
    let ghost v = value as int;
    if 2000 <= value && value <= 5000 {
        proof {
            assert(band_from(t, v, 0) == Some("Romantic Partner"@));
        }
        return Some("Romantic Partner");
    }
    proof {
        assert(band_from(t, v, 0) == band_from(t, v, 1));
    }
    if 1001 <= value && value <= 2000 {
        return Some("Ambiguous");
    }
    proof {
        assert(band_from(t, v, 1) == band_from(t, v, 2));
    }
    if 501 <= value && value <= 1000 {
        return Some("Close Friend");
    }
    proof {
        assert(band_from(t, v, 2) == band_from(t, v, 3));
    }
    if 151 <= value && value <= 500 {
        return Some("Friend");
    }
    proof {
        assert(band_from(t, v, 3) == band_from(t, v, 4));
    }
    if 0 <= value && value <= 150 {
        return Some("Acquaintance");
    }
    proof {
        assert(band_from(t, v, 4) == band_from(t, v, 5));
    }
    if -150 <= value && value <= -1 {
        return Some("Dislike");
    }
    proof {
        assert(band_from(t, v, 5) == band_from(t, v, 6));
    }
    if -500 <= value && value <= -151 {
        return Some("Hostile");
    }
    proof {
        assert(band_from(t, v, 6) == band_from(t, v, 7));
    }
    if -1000 <= value && value <= -501 {
        return Some("Resentment");
    }
    proof {
        assert(band_from(t, v, 7) == band_from(t, v, 8));
    }
    if -4000 <= value && value <= -1001 {
        return Some("Arch-nemesis");
    }
    proof {
        assert(band_from(t, v, 8) == band_from(t, v, 9));
    }
    None
}

/// Determine the emotion band from a score.
pub fn get_emotion_from_value(value: i32) -> (r: Option<&'static str>)
    ensures
        match r {
            Some(s) => band_of_value(emotion_band_table(), value as int) == Some(s@),
            None => band_of_value(emotion_band_table(), value as int) is None,
        },
{
    let ghost t = emotion_band_table();
    let ghost v = value as int;
    if 151 <= value && value <= 200 {
        proof {
            assert(band_from(t, v, 0) == Some("Extremely Happy"@));
        }
        return Some("Extremely Happy");
    }
    proof {
        assert(band_from(t, v, 0) == band_from(t, v, 1));
    }
    if 101 <= value && value <= 150 {
        return Some("Very Happy");
    }
    proof {
        assert(band_from(t, v, 1) == band_from(t, v, 2));
    }
    if 61 <= value && value <= 100 {
        return Some("Happy");
    }
    proof {
        assert(band_from(t, v, 2) == band_from(t, v, 3));
    }
    if 31 <= value && value <= 60 {
        return Some("Content");
    }
    proof {
        assert(band_from(t, v, 3) == band_from(t, v, 4));
    }
    if 1 <= value && value <= 30 {
        return Some("Positive Calm");
    }
    proof {
        assert(band_from(t, v, 4) == band_from(t, v, 5));
    }
    if value == 0 {
        return Some("Neutral");
    }
    proof {
        assert(band_from(t, v, 5) == band_from(t, v, 6));
    }
    if -60 <= value && value <= -31 {
        return Some("Irritated");
    }
    proof {
        assert(band_from(t, v, 6) == band_from(t, v, 7));
    }
    if -100 <= value && value <= -61 {
        return Some("Frustrated");
    }
    proof {
        assert(band_from(t, v, 7) == band_from(t, v, 8));
    }
    if -150 <= value && value <= -101 {
        return Some("Angry");
    }
    proof {
        assert(band_from(t, v, 8) == band_from(t, v, 9));
    }
    if -200 <= value && value <= -151 {
        return Some("Extremely Angry");
    }
    proof {
        assert(band_from(t, v, 9) == band_from(t, v, 10));
    }
    None
}

/// The band a score falls in on the named axis, "emotion" or "relationship".
pub fn band_for(axis: &str, value: i32) -> (r: Option<&'static str>)
    ensures
        match r {
            Some(s) => band_for_spec(axis@, value as int) == Some(s@),
            None => band_for_spec(axis@, value as int) is None,
        },
{
    if str_eq(axis, "emotion") {
        get_emotion_from_value(value)
    } else if str_eq(axis, "relationship") {
        get_relationship_from_value(value)
    } else {
        None
    }
}

/// The emotion bands are pairwise disjoint, so whichever entry's interval
/// holds a score is the one the scan returns, and they cover the legal domain
/// -200..=200 except for the single gap -30..=-1, where no band matches and
/// callers fall back to the baseline "Neutral" band.
pub proof fn lemma_emotion_bands_partition()
    ensures
        forall|v: int|
            -200 <= v <= 200 && !(-30 <= v <= -1) ==> #[trigger] band_of_value(
                emotion_band_table(),
                v,
            ) is Some,
        forall|v: int| -30 <= v <= -1 ==> #[trigger] band_of_value(emotion_band_table(), v)
            is None,
        forall|v: int, j: int|
            0 <= j < emotion_band_table().len() && #[trigger] in_band(emotion_band_table()[j], v)
                ==> band_of_value(emotion_band_table(), v) == Some(emotion_band_table()[j].0),
{
    let t = emotion_band_table();
    assert forall|v: int| -200 <= v <= 200 && !(-30 <= v <= -1) implies #[trigger] band_of_value(
        t,
        v,
    ) is Some by {
        lemma_emotion_band_steps(v);
    }
    assert forall|v: int| -30 <= v <= -1 implies #[trigger] band_of_value(t, v) is None by {
        lemma_emotion_band_steps(v);
    }
    assert forall|v: int, j: int| 0 <= j < t.len() && #[trigger] in_band(t[j], v) implies
        band_of_value(t, v) == Some(t[j].0) by {
        lemma_emotion_band_steps(v);
        if j == 0 {
            assert(band_of_value(t, v) == Some(t[0].0));
        } else if j == 1 {
            assert(band_of_value(t, v) == Some(t[1].0));
        } else if j == 2 {
            assert(band_of_value(t, v) == Some(t[2].0));
        } else if j == 3 {
            assert(band_of_value(t, v) == Some(t[3].0));
        } else if j == 4 {
            assert(band_of_value(t, v) == Some(t[4].0));
        } else if j == 5 {
            assert(band_of_value(t, v) == Some(t[5].0));
        } else if j == 6 {
            assert(band_of_value(t, v) == Some(t[6].0));
        } else if j == 7 {
            assert(band_of_value(t, v) == Some(t[7].0));
        } else if j == 8 {
            assert(band_of_value(t, v) == Some(t[8].0));
        } else if j == 9 {
            assert(band_of_value(t, v) == Some(t[9].0));
        }
    }
}

/// Spells out one scan of the emotion band table for a fixed score.
proof fn lemma_emotion_band_steps(v: int)
    ensures
        forall|i: int| 0 <= i < 10 ==> #[trigger] band_from(emotion_band_table(), v, i) == (
        if in_band(emotion_band_table()[i], v) {
            Some(emotion_band_table()[i].0)
        } else {
            band_from(emotion_band_table(), v, i + 1)
        }),
        band_from(emotion_band_table(), v, 10) is None,
{
    let t = emotion_band_table();
    assert(band_from(t, v, 10) is None);
    assert forall|i: int| 0 <= i < 10 implies #[trigger] band_from(t, v, i) == (if in_band(
        t[i],
        v,
    ) {
        Some(t[i].0)
    } else {
        band_from(t, v, i + 1)
    }) by {
        assert(0 <= i < t.len());
    }
}

/// Every score in the legal relationship domain -4000..=5000 falls in some
/// relationship band. The two topmost bands share the single score 2000,
/// where the scan prefers the first-declared "Romantic Partner"; everywhere
/// else the bands are disjoint, so whichever entry's interval holds the score
/// is the one the scan returns.
pub proof fn lemma_relationship_bands_partition()
    ensures
        forall|v: int| -4000 <= v <= 5000 ==> #[trigger] band_of_value(
            relationship_band_table(),
            v,
        ) is Some,
        band_of_value(relationship_band_table(), 2000) == Some("Romantic Partner"@),
        forall|v: int, j: int|
            0 <= j < relationship_band_table().len() && #[trigger] in_band(
                relationship_band_table()[j],
                v,
            ) && v != 2000 ==> band_of_value(relationship_band_table(), v) == Some(
                relationship_band_table()[j].0,
            ),
{
    let t = relationship_band_table();
    assert forall|v: int| -4000 <= v <= 5000 implies #[trigger] band_of_value(t, v) is Some by {
        lemma_relationship_band_steps(v);
    }
    lemma_relationship_band_steps(2000);
    assert(band_of_value(t, 2000) == Some("Romantic Partner"@));
    assert forall|v: int, j: int|
        0 <= j < t.len() && #[trigger] in_band(t[j], v) && v != 2000 implies band_of_value(t, v)
        == Some(t[j].0) by {
        lemma_relationship_band_steps(v);
        if j == 0 {
            assert(band_of_value(t, v) == Some(t[0].0));
        } else if j == 1 {
            assert(band_of_value(t, v) == Some(t[1].0));
        } else if j == 2 {
            assert(band_of_value(t, v) == Some(t[2].0));
        } else if j == 3 {
            assert(band_of_value(t, v) == Some(t[3].0));
        } else if j == 4 {
            assert(band_of_value(t, v) == Some(t[4].0));
        } else if j == 5 {
            assert(band_of_value(t, v) == Some(t[5].0));
        } else if j == 6 {
            assert(band_of_value(t, v) == Some(t[6].0));
        } else if j == 7 {
            assert(band_of_value(t, v) == Some(t[7].0));
        } else if j == 8 {
            assert(band_of_value(t, v) == Some(t[8].0));
        }
    }
}

/// Spells out one scan of the relationship band table for a fixed score.
proof fn lemma_relationship_band_steps(v: int)
    ensures
        forall|i: int| 0 <= i < 9 ==> #[trigger] band_from(relationship_band_table(), v, i) == (
        if in_band(relationship_band_table()[i], v) {
            Some(relationship_band_table()[i].0)
        } else {
            band_from(relationship_band_table(), v, i + 1)
        }),
        band_from(relationship_band_table(), v, 9) is None,
{
    let t = relationship_band_table();
    assert(band_from(t, v, 9) is None);
    assert forall|i: int| 0 <= i < 9 implies #[trigger] band_from(t, v, i) == (if in_band(
        t[i],
        v,
    ) {
        Some(t[i].0)
    } else {
        band_from(t, v, i + 1)
    }) by {
        assert(0 <= i < t.len());
    }
}

} // verus!
