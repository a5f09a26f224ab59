use wardrobe_platform::number_text::{append_decimal_u64, append_i64, parse_i64};
use wardrobe_platform::page_cursor::{
    make_observation_cursor, make_owner_review_cursor, make_roots_cursor,
    parse_observation_cursor, parse_owner_review_cursor, parse_roots_cursor,
};
use wardrobe_platform::person_codecs::PhotoOwnerReviewStateV1;
use wardrobe_platform::photo_codecs::PhotoObservationStateV1;
use wardrobe_platform::platform_error::PlatformError;

const ID: &str = "55555555-5555-4555-8555-555555555555";
const EXPIRED: PlatformError = PlatformError::Conflict("snapshot_expired");

#[test]
fn integers_are_written_and_read_as_std_does() {
    for value in [0_i64, 7, -7, 1_700_000_000_000, i64::MAX, i64::MIN] {
        let mut text = String::new();
        append_i64(&mut text, value);
        assert_eq!(text, value.to_string());
        assert_eq!(parse_i64(&text), Some(value));
    }
    let mut text = String::from("n=");
    append_decimal_u64(&mut text, u64::MAX);
    assert_eq!(text, format!("n={}", u64::MAX));
    for (text, expected) in [("+5", Some(5)), ("-0", Some(0)), ("007", Some(7))] {
        assert_eq!(parse_i64(text), expected);
        assert_eq!(text.parse::<i64>().ok(), expected);
    }
    for text in ["", "-", "+", "1.5", " 1", "9223372036854775808", "-9223372036854775809", "1a"] {
        assert_eq!(parse_i64(text), None, "{text}");
        assert!(text.parse::<i64>().is_err());
    }
}

#[test]
fn owner_review_cursors_round_trip_and_expire() {
    let state = PhotoOwnerReviewStateV1::InstancesAvailable;
    let cursor = make_owner_review_cursor(state, 12, 3, -40, ID);
    assert_eq!(cursor, format!("photo-owner-reviews.instances_available.12.3.-40.{ID}"));
    assert_eq!(parse_owner_review_cursor(None, state, 12, 3), Ok(None));
    assert_eq!(
        parse_owner_review_cursor(Some(&cursor), state, 12, 3),
        Ok(Some((-40, ID.to_owned())))
    );
    assert_eq!(parse_owner_review_cursor(Some(&cursor), state, 1, 3), Err(EXPIRED));
    assert_eq!(parse_owner_review_cursor(Some(&cursor), state, 12, 33), Err(EXPIRED));
    assert_eq!(
        parse_owner_review_cursor(Some(&cursor), PhotoOwnerReviewStateV1::Overflow, 12, 3),
        Err(EXPIRED)
    );
    let prefix = "photo-owner-reviews.instances_available.12.3.";
    assert_eq!(
        parse_owner_review_cursor(Some(&format!("{prefix}40")), state, 12, 3),
        Err(PlatformError::InvalidInput("owner_review_cursor"))
    );
    assert_eq!(
        parse_owner_review_cursor(Some(&format!("{prefix}x.{ID}")), state, 12, 3),
        Err(PlatformError::InvalidInput("owner_review_cursor"))
    );
    assert_eq!(
        parse_owner_review_cursor(Some(&format!("{prefix}40.not-a-uuid")), state, 12, 3),
        Err(PlatformError::Corrupt("owner_review_id"))
    );
}

#[test]
fn root_and_observation_cursors_round_trip_and_expire() {
    let roots = make_roots_cursor(9, ID);
    assert_eq!(roots, format!("photo-roots.9.{ID}"));
    assert_eq!(parse_roots_cursor(Some(&roots), 9), Ok(Some(ID.to_owned())));
    assert_eq!(parse_roots_cursor(Some(&roots), 90), Err(EXPIRED));
    assert_eq!(parse_roots_cursor(None, 9), Ok(None));
    assert_eq!(
        parse_roots_cursor(Some("photo-roots.9.nope"), 9),
        Err(PlatformError::Corrupt("import_root_id"))
    );
    let state = PhotoObservationStateV1::NeedsReview;
    let observations = make_observation_cursor(state, 4, 5, ID);
    assert_eq!(observations, format!("photo-observations.needs_review.4.5.{ID}"));
    assert_eq!(
        parse_observation_cursor(Some(&observations), state, 4, 5),
        Ok(Some(ID.to_owned()))
    );
    assert_eq!(parse_observation_cursor(Some(&observations), state, 4, 6), Err(EXPIRED));
    assert_eq!(parse_observation_cursor(Some(&observations), state, 44, 5), Err(EXPIRED));
    assert_eq!(
        parse_observation_cursor(Some("photo-observations.needs_review.4.5.x"), state, 4, 5),
        Err(PlatformError::Corrupt("photo_observation_id"))
    );
}
