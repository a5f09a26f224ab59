use wardrobe_platform::photokit_repository::removal_statements;
use wardrobe_platform::photokit_statements::{CLEANUP_INTENT_INSERT_SQL, PENDING_ENROLLMENT_DELETE_SQL, PROVISIONAL_LOCATORS_DELETE_SQL,};
use wardrobe_platform::platform_error::PlatformError;
use wardrobe_platform::store::SqlValue;
use wardrobe_platform::photo_owner_closure::{owner_command_entities_query, OWNER_COMMAND_ENTITIES_SQL};
use wardrobe_platform::photokit_statements::{
    enrollment_insert, intent_fail_update, observation_insert, pending_intents_query,
    ENROLLMENT_INSERT_SQL, INTENT_FAIL_UPDATE_SQL, OBSERVATION_INSERT_SQL,
    PENDING_INTENTS_QUERY_SQL,
};
use wardrobe_platform::receipt_image_codes::ReceiptImageFailureCodeV1;
use wardrobe_platform::receipt_response::{derive_display_image, DecodedImage};
use wardrobe_platform::receipt_url::{approved_hop_host, next_hop, validate_network_url, HopOutcome};
use wardrobe_platform::store::SqlParam;

#[test]
fn a_hop_connects_only_to_the_approved_host() {
    let current = validate_network_url("https://Example.com./a.png").unwrap();
    assert_eq!(approved_hop_host(&current, "example.com"), Ok("example.com".to_owned()));
    assert_eq!(
        approved_hop_host(&current, "other.com"),
        Err(ReceiptImageFailureCodeV1::RedirectCrossHost)
    );
}

#[test]
fn a_response_redirects_delivers_or_is_refused() {
    let current = validate_network_url("https://example.com/a/b.png").unwrap();
    match next_hop(0, 302, &current, &[b"../c.png".to_vec()], "example.com") {
        Ok(HopOutcome::Redirect(next)) => assert_eq!(next.without_fragment, "https://example.com/c.png"),
        _ => panic!("a redirect is followed"),
    }
    assert!(matches!(next_hop(0, 200, &current, &[], "example.com"), Ok(HopOutcome::Deliver)));
    assert!(matches!(
        next_hop(0, 404, &current, &[], "example.com"),
        Err(ReceiptImageFailureCodeV1::HttpStatusRejected)
    ));
    assert!(matches!(
        next_hop(3, 301, &current, &[b"/c.png".to_vec()], "example.com"),
        Err(ReceiptImageFailureCodeV1::RedirectLimit)
    ));
}

#[test]
fn decoded_pixels_derive_a_png_within_the_dimensions() {
    let square = DecodedImage { width: 32, height: 32, rgba: vec![0u8; 32 * 32 * 4] };
    let (png, width, height) = derive_display_image(square).unwrap();
    assert_eq!(&png[..8], b"\x89PNG\r\n\x1a\n");
    assert_eq!((width, height), (32, 32));
    let tiny = DecodedImage { width: 8, height: 8, rgba: vec![0u8; 8 * 8 * 4] };
    assert_eq!(derive_display_image(tiny), Err(ReceiptImageFailureCodeV1::DimensionsRejected));
}

#[test]
fn statements_bind_their_parameters_in_order() {
    let insert = enrollment_insert("epoch", "key", 1, 5);
    assert_eq!(insert.sql, ENROLLMENT_INSERT_SQL);
    assert!(insert.sql.starts_with("INSERT INTO photokit_enrollments("));
    assert_eq!(
        insert.params,
        vec![
            SqlParam::Text("epoch".to_owned()),
            SqlParam::Text("key".to_owned()),
            SqlParam::Integer(1),
            SqlParam::Integer(5),
        ]
    );
    let fail = intent_fail_update("intent", "locked", 7);
    assert_eq!(fail.sql, INTENT_FAIL_UPDATE_SQL);
    assert_eq!(
        fail.params,
        vec![SqlParam::Text("intent".to_owned()), SqlParam::Text("locked".to_owned()), SqlParam::Integer(7)]
    );
    let observation = observation_insert("op", 3, "asset", "locator", None, "supported");
    assert_eq!(observation.sql, OBSERVATION_INSERT_SQL);
    assert_eq!(observation.params[4], SqlParam::Null);
    let pending = pending_intents_query();
    assert_eq!(pending.sql, PENDING_INTENTS_QUERY_SQL);
    assert!(pending.params.is_empty());
    let entities = owner_command_entities_query();
    assert_eq!(entities.sql, OWNER_COMMAND_ENTITIES_SQL);
    assert!(entities.params.is_empty());
}

#[test]
fn removal_writes_exactly_for_a_pending_row() {
    let none = removal_statements(&vec![], "epoch", "intent", "pending_enrollment_recovery", 9).unwrap();
    assert!(none.is_empty());
    let rows = vec![vec![SqlValue::Text("key-a".to_owned())]];
    let statements = removal_statements(&rows, "epoch", "intent", "pending_enrollment_recovery", 9).unwrap();
    let texts: Vec<&str> = statements.iter().map(|s| s.sql).collect();
    assert_eq!(
        texts,
        vec![CLEANUP_INTENT_INSERT_SQL, PROVISIONAL_LOCATORS_DELETE_SQL, PENDING_ENROLLMENT_DELETE_SQL]
    );
    assert_eq!(statements[0].params[2], SqlParam::Text("key-a".to_owned()));
    assert_eq!(statements[0].params[4], SqlParam::Integer(9));
    assert!(matches!(
        removal_statements(&vec![vec![SqlValue::Integer(1)]], "epoch", "intent", "x", 9),
        Err(PlatformError::Sqlite)
    ));
}
