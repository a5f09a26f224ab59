use wardrobe_platform::photo_owner_closure::{
    close_over_rows, close_photo_owner_command_entities, entity_kind_tag, OwnerEntityRow,
    TaggedIds, REQUEST_TAG,
};
use wardrobe_platform::platform_error::PlatformError;

const DETECTION_RUN: u8 = 0;
const DETECTION_ATTEMPT: u8 = 1;
const OWNER_REVIEW: u8 = 3;
const PERSON_INSTANCE: u8 = 5;
const OWNER_DECISION: u8 = 6;
const OBSERVATION: u8 = 7;

#[test]
fn owner_command_entity_closure_reverse_traverses_to_a_fixed_point() {
    let connection = rusqlite::Connection::open_in_memory().unwrap();
    connection
        .execute_batch(
            "CREATE TABLE photo_owner_command_entities(
                request_id TEXT NOT NULL,
                entity_kind TEXT NOT NULL,
                entity_id TEXT NOT NULL
             );
             INSERT INTO photo_owner_command_entities VALUES
                ('request-1', 'detection_run', 'run-1'),
                ('request-1', 'detection_attempt', 'attempt-1'),
                ('request-2', 'detection_attempt', 'attempt-1'),
                ('request-2', 'owner_review', 'review-1'),
                ('request-3', 'owner_review', 'review-1'),
                ('request-3', 'person_instance', 'person-1'),
                ('request-4', 'person_instance', 'person-1'),
                ('request-4', 'owner_work', 'decision-1'),
                ('request-5', 'owner_decision', 'decision-1'),
                ('request-5', 'observation_owner_link', 'observation-1');",
        )
        .unwrap();

    let mut ids = TaggedIds::new();
    ids.insert(DETECTION_RUN, "run-1".to_owned());

    close_photo_owner_command_entities(&connection, &mut ids).unwrap();

    assert_eq!(ids.ids(REQUEST_TAG).len(), 5);
    assert!(ids.contains(DETECTION_ATTEMPT, "attempt-1"));
    assert!(ids.contains(OWNER_REVIEW, "review-1"));
    assert!(ids.contains(PERSON_INSTANCE, "person-1"));
    assert!(ids.contains(OWNER_DECISION, "decision-1"));
    assert!(ids.contains(OBSERVATION, "observation-1"));
}

fn row(request_id: &str, entity_kind: &str, entity_id: &str) -> OwnerEntityRow {
    OwnerEntityRow {
        request_id: request_id.to_owned(),
        entity_kind: entity_kind.to_owned(),
        entity_id: entity_id.to_owned(),
    }
}

#[test]
fn closure_leaves_unrelated_requests_alone() {
    let rows = vec![
        row("request-1", "detection_run", "run-1"),
        row("request-9", "detection_run", "run-9"),
    ];
    let mut ids = TaggedIds::new();
    ids.insert(DETECTION_RUN, "run-1".to_owned());
    close_over_rows(&rows, &mut ids).unwrap();
    assert_eq!(ids.ids(REQUEST_TAG), vec!["request-1".to_owned()]);
    assert!(!ids.contains(DETECTION_RUN, "run-9"));
    assert_eq!(ids.ids(DETECTION_RUN), vec!["run-1".to_owned()]);
}

#[test]
fn closure_rejects_an_unknown_kind_that_it_reaches() {
    let rows = vec![
        row("request-1", "detection_run", "run-1"),
        row("request-1", "mystery", "x"),
    ];
    let mut ids = TaggedIds::new();
    ids.insert(DETECTION_RUN, "run-1".to_owned());
    assert_eq!(
        close_over_rows(&rows, &mut ids),
        Err(PlatformError::Corrupt("photo_owner_command_entity_kind"))
    );

    let unreached = vec![row("request-2", "mystery", "x")];
    let mut other = TaggedIds::new();
    other.insert(DETECTION_RUN, "run-1".to_owned());
    assert_eq!(close_over_rows(&unreached, &mut other), Ok(()));
}

#[test]
fn entity_kinds_have_fixed_tags() {
    assert_eq!(entity_kind_tag("detection_run"), Some(0));
    assert_eq!(entity_kind_tag("owner_work"), Some(6));
    assert_eq!(entity_kind_tag("owner_decision"), Some(6));
    assert_eq!(entity_kind_tag("observation_owner_link"), Some(7));
    assert_eq!(entity_kind_tag("scope"), None);
}
