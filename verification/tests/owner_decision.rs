use wardrobe_platform::owner_decision::{
    check_owner_decision, next_owner_revisions, OwnerDecisionRequest, OwnerHead,
};
use wardrobe_platform::person_codecs::PhotoOwnerActionV1;
use wardrobe_platform::platform_error::PlatformError;

fn request(superseded: Option<&str>, action: PhotoOwnerActionV1, names_person: bool) -> OwnerDecisionRequest {
    OwnerDecisionRequest {
        superseded: superseded.map(str::to_owned),
        expected_detection_revision: 2,
        expected_owner_revision: 4,
        expected_photo_revision: 9,
        action,
        names_person,
    }
}

fn head(id: &str, revision: i64) -> Option<OwnerHead> {
    Some(OwnerHead { owner_decision_id: id.to_owned(), owner_revision: revision })
}

const STALE: PlatformError = PlatformError::Conflict("owner_decision_stale");

#[test]
fn owner_decisions_must_match_the_current_state() {
    let select = request(Some("d-1"), PhotoOwnerActionV1::SelectPerson, true);
    assert_eq!(check_owner_decision(2, &head("d-1", 4), 9, "instances_available", &select), Ok(()));
    assert_eq!(check_owner_decision(3, &head("d-1", 4), 9, "instances_available", &select), Err(STALE));
    assert_eq!(check_owner_decision(2, &head("d-1", 5), 9, "instances_available", &select), Err(STALE));
    assert_eq!(check_owner_decision(2, &head("d-1", 4), 8, "instances_available", &select), Err(STALE));
    assert_eq!(check_owner_decision(2, &head("d-2", 4), 9, "instances_available", &select), Err(STALE));
    assert_eq!(check_owner_decision(2, &None, 9, "instances_available", &select), Err(STALE));
    assert_eq!(
        check_owner_decision(-1, &head("d-1", 4), 9, "instances_available", &select),
        Err(PlatformError::Corrupt("detection_revision"))
    );
    assert_eq!(
        check_owner_decision(2, &head("d-1", -4), 9, "instances_available", &select),
        Err(PlatformError::Corrupt("owner_revision"))
    );
    let first = OwnerDecisionRequest { expected_owner_revision: 0, ..request(None, PhotoOwnerActionV1::OwnerAbsent, false) };
    assert_eq!(check_owner_decision(2, &None, 9, "no_person_detected", &first), Ok(()));
}

#[test]
fn person_choices_need_instances_and_a_person() {
    assert_eq!(
        check_owner_decision(2, &head("d-1", 4), 9, "overflow", &request(Some("d-1"), PhotoOwnerActionV1::SelectPerson, true)),
        Err(PlatformError::InvalidInput("owner_person_unavailable"))
    );
    assert_eq!(
        check_owner_decision(2, &head("d-1", 4), 9, "instances_available", &request(Some("d-1"), PhotoOwnerActionV1::SelectPerson, false)),
        Err(PlatformError::InvalidInput("selected_person_instance_id"))
    );
    assert_eq!(
        check_owner_decision(2, &head("d-1", 4), 9, "instances_available", &request(Some("d-1"), PhotoOwnerActionV1::OwnerAbsent, true)),
        Err(PlatformError::InvalidInput("selected_person_instance_id"))
    );
    assert_eq!(
        check_owner_decision(2, &head("d-1", 4), 9, "overflow", &request(Some("d-1"), PhotoOwnerActionV1::OwnerAbsent, false)),
        Ok(())
    );
}

#[test]
fn written_decisions_advance_both_revisions() {
    assert_eq!(next_owner_revisions(4, 9), Ok((5, 10)));
    assert_eq!(next_owner_revisions(u64::MAX, 9), Err(PlatformError::InvalidInput("owner_revision")));
    assert_eq!(next_owner_revisions(4, u64::MAX), Err(PlatformError::InvalidInput("photo_revision")));
}
