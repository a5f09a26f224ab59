use crate::person_codecs::PhotoOwnerActionV1;
use crate::photo_codecs::to_u64;
use crate::platform_error::{PlatformError, PlatformResult};
use crate::text::str_equal;
use vstd::prelude::*;

verus! {

/// The owner head of a photo: its current decision and owner revision.
#[derive(Clone, Debug, PartialEq, Eq)]
pub struct OwnerHead {
    pub owner_decision_id: String,
    pub owner_revision: i64,
}

/// What a decision expects to find: the detection, owner and photo
/// revisions it was made against, the decision it replaces, and the action
/// with whether it names a person.
#[derive(Clone, Debug, PartialEq, Eq)]
pub struct OwnerDecisionRequest {
    pub superseded: Option<String>,
    pub expected_detection_revision: u64,
    pub expected_owner_revision: u64,
    pub expected_photo_revision: u64,
    pub action: PhotoOwnerActionV1,
    pub names_person: bool,
}

/// The decision replaces exactly the current head: none where there is
/// none, else the head's decision.
pub open spec fn supersedes_head(superseded: Option<String>, head: Option<OwnerHead>) -> bool {
    match (superseded, head) {
        (None, None) => true,
        (Some(expected), Some(current)) => expected@ == current.owner_decision_id@,
        _ => false,
    }
}

/// What writing an owner decision makes of the stored state, before the
/// named person is looked up: a stored revision that is negative is
/// corrupt; a decision made against other revisions, or replacing another
/// decision than the head's, is stale; choosing a person needs a review with
/// instances and a named person; declaring the owner absent names none.
pub open spec fn spec_owner_decision_check(
    stored_detection_revision: i64,
    head: Option<OwnerHead>,
    photo_revision: u64,
    review_state: Seq<char>,
    request: OwnerDecisionRequest,
) -> PlatformResult<()> {
    let owner_revision: i64 = match head {
        Some(h) => h.owner_revision,
        None => 0,
    };
    if stored_detection_revision < 0 {
        Err(PlatformError::Corrupt("detection_revision"))
    } else if stored_detection_revision != request.expected_detection_revision {
        Err(PlatformError::Conflict("owner_decision_stale"))
    } else if owner_revision < 0 {
        Err(PlatformError::Corrupt("owner_revision"))
    } else if owner_revision != request.expected_owner_revision || photo_revision
        != request.expected_photo_revision || !supersedes_head(request.superseded, head) {
        Err(PlatformError::Conflict("owner_decision_stale"))
    } else if request.action == PhotoOwnerActionV1::SelectPerson {
        if review_state != "instances_available"@ {
            Err(PlatformError::InvalidInput("owner_person_unavailable"))
        } else if !request.names_person {
            Err(PlatformError::InvalidInput("selected_person_instance_id"))
        } else {
            Ok(())
        }
    } else if request.names_person {
        Err(PlatformError::InvalidInput("selected_person_instance_id"))
    } else {
        Ok(())
    }
}

/// Checks an owner decision against the review and head it is written to.
pub fn check_owner_decision(
    stored_detection_revision: i64,
    head: &Option<OwnerHead>,
    photo_revision: u64,
    review_state: &str,
    request: &OwnerDecisionRequest,
) -> (result: PlatformResult<()>)
    ensures
        result == spec_owner_decision_check(
            stored_detection_revision,
            *head,
            photo_revision,
            review_state@,
            *request,
        ),
{
    let owner_revision: i64 = match head {
        Some(h) => h.owner_revision,
        None => 0,
    };
    let superseded_matches = match (&request.superseded, head) {
        (None, None) => true,
        (Some(expected), Some(current)) => str_equal(expected.as_str(), current.owner_decision_id.as_str()),
        _ => false,
    };
    if to_u64(stored_detection_revision, "detection_revision")? != request.expected_detection_revision
        || to_u64(owner_revision, "owner_revision")? != request.expected_owner_revision
        || photo_revision != request.expected_photo_revision || !superseded_matches {
        return Err(PlatformError::Conflict("owner_decision_stale"));
    }
    match request.action {
        PhotoOwnerActionV1::SelectPerson => {
            if !str_equal(review_state, "instances_available") {
                return Err(PlatformError::InvalidInput("owner_person_unavailable"));
            }
            if !request.names_person {
                return Err(PlatformError::InvalidInput("selected_person_instance_id"));
            }
        },
        PhotoOwnerActionV1::OwnerAbsent => {
            if request.names_person {
                return Err(PlatformError::InvalidInput("selected_person_instance_id"));
            }
        },
    }
    Ok(())
}

/// The owner and photo revisions that a written decision sets: one past
/// those it expected.
pub fn next_owner_revisions(expected_owner_revision: u64, expected_photo_revision: u64) -> (next:
    PlatformResult<(u64, u64)>)
    ensures
        match next {
            Ok((owner, photo)) => owner == expected_owner_revision + 1 && photo
                == expected_photo_revision + 1,
            Err(e) => if expected_owner_revision == u64::MAX {
                e == PlatformError::InvalidInput("owner_revision")
            } else {
                expected_photo_revision == u64::MAX && e == PlatformError::InvalidInput("photo_revision")
            },
        },
{
    let owner = match expected_owner_revision.checked_add(1) {
        Some(v) => v,
        None => {
            return Err(PlatformError::InvalidInput("owner_revision"));
        },
    };
    let photo = match expected_photo_revision.checked_add(1) {
        Some(v) => v,
        None => {
            return Err(PlatformError::InvalidInput("photo_revision"));
        },
    };
    Ok((owner, photo))
}

/// A decision is written only against the state it was made on: whenever
/// the check lets it through, the stored revisions are the expected ones
/// and it replaces the current head.
pub proof fn lemma_accepted_decisions_are_current(
    stored_detection_revision: i64,
    head: Option<OwnerHead>,
    photo_revision: u64,
    review_state: Seq<char>,
    request: OwnerDecisionRequest,
)
    requires
        spec_owner_decision_check(stored_detection_revision, head, photo_revision, review_state, request)
            is Ok,
    ensures
        stored_detection_revision == request.expected_detection_revision,
        photo_revision == request.expected_photo_revision,
        match head {
            Some(h) => h.owner_revision == request.expected_owner_revision,
            None => request.expected_owner_revision == 0,
        },
        supersedes_head(request.superseded, head),
        request.names_person == (request.action == PhotoOwnerActionV1::SelectPerson),
{
}

} // verus!
