use crate::photokit_types::{PhotoKitAvailabilityV1, PhotoKitFinalizedObservation};
use crate::platform_error::{PlatformError, PlatformResult};
use crate::text::str_equal;
use vstd::prelude::*;

verus! {

/// Where a reconcile operation stands.
#[derive(Clone, Copy, Debug, PartialEq, Eq, Structural)]
pub enum OperationState {
    Enumerating,
    Materializing,
    Complete,
    Failed,
    Interrupted,
    Stale,
}

pub open spec fn operation_state_of_name(value: Seq<char>) -> Option<OperationState> {
    if value == "enumerating"@ {
        Some(OperationState::Enumerating)
    } else if value == "materializing"@ {
        Some(OperationState::Materializing)
    } else if value == "complete"@ {
        Some(OperationState::Complete)
    } else if value == "failed"@ {
        Some(OperationState::Failed)
    } else if value == "interrupted"@ {
        Some(OperationState::Interrupted)
    } else if value == "stale"@ {
        Some(OperationState::Stale)
    } else {
        None
    }
}

/// The state stored under a name, or `None` for a name no state has.
pub fn operation_state_from_db(value: &str) -> (state: Option<OperationState>)
    ensures
        state == operation_state_of_name(value@),
{
    if str_equal(value, "enumerating") {
        Some(OperationState::Enumerating)
    } else if str_equal(value, "materializing") {
        Some(OperationState::Materializing)
    } else if str_equal(value, "complete") {
        Some(OperationState::Complete)
    } else if str_equal(value, "failed") {
        Some(OperationState::Failed)
    } else if str_equal(value, "interrupted") {
        Some(OperationState::Interrupted)
    } else if str_equal(value, "stale") {
        Some(OperationState::Stale)
    } else {
        None
    }
}

/// What finalizing an operation does, given the state it is stored in.
#[derive(Clone, Copy, Debug, PartialEq, Eq, Structural)]
pub enum FinalizeStep {
    /// Give back the publication stored when the operation ended.
    Replay,
    /// Go on, the operation being current in the state it must be in.
    Proceed,
}

/// Finalizing an operation as complete: a complete one is replayed; a
/// failed, interrupted or stale one cannot be; a materializing one goes on;
/// one in any other state is no longer current.
pub open spec fn spec_complete_step(state: Option<OperationState>) -> PlatformResult<FinalizeStep> {
    match state {
        Some(OperationState::Complete) => Ok(FinalizeStep::Replay),
        Some(OperationState::Failed) | Some(OperationState::Interrupted) | Some(OperationState::Stale) => Err(
            PlatformError::Conflict("photokit_operation_not_replayable"),
        ),
        Some(OperationState::Materializing) => Ok(FinalizeStep::Proceed),
        _ => Err(PlatformError::Conflict("photokit_stale_fence")),
    }
}

pub fn complete_step(state: &str) -> (step: PlatformResult<FinalizeStep>)
    ensures
        step == spec_complete_step(operation_state_of_name(state@)),
{
    match operation_state_from_db(state) {
        Some(OperationState::Complete) => Ok(FinalizeStep::Replay),
        Some(OperationState::Failed) | Some(OperationState::Interrupted) | Some(OperationState::Stale) => Err(
            PlatformError::Conflict("photokit_operation_not_replayable"),
        ),
        Some(OperationState::Materializing) => Ok(FinalizeStep::Proceed),
        _ => Err(PlatformError::Conflict("photokit_stale_fence")),
    }
}

/// Finalizing an operation as unavailable: a complete or failed one is
/// replayed; an interrupted or stale one cannot be; an enumerating or
/// materializing one goes on; one in any other state is refused.
pub open spec fn spec_unavailable_step(state: Option<OperationState>) -> PlatformResult<FinalizeStep> {
    match state {
        Some(OperationState::Complete) | Some(OperationState::Failed) => Ok(FinalizeStep::Replay),
        Some(OperationState::Interrupted) | Some(OperationState::Stale) => Err(
            PlatformError::Conflict("photokit_operation_not_replayable"),
        ),
        Some(OperationState::Enumerating) | Some(OperationState::Materializing) => Ok(FinalizeStep::Proceed),
        None => Err(PlatformError::Conflict("photokit_operation_state")),
    }
}

pub fn unavailable_step(state: &str) -> (step: PlatformResult<FinalizeStep>)
    ensures
        step == spec_unavailable_step(operation_state_of_name(state@)),
{
    match operation_state_from_db(state) {
        Some(OperationState::Complete) | Some(OperationState::Failed) => Ok(FinalizeStep::Replay),
        Some(OperationState::Interrupted) | Some(OperationState::Stale) => Err(
            PlatformError::Conflict("photokit_operation_not_replayable"),
        ),
        Some(OperationState::Enumerating) | Some(OperationState::Materializing) => Ok(FinalizeStep::Proceed),
        None => Err(PlatformError::Conflict("photokit_operation_state")),
    }
}

/// An operation that has ended is never finalized again: finalizing it
/// either replays what it published or is refused, whichever way it is
/// finalized; and only a complete operation is replayed as complete.
pub proof fn lemma_ended_operations_are_not_finalized_again(state: OperationState)
    requires
        state != OperationState::Enumerating,
        state != OperationState::Materializing,
    ensures
        !(spec_complete_step(Some(state)) == Ok::<FinalizeStep, PlatformError>(FinalizeStep::Proceed)),
        !(spec_unavailable_step(Some(state)) == Ok::<FinalizeStep, PlatformError>(FinalizeStep::Proceed)),
        (spec_complete_step(Some(state)) == Ok::<FinalizeStep, PlatformError>(FinalizeStep::Replay))
            == (state == OperationState::Complete),
{
}

/// The stored observations of an operation are the finalized ones: as
/// many, with the same ordinals in the same order.
pub open spec fn ordinals_match(stored: Seq<u16>, observations: Seq<PhotoKitFinalizedObservation>) -> bool {
    &&& stored.len() == observations.len()
    &&& forall|i: int| 0 <= i < stored.len() ==> stored[i] == (#[trigger] observations[i]).ordinal
}

/// Checks that the finalized observations are those that enumeration
/// recorded, else `photokit_enumeration_incomplete`.
pub fn check_enumeration_complete(stored: &[u16], observations: &[PhotoKitFinalizedObservation]) -> (result:
    PlatformResult<()>)
    ensures
        result is Ok <==> ordinals_match(stored@, observations@),
        result matches Err(e) ==> e == PlatformError::Conflict("photokit_enumeration_incomplete"),
{
    if stored.len() != observations.len() {
        return Err(PlatformError::Conflict("photokit_enumeration_incomplete"));
    }
    let mut i: usize = 0;
    while i < stored.len()
        invariant
            stored@.len() == observations@.len(),
            i <= stored@.len(),
            forall|j: int| 0 <= j < i ==> stored@[j] == (#[trigger] observations@[j]).ordinal,
        decreases stored@.len() - i,
    {
        if stored[i] != observations[i].ordinal {
            return Err(PlatformError::Conflict("photokit_enumeration_incomplete"));
        }
        i = i + 1;
    }
    Ok(())
}

/// How many of the observations are available.
pub open spec fn available_count(observations: Seq<PhotoKitFinalizedObservation>) -> nat
    decreases observations.len(),
{
    if observations.len() == 0 {
        0
    } else {
        available_count(observations.drop_last()) + if observations.last().availability
            == PhotoKitAvailabilityV1::Available {
            1nat
        } else {
            0nat
        }
    }
}

proof fn lemma_available_count_bound(observations: Seq<PhotoKitFinalizedObservation>)
    ensures
        available_count(observations) <= observations.len(),
    decreases observations.len(),
{
    if observations.len() > 0 {
        lemma_available_count_bound(observations.drop_last());
    }
}

/// The available and the unavailable observations, counted; together they
/// are all of them.
pub fn availability_counts(observations: &[PhotoKitFinalizedObservation]) -> (counts: (usize, usize))
    ensures
        counts.0 == available_count(observations@),
        counts.0 + counts.1 == observations@.len(),
{
    let mut available: usize = 0;
    let mut i: usize = 0;
    while i < observations.len()
        invariant
            i <= observations@.len(),
            available == available_count(observations@.subrange(0, i as int)),
            available <= i,
        decreases observations@.len() - i,
    {
        proof {
            assert(observations@.subrange(0, i + 1).drop_last() =~= observations@.subrange(0, i as int));
        }
        match observations[i].availability {
            PhotoKitAvailabilityV1::Available => {
                available = available + 1;
            },
            PhotoKitAvailabilityV1::Unavailable => {},
        }
        i = i + 1;
    }
    assert(observations@.subrange(0, observations@.len() as int) =~= observations@);
    (available, observations.len() - available)
}

/// The bytes an observation accepted: those of its materialized blob.
pub open spec fn observation_bytes(observation: PhotoKitFinalizedObservation) -> int {
    match observation.materialization {
        Some(m) => m.blob.byte_length as int,
        None => 0,
    }
}

/// The bytes the observations accepted, in all.
pub open spec fn accepted_bytes_sum(observations: Seq<PhotoKitFinalizedObservation>) -> int
    decreases observations.len(),
{
    if observations.len() == 0 {
        0
    } else {
        accepted_bytes_sum(observations.drop_last()) + observation_bytes(observations.last())
    }
}

proof fn lemma_accepted_bytes_monotone(observations: Seq<PhotoKitFinalizedObservation>, i: int)
    requires
        0 <= i <= observations.len(),
    ensures
        accepted_bytes_sum(observations.subrange(0, i)) <= accepted_bytes_sum(observations),
        0 <= accepted_bytes_sum(observations.subrange(0, i)),
    decreases observations.len() - i,
{
    if i < observations.len() {
        lemma_accepted_bytes_monotone(observations, i + 1);
        assert(observations.subrange(0, i + 1).drop_last() =~= observations.subrange(0, i));
    } else {
        assert(observations.subrange(0, i) =~= observations);
    }
    lemma_accepted_bytes_nonnegative(observations.subrange(0, i));
}

proof fn lemma_accepted_bytes_nonnegative(observations: Seq<PhotoKitFinalizedObservation>)
    ensures
        0 <= accepted_bytes_sum(observations),
    decreases observations.len(),
{
    if observations.len() > 0 {
        lemma_accepted_bytes_nonnegative(observations.drop_last());
    }
}

/// The bytes the observations accepted, as stored: their sum where it and
/// every blob size fit an `i64`, else `Corrupt("photokit_accepted_bytes")`.
pub fn accepted_bytes_total(observations: &[PhotoKitFinalizedObservation]) -> (total: PlatformResult<i64>)
    ensures
        match total {
            Ok(t) => t == accepted_bytes_sum(observations@),
            Err(e) => accepted_bytes_sum(observations@) > i64::MAX && e == PlatformError::Corrupt(
                "photokit_accepted_bytes",
            ),
        },
{
    let mut total: i64 = 0;
    let mut i: usize = 0;
    while i < observations.len()
        invariant
            i <= observations@.len(),
            total == accepted_bytes_sum(observations@.subrange(0, i as int)),
        decreases observations@.len() - i,
    {
        proof {
            assert(observations@.subrange(0, i + 1).drop_last() =~= observations@.subrange(0, i as int));
            assert(observations@.subrange(0, i + 1).last() == observations@[i as int]);
            lemma_accepted_bytes_monotone(observations@, i + 1);
            lemma_accepted_bytes_nonnegative(observations@.subrange(0, i as int));
        }
        let bytes: u64 = match &observations[i].materialization {
            Some(m) => m.blob.byte_length,
            None => 0,
        };
        if bytes > i64::MAX as u64 || total > i64::MAX - (bytes as i64) {
            return Err(PlatformError::Corrupt("photokit_accepted_bytes"));
        }
        total = total + bytes as i64;
        i = i + 1;
    }
    assert(observations@.subrange(0, observations@.len() as int) =~= observations@);
    Ok(total)
}

/// The count of changed heads after one more head transition, else
/// `Corrupt("photokit_transition_count")` where it would pass `u16::MAX`.
pub fn count_transition(transitions: u16, changed: bool) -> (next: PlatformResult<u16>)
    ensures
        match next {
            Ok(n) => n == transitions + if changed {
                1int
            } else {
                0int
            },
            Err(e) => changed && transitions == u16::MAX && e == PlatformError::Corrupt(
                "photokit_transition_count",
            ),
        },
{
    if !changed {
        return Ok(transitions);
    }
    match transitions.checked_add(1) {
        Some(n) => Ok(n),
        None => Err(PlatformError::Corrupt("photokit_transition_count")),
    }
}

/// A membership generation as stored, else `Corrupt("photokit_generation")`
/// where it does not fit an `i64`.
pub fn generation_param(generation: u64) -> (stored: PlatformResult<i64>)
    ensures
        match stored {
            Ok(g) => g == generation,
            Err(e) => generation > i64::MAX && e == PlatformError::Corrupt("photokit_generation"),
        },
{
    if generation > i64::MAX as u64 {
        Err(PlatformError::Corrupt("photokit_generation"))
    } else {
        Ok(generation as i64)
    }
}

/// The fence of a new operation: one past the enrollment's, else
/// `Corrupt("photokit_fence")`.
pub fn next_fence(current: i64) -> (fence: PlatformResult<i64>)
    ensures
        match fence {
            Ok(f) => f == current + 1,
            Err(e) => current == i64::MAX && e == PlatformError::Corrupt("photokit_fence"),
        },
{
    match current.checked_add(1) {
        Some(f) => Ok(f),
        None => Err(PlatformError::Corrupt("photokit_fence")),
    }
}

/// The largest membership generation: the largest integer a JSON number
/// holds exactly, less one.
pub const MAX_MEMBERSHIP_GENERATION: i64 = 9007199254740990;

/// The membership generation a new operation proposes: one past the
/// largest recorded, while that stays within the largest generation.
pub fn next_membership_generation(largest_recorded: i64) -> (generation: PlatformResult<i64>)
    ensures
        match generation {
            Ok(g) => g == largest_recorded + 1 && g <= MAX_MEMBERSHIP_GENERATION,
            Err(e) => largest_recorded + 1 > MAX_MEMBERSHIP_GENERATION && e == PlatformError::Corrupt(
                "photokit_generation",
            ),
        },
{
    if largest_recorded >= MAX_MEMBERSHIP_GENERATION {
        return Err(PlatformError::Corrupt("photokit_generation"));
    }
    Ok(largest_recorded + 1)
}

/// Finalizing as unavailable goes on exactly for the operations still
/// running, enumerating or materializing; finalizing as complete goes on
/// exactly for a materializing one. The stored names of both running states
/// read as those states.
pub proof fn lemma_finalizing_proceeds_for_running_operations(state: OperationState)
    ensures
        spec_unavailable_step(Some(state)) == Ok::<FinalizeStep, PlatformError>(FinalizeStep::Proceed)
            <==> (state == OperationState::Enumerating || state == OperationState::Materializing),
        spec_complete_step(Some(state)) == Ok::<FinalizeStep, PlatformError>(FinalizeStep::Proceed)
            <==> state == OperationState::Materializing,
        operation_state_of_name("enumerating"@) == Some(OperationState::Enumerating),
        operation_state_of_name("materializing"@) == Some(OperationState::Materializing),
{
    reveal_strlit("enumerating");
    reveal_strlit("materializing");
    assert("materializing"@.len() != "enumerating"@.len());
}

} // verus!
