use crate::photokit_repository::{
    enrollments_read_from, intents_read_from, is_cleanup_failure_code, texts_read_from,
    PhotoKitRepository,
};
use crate::store::SqlValue;
use crate::photokit_types::{
    PhotoKitAuthorizationV1, PhotoKitAvailabilityReasonV1, PhotoKitCoordinatorError,
    PhotoKitEnrollment, PhotoKitKeyCleanupIntent, PhotoKitKeyError, PhotoKitKeyPort,
};
use crate::platform_error::{PlatformError, PlatformResult};
use vstd::prelude::*;

verus! {

/// Drives the PhotoKit connector: its records, the native bridge `N` and the
/// keychain `K`.
pub struct PhotoKitCoordinator<N, K> {
    repository: PhotoKitRepository,
    native: N,
    keys: K,
    last_recovery: Ghost<RecoveryRecord>,
}

/// A repository call that a recovery makes for a key deletion's outcome.
pub enum RecoveryStep {
    /// `remove_pending_enrollment` of the epoch.
    RemovePending(Seq<char>),
    /// `mark_key_cleanup_complete` of the key reference.
    MarkKeyComplete(Seq<char>),
    /// `complete_key_cleanup_intent` of the intent id.
    CompleteIntent(Seq<char>),
    /// `fail_key_cleanup_intent` of the intent id, with the failure code.
    FailIntent(Seq<char>, Seq<char>),
}

/// What a recovery read, which keys it asked the key port to delete, how
/// each deletion ended, and the repository calls it made for them.
pub struct RecoveryRecord {
    pub interrupted: nat,
    pub pending: Seq<PhotoKitEnrollment>,
    pub pending_outcomes: Seq<Result<(), PhotoKitKeyError>>,
    pub intents: Seq<PhotoKitKeyCleanupIntent>,
    pub intent_outcomes: Seq<Result<(), PhotoKitKeyError>>,
    pub deleted_keys: Seq<Seq<char>>,
    pub steps: Seq<RecoveryStep>,
}

pub open spec fn empty_recovery() -> RecoveryRecord {
    RecoveryRecord {
        interrupted: 0,
        pending: Seq::empty(),
        pending_outcomes: Seq::empty(),
        intents: Seq::empty(),
        intent_outcomes: Seq::empty(),
        deleted_keys: Seq::empty(),
        steps: Seq::empty(),
    }
}

/// A deletion that counts as done: the key was deleted or was not there.
pub open spec fn key_deleted(deleted: Result<(), PhotoKitKeyError>) -> bool {
    spec_cleanup_failure_code(deleted) is None
}

/// How many of the deletions count as done.
pub open spec fn deleted_count(outcomes: Seq<Result<(), PhotoKitKeyError>>) -> nat
    decreases outcomes.len(),
{
    if outcomes.len() == 0 {
        0
    } else {
        deleted_count(outcomes.drop_last()) + if key_deleted(outcomes.last()) {
            1nat
        } else {
            0nat
        }
    }
}

/// The calls made for the pending enrollments whose deletions ended as
/// `outcomes`: a done deletion removes the enrollment and completes the
/// cleanup of its key; any other leaves it pending.
pub open spec fn pending_steps(
    pending: Seq<PhotoKitEnrollment>,
    outcomes: Seq<Result<(), PhotoKitKeyError>>,
) -> Seq<RecoveryStep>
    decreases outcomes.len(),
{
    if outcomes.len() == 0 {
        Seq::empty()
    } else {
        let i = outcomes.len() - 1;
        let earlier = pending_steps(pending, outcomes.drop_last());
        if key_deleted(outcomes.last()) {
            earlier.push(RecoveryStep::RemovePending(pending[i].enrollment_epoch@)).push(
                RecoveryStep::MarkKeyComplete(pending[i].key_reference@),
            )
        } else {
            earlier
        }
    }
}

/// The calls made for the cleanup intents whose deletions ended as
/// `outcomes`: a done deletion completes the intent, any other records its
/// failure code.
pub open spec fn intent_steps(
    intents: Seq<PhotoKitKeyCleanupIntent>,
    outcomes: Seq<Result<(), PhotoKitKeyError>>,
) -> Seq<RecoveryStep>
    decreases outcomes.len(),
{
    if outcomes.len() == 0 {
        Seq::empty()
    } else {
        let i = outcomes.len() - 1;
        let earlier = intent_steps(intents, outcomes.drop_last());
        match spec_cleanup_failure_code(outcomes.last()) {
            None => earlier.push(RecoveryStep::CompleteIntent(intents[i].intent_id@)),
            Some(code) => earlier.push(RecoveryStep::FailIntent(intents[i].intent_id@, code)),
        }
    }
}

pub open spec fn pending_keys(pending: Seq<PhotoKitEnrollment>) -> Seq<Seq<char>> {
    pending.map_values(|e: PhotoKitEnrollment| e.key_reference@)
}

pub open spec fn intent_keys(intents: Seq<PhotoKitKeyCleanupIntent>) -> Seq<Seq<char>> {
    intents.map_values(|i: PhotoKitKeyCleanupIntent| i.key_reference@)
}

/// `count`, held at the largest `usize`.
pub open spec fn saturated(count: nat) -> nat {
    if count <= usize::MAX {
        count
    } else {
        usize::MAX as nat
    }
}

/// What a recovery returns: the interrupted operations and the pending
/// enrollments and intents whose key deletion is done.
pub open spec fn recovery_count(record: RecoveryRecord) -> nat {
    saturated(record.interrupted + deleted_count(record.pending_outcomes) + deleted_count(
        record.intent_outcomes,
    ))
}

/// A complete record: a deletion for every pending enrollment, then for
/// every intent, each of the item's key, and the calls that the outcomes
/// ask for.
pub open spec fn recovery_record_complete(record: RecoveryRecord) -> bool {
    &&& record.pending_outcomes.len() == record.pending.len()
    &&& record.intent_outcomes.len() == record.intents.len()
    &&& record.deleted_keys == pending_keys(record.pending) + intent_keys(record.intents)
    &&& record.steps == pending_steps(record.pending, record.pending_outcomes) + intent_steps(
        record.intents,
        record.intent_outcomes,
    )
}

/// A platform failure, as a coordinator failure.
pub fn platform<T>(result: PlatformResult<T>) -> (mapped: Result<T, PhotoKitCoordinatorError>)
    ensures
        match result {
            Ok(v) => mapped == Ok::<T, PhotoKitCoordinatorError>(v),
            Err(e) => mapped == Err::<T, PhotoKitCoordinatorError>(
                PhotoKitCoordinatorError::Platform(e),
            ),
        },
{
    match result {
        Ok(v) => Ok(v),
        Err(e) => Err(PhotoKitCoordinatorError::Platform(e)),
    }
}

/// The failure code that a failed key deletion is recorded with, or `None`
/// when the deletion counts as done: a key that is not there is deleted.
pub open spec fn spec_cleanup_failure_code(deleted: Result<(), PhotoKitKeyError>) -> Option<Seq<char>> {
    match deleted {
        Ok(()) => None,
        Err(PhotoKitKeyError::NotFound) => None,
        Err(PhotoKitKeyError::Locked) => Some("locked"@),
        Err(PhotoKitKeyError::Unavailable) => Some("unavailable"@),
        Err(PhotoKitKeyError::Integrity) => Some("internal"@),
        Err(PhotoKitKeyError::Internal) => Some("internal"@),
    }
}

pub fn cleanup_failure_code(deleted: Result<(), PhotoKitKeyError>) -> (code: Option<&'static str>)
    ensures
        match code {
            Some(c) => spec_cleanup_failure_code(deleted) == Some(c@),
            None => spec_cleanup_failure_code(deleted) is None,
        },
{
    match deleted {
        Ok(()) => None,
        Err(PhotoKitKeyError::NotFound) => None,
        Err(PhotoKitKeyError::Locked) => Some("locked"),
        Err(PhotoKitKeyError::Unavailable) => Some("unavailable"),
        Err(PhotoKitKeyError::Integrity) => Some("internal"),
        Err(PhotoKitKeyError::Internal) => Some("internal"),
    }
}

/// Every failure code that the recovery records is one that the repository
/// accepts.
pub proof fn lemma_cleanup_failure_codes_accepted(deleted: Result<(), PhotoKitKeyError>)
    ensures
        spec_cleanup_failure_code(deleted) matches Some(code) ==> is_cleanup_failure_code(code),
{
}

/// The availability reason and terminal reason with which a reconcile ends
/// when PhotoKit access is not granted.
pub open spec fn spec_authorization_unavailable(authorization: PhotoKitAuthorizationV1) -> (
    PhotoKitAvailabilityReasonV1,
    Seq<char>,
) {
    match authorization {
        PhotoKitAuthorizationV1::NotDetermined => (
            PhotoKitAvailabilityReasonV1::AuthorizationNotDetermined,
            "authorization_not_determined"@,
        ),
        PhotoKitAuthorizationV1::Restricted => (
            PhotoKitAvailabilityReasonV1::AuthorizationRestricted,
            "authorization_restricted"@,
        ),
        PhotoKitAuthorizationV1::Denied => (
            PhotoKitAvailabilityReasonV1::AuthorizationDenied,
            "authorization_denied"@,
        ),
        PhotoKitAuthorizationV1::Limited => (
            PhotoKitAvailabilityReasonV1::LimitedAccess,
            "limited_access"@,
        ),
        PhotoKitAuthorizationV1::Authorized => (
            PhotoKitAvailabilityReasonV1::ScopeUnavailable,
            "scope_unavailable"@,
        ),
    }
}

pub fn authorization_unavailable(authorization: PhotoKitAuthorizationV1) -> (unavailable: (
    PhotoKitAvailabilityReasonV1,
    &'static str,
))
    ensures
        spec_authorization_unavailable(authorization) == (unavailable.0, unavailable.1@),
{
    match authorization {
        PhotoKitAuthorizationV1::NotDetermined => (
            PhotoKitAvailabilityReasonV1::AuthorizationNotDetermined,
            "authorization_not_determined",
        ),
        PhotoKitAuthorizationV1::Restricted => (
            PhotoKitAvailabilityReasonV1::AuthorizationRestricted,
            "authorization_restricted",
        ),
        PhotoKitAuthorizationV1::Denied => (
            PhotoKitAvailabilityReasonV1::AuthorizationDenied,
            "authorization_denied",
        ),
        PhotoKitAuthorizationV1::Limited => (
            PhotoKitAvailabilityReasonV1::LimitedAccess,
            "limited_access",
        ),
        PhotoKitAuthorizationV1::Authorized => (
            PhotoKitAvailabilityReasonV1::ScopeUnavailable,
            "scope_unavailable",
        ),
    }
}

impl<N, K> PhotoKitCoordinator<N, K> {
    pub closed spec fn spec_repository(&self) -> PhotoKitRepository {
        self.repository
    }

    pub closed spec fn spec_native(&self) -> N {
        self.native
    }

    pub closed spec fn spec_keys(&self) -> K {
        self.keys
    }

    /// The record of the last recovery.
    pub closed spec fn last_recovery(&self) -> RecoveryRecord {
        self.last_recovery@
    }

    pub fn new(repository: PhotoKitRepository, native: N, keys: K) -> (coordinator: Self)
        ensures
            coordinator.spec_repository() == repository,
            coordinator.spec_native() == native,
            coordinator.spec_keys() == keys,
            coordinator.last_recovery() == empty_recovery(),
    {
        PhotoKitCoordinator { repository, native, keys, last_recovery: Ghost(empty_recovery()) }
    }

    pub fn repository(&self) -> (repository: &PhotoKitRepository)
        ensures
            *repository == self.spec_repository(),
    {
        &self.repository
    }

    pub fn native(&self) -> (native: &N)
        ensures
            *native == self.spec_native(),
    {
        &self.native
    }

    pub fn native_mut(&mut self) -> (native: &mut N)
        ensures
            *native == old(self).spec_native(),
            final(self).spec_native() == *final(native),
            final(self).spec_repository() == old(self).spec_repository(),
            final(self).spec_keys() == old(self).spec_keys(),
    {
        &mut self.native
    }
}

/// Which pending items a recovery is deleting the keys of.
#[derive(Clone, Copy, Debug, PartialEq, Eq, Structural)]
pub enum RecoveryStage {
    Enrollments,
    Intents,
}

/// A recovery under way: the pending enrollments read, the cleanup intents
/// read after them, the item whose key is next, and the count so far.
pub struct RecoveryState {
    pub stage: RecoveryStage,
    pub pending: Vec<PhotoKitEnrollment>,
    pub intents: Vec<PhotoKitKeyCleanupIntent>,
    pub position: usize,
    pub recovered: usize,
}

/// The outside work that a recovery asks for next.
pub enum RecoveryAction {
    /// Ask the key port to delete the key of this reference.
    DeleteKey(String),
    /// Read the pending cleanup intents.
    ReadIntents,
    /// The recovery is done, with this count.
    Finish(usize),
}

/// What the repository records for a key deletion's outcome.
pub enum RecoveryWork {
    /// Remove the pending enrollment and complete the cleanup of its key.
    RemovePending { enrollment_epoch: String, key_reference: String },
    /// Leave the enrollment pending.
    KeepPending,
    /// Complete the cleanup intent.
    CompleteIntent(String),
    /// Record why the key of the cleanup intent could not be deleted.
    FailIntent(String, &'static str),
}

impl RecoveryState {
    /// How many items the current stage has.
    pub open spec fn stage_len(&self) -> nat {
        match self.stage {
            RecoveryStage::Enrollments => self.pending@.len(),
            RecoveryStage::Intents => self.intents@.len(),
        }
    }

    /// The key reference of the item at the position.
    pub open spec fn current_key(&self) -> Seq<char> {
        match self.stage {
            RecoveryStage::Enrollments => self.pending@[self.position as int].key_reference@,
            RecoveryStage::Intents => self.intents@[self.position as int].key_reference@,
        }
    }
}

/// A recovery that found `interrupted` interrupted operations and the
/// pending enrollments `pending` starts with the first enrollment's key.
pub fn recovery_start(interrupted: usize, pending: Vec<PhotoKitEnrollment>) -> (state: RecoveryState)
    ensures
        state.stage == RecoveryStage::Enrollments,
        state.pending@ == pending@,
        state.intents@.len() == 0,
        state.position == 0,
        state.recovered == interrupted,
{
    RecoveryState {
        stage: RecoveryStage::Enrollments,
        pending,
        intents: Vec::new(),
        position: 0,
        recovered: interrupted,
    }
}

/// The next outside work: the key of the item at the position, else the
/// intents once the enrollments are done, else the end with the count.
pub fn recovery_action(state: &RecoveryState) -> (action: RecoveryAction)
    ensures
        match action {
            RecoveryAction::DeleteKey(key) => state.position < state.stage_len() && key@ == state.current_key(),
            RecoveryAction::ReadIntents => state.position >= state.stage_len() && state.stage
                == RecoveryStage::Enrollments,
            RecoveryAction::Finish(n) => state.position >= state.stage_len() && state.stage
                == RecoveryStage::Intents && n == state.recovered,
        },
{
    match state.stage {
        RecoveryStage::Enrollments => {
            if state.position < state.pending.len() {
                RecoveryAction::DeleteKey(state.pending[state.position].key_reference.clone())
            } else {
                RecoveryAction::ReadIntents
            }
        },
        RecoveryStage::Intents => {
            if state.position < state.intents.len() {
                RecoveryAction::DeleteKey(state.intents[state.position].key_reference.clone())
            } else {
                RecoveryAction::Finish(state.recovered)
            }
        },
    }
}

/// The intents read once the enrollments are done start the second stage.
pub fn recovery_intents(state: RecoveryState, intents: Vec<PhotoKitKeyCleanupIntent>) -> (next: RecoveryState)
    ensures
        next.stage == RecoveryStage::Intents,
        next.pending@ == state.pending@,
        next.intents@ == intents@,
        next.position == 0,
        next.recovered == state.recovered,
{
    RecoveryState {
        stage: RecoveryStage::Intents,
        pending: state.pending,
        intents,
        position: 0,
        recovered: state.recovered,
    }
}

/// After the key of the item at the position was deleted with outcome
/// `deleted`: the work to record, the next position, and one more in the
/// count when the deletion is done.
pub fn recovery_deleted(state: RecoveryState, deleted: Result<(), PhotoKitKeyError>) -> (result: (
    RecoveryState,
    RecoveryWork,
))
    requires
        state.position < state.stage_len(),
    ensures
        result.0.stage == state.stage,
        result.0.pending@ == state.pending@,
        result.0.intents@ == state.intents@,
        result.0.position == state.position + 1,
        result.0.recovered == if key_deleted(deleted) {
            saturated(state.recovered as nat + 1)
        } else {
            state.recovered as nat
        },
        match (state.stage, spec_cleanup_failure_code(deleted)) {
            (RecoveryStage::Enrollments, None) => (result.1 matches RecoveryWork::RemovePending {
                enrollment_epoch,
                key_reference,
            } && enrollment_epoch@ == state.pending@[state.position as int].enrollment_epoch@
                && key_reference@ == state.pending@[state.position as int].key_reference@),
            (RecoveryStage::Enrollments, Some(_)) => result.1 is KeepPending,
            (RecoveryStage::Intents, None) => (result.1 matches RecoveryWork::CompleteIntent(id) && id@
                == state.intents@[state.position as int].intent_id@),
            (RecoveryStage::Intents, Some(code)) => (result.1 matches RecoveryWork::FailIntent(id, c) && id@
                == state.intents@[state.position as int].intent_id@ && c@ == code),
        },
{
    let pending_len = state.pending.len();
    let intents_len = state.intents.len();
    assert(state.position < pending_len || state.position < intents_len);
    let code = cleanup_failure_code(deleted);
    let work = match state.stage {
        RecoveryStage::Enrollments => match code {
            None => RecoveryWork::RemovePending {
                enrollment_epoch: state.pending[state.position].enrollment_epoch.clone(),
                key_reference: state.pending[state.position].key_reference.clone(),
            },
            Some(_) => RecoveryWork::KeepPending,
        },
        RecoveryStage::Intents => match code {
            None => RecoveryWork::CompleteIntent(state.intents[state.position].intent_id.clone()),
            Some(c) => RecoveryWork::FailIntent(state.intents[state.position].intent_id.clone(), c),
        },
    };
    let recovered = if code.is_none() {
        state.recovered.saturating_add(1)
    } else {
        state.recovered
    };
    (
        RecoveryState {
            stage: state.stage,
            pending: state.pending,
            intents: state.intents,
            position: state.position + 1,
            recovered,
        },
        work,
    )
}

/// The stages still ahead, for the recovery's termination.
pub open spec fn stages_left(stage: RecoveryStage) -> int {
    match stage {
        RecoveryStage::Enrollments => 1,
        RecoveryStage::Intents => 0,
    }
}

impl<N, K: PhotoKitKeyPort> PhotoKitCoordinator<N, K> {
    /// Finishes what an interruption left: interrupted operations, pending
    /// enrollments whose key is gone or can be deleted, and pending key
    /// deletions. A key that cannot be deleted is no failure of the recovery:
    /// a pending enrollment stays pending, a cleanup intent records why.
    /// The order of the work and what is recorded for each outcome are those
    /// of the recovery steps; the record says what was read, which keys the
    /// steps handed to the key port and how each deletion ended. Returns how
    /// many items were recovered.
    pub fn recover(&mut self, now_ms: i64) -> (recovered: Result<usize, PhotoKitCoordinatorError>)
        ensures
            recovered matches Err(e) ==> e is Platform,
            recovered matches Ok(n) ==> {
                let record = final(self).last_recovery();
                &&& recovery_record_complete(record)
                &&& n == recovery_count(record)
                &&& exists|ids: Seq<String>, rows: Seq<Seq<SqlValue>>|
                    #[trigger] texts_read_from(ids, rows) && record.interrupted == ids.len()
                &&& exists|rows: Seq<Seq<SqlValue>>| #[trigger] enrollments_read_from(record.pending, rows)
                &&& exists|rows: Seq<Seq<SqlValue>>| #[trigger] intents_read_from(record.intents, rows)
            },
            final(self).spec_repository() == old(self).spec_repository(),
            final(self).spec_native() == old(self).spec_native(),
            final(self).spec_keys() == old(self).spec_keys(),
    {
        let interrupted = platform(self.repository.recover_operations(now_ms))?;
        let pending = platform(self.repository.pending_enrollments())?;
        let ghost pending_read = pending@;
        let mut state = recovery_start(interrupted, pending);
        let ghost mut pending_outcomes: Seq<Result<(), PhotoKitKeyError>> = Seq::empty();
        let ghost mut intent_outcomes: Seq<Result<(), PhotoKitKeyError>> = Seq::empty();
        let ghost mut deleted_keys: Seq<Seq<char>> = Seq::empty();
        let ghost mut pending_part: Seq<RecoveryStep> = Seq::empty();
        let ghost mut intent_part: Seq<RecoveryStep> = Seq::empty();
        loop
            invariant
                self.spec_repository() == old(self).spec_repository(),
                self.spec_native() == old(self).spec_native(),
                self.spec_keys() == old(self).spec_keys(),
                exists|ids: Seq<String>, rows: Seq<Seq<SqlValue>>|
                    #[trigger] texts_read_from(ids, rows) && interrupted == ids.len(),
                exists|rows: Seq<Seq<SqlValue>>| #[trigger] enrollments_read_from(pending_read, rows),
                state.pending@ == pending_read,
                state.position <= state.stage_len(),
                state.stage == RecoveryStage::Enrollments ==> {
                    &&& pending_outcomes.len() == state.position
                    &&& intent_outcomes.len() == 0
                    &&& deleted_keys == pending_keys(pending_read.take(state.position as int))
                    &&& pending_part == pending_steps(pending_read, pending_outcomes)
                    &&& intent_part.len() == 0
                    &&& state.recovered == saturated(interrupted as nat + deleted_count(pending_outcomes))
                },
                state.stage == RecoveryStage::Intents ==> {
                    &&& pending_outcomes.len() == pending_read.len()
                    &&& intent_outcomes.len() == state.position
                    &&& deleted_keys == pending_keys(pending_read) + intent_keys(
                        state.intents@.take(state.position as int),
                    )
                    &&& pending_part == pending_steps(pending_read, pending_outcomes)
                    &&& intent_part == intent_steps(state.intents@, intent_outcomes)
                    &&& state.recovered == saturated(
                        interrupted as nat + deleted_count(pending_outcomes) + deleted_count(intent_outcomes),
                    )
                    &&& exists|rows: Seq<Seq<SqlValue>>| #[trigger] intents_read_from(state.intents@, rows)
                },
            decreases stages_left(state.stage), state.stage_len() - state.position,
        {
            match recovery_action(&state) {
                RecoveryAction::DeleteKey(key) => {
                    let deleted = self.keys.delete_root_key(key.as_str());
                    let ghost before = state;
                    let (next, work) = recovery_deleted(state, deleted);
                    proof {
                        let i = before.position as int;
                        if before.stage == RecoveryStage::Enrollments {
                            assert(pending_read.take(i + 1) == pending_read.take(i).push(pending_read[i]));
                            assert(pending_keys(pending_read.take(i + 1)) == pending_keys(
                                pending_read.take(i),
                            ).push(key@));
                            let previous = pending_outcomes;
                            pending_outcomes = pending_outcomes.push(deleted);
                            assert(pending_outcomes.drop_last() == previous);
                        } else {
                            let seen = before.intents@;
                            assert(seen.take(i + 1) == seen.take(i).push(seen[i]));
                            assert(intent_keys(seen.take(i + 1)) == intent_keys(seen.take(i)).push(key@));
                            assert(pending_keys(pending_read) + intent_keys(seen.take(i + 1)) == (
                            pending_keys(pending_read) + intent_keys(seen.take(i))).push(key@));
                            let previous = intent_outcomes;
                            intent_outcomes = intent_outcomes.push(deleted);
                            assert(intent_outcomes.drop_last() == previous);
                        }
                        deleted_keys = deleted_keys.push(key@);
                    }
                    match work {
                        RecoveryWork::RemovePending { enrollment_epoch, key_reference } => {
                            platform(
                                self.repository.remove_pending_enrollment(
                                    enrollment_epoch.as_str(),
                                    now_ms,
                                    "pending_enrollment_recovery",
                                ),
                            )?;
                            platform(
                                self.repository.mark_key_cleanup_complete(key_reference.as_str(), now_ms),
                            )?;
                            proof {
                                pending_part = pending_part.push(
                                    RecoveryStep::RemovePending(enrollment_epoch@),
                                ).push(RecoveryStep::MarkKeyComplete(key_reference@));
                            }
                        },
                        RecoveryWork::KeepPending => {},
                        RecoveryWork::CompleteIntent(intent_id) => {
                            platform(
                                self.repository.complete_key_cleanup_intent(intent_id.as_str(), now_ms),
                            )?;
                            proof {
                                intent_part = intent_part.push(RecoveryStep::CompleteIntent(intent_id@));
                            }
                        },
                        RecoveryWork::FailIntent(intent_id, code) => {
                            platform(
                                self.repository.fail_key_cleanup_intent(intent_id.as_str(), code, now_ms),
                            )?;
                            proof {
                                intent_part = intent_part.push(RecoveryStep::FailIntent(intent_id@, code@));
                            }
                        },
                    }
                    state = next;
                },
                RecoveryAction::ReadIntents => {
                    let intents = platform(self.repository.pending_key_cleanup_intents())?;
                    assert(pending_read.take(pending_read.len() as int) == pending_read);
                    assert(intents@.take(0) == Seq::<PhotoKitKeyCleanupIntent>::empty());
                    assert(pending_keys(pending_read) + intent_keys(intents@.take(0)) == pending_keys(
                        pending_read,
                    ));
                    state = recovery_intents(state, intents);
                },
                RecoveryAction::Finish(n) => {
                    assert(state.intents@.take(state.intents@.len() as int) == state.intents@);
                    self.last_recovery = Ghost(
                        RecoveryRecord {
                            interrupted: interrupted as nat,
                            pending: pending_read,
                            pending_outcomes,
                            intents: state.intents@,
                            intent_outcomes,
                            deleted_keys,
                            steps: pending_part + intent_part,
                        },
                    );
                    return Ok(n);
                },
            }
        }
    }
}

} // verus!
