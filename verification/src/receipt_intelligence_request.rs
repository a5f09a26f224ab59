use crate::platform_error::PlatformError;
use crate::receipt_intelligence::{
    completes_without_order, credential_failure_code, provider_failure_code,
    provider_outcome_unknown, publication_failure_code, repository_classification,
    outcome_may_be_unknown, spec_credential_failure_code, spec_provider_failure_code,
    spec_publication_failure_code, ProviderErrorSummary, ReceiptIntelligenceClassification,
    ReceiptIntelligenceFailureCode, StoredReceiptIntelligenceClassification,
};
use crate::digest_text::{hex_text, sha256_digest, sha256_hex};
use crate::text::str_equal;
use vstd::prelude::*;

verus! {

/// Where an approved receipt intelligence request stands, once its consent
/// has been checked against the stored preview.
#[derive(Clone, Copy, Debug, PartialEq, Eq, Structural)]
pub enum RequestPhase {
    /// The attempt is being reserved.
    Reserving,
    /// The provider request is being compared with the approved one.
    Comparing,
    /// The credential locator of the attempt is being read.
    LoadingLocator,
    /// The secret is being read from the credential store.
    LoadingSecret,
    /// The attempt is dispatched and the provider is answering.
    AwaitingProvider,
    /// The provider's answer is being published.
    Publishing,
    /// Nothing is left but to answer.
    Finished,
}

/// The phase, and whether the reservation replayed an earlier one.
#[derive(Clone, Copy, Debug, PartialEq, Eq, Structural)]
pub struct RequestState {
    pub phase: RequestPhase,
    pub replayed: bool,
}

/// How the provider answered.
#[derive(Clone, Copy, Debug, PartialEq, Eq, Structural)]
pub enum ProviderAnswer {
    Completed(ReceiptIntelligenceClassification),
    Refused,
    Incomplete,
    Failed(ProviderErrorSummary),
}

/// What the outside work of the last action came to.
#[derive(Clone, Copy, Debug, PartialEq, Eq)]
pub enum RequestEvent {
    /// The reservation, whether it replayed an earlier one and whether that
    /// one was never sent.
    Reserved { replayed: bool, not_sent: bool },
    /// Whether the serialized provider request is the approved one.
    Compared { matches: bool },
    /// The credential locator, or why it could not be read.
    Locator(Result<(), PlatformError>),
    /// The secret, or why it could not be read.
    Secret(Result<(), PlatformError>),
    /// The provider's answer.
    Answered(ProviderAnswer),
    /// Whether publishing the answer succeeded.
    Published(Result<(), PlatformError>),
}

/// How the provider's answer is published.
#[derive(Clone, Copy, Debug, PartialEq, Eq, Structural)]
pub enum Publication {
    WithoutOrder(StoredReceiptIntelligenceClassification),
    WithOrder(StoredReceiptIntelligenceClassification),
    Refusal,
    OutcomeUnknown,
    Failure(ReceiptIntelligenceFailureCode),
}

/// The outside work to do next.
#[derive(Clone, Copy, Debug, PartialEq, Eq)]
pub enum RequestAction {
    /// Serialize the provider request and compare it with the approved one.
    Compare,
    /// Read the credential locator of the attempt.
    LoadLocator,
    /// Read the secret from the credential store.
    LoadSecret,
    /// Mark the attempt dispatched and call the provider.
    Dispatch,
    /// Publish the answer.
    Publish(Publication),
    /// Record the failure, then answer with `Conflict(..)` of the changed
    /// request.
    FailWithConflict(ReceiptIntelligenceFailureCode),
    /// Record the failure, then answer with the stored response.
    FailThenRespond(ReceiptIntelligenceFailureCode, bool),
    /// Record the failure, then answer with the error.
    FailThenError(ReceiptIntelligenceFailureCode, PlatformError),
    /// Answer with the stored response of the attempt, replayed or not.
    Respond(bool),
}

/// How the provider's answer is published: a classification without an
/// order completes without one, an order with it; a refusal is recorded,
/// an incomplete answer fails as invalid output, and a failure is recorded
/// as unknown when the request may have reached the provider, else with its
/// code.
pub open spec fn spec_publication(answer: ProviderAnswer) -> Publication {
    match answer {
        ProviderAnswer::Completed(c) => {
            let stored = match c {
                ReceiptIntelligenceClassification::ApparelOrder => StoredReceiptIntelligenceClassification::ApparelOrder,
                ReceiptIntelligenceClassification::ApparelLifecycleUpdate => StoredReceiptIntelligenceClassification::ApparelLifecycle,
                ReceiptIntelligenceClassification::Unrelated => StoredReceiptIntelligenceClassification::Unrelated,
                ReceiptIntelligenceClassification::Ambiguous => StoredReceiptIntelligenceClassification::Ambiguous,
            };
            if stored == StoredReceiptIntelligenceClassification::Unrelated || stored
                == StoredReceiptIntelligenceClassification::Ambiguous {
                Publication::WithoutOrder(stored)
            } else {
                Publication::WithOrder(stored)
            }
        },
        ProviderAnswer::Refused => Publication::Refusal,
        ProviderAnswer::Incomplete => Publication::Failure(ReceiptIntelligenceFailureCode::ProviderOutputInvalid),
        ProviderAnswer::Failed(error) => if outcome_may_be_unknown(error) {
            Publication::OutcomeUnknown
        } else {
            Publication::Failure(spec_provider_failure_code(error))
        },
    }
}

/// One step of a request: from its state and what the last outside work
/// came to, the next state and the next outside work; `None` for an event
/// that the phase does not wait for.
pub open spec fn spec_request_step(state: RequestState, event: RequestEvent) -> Option<(RequestState, RequestAction)> {
    let finished = RequestState { phase: RequestPhase::Finished, replayed: state.replayed };
    match (state.phase, event) {
        (RequestPhase::Reserving, RequestEvent::Reserved { replayed, not_sent }) => if replayed && !not_sent {
            Some((RequestState { phase: RequestPhase::Finished, replayed }, RequestAction::Respond(true)))
        } else {
            Some((RequestState { phase: RequestPhase::Comparing, replayed }, RequestAction::Compare))
        },
        (RequestPhase::Comparing, RequestEvent::Compared { matches }) => if matches {
            Some((RequestState { phase: RequestPhase::LoadingLocator, replayed: state.replayed }, RequestAction::LoadLocator))
        } else {
            Some((finished, RequestAction::FailWithConflict(ReceiptIntelligenceFailureCode::ConsentMismatch)))
        },
        (RequestPhase::LoadingLocator, RequestEvent::Locator(result)) => match result {
            Ok(()) => Some((RequestState { phase: RequestPhase::LoadingSecret, replayed: state.replayed }, RequestAction::LoadSecret)),
            Err(e) => Some((finished, RequestAction::FailThenRespond(spec_credential_failure_code(e), state.replayed))),
        },
        (RequestPhase::LoadingSecret, RequestEvent::Secret(result)) => match result {
            Ok(()) => Some((RequestState { phase: RequestPhase::AwaitingProvider, replayed: state.replayed }, RequestAction::Dispatch)),
            Err(e) => Some((finished, RequestAction::FailThenError(ReceiptIntelligenceFailureCode::CredentialUnavailable, e))),
        },
        (RequestPhase::AwaitingProvider, RequestEvent::Answered(answer)) => Some((
            RequestState { phase: RequestPhase::Publishing, replayed: state.replayed },
            RequestAction::Publish(spec_publication(answer)),
        )),
        (RequestPhase::Publishing, RequestEvent::Published(result)) => match result {
            Ok(()) => Some((finished, RequestAction::Respond(false))),
            Err(e) => Some((finished, RequestAction::FailThenRespond(spec_publication_failure_code(e), false))),
        },
        _ => None,
    }
}

/// How the provider's answer is published.
pub fn publication(answer: ProviderAnswer) -> (published: Publication)
    ensures
        published == spec_publication(answer),
{
    match answer {
        ProviderAnswer::Completed(c) => {
            let stored = repository_classification(c);
            if completes_without_order(stored) {
                Publication::WithoutOrder(stored)
            } else {
                Publication::WithOrder(stored)
            }
        },
        ProviderAnswer::Refused => Publication::Refusal,
        ProviderAnswer::Incomplete => Publication::Failure(ReceiptIntelligenceFailureCode::ProviderOutputInvalid),
        ProviderAnswer::Failed(error) => if provider_outcome_unknown(&error) {
            Publication::OutcomeUnknown
        } else {
            Publication::Failure(provider_failure_code(&error))
        },
    }
}

/// Whether the serialized provider request is the one the consent approved:
/// its SHA-256, in lower-case hexadecimal, is the envelope's, and its length,
/// as a `u32`, is the envelope's byte count.
pub fn consent_matches(serialized: &[u8], envelope_sha256: &str, envelope_bytes: u32) -> (m: bool)
    ensures
        m == (hex_text(sha256_digest(serialized@)) == envelope_sha256@ && serialized@.len() as u32
            == envelope_bytes),
{
    let digest = sha256_hex(serialized);
    str_equal(digest.as_str(), envelope_sha256) && serialized.len() as u32 == envelope_bytes
}

/// The event of comparing the serialized provider request with the approved
/// envelope.
pub fn compared(serialized: &[u8], envelope_sha256: &str, envelope_bytes: u32) -> (event: RequestEvent)
    ensures
        event == (RequestEvent::Compared {
            matches: hex_text(sha256_digest(serialized@)) == envelope_sha256@ && serialized@.len() as u32
                == envelope_bytes,
        }),
{
    RequestEvent::Compared { matches: consent_matches(serialized, envelope_sha256, envelope_bytes) }
}

/// The state in which a request starts, once its consent matched the
/// stored preview: the attempt is being reserved.
pub fn request_start() -> (state: RequestState)
    ensures
        state == (RequestState { phase: RequestPhase::Reserving, replayed: false }),
{
    RequestState { phase: RequestPhase::Reserving, replayed: false }
}

/// One step of a request, as `spec_request_step` says.
pub fn request_step(state: RequestState, event: RequestEvent) -> (next: Option<(RequestState, RequestAction)>)
    ensures
        next == spec_request_step(state, event),
{
    let finished = RequestState { phase: RequestPhase::Finished, replayed: state.replayed };
    match (state.phase, event) {
        (RequestPhase::Reserving, RequestEvent::Reserved { replayed, not_sent }) => {
            if replayed && !not_sent {
                Some((RequestState { phase: RequestPhase::Finished, replayed }, RequestAction::Respond(true)))
            } else {
                Some((RequestState { phase: RequestPhase::Comparing, replayed }, RequestAction::Compare))
            }
        },
        (RequestPhase::Comparing, RequestEvent::Compared { matches }) => {
            if matches {
                Some((RequestState { phase: RequestPhase::LoadingLocator, replayed: state.replayed }, RequestAction::LoadLocator))
            } else {
                Some((finished, RequestAction::FailWithConflict(ReceiptIntelligenceFailureCode::ConsentMismatch)))
            }
        },
        (RequestPhase::LoadingLocator, RequestEvent::Locator(result)) => match result {
            Ok(()) => Some((RequestState { phase: RequestPhase::LoadingSecret, replayed: state.replayed }, RequestAction::LoadSecret)),
            Err(e) => Some((finished, RequestAction::FailThenRespond(credential_failure_code(&e), state.replayed))),
        },
        (RequestPhase::LoadingSecret, RequestEvent::Secret(result)) => match result {
            Ok(()) => Some((RequestState { phase: RequestPhase::AwaitingProvider, replayed: state.replayed }, RequestAction::Dispatch)),
            Err(e) => Some((finished, RequestAction::FailThenError(ReceiptIntelligenceFailureCode::CredentialUnavailable, e))),
        },
        (RequestPhase::AwaitingProvider, RequestEvent::Answered(answer)) => Some((
            RequestState { phase: RequestPhase::Publishing, replayed: state.replayed },
            RequestAction::Publish(publication(answer)),
        )),
        (RequestPhase::Publishing, RequestEvent::Published(result)) => match result {
            Ok(()) => Some((finished, RequestAction::Respond(false))),
            Err(e) => Some((finished, RequestAction::FailThenRespond(publication_failure_code(&e), false))),
        },
        _ => None,
    }
}

/// A request that may have reached the provider is never recorded as a
/// failure of the provider: its publication is an unknown outcome.
pub proof fn lemma_unknown_outcome_is_never_a_failure(error: ProviderErrorSummary)
    requires
        outcome_may_be_unknown(error),
    ensures
        spec_publication(ProviderAnswer::Failed(error)) == Publication::OutcomeUnknown,
{
}

/// Every step moves forward: a finished request waits for nothing, and no
/// step returns to an earlier phase.
pub proof fn lemma_request_steps_move_forward(state: RequestState, event: RequestEvent)
    ensures
        state.phase == RequestPhase::Finished ==> spec_request_step(state, event) is None,
        spec_request_step(state, event) matches Some((next, _)) ==> phase_rank(next.phase) > phase_rank(state.phase),
{
}

/// The order of the phases.
pub open spec fn phase_rank(phase: RequestPhase) -> int {
    match phase {
        RequestPhase::Reserving => 0,
        RequestPhase::Comparing => 1,
        RequestPhase::LoadingLocator => 2,
        RequestPhase::LoadingSecret => 3,
        RequestPhase::AwaitingProvider => 4,
        RequestPhase::Publishing => 5,
        RequestPhase::Finished => 6,
    }
}

/// A completed answer is published without an order exactly when the
/// receipt is unrelated to apparel or ambiguous, and with an order, under
/// its stored classification, otherwise.
pub proof fn lemma_completed_answers_publish_orders_only_for_apparel(
    classification: ReceiptIntelligenceClassification,
)
    ensures
        spec_publication(ProviderAnswer::Completed(classification)) is WithoutOrder <==> (classification
            == ReceiptIntelligenceClassification::Unrelated || classification
            == ReceiptIntelligenceClassification::Ambiguous),
        spec_publication(ProviderAnswer::Completed(classification)) is WithOrder <==> (classification
            == ReceiptIntelligenceClassification::ApparelOrder || classification
            == ReceiptIntelligenceClassification::ApparelLifecycleUpdate),
        classification == ReceiptIntelligenceClassification::Unrelated ==> spec_publication(
            ProviderAnswer::Completed(classification),
        ) == Publication::WithoutOrder(StoredReceiptIntelligenceClassification::Unrelated),
        classification == ReceiptIntelligenceClassification::Ambiguous ==> spec_publication(
            ProviderAnswer::Completed(classification),
        ) == Publication::WithoutOrder(StoredReceiptIntelligenceClassification::Ambiguous),
{
}

} // verus!
