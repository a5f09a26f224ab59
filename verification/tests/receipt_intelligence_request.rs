use wardrobe_platform::receipt_intelligence_request::{compared, consent_matches};
use wardrobe_platform::platform_error::PlatformError;
use wardrobe_platform::receipt_intelligence::{
    ProviderErrorSummary, ProviderHttpStatusKind, ReceiptIntelligenceClassification,
    ReceiptIntelligenceFailureCode, StoredReceiptIntelligenceClassification,
};
use wardrobe_platform::receipt_intelligence_request::{
    publication, request_start, request_step, ProviderAnswer, Publication, RequestAction,
    RequestEvent, RequestPhase, RequestState,
};

fn at(phase: RequestPhase, replayed: bool) -> RequestState {
    RequestState { phase, replayed }
}

#[test]
fn a_request_walks_from_reservation_to_response() {
    let start = request_start();
    assert_eq!(start, at(RequestPhase::Reserving, false));
    let (state, action) =
        request_step(start, RequestEvent::Reserved { replayed: false, not_sent: true }).unwrap();
    assert_eq!((state, action), (at(RequestPhase::Comparing, false), RequestAction::Compare));
    let (state, action) = request_step(state, RequestEvent::Compared { matches: true }).unwrap();
    assert_eq!(action, RequestAction::LoadLocator);
    let (state, action) = request_step(state, RequestEvent::Locator(Ok(()))).unwrap();
    assert_eq!(action, RequestAction::LoadSecret);
    let (state, action) = request_step(state, RequestEvent::Secret(Ok(()))).unwrap();
    assert_eq!(action, RequestAction::Dispatch);
    let answer = ProviderAnswer::Completed(ReceiptIntelligenceClassification::ApparelOrder);
    let (state, action) = request_step(state, RequestEvent::Answered(answer)).unwrap();
    assert_eq!(
        action,
        RequestAction::Publish(Publication::WithOrder(StoredReceiptIntelligenceClassification::ApparelOrder))
    );
    let (state, action) = request_step(state, RequestEvent::Published(Ok(()))).unwrap();
    assert_eq!((state, action), (at(RequestPhase::Finished, false), RequestAction::Respond(false)));
    assert_eq!(request_step(state, RequestEvent::Published(Ok(()))), None);
}

#[test]
fn a_sent_replay_answers_with_the_stored_response() {
    let next = request_step(request_start(), RequestEvent::Reserved { replayed: true, not_sent: false });
    assert_eq!(next, Some((at(RequestPhase::Finished, true), RequestAction::Respond(true))));
    let next = request_step(request_start(), RequestEvent::Reserved { replayed: true, not_sent: true });
    assert_eq!(next, Some((at(RequestPhase::Comparing, true), RequestAction::Compare)));
}

#[test]
fn request_failures_are_recorded_with_their_codes() {
    assert_eq!(
        request_step(at(RequestPhase::Comparing, false), RequestEvent::Compared { matches: false }),
        Some((
            at(RequestPhase::Finished, false),
            RequestAction::FailWithConflict(ReceiptIntelligenceFailureCode::ConsentMismatch)
        ))
    );
    let expired = PlatformError::Conflict("receipt_intelligence_approval_expired");
    assert_eq!(
        request_step(at(RequestPhase::LoadingLocator, true), RequestEvent::Locator(Err(expired))),
        Some((
            at(RequestPhase::Finished, true),
            RequestAction::FailThenRespond(ReceiptIntelligenceFailureCode::ApprovalExpired, true)
        ))
    );
    assert_eq!(
        request_step(at(RequestPhase::LoadingLocator, false), RequestEvent::Locator(Err(PlatformError::Sqlite))),
        Some((
            at(RequestPhase::Finished, false),
            RequestAction::FailThenRespond(ReceiptIntelligenceFailureCode::CredentialUnavailable, false)
        ))
    );
    let missing = PlatformError::Keychain("not_found");
    assert_eq!(
        request_step(at(RequestPhase::LoadingSecret, false), RequestEvent::Secret(Err(missing))),
        Some((
            at(RequestPhase::Finished, false),
            RequestAction::FailThenError(ReceiptIntelligenceFailureCode::CredentialUnavailable, missing)
        ))
    );
    let citation = PlatformError::InvalidInput("receipt_intelligence_citation");
    assert_eq!(
        request_step(at(RequestPhase::Publishing, false), RequestEvent::Published(Err(citation))),
        Some((
            at(RequestPhase::Finished, false),
            RequestAction::FailThenRespond(ReceiptIntelligenceFailureCode::CitationInvalid, false)
        ))
    );
    assert_eq!(request_step(at(RequestPhase::Reserving, false), RequestEvent::Secret(Ok(()))), None);
}

#[test]
fn provider_answers_are_published_by_kind() {
    assert_eq!(
        publication(ProviderAnswer::Completed(ReceiptIntelligenceClassification::Ambiguous)),
        Publication::WithoutOrder(StoredReceiptIntelligenceClassification::Ambiguous)
    );
    assert_eq!(
        publication(ProviderAnswer::Completed(ReceiptIntelligenceClassification::ApparelLifecycleUpdate)),
        Publication::WithOrder(StoredReceiptIntelligenceClassification::ApparelLifecycle)
    );
    assert_eq!(publication(ProviderAnswer::Refused), Publication::Refusal);
    assert_eq!(
        publication(ProviderAnswer::Incomplete),
        Publication::Failure(ReceiptIntelligenceFailureCode::ProviderOutputInvalid)
    );
    let unknown = ProviderErrorSummary::Transport { status: None, outcome_unknown: true };
    assert_eq!(publication(ProviderAnswer::Failed(unknown)), Publication::OutcomeUnknown);
    let limited = ProviderErrorSummary::Transport {
        status: Some(ProviderHttpStatusKind::RateLimited),
        outcome_unknown: false,
    };
    assert_eq!(
        publication(ProviderAnswer::Failed(limited)),
        Publication::Failure(ReceiptIntelligenceFailureCode::ProviderRateLimited)
    );
}

#[test]
fn the_consent_matches_only_the_approved_bytes() {
    let body = b"{\"model\":\"x\"}";
    let digest = wardrobe_platform::digest_text::sha256_hex(body);
    assert!(consent_matches(body, &digest, body.len() as u32));
    assert!(!consent_matches(body, &digest, body.len() as u32 + 1));
    assert!(!consent_matches(b"{\"model\":\"y\"}", &digest, body.len() as u32));
    assert_eq!(
        compared(body, &digest.to_uppercase(), body.len() as u32),
        RequestEvent::Compared { matches: false }
    );
}
