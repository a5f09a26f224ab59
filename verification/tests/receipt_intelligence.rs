use wardrobe_platform::platform_error::PlatformError;
use wardrobe_platform::receipt_image_clock::{
    download_deadline, download_request, ensure_before_deadline, ReceiptImageClock, SystemClock,
};
use wardrobe_platform::receipt_image_codes::ReceiptImageFailureCodeV1;
use wardrobe_platform::receipt_intelligence::{
    check_retention_days, completes_without_order, ensure_retention_declaration_current,
    credential_failure_code, provider_failure_code, provider_failure_record,
    parse_timestamp, provider_outcome_unknown, publication_failure_code, timestamp, ProviderErrorSummary, ProviderFailureRecord,
    ProviderHttpStatusKind, repository_classification, retention_mode,
    OpenAiRetentionModeV1, ReceiptIntelligenceClassification, ReceiptIntelligenceCoordinator,
    ReceiptIntelligenceFailureCode, StoredReceiptIntelligenceClassification,
    RETENTION_DECLARATION_PROVENANCE_V1,
};
use wardrobe_platform::store::Database;

const DECLARED_DAY_MS: i64 = 1_784_160_000_000;
const DAY_MS: i64 = 86_400_000;

fn stale() -> Result<(), PlatformError> {
    Err(PlatformError::Conflict("receipt_intelligence_retention_declaration_stale"))
}

#[test]
fn retention_declaration_is_current_for_ninety_days() {
    let provenance = RETENTION_DECLARATION_PROVENANCE_V1;
    assert_eq!(ensure_retention_declaration_current(provenance, DECLARED_DAY_MS), Ok(()));
    assert_eq!(
        ensure_retention_declaration_current(provenance, DECLARED_DAY_MS + 90 * DAY_MS + DAY_MS - 1),
        Ok(())
    );
    assert_eq!(
        ensure_retention_declaration_current(provenance, DECLARED_DAY_MS + 91 * DAY_MS),
        stale()
    );
    assert_eq!(ensure_retention_declaration_current(provenance, DECLARED_DAY_MS - 1), stale());
}

#[test]
fn retention_declaration_must_name_a_calendar_date() {
    let now = DECLARED_DAY_MS;
    assert_eq!(ensure_retention_declaration_current("openai-api-data-controls-2026-13-01", now), stale());
    assert_eq!(ensure_retention_declaration_current("openai-api-data-controls-2026-02-30", now), stale());
    assert_eq!(ensure_retention_declaration_current("openai-api-data-controls-2026/07/16", now), stale());
    assert_eq!(ensure_retention_declaration_current("openai-api-data-controls-2026-07-1", now), stale());
    assert_eq!(ensure_retention_declaration_current("openai-data-controls-2026-07-16", now), stale());
    assert_eq!(ensure_retention_declaration_current("openai-api-data-controls-2026-07-+6", now), Ok(()));
    assert_eq!(ensure_retention_declaration_current("openai-api-data-controls-2026-07-16", now), Ok(()));
    assert_eq!(ensure_retention_declaration_current("openai-api-data-controls-2026-+7-16", now), Ok(()));
    assert_eq!(ensure_retention_declaration_current("openai-api-data-controls-2026-07-16 ", now), stale());
}

#[test]
fn retention_check_reports_an_unrepresentable_clock() {
    assert_eq!(
        ensure_retention_declaration_current(RETENTION_DECLARATION_PROVENANCE_V1, i64::MAX),
        Err(PlatformError::Corrupt("receipt_intelligence_timestamp"))
    );
    assert_eq!(check_retention_days(Some(10), Some(100)), Ok(()));
    assert_eq!(check_retention_days(Some(10), Some(101)), stale());
    assert_eq!(check_retention_days(Some(10), Some(9)), stale());
    assert_eq!(check_retention_days(None, None), stale());
    assert_eq!(
        check_retention_days(Some(1), None),
        Err(PlatformError::Corrupt("receipt_intelligence_timestamp"))
    );
}

#[test]
fn stored_names_and_classifications() {
    assert_eq!(retention_mode(OpenAiRetentionModeV1::Unknown), "unknown");
    assert_eq!(retention_mode(OpenAiRetentionModeV1::Default), "default");
    assert_eq!(retention_mode(OpenAiRetentionModeV1::Mam), "MAM");
    assert_eq!(retention_mode(OpenAiRetentionModeV1::Zdr), "ZDR");
    assert_eq!(
        repository_classification(ReceiptIntelligenceClassification::ApparelLifecycleUpdate),
        StoredReceiptIntelligenceClassification::ApparelLifecycle
    );
    assert_eq!(
        repository_classification(ReceiptIntelligenceClassification::ApparelOrder),
        StoredReceiptIntelligenceClassification::ApparelOrder
    );
    assert!(completes_without_order(StoredReceiptIntelligenceClassification::Unrelated));
    assert!(completes_without_order(StoredReceiptIntelligenceClassification::Ambiguous));
    assert!(!completes_without_order(StoredReceiptIntelligenceClassification::ApparelOrder));
}

#[test]
fn publication_failures_are_classified() {
    assert_eq!(
        publication_failure_code(&PlatformError::InvalidInput("receipt_intelligence_citation")),
        ReceiptIntelligenceFailureCode::CitationInvalid
    );
    assert_eq!(
        publication_failure_code(&PlatformError::InvalidInput("receipt_intelligence_order")),
        ReceiptIntelligenceFailureCode::ProviderOutputInvalid
    );
    assert_eq!(
        publication_failure_code(&PlatformError::Conflict("receipt_intelligence_parse_changed")),
        ReceiptIntelligenceFailureCode::ProviderOutputInvalid
    );
    assert_eq!(
        publication_failure_code(&PlatformError::Conflict("other")),
        ReceiptIntelligenceFailureCode::PersistenceFailed
    );
    assert_eq!(
        publication_failure_code(&PlatformError::Sqlite),
        ReceiptIntelligenceFailureCode::PersistenceFailed
    );
}

#[test]
fn coordinator_keeps_what_it_is_given() {
    let coordinator = ReceiptIntelligenceCoordinator::new(Database::new("db".to_owned()), 1_u8, 2_u8);
    let copy = coordinator.clone();
    drop(copy);
}

#[test]
fn downloads_start_with_a_future_deadline() {
    let clock = SystemClock;
    let deadline = download_deadline(&clock).unwrap();
    assert!(deadline > clock.now());
    assert_eq!(ensure_before_deadline(&clock, &deadline), Ok(()));
    let past = clock.now();
    assert_eq!(
        ensure_before_deadline(&clock, &past),
        Err(ReceiptImageFailureCodeV1::DeadlineExceeded)
    );
    let request =
        download_request(&clock, "https://a.example/x.png".to_owned(), "a.example".to_owned())
            .unwrap();
    assert_eq!(request.approved_display_host, "a.example");
    assert_eq!(request.normalized_url, "https://a.example/x.png");
}

#[test]
fn credential_failures_are_recorded_by_cause() {
    assert_eq!(
        credential_failure_code(&PlatformError::Conflict("receipt_intelligence_approval_expired")),
        ReceiptIntelligenceFailureCode::ApprovalExpired
    );
    assert_eq!(
        credential_failure_code(&PlatformError::Conflict("other")),
        ReceiptIntelligenceFailureCode::CredentialUnavailable
    );
    assert_eq!(
        credential_failure_code(&PlatformError::Sqlite),
        ReceiptIntelligenceFailureCode::CredentialUnavailable
    );
}

#[test]
fn provider_failures_are_recorded_by_kind() {
    let status = |kind| ProviderErrorSummary::Transport { status: Some(kind), outcome_unknown: false };
    assert_eq!(
        provider_failure_code(&status(ProviderHttpStatusKind::Authentication)),
        ReceiptIntelligenceFailureCode::ProviderAuthentication
    );
    assert_eq!(
        provider_failure_code(&status(ProviderHttpStatusKind::Permission)),
        ReceiptIntelligenceFailureCode::ProviderAuthentication
    );
    assert_eq!(
        provider_failure_code(&status(ProviderHttpStatusKind::RateLimited)),
        ReceiptIntelligenceFailureCode::ProviderRateLimited
    );
    assert_eq!(
        provider_failure_code(&status(ProviderHttpStatusKind::Other)),
        ReceiptIntelligenceFailureCode::ProviderUnavailable
    );
    assert_eq!(
        provider_failure_code(&ProviderErrorSummary::InvalidCitation),
        ReceiptIntelligenceFailureCode::CitationInvalid
    );
    assert_eq!(
        provider_failure_code(&ProviderErrorSummary::Protocol),
        ReceiptIntelligenceFailureCode::ProviderProtocol
    );
    assert_eq!(
        provider_failure_code(&ProviderErrorSummary::Other),
        ReceiptIntelligenceFailureCode::ProviderOutputInvalid
    );
    let unknown = ProviderErrorSummary::Transport { status: None, outcome_unknown: true };
    assert!(provider_outcome_unknown(&unknown));
    assert!(!provider_outcome_unknown(&ProviderErrorSummary::Protocol));
    assert_eq!(provider_failure_record(&unknown), ProviderFailureRecord::OutcomeUnknown);
    assert_eq!(
        provider_failure_record(&ProviderErrorSummary::Transport { status: None, outcome_unknown: false }),
        ProviderFailureRecord::Failed(ReceiptIntelligenceFailureCode::ProviderUnavailable)
    );
}

#[test]
fn timestamps_are_rfc3339_in_milliseconds() {
    assert_eq!(timestamp(0), Ok("1970-01-01T00:00:00Z".to_owned()));
    assert_eq!(timestamp(1_700_000_000_123), Ok("2023-11-14T22:13:20.123Z".to_owned()));
    assert_eq!(parse_timestamp("2023-11-14T22:13:20.123Z"), Ok(1_700_000_000_123));
    assert_eq!(parse_timestamp("1970-01-01T00:00:00Z"), Ok(0));
    assert_eq!(parse_timestamp("1969-12-31T23:59:59.9985Z"), Ok(-1));
    assert_eq!(parse_timestamp("2023-11-14T23:13:20.5+01:00"), Ok(1_700_000_000_500));
    assert_eq!(
        parse_timestamp("yesterday"),
        Err(PlatformError::InvalidInput("receipt_intelligence_expiry"))
    );
    assert_eq!(
        timestamp(i64::MAX),
        Err(PlatformError::Corrupt("receipt_intelligence_timestamp"))
    );
}
