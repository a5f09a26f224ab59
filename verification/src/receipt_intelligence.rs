use crate::platform_error::{PlatformError, PlatformResult};
use crate::store::Database;
use vstd::prelude::*;
use vstd::string::StringSliceAdditionalSpecFns;

verus! {

pub const APPROVAL_LIFETIME_MS: i64 = 600000;

pub const RETENTION_DECLARATION_PREFIX: &'static str = "openai-api-data-controls-";

pub const RETENTION_DECLARATION_MAX_AGE_DAYS: i64 = 90;

pub const RETENTION_DECLARATION_PROVENANCE_V1: &'static str = "openai-api-data-controls-2026-07-16";

/// How the provider retains what it is sent.
#[derive(Clone, Copy, Debug, PartialEq, Eq, Structural)]
pub enum OpenAiRetentionModeV1 {
    Unknown,
    Default,
    Mam,
    Zdr,
}

/// The name under which a retention mode is stored.
pub open spec fn spec_retention_mode(mode: OpenAiRetentionModeV1) -> Seq<char> {
    match mode {
        OpenAiRetentionModeV1::Unknown => "unknown"@,
        OpenAiRetentionModeV1::Default => "default"@,
        OpenAiRetentionModeV1::Mam => "MAM"@,
        OpenAiRetentionModeV1::Zdr => "ZDR"@,
    }
}

pub fn retention_mode(mode: OpenAiRetentionModeV1) -> (name: &'static str)
    ensures
        name@ == spec_retention_mode(mode),
{
    match mode {
        OpenAiRetentionModeV1::Unknown => "unknown",
        OpenAiRetentionModeV1::Default => "default",
        OpenAiRetentionModeV1::Mam => "MAM",
        OpenAiRetentionModeV1::Zdr => "ZDR",
    }
}

/// How the provider classified a receipt.
#[derive(Clone, Copy, Debug, PartialEq, Eq, Structural)]
pub enum ReceiptIntelligenceClassification {
    ApparelOrder,
    ApparelLifecycleUpdate,
    Unrelated,
    Ambiguous,
}

/// A classification as the repository stores it.
#[derive(Clone, Copy, Debug, PartialEq, Eq, Structural)]
pub enum StoredReceiptIntelligenceClassification {
    ApparelOrder,
    ApparelLifecycle,
    Unrelated,
    Ambiguous,
}

pub fn repository_classification(classification: ReceiptIntelligenceClassification) -> (stored:
    StoredReceiptIntelligenceClassification)
    ensures
        stored == match classification {
            ReceiptIntelligenceClassification::ApparelOrder => StoredReceiptIntelligenceClassification::ApparelOrder,
            ReceiptIntelligenceClassification::ApparelLifecycleUpdate => StoredReceiptIntelligenceClassification::ApparelLifecycle,
            ReceiptIntelligenceClassification::Unrelated => StoredReceiptIntelligenceClassification::Unrelated,
            ReceiptIntelligenceClassification::Ambiguous => StoredReceiptIntelligenceClassification::Ambiguous,
        },
{
    match classification {
        ReceiptIntelligenceClassification::ApparelOrder => StoredReceiptIntelligenceClassification::ApparelOrder,
        ReceiptIntelligenceClassification::ApparelLifecycleUpdate => StoredReceiptIntelligenceClassification::ApparelLifecycle,
        ReceiptIntelligenceClassification::Unrelated => StoredReceiptIntelligenceClassification::Unrelated,
        ReceiptIntelligenceClassification::Ambiguous => StoredReceiptIntelligenceClassification::Ambiguous,
    }
}

/// A classification that carries no order is completed without one.
pub fn completes_without_order(classification: StoredReceiptIntelligenceClassification) -> (without: bool)
    ensures
        without <==> (classification == StoredReceiptIntelligenceClassification::Unrelated
            || classification == StoredReceiptIntelligenceClassification::Ambiguous),
{
    match classification {
        StoredReceiptIntelligenceClassification::Unrelated => true,
        StoredReceiptIntelligenceClassification::Ambiguous => true,
        _ => false,
    }
}

/// Why a receipt intelligence attempt failed.
#[derive(Clone, Copy, Debug, PartialEq, Eq, Structural)]
pub enum ReceiptIntelligenceFailureCode {
    ConsentMismatch,
    ApprovalExpired,
    CredentialUnavailable,
    ProviderAuthentication,
    ProviderRateLimited,
    ProviderUnavailable,
    ProviderProtocol,
    ProviderOutputInvalid,
    CitationInvalid,
    PersistenceFailed,
}

/// The failure recorded when publishing a provider result failed with
/// `error`: a rejected citation, output that does not fit the order or the
/// source, or else a failure to persist.
pub open spec fn spec_publication_failure_code(error: PlatformError) -> ReceiptIntelligenceFailureCode {
    match error {
        PlatformError::InvalidInput(field) => if field@ == "receipt_intelligence_citation"@ {
            ReceiptIntelligenceFailureCode::CitationInvalid
        } else if field@ == "receipt_intelligence_provider_output"@ || field@
            == "receipt_intelligence_order"@ {
            ReceiptIntelligenceFailureCode::ProviderOutputInvalid
        } else {
            ReceiptIntelligenceFailureCode::PersistenceFailed
        },
        PlatformError::Conflict(field) => if field@ == "receipt_intelligence_source_revision_changed"@
            || field@ == "receipt_intelligence_parse_changed"@ {
            ReceiptIntelligenceFailureCode::ProviderOutputInvalid
        } else {
            ReceiptIntelligenceFailureCode::PersistenceFailed
        },
        _ => ReceiptIntelligenceFailureCode::PersistenceFailed,
    }
}

/// The kind of HTTP status that a provider's transport reported.
#[derive(Clone, Copy, Debug, PartialEq, Eq, Structural)]
pub enum ProviderHttpStatusKind {
    Authentication,
    Permission,
    RateLimited,
    Other,
}

/// How a receipt intelligence provider failed, as far as recording it looks
/// at it: a transport failure, with the HTTP status kind where there was a
/// status and whether the request may have reached the provider, a rejected
/// citation, a protocol failure, or any other failure of its output.
#[derive(Clone, Copy, Debug, PartialEq, Eq, Structural)]
pub enum ProviderErrorSummary {
    Transport { status: Option<ProviderHttpStatusKind>, outcome_unknown: bool },
    InvalidCitation,
    Protocol,
    Other,
}

/// What the coordinator records for a provider failure: an outcome that is
/// unknown when the request may have reached the provider, else a failure
/// with its code.
#[derive(Clone, Copy, Debug, PartialEq, Eq, Structural)]
pub enum ProviderFailureRecord {
    OutcomeUnknown,
    Failed(ReceiptIntelligenceFailureCode),
}

/// The failure code of a provider failure: authentication and permission
/// statuses, rate limiting, other transport failures, a rejected citation, a
/// protocol failure, and otherwise invalid output.
pub open spec fn spec_provider_failure_code(error: ProviderErrorSummary) -> ReceiptIntelligenceFailureCode {
    match error {
        ProviderErrorSummary::Transport { status, .. } => match status {
            Some(ProviderHttpStatusKind::Authentication) | Some(ProviderHttpStatusKind::Permission) => {
                ReceiptIntelligenceFailureCode::ProviderAuthentication
            },
            Some(ProviderHttpStatusKind::RateLimited) => ReceiptIntelligenceFailureCode::ProviderRateLimited,
            _ => ReceiptIntelligenceFailureCode::ProviderUnavailable,
        },
        ProviderErrorSummary::InvalidCitation => ReceiptIntelligenceFailureCode::CitationInvalid,
        ProviderErrorSummary::Protocol => ReceiptIntelligenceFailureCode::ProviderProtocol,
        ProviderErrorSummary::Other => ReceiptIntelligenceFailureCode::ProviderOutputInvalid,
    }
}

pub fn provider_failure_code(error: &ProviderErrorSummary) -> (code: ReceiptIntelligenceFailureCode)
    ensures
        code == spec_provider_failure_code(*error),
{
    match error {
        ProviderErrorSummary::Transport { status, .. } => match status {
            Some(ProviderHttpStatusKind::Authentication) | Some(ProviderHttpStatusKind::Permission) => {
                ReceiptIntelligenceFailureCode::ProviderAuthentication
            },
            Some(ProviderHttpStatusKind::RateLimited) => ReceiptIntelligenceFailureCode::ProviderRateLimited,
            _ => ReceiptIntelligenceFailureCode::ProviderUnavailable,
        },
        ProviderErrorSummary::InvalidCitation => ReceiptIntelligenceFailureCode::CitationInvalid,
        ProviderErrorSummary::Protocol => ReceiptIntelligenceFailureCode::ProviderProtocol,
        ProviderErrorSummary::Other => ReceiptIntelligenceFailureCode::ProviderOutputInvalid,
    }
}

/// A transport failure that may have let the request reach the provider.
pub open spec fn outcome_may_be_unknown(error: ProviderErrorSummary) -> bool {
    match error {
        ProviderErrorSummary::Transport { outcome_unknown, .. } => outcome_unknown,
        _ => false,
    }
}

/// Whether a provider failure leaves it unknown if the request reached the
/// provider: only a transport failure can.
pub fn provider_outcome_unknown(error: &ProviderErrorSummary) -> (unknown: bool)
    ensures
        unknown == outcome_may_be_unknown(*error),
{
    match error {
        ProviderErrorSummary::Transport { outcome_unknown, .. } => *outcome_unknown,
        _ => false,
    }
}

/// What is recorded of a provider failure. A request that may have reached
/// the provider is never recorded as failed.
pub fn provider_failure_record(error: &ProviderErrorSummary) -> (record: ProviderFailureRecord)
    ensures
        record == (if outcome_may_be_unknown(*error) {
            ProviderFailureRecord::OutcomeUnknown
        } else {
            ProviderFailureRecord::Failed(spec_provider_failure_code(*error))
        }),
{
    if provider_outcome_unknown(error) {
        ProviderFailureRecord::OutcomeUnknown
    } else {
        ProviderFailureRecord::Failed(provider_failure_code(error))
    }
}

/// The failure recorded when the credential of an approved request could
/// not be found: an approval that expired, or else an unavailable
/// credential.
pub open spec fn spec_credential_failure_code(error: PlatformError) -> ReceiptIntelligenceFailureCode {
    match error {
        PlatformError::Conflict(field) => if field@ == "receipt_intelligence_approval_expired"@ {
            ReceiptIntelligenceFailureCode::ApprovalExpired
        } else {
            ReceiptIntelligenceFailureCode::CredentialUnavailable
        },
        _ => ReceiptIntelligenceFailureCode::CredentialUnavailable,
    }
}

pub fn credential_failure_code(error: &PlatformError) -> (code: ReceiptIntelligenceFailureCode)
    ensures
        code == spec_credential_failure_code(*error),
{
    match error {
        PlatformError::Conflict(field) => {
            if crate::text::str_equal(field, "receipt_intelligence_approval_expired") {
                ReceiptIntelligenceFailureCode::ApprovalExpired
            } else {
                ReceiptIntelligenceFailureCode::CredentialUnavailable
            }
        },
        _ => ReceiptIntelligenceFailureCode::CredentialUnavailable,
    }
}

pub fn publication_failure_code(error: &PlatformError) -> (code: ReceiptIntelligenceFailureCode)
    ensures
        code == spec_publication_failure_code(*error),
{
    match error {
        PlatformError::InvalidInput(field) => {
            if crate::text::str_equal(field, "receipt_intelligence_citation") {
                ReceiptIntelligenceFailureCode::CitationInvalid
            } else if crate::text::str_equal(field, "receipt_intelligence_provider_output")
                || crate::text::str_equal(field, "receipt_intelligence_order") {
                ReceiptIntelligenceFailureCode::ProviderOutputInvalid
            } else {
                ReceiptIntelligenceFailureCode::PersistenceFailed
            }
        },
        PlatformError::Conflict(field) => {
            if crate::text::str_equal(field, "receipt_intelligence_source_revision_changed")
                || crate::text::str_equal(field, "receipt_intelligence_parse_changed") {
                ReceiptIntelligenceFailureCode::ProviderOutputInvalid
            } else {
                ReceiptIntelligenceFailureCode::PersistenceFailed
            }
        },
        _ => ReceiptIntelligenceFailureCode::PersistenceFailed,
    }
}

/// The Julian day that `time` gives the calendar date (`year`, `month`,
/// `day`), or `None` when it is no date that `time` accepts.
pub uninterp spec fn time_calendar_julian_day(year: i32, month: u8, day: u8) -> Option<i32>;

/// The Julian day of the UTC date at `nanos` nanoseconds after the Unix
/// epoch, or `None` when `time` cannot represent that moment.
pub uninterp spec fn time_unix_nanos_julian_day(nanos: i128) -> Option<i32>;

/// `time::Date::from_calendar_date`, its month converted by
/// `time::Month::try_from`, and `Date::to_julian_day`: the Julian day of a
/// calendar date.
#[verifier::external_body]
fn calendar_julian_day(year: i32, month: u8, day: u8) -> (julian: Option<i32>)
    ensures
        julian == time_calendar_julian_day(year, month, day),
{
    let month = time::Month::try_from(month).ok()?;
    time::Date::from_calendar_date(year, month, day).ok().map(|date| date.to_julian_day())
}

/// `time::OffsetDateTime::from_unix_timestamp_nanos`, then the Julian day of
/// its date.
#[verifier::external_body]
fn unix_nanos_julian_day(nanos: i128) -> (julian: Option<i32>)
    ensures
        julian == time_unix_nanos_julian_day(nanos),
{
    time::OffsetDateTime::from_unix_timestamp_nanos(nanos).ok().map(|moment| moment.date().to_julian_day())
}

pub open spec fn is_digit(b: u8) -> bool {
    48 <= b <= 57
}

pub open spec fn all_digits(s: Seq<u8>) -> bool {
    forall|i: int| 0 <= i < s.len() ==> is_digit(#[trigger] s[i])
}

/// The number that decimal digits write.
pub open spec fn digits_value(s: Seq<u8>) -> int
    decreases s.len(),
{
    if s.len() == 0 {
        0
    } else {
        digits_value(s.drop_last()) * 10 + (s.last() - 48)
    }
}

/// What `u16::from_str` reads: an optional `+`, then at least one digit, of
/// a value that fits.
pub open spec fn parse_u16_spec(s: Seq<u8>) -> Option<int> {
    let digits = if s.len() > 0 && s[0] == 43u8 {
        s.drop_first()
    } else {
        s
    };
    if digits.len() > 0 && all_digits(digits) && digits_value(digits) <= 65535 {
        Some(digits_value(digits))
    } else {
        None
    }
}

proof fn lemma_digits_bound(s: Seq<u8>)
    requires
        all_digits(s),
    ensures
        0 <= digits_value(s),
        s.len() <= 1 ==> digits_value(s) <= 9,
        s.len() <= 2 ==> digits_value(s) <= 99,
        s.len() <= 3 ==> digits_value(s) <= 999,
        s.len() <= 4 ==> digits_value(s) <= 9999,
    decreases s.len(),
{
    if s.len() > 0 {
        assert(all_digits(s.drop_last()));
        lemma_digits_bound(s.drop_last());
    }
}

/// Reads a short decimal field (at most four bytes) as `u16::from_str` does.
#[verifier::loop_isolation(false)]
fn parse_short_u16(field: &[u8]) -> (value: Option<u16>)
    requires
        field@.len() <= 4,
    ensures
        match value {
            Some(v) => parse_u16_spec(field@) == Some(v as int),
            None => parse_u16_spec(field@) is None,
        },
{
    let mut start: usize = 0;
    if field.len() > 0 && field[0] == 43u8 {
        start = 1;
    }
    let ghost digits = if field@.len() > 0 && field@[0] == 43u8 {
        field@.drop_first()
    } else {
        field@
    };
    assert(digits =~= field@.subrange(start as int, field@.len() as int));
    if start >= field.len() {
        assert(digits.len() == 0);
        return None;
    }
    let mut value: u32 = 0;
    let mut i: usize = start;
    while i < field.len()
        invariant
            start <= i <= field@.len(),
            field@.len() <= 4,
            digits == field@.subrange(start as int, field@.len() as int),
            all_digits(field@.subrange(start as int, i as int)),
            value as int == digits_value(field@.subrange(start as int, i as int)),
        decreases field@.len() - i,
    {
        let b = field[i];
        if b < 48 || b > 57 {
            assert(!all_digits(digits)) by {
                assert(digits[i - start] == b);
            }
            return None;
        }
        let ghost prev = field@.subrange(start as int, i as int);
        let ghost next = field@.subrange(start as int, i + 1);
        assert(next.drop_last() =~= prev);
        assert(all_digits(next)) by {
            assert forall|k: int| 0 <= k < next.len() implies is_digit(#[trigger] next[k]) by {
                if k < prev.len() {
                    assert(next[k] == prev[k]);
                }
            }
        }
        proof {
            lemma_digits_bound(prev);
        }
        value = value * 10 + (b - 48) as u32;
        i = i + 1;
    }
    proof {
        lemma_digits_bound(digits);
    }
    Some(value as u16)
}

/// The (year, month, day) that a retention provenance declares: the prefix,
/// then `YYYY-MM-DD` with each field read as `u16::from_str` reads it.
pub open spec fn retention_date_fields(provenance: Seq<u8>) -> Option<(int, int, int)> {
    let prefix = RETENTION_DECLARATION_PREFIX.spec_bytes();
    let date = provenance.subrange(prefix.len() as int, provenance.len() as int);
    if provenance.len() >= prefix.len() && provenance.subrange(0, prefix.len() as int) == prefix
        && date.len() == 10 && date[4] == 45u8 && date[7] == 45u8 {
        match (
            parse_u16_spec(date.subrange(0, 4)),
            parse_u16_spec(date.subrange(5, 7)),
            parse_u16_spec(date.subrange(8, 10)),
        ) {
            (Some(y), Some(m), Some(d)) => Some((y, m, d)),
            _ => None,
        }
    } else {
        None
    }
}

/// Whether a retention declaration `declared` Julian days old is current
/// `today`: the declared date must be a date, the current moment one that
/// can be represented, and the age between 0 and 90 days.
pub open spec fn spec_retention_days(declared: Option<i32>, today: Option<i32>) -> PlatformResult<()> {
    match declared {
        None => Err(PlatformError::Conflict("receipt_intelligence_retention_declaration_stale")),
        Some(d) => match today {
            None => Err(PlatformError::Corrupt("receipt_intelligence_timestamp")),
            Some(t) => if 0 <= t - d <= RETENTION_DECLARATION_MAX_AGE_DAYS {
                Ok(())
            } else {
                Err(PlatformError::Conflict("receipt_intelligence_retention_declaration_stale"))
            },
        },
    }
}

pub fn check_retention_days(declared: Option<i32>, today: Option<i32>) -> (result: PlatformResult<()>)
    ensures
        result == spec_retention_days(declared, today),
{
    let d = match declared {
        Some(d) => d,
        None => {
            return Err(PlatformError::Conflict("receipt_intelligence_retention_declaration_stale"));
        },
    };
    let t = match today {
        Some(t) => t,
        None => {
            return Err(PlatformError::Corrupt("receipt_intelligence_timestamp"));
        },
    };
    let age: i64 = t as i64 - d as i64;
    if 0 <= age && age <= RETENTION_DECLARATION_MAX_AGE_DAYS {
        Ok(())
    } else {
        Err(PlatformError::Conflict("receipt_intelligence_retention_declaration_stale"))
    }
}

/// The outcome of the retention check of `provenance` at `now_ms`.
pub open spec fn spec_retention_current(provenance: Seq<u8>, now_ms: i64) -> PlatformResult<()> {
    match retention_date_fields(provenance) {
        None => Err(PlatformError::Conflict("receipt_intelligence_retention_declaration_stale")),
        Some((y, m, d)) => spec_retention_days(
            time_calendar_julian_day(y as i32, m as u8, d as u8),
            time_unix_nanos_julian_day((now_ms as int * 1000000) as i128),
        ),
    }
}

/// Whether the provider's retention declaration is current at `now_ms`.
#[verifier::loop_isolation(false)]
pub fn ensure_retention_declaration_current(provenance: &str, now_ms: i64) -> (result: PlatformResult<
    (),
>)
    ensures
        result == spec_retention_current(provenance.spec_bytes(), now_ms),
{
    let bytes = provenance.as_bytes();
    let prefix = RETENTION_DECLARATION_PREFIX.as_bytes();
    let stale = PlatformError::Conflict("receipt_intelligence_retention_declaration_stale");
    if bytes.len() < prefix.len() {
        return Err(stale);
    }
    let mut i: usize = 0;
    while i < prefix.len()
        invariant
            i <= prefix@.len() <= bytes@.len(),
            forall|j: int| 0 <= j < i ==> bytes@[j] == prefix@[j],
        decreases prefix@.len() - i,
    {
        if bytes[i] != prefix[i] {
            assert(bytes@.subrange(0, prefix@.len() as int)[i as int] != prefix@[i as int]);
            return Err(stale);
        }
        i = i + 1;
    }
    assert(bytes@.subrange(0, prefix@.len() as int) =~= prefix@);
    let p = prefix.len();
    if bytes.len() - p != 10 || bytes[p + 4] != 45u8 || bytes[p + 7] != 45u8 {
        return Err(stale);
    }
    let ghost date = bytes@.subrange(p as int, bytes@.len() as int);
    let year_field = slice_bytes(bytes, p, p + 4);
    let month_field = slice_bytes(bytes, p + 5, p + 7);
    let day_field = slice_bytes(bytes, p + 8, p + 10);
    assert(year_field@ =~= date.subrange(0, 4));
    assert(month_field@ =~= date.subrange(5, 7));
    assert(day_field@ =~= date.subrange(8, 10));
    let year = match parse_short_u16(year_field.as_slice()) {
        Some(v) => v,
        None => {
            return Err(stale);
        },
    };
    let month = match parse_short_u16(month_field.as_slice()) {
        Some(v) => v,
        None => {
            return Err(stale);
        },
    };
    let day = match parse_short_u16(day_field.as_slice()) {
        Some(v) => v,
        None => {
            return Err(stale);
        },
    };
    proof {
        lemma_parsed_short(month_field@);
        lemma_parsed_short(day_field@);
    }
    let declared = calendar_julian_day(year as i32, month as u8, day as u8);
    let nanos: i128 = now_ms as i128 * 1000000;
    let today = unix_nanos_julian_day(nanos);
    check_retention_days(declared, today)
}

proof fn lemma_parsed_short(s: Seq<u8>)
    requires
        s.len() <= 2,
    ensures
        parse_u16_spec(s) matches Some(v) ==> v <= 99,
{
    let digits = if s.len() > 0 && s[0] == 43u8 {
        s.drop_first()
    } else {
        s
    };
    if all_digits(digits) {
        lemma_digits_bound(digits);
    }
}

/// The bytes of `bytes` from `start` to `end`.
fn slice_bytes(bytes: &[u8], start: usize, end: usize) -> (out: Vec<u8>)
    requires
        start <= end <= bytes@.len(),
    ensures
        out@ == bytes@.subrange(start as int, end as int),
{
    let mut out: Vec<u8> = Vec::new();
    let mut i: usize = start;
    while i < end
        invariant
            start <= i <= end <= bytes@.len(),
            out@ == bytes@.subrange(start as int, i as int),
        decreases end - i,
    {
        out.push(bytes[i]);
        assert(out@ =~= bytes@.subrange(start as int, i + 1));
        i = i + 1;
    }
    out
}

/// Runs receipt intelligence requests against the database, the credential
/// store `C` and the provider `P`.
#[derive(Clone)]
pub struct ReceiptIntelligenceCoordinator<C, P> {
    database: Database,
    credentials: C,
    provider: P,
}

impl<C, P> ReceiptIntelligenceCoordinator<C, P> {
    pub closed spec fn spec_database(&self) -> Database {
        self.database
    }

    pub closed spec fn spec_credentials(&self) -> C {
        self.credentials
    }

    pub closed spec fn spec_provider(&self) -> P {
        self.provider
    }

    pub fn new(database: Database, credentials: C, provider: P) -> (coordinator: Self)
        ensures
            coordinator.spec_database() == database,
            coordinator.spec_credentials() == credentials,
            coordinator.spec_provider() == provider,
    {
        ReceiptIntelligenceCoordinator { database, credentials, provider }
    }
}

/// The RFC 3339 text that `time` writes for a moment given in nanoseconds
/// since the Unix epoch, or `None` where it cannot.
pub uninterp spec fn time_rfc3339_text(nanos: i128) -> Option<Seq<char>>;

/// The nanoseconds since the Unix epoch of the moment that `time` reads
/// from RFC 3339 text, or `None` where it reads none.
pub uninterp spec fn time_rfc3339_nanos(text: Seq<char>) -> Option<i128>;

/// `time::OffsetDateTime::from_unix_timestamp_nanos`, then `format` with
/// `Rfc3339`: the text of the moment, or `None` where either fails.
#[verifier::external_body]
fn format_rfc3339(nanos: i128) -> (text: Option<String>)
    ensures
        match text {
            Some(t) => time_rfc3339_text(nanos) == Some(t@),
            None => time_rfc3339_text(nanos) is None,
        },
{
    let moment = time::OffsetDateTime::from_unix_timestamp_nanos(nanos).ok()?;
    moment.format(&time::format_description::well_known::Rfc3339).ok()
}

/// `time::OffsetDateTime::parse` with `Rfc3339`, then `unix_timestamp_nanos`.
#[verifier::external_body]
fn parse_rfc3339(text: &str) -> (nanos: Option<i128>)
    ensures
        nanos == time_rfc3339_nanos(text@),
{
    let moment = time::OffsetDateTime::parse(text, &time::format_description::well_known::Rfc3339).ok()?;
    Some(moment.unix_timestamp_nanos())
}

/// A moment in milliseconds as the RFC 3339 text that is stored and shown.
pub fn timestamp(value_ms: i64) -> (text: PlatformResult<String>)
    ensures
        match text {
            Ok(t) => time_rfc3339_text((value_ms * 1000000) as i128) == Some(t@),
            Err(e) => time_rfc3339_text((value_ms * 1000000) as i128) is None && e == PlatformError::Corrupt(
                "receipt_intelligence_timestamp",
            ),
        },
{
    let nanos = (value_ms as i128) * 1000000;
    match format_rfc3339(nanos) {
        Some(t) => Ok(t),
        None => Err(PlatformError::Corrupt("receipt_intelligence_timestamp")),
    }
}

/// Whole milliseconds of a count of nanoseconds, cut toward zero.
pub open spec fn millis_toward_zero(nanos: int) -> int {
    if nanos >= 0 {
        nanos / 1000000
    } else {
        -((-nanos) / 1000000)
    }
}

/// The moment that RFC 3339 text names, in whole milliseconds; text that is
/// no such moment, or one out of range, is `InvalidInput`.
pub fn parse_timestamp(value: &str) -> (value_ms: PlatformResult<i64>)
    ensures
        match time_rfc3339_nanos(value@) {
            Some(n) => if i64::MIN <= millis_toward_zero(n as int) <= i64::MAX {
                value_ms == Ok::<i64, PlatformError>(millis_toward_zero(n as int) as i64)
            } else {
                value_ms == Err::<i64, PlatformError>(PlatformError::InvalidInput("receipt_intelligence_expiry"))
            },
            None => value_ms == Err::<i64, PlatformError>(PlatformError::InvalidInput("receipt_intelligence_expiry")),
        },
{
    let nanos = match parse_rfc3339(value) {
        Some(n) => n,
        None => {
            return Err(PlatformError::InvalidInput("receipt_intelligence_expiry"));
        },
    };
    let millis: i128 = nanos / 1000000;
    if millis < i64::MIN as i128 || millis > i64::MAX as i128 {
        return Err(PlatformError::InvalidInput("receipt_intelligence_expiry"));
    }
    Ok(millis as i64)
}

} // verus!
