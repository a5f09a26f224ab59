use crate::receipt_image_codes::ReceiptImageFailureCodeV1;
use std::time::{Duration, Instant};
use vstd::prelude::*;

verus! {

#[verifier::external_type_specification]
#[verifier::external_body]
pub struct ExInstant(std::time::Instant);

/// `Clone::clone` on `std::time::Instant`, a `Copy` type: the same moment.
pub assume_specification[ <std::time::Instant as Clone>::clone ](instant: &Instant) -> (copy: Instant)
    ensures
        copy == *instant,
;

/// How long a whole receipt image download may take, in seconds.
pub const RECEIPT_IMAGE_DOWNLOAD_TIMEOUT_SECS: u64 = 10;

/// The monotonic clock that download deadlines are measured on.
pub trait ReceiptImageClock: Clone + Send + Sync + 'static {
    fn now(&self) -> Instant;
}

/// The operating system's monotonic clock.
#[derive(Clone, Copy, Debug, Default)]
pub struct SystemClock;

impl ReceiptImageClock for SystemClock {
    fn now(&self) -> (now: Instant) {
        instant_now()
    }
}

/// `std::time::Instant::now`. Nothing is stated of the moment it returns.
#[verifier::external_body]
fn instant_now() -> (now: Instant) {
    Instant::now()
}

/// `std::time::Instant::checked_add` of whole seconds: `None` when the moment
/// cannot be represented. Nothing more is stated of the moment.
#[verifier::external_body]
fn instant_after_secs(start: Instant, secs: u64) -> (later: Option<Instant>) {
    start.checked_add(Duration::from_secs(secs))
}

/// `<` on `std::time::Instant`: whether `a` comes before `b`. Nothing is
/// stated of the order.
#[verifier::external_body]
fn instant_before(a: &Instant, b: &Instant) -> (before: bool) {
    a < b
}

/// A download of an approved receipt image, by its normalized URL, the host
/// that the user approved, and the moment by which it must be done.
#[derive(Clone, Debug, PartialEq, Eq)]
pub struct ReceiptImageDownloadRequestV1 {
    pub normalized_url: String,
    pub approved_display_host: String,
    pub deadline: Instant,
}

/// The deadline of a download that starts now; a moment past what the clock
/// can represent is `DeadlineExceeded`.
pub fn download_deadline<C: ReceiptImageClock>(clock: &C) -> (deadline: Result<
    Instant,
    ReceiptImageFailureCodeV1,
>)
    ensures
        deadline matches Err(e) ==> e == ReceiptImageFailureCodeV1::DeadlineExceeded,
{
    match instant_after_secs(clock.now(), RECEIPT_IMAGE_DOWNLOAD_TIMEOUT_SECS) {
        Some(deadline) => Ok(deadline),
        None => Err(ReceiptImageFailureCodeV1::DeadlineExceeded),
    }
}

/// The request for a download that starts now.
pub fn download_request<C: ReceiptImageClock>(clock: &C, normalized_url: String, approved_display_host: String) -> (request:
    Result<ReceiptImageDownloadRequestV1, ReceiptImageFailureCodeV1>)
    ensures
        match request {
            Ok(r) => r.normalized_url@ == normalized_url@ && r.approved_display_host@
                == approved_display_host@,
            Err(e) => e == ReceiptImageFailureCodeV1::DeadlineExceeded,
        },
{
    let deadline = download_deadline(clock)?;
    Ok(ReceiptImageDownloadRequestV1 { normalized_url, approved_display_host, deadline })
}

/// `Ok` while the clock reads before the deadline, else `DeadlineExceeded`.
pub fn ensure_before_deadline<C: ReceiptImageClock>(clock: &C, deadline: &Instant) -> (result: Result<
    (),
    ReceiptImageFailureCodeV1,
>)
    ensures
        result matches Err(e) ==> e == ReceiptImageFailureCodeV1::DeadlineExceeded,
{
    let now = clock.now();
    if instant_before(&now, deadline) {
        Ok(())
    } else {
        Err(ReceiptImageFailureCodeV1::DeadlineExceeded)
    }
}

} // verus!
