use vstd::prelude::*;

verus! {

/// Why a receipt image download was refused.
#[derive(Clone, Copy, Debug, PartialEq, Eq, Structural)]
pub enum ReceiptImageFailureCodeV1 {
    InvalidUrl,
    SchemeRejected,
    UserInfoRejected,
    IpLiteralRejected,
    PortRejected,
    HostMismatch,
    RedirectCrossHost,
    RedirectLimit,
    RedirectLocationRejected,
    DnsFailed,
    DnsAnswerLimit,
    AddressRejected,
    ClientBuildFailed,
    TransportFailed,
    DeadlineExceeded,
    HeaderLimit,
    HttpStatusRejected,
    MediaTypeRejected,
    ContentLengthRejected,
    BodyLimit,
    MagicMismatch,
    StructureRejected,
    DecodeFailed,
    DimensionsRejected,
    DerivativeLimit,
    BlockingTaskFailed,
}

} // verus!
