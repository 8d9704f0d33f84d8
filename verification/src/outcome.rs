use vstd::prelude::*;

verus! {

/// The transport-level cause of a failed HTTP attempt, as reported by the
/// HTTP client: the request timed out, the connection could not be
/// established, or something else went wrong.
#[derive(Clone, Copy, Debug, PartialEq, Eq, Structural)]
pub enum TransportFailure {
    Timeout,
    Connect,
    Other,
}

/// The raw result of attempting one HTTP GET: either a response arrived,
/// carrying its status code and the wall-clock latency measured by the
/// caller, or the transport failed with a distinguishing cause.
#[derive(Clone, Copy, Debug, PartialEq, Eq, Structural)]
pub enum FetchResult {
    Response { status: u16, latency_ms: u64 },
    Failure(TransportFailure),
}

/// The classified result of one attempted HTTP request. Exactly one is
/// produced per attempt; it is immutable once produced.
#[derive(Clone, Copy, Debug, PartialEq, Eq, Structural)]
pub enum Outcome {
    /// A response with a 2xx status, together with the observed latency.
    Success { status: u16, latency_ms: u64 },
    /// A response with any non-2xx status; the latency is discarded.
    HttpError { status: u16 },
    /// The transport reported a timeout.
    Timeout,
    /// The transport failed to establish a connection.
    ConnectFailure,
    /// Any other transport failure.
    OtherFailure,
}

/// A status code counts as a success exactly when it lies in the 2xx range.
pub open spec fn is_success_status(status: u16) -> bool {
    200 <= status < 300
}

/// What `classify` returns for each possible raw result.
pub open spec fn spec_classify(r: FetchResult) -> Outcome {
    match r {
        FetchResult::Response { status, latency_ms } => {
            if is_success_status(status) {
                Outcome::Success { status, latency_ms }
            } else {
                Outcome::HttpError { status }
            }
        }
        FetchResult::Failure(TransportFailure::Timeout) => Outcome::Timeout,
        FetchResult::Failure(TransportFailure::Connect) => Outcome::ConnectFailure,
        FetchResult::Failure(TransportFailure::Other) => Outcome::OtherFailure,
    }
}

/// Maps the raw result of one HTTP GET to exactly one `Outcome`: a 2xx
/// response to `Success` with its status and latency, any other response to
/// `HttpError` with its status alone, and a transport failure to the
/// variant matching its cause. No retries happen here; one attempt yields
/// exactly one `Outcome`.
pub fn classify(r: FetchResult) -> (o: Outcome)
    ensures
        o == spec_classify(r),
{
    match r {
        FetchResult::Response { status, latency_ms } => {
            if 200 <= status && status < 300 {
                Outcome::Success { status, latency_ms }
            } else {
                Outcome::HttpError { status }
            }
        }
        FetchResult::Failure(TransportFailure::Timeout) => Outcome::Timeout,
        FetchResult::Failure(TransportFailure::Connect) => Outcome::ConnectFailure,
        FetchResult::Failure(TransportFailure::Other) => Outcome::OtherFailure,
    }
}

} // verus!
