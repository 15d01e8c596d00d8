use vstd::prelude::*;

verus! {

/// What can go wrong between a completed HTTP exchange and a typed result.
///
/// Transport-level failures never reach this library: the caller that owns
/// the connection reports them itself and hands over only a successful
/// response's payload, or the fact that none was present.
#[derive(Clone, Copy, Debug, PartialEq, Eq, Structural)]
pub enum EsError {
    /// The exchange succeeded but the response carried no JSON payload.
    MissingPayload,
    /// A JSON payload was present but did not have the expected shape:
    /// no `tokens` array, or a token element with a field missing or of
    /// the wrong type.
    MalformedResponse,
}

} // verus!
