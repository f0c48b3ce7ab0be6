//! What goes to the upstream and what comes back: one probe, the reply to
//! it, and what the reply means.

use vstd::prelude::*;

verus! {

/// HTTP status of an answered request.
pub const HTTP_OK: u16 = 200;

/// HTTP status with which a gateway reports that the upstream did not answer
/// in time.
pub const HTTP_GATEWAY_TIMEOUT: u16 = 504;

/// Business code: the amount was debited.
pub const CODE_CONSUMED: i32 = 200;

/// Business code: the amount is larger than what is left.
pub const CODE_INSUFFICIENT: i32 = 501;

/// Business code: the upstream knows no such user.
pub const CODE_NOT_FOUND: i32 = 404;

/// Name of the header that carries the request id of one attempt.
pub const REQUEST_ID_HEADER: &'static str = "X-KSY-REQUEST-ID";

/// Name of the header that tells the upstream who is asking.
pub const KINGSTAR_ID_HEADER: &'static str = "X-KSY-KINGSTAR-ID";

/// What this service puts into the header `X-KSY-KINGSTAR-ID`.
pub const KINGSTAR_ID: &'static str = "20004";

/// How many probes may be on their way to the upstream at one time, over
/// all users and denominations.
pub const PROBES_IN_FLIGHT: usize = 100;

/// A user and an amount in cents.
#[derive(Debug, Clone, Copy, PartialEq, Eq)]
pub struct Fund {
    pub uid: i64,
    pub amount: i64,
}

/// Body of an answered probe.
#[derive(Debug, Clone, PartialEq, Eq)]
pub struct GetFundResponse {
    pub code: i32,
    pub request_id: String,
    pub msg: String,
    pub data: String,
}

/// One attempt of a probe, as it is handed to the transport.
///
/// `transaction_id` is the correlation id of the logical probe and is shared
/// by its retries; `request_id` belongs to this attempt alone.
#[derive(Debug, Clone, PartialEq, Eq)]
pub struct Probe {
    pub uid: i64,
    pub amount: i64,
    pub transaction_id: String,
    pub request_id: String,
}

/// What the transport observed for one attempt.
#[derive(Debug, Clone, PartialEq, Eq)]
pub enum UpstreamReply {
    /// The request could not be sent, or the answer could not be read.
    Failed,
    /// The upstream answered; `body` is `None` when it could not be parsed.
    Answered { status: u16, body: Option<GetFundResponse> },
}

/// The meaning of one attempt.
#[derive(Debug, Clone, Copy, PartialEq, Eq, Structural)]
pub enum ProbeOutcome {
    /// The upstream debited this many cents.
    Consumed(i64),
    /// The amount exceeds what is left; nothing was debited.
    Insufficient,
    /// The upstream has no account for the user; nothing was debited.
    NotFound,
    /// Any other business code; whether the amount was debited is unknown.
    BusinessOther(i32),
    /// The gateway timed out; whether the amount was debited is unknown.
    GatewayTimeout,
    /// No usable answer; whether the amount was debited is unknown.
    TransportError,
}

/// The outcome that a reply stands for, given the request id the attempt was
/// sent under and the amount it asked for.
pub open spec fn outcome_of(request_id: Seq<char>, amount: i64, reply: UpstreamReply)
    -> ProbeOutcome {
    match reply {
        UpstreamReply::Failed => ProbeOutcome::TransportError,
        UpstreamReply::Answered { status, body } => {
            if status == HTTP_GATEWAY_TIMEOUT {
                ProbeOutcome::GatewayTimeout
            } else if status != HTTP_OK {
                ProbeOutcome::TransportError
            } else {
                match body {
                    None => ProbeOutcome::TransportError,
                    Some(answer) => {
                        if answer.request_id@ != request_id {
                            ProbeOutcome::TransportError
                        } else if answer.code == CODE_CONSUMED {
                            ProbeOutcome::Consumed(amount)
                        } else if answer.code == CODE_INSUFFICIENT {
                            ProbeOutcome::Insufficient
                        } else if answer.code == CODE_NOT_FOUND {
                            ProbeOutcome::NotFound
                        } else {
                            ProbeOutcome::BusinessOther(answer.code)
                        }
                    },
                }
            }
        },
    }
}

/// A fresh identifier: `Uuid::new_v4` draws a random version-4 UUID, which is
/// written out in its hyphenated form, 36 characters long. Nothing else is
/// claimed of it; two calls may or may not differ.
#[verifier::external_body]
pub(crate) fn fresh_uuid() -> (id: String)
    ensures
        id@.len() == 36,
{
    uuid::Uuid::new_v4().to_string()
}

/// Classifies the reply to `probe`.
pub fn classify(probe: &Probe, reply: &UpstreamReply) -> (outcome: ProbeOutcome)
    ensures
        outcome == outcome_of(probe.request_id@, probe.amount, *reply),
{
    match reply {
        UpstreamReply::Failed => ProbeOutcome::TransportError,
        UpstreamReply::Answered { status, body } => {
            if *status == HTTP_GATEWAY_TIMEOUT {
                return ProbeOutcome::GatewayTimeout;
            }
            if *status != HTTP_OK {
                return ProbeOutcome::TransportError;
            }
            match body {
                None => ProbeOutcome::TransportError,
                Some(answer) => {
                    if answer.request_id != probe.request_id {
                        ProbeOutcome::TransportError
                    } else if answer.code == CODE_CONSUMED {
                        ProbeOutcome::Consumed(probe.amount)
                    } else if answer.code == CODE_INSUFFICIENT {
                        ProbeOutcome::Insufficient
                    } else if answer.code == CODE_NOT_FOUND {
                        ProbeOutcome::NotFound
                    } else {
                        ProbeOutcome::BusinessOther(answer.code)
                    }
                },
            }
        },
    }
}

} // verus!
