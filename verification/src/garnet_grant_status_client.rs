//! The broker's grant-status query: what an answer of the server comes to.
//!
//! Only a definitive 200 negative is a revocation, which is never graced. Everything ambiguous,
//! be it another status, a failure to reach the server, or a body or server time that cannot be
//! read, leaves the server unreachable. A failure to reach the server is retried once, since a
//! pooled connection may have died; an answer is never asked for again.

use vstd::prelude::*;

use crate::codec::{parse_rfc3339, rfc3339_seconds};
use crate::error::{CliError, ErrorView};
use crate::garnet_revocation::{GrantStatusOutcome, ServerSla};
use crate::text::{join2, same};

verus! {

/// How many seconds a query may take before it counts as a failure to reach the server.
pub const QUERY_TIMEOUT_SECS: u64 = 5;

/// The body of a grant-status answer. A server that does not know the two last fields leaves
/// them out.
pub struct GrantStatusBody {
    pub status: String,
    pub enrollment_confirmed: bool,
    pub cert_revoked: bool,
    pub server_time: String,
    pub lease_seconds: Option<i64>,
    pub outage_grace_seconds: Option<i64>,
}

/// The lease values of a body: both or neither.
pub open spec fn body_sla(lease: Option<i64>, grace: Option<i64>) -> Option<ServerSla> {
    match (lease, grace) {
        (Some(lease_seconds), Some(outage_grace_seconds)) => Some(
            ServerSla { lease_seconds, outage_grace_seconds },
        ),
        _ => None,
    }
}

/// What an answer comes to: a status, and the body where it could be read.
pub open spec fn answered(status: u16, body: Option<GrantStatusBody>) -> GrantStatusOutcome {
    match body {
        Some(b) if status == 200 => if b.status@ == "active"@ && b.enrollment_confirmed
            && !b.cert_revoked {
            match rfc3339_seconds(b.server_time@) {
                Some(t) => GrantStatusOutcome::Live {
                    server_time: t as i64,
                    sla: body_sla(b.lease_seconds, b.outage_grace_seconds),
                },
                None => GrantStatusOutcome::Unreachable,
            }
        } else {
            GrantStatusOutcome::Revoked
        },
        _ => GrantStatusOutcome::Unreachable,
    }
}

/// Map an answer to its outcome; `body` is absent where it could not be read.
pub fn map_response(status: u16, body: Option<GrantStatusBody>) -> (r: GrantStatusOutcome)
    ensures
        r == answered(status, body),
{
    if status != 200 {
        return GrantStatusOutcome::Unreachable;
    }
    let b = match body {
        Some(b) => b,
        None => return GrantStatusOutcome::Unreachable,
    };
    if same(&b.status, "active") && b.enrollment_confirmed && !b.cert_revoked {
        match parse_rfc3339_unix(&b.server_time) {
            Some(server_time) => {
                let sla = match (b.lease_seconds, b.outage_grace_seconds) {
                    (Some(lease_seconds), Some(outage_grace_seconds)) => Some(
                        ServerSla { lease_seconds, outage_grace_seconds },
                    ),
                    _ => None,
                };
                GrantStatusOutcome::Live { server_time, sla }
            },
            None => GrantStatusOutcome::Unreachable,
        }
    } else {
        GrantStatusOutcome::Revoked
    }
}

/// The Unix time, in seconds, that an RFC 3339 text names.
pub fn parse_rfc3339_unix(s: &str) -> (r: Option<i64>)
    ensures
        match r {
            Some(t) => rfc3339_seconds(s@) == Some(t as int),
            None => rfc3339_seconds(s@) is None,
        },
{
    parse_rfc3339(s)
}

/// What one attempt comes to: an answer with any status is mapped, and final; without an answer
/// the attempt failed.
pub fn attempt_outcome(answer: Option<(u16, Option<GrantStatusBody>)>) -> (r: Result<
    GrantStatusOutcome,
    (),
>)
    ensures
        match answer {
            Some((status, body)) => r == Ok::<GrantStatusOutcome, ()>(answered(status, body)),
            None => r is Err,
        },
{
    match answer {
        Some((status, body)) => Ok(map_response(status, body)),
        None => Err(()),
    }
}

/// What two attempts come to: the first that was answered, and unreachable if neither was.
pub open spec fn settled(
    first: Result<GrantStatusOutcome, ()>,
    second: Result<GrantStatusOutcome, ()>,
) -> GrantStatusOutcome {
    match (first, second) {
        (Ok(o), _) => o,
        (Err(_), Ok(o)) => o,
        (Err(_), Err(_)) => GrantStatusOutcome::Unreachable,
    }
}

/// How a query goes on after an attempt.
#[derive(Debug, Clone, Copy, PartialEq, Eq, Structural)]
pub enum QueryStep {
    /// It is over, with this outcome: no attempt follows.
    Over(GrantStatusOutcome),
    /// One more attempt follows.
    Again,
}

/// How a query goes on after an attempt, given whether that attempt was the retry.
pub open spec fn stepped(retried: bool, attempt: Result<GrantStatusOutcome, ()>) -> QueryStep {
    match attempt {
        Ok(o) => QueryStep::Over(o),
        Err(_) => if retried {
            QueryStep::Over(GrantStatusOutcome::Unreachable)
        } else {
            QueryStep::Again
        },
    }
}

/// Decide how a query goes on: an answer ends it, whatever it says; where the server could not be
/// reached there is one retry, and then the server is unreachable.
pub fn query_step(retried: bool, attempt: Result<GrantStatusOutcome, ()>) -> (s: QueryStep)
    ensures
        s == stepped(retried, attempt),
{
    match attempt {
        Ok(outcome) => QueryStep::Over(outcome),
        Err(()) => if retried {
            QueryStep::Over(GrantStatusOutcome::Unreachable)
        } else {
            QueryStep::Again
        },
    }
}

/// A query takes one attempt where the first is answered, and else exactly two; either way it
/// comes to what the two are settled as.
pub proof fn a_query_is_retried_exactly_once_after_silence(
    first: Result<GrantStatusOutcome, ()>,
    second: Result<GrantStatusOutcome, ()>,
)
    ensures
        first is Ok <==> stepped(false, first) is Over,
        first is Ok ==> stepped(false, first) == QueryStep::Over(settled(first, second)),
        first is Err <==> stepped(false, first) == QueryStep::Again,
        first is Err ==> stepped(true, second) == QueryStep::Over(settled(first, second)),
        stepped(true, second) != QueryStep::Again,
{
}

/// Run an attempt, and the retry only where the server could not be reached: an answer is used as
/// it is. Neither can run twice, and the retry may be run only after silence.
pub fn query_with_one_retry<
    F: FnOnce() -> Result<GrantStatusOutcome, ()>,
    G: FnOnce() -> Result<GrantStatusOutcome, ()>,
>(attempt: F, retry: G) -> (r: GrantStatusOutcome)
    requires
        call_requires(attempt, ()),
        forall|first: Result<GrantStatusOutcome, ()>| #[trigger]
            call_ensures(attempt, (), first) && first is Err ==> call_requires(retry, ()),
    ensures
        exists|first: Result<GrantStatusOutcome, ()>| #[trigger]
            call_ensures(attempt, (), first) && match first {
                Ok(o) => r == o,
                Err(_) => exists|second: Result<GrantStatusOutcome, ()>| #[trigger]
                    call_ensures(retry, (), second) && r == settled(first, second),
            },
{
    let first = attempt();
    assert(call_ensures(attempt, (), first));
    match query_step(false, first) {
        QueryStep::Over(outcome) => outcome,
        QueryStep::Again => {
            let second = retry();
            assert(call_ensures(retry, (), second));
            match query_step(true, second) {
                QueryStep::Over(outcome) => outcome,
                QueryStep::Again => GrantStatusOutcome::Unreachable,
            }
        },
    }
}

/// Where grant status is asked for.
pub fn grant_status_url(base_url: &str) -> (r: String)
    ensures
        r@ == base_url@ + "/v1/garnet/grant-status"@,
{
    join2(base_url, "/v1/garnet/grant-status")
}

/// Where a broker asks to be forgotten.
pub fn deregister_url(base_url: &str) -> (r: String)
    ensures
        r@ == base_url@ + "/v1/garnet/broker/deregister"@,
{
    join2(base_url, "/v1/garnet/broker/deregister")
}

/// The failure of a broker's request to be forgotten.
pub fn deregister_error(reason: &str) -> (e: CliError)
    ensures
        e@ == (ErrorView {
            exit_code: 70,
            code: "deregister_failed"@,
            message: "broker deregister: "@ + reason@,
        }),
{
    CliError::new(70, "deregister_failed", &join2("broker deregister: ", reason))
}

/// The failure to set up the mutual-TLS channel of the query.
pub fn tls_config_error(reason: &str) -> (e: CliError)
    ensures
        e@ == (ErrorView {
            exit_code: 70,
            code: "internal"@,
            message: "broker mTLS config: "@ + reason@,
        }),
{
    CliError::new(70, "internal", &join2("broker mTLS config: ", reason))
}

/// Only an answer that was read, came with status 200 and says no is a revocation: anything
/// ambiguous leaves the server unreachable.
pub proof fn ambiguity_is_no_revocation(status: u16, body: Option<GrantStatusBody>)
    ensures
        status != 200 || body is None ==> answered(status, body)
            == GrantStatusOutcome::Unreachable,
        answered(status, body) == GrantStatusOutcome::Revoked <==> status == 200 && body is Some
            && !(body->0.status@ == "active"@ && body->0.enrollment_confirmed
            && !body->0.cert_revoked),
{
}

/// An answer settles the query whatever a second attempt would have said.
pub proof fn an_answer_is_final(
    o: GrantStatusOutcome,
    a: Result<GrantStatusOutcome, ()>,
    b: Result<GrantStatusOutcome, ()>,
)
    ensures
        settled(Ok(o), a) == settled(Ok(o), b),
        settled(Ok(o), a) == o,
        settled(Err(()), Err(())) == GrantStatusOutcome::Unreachable,
{
}

/// A confirmation says what the body says: the time of the server's clock, and both lease values
/// where the body has both, neither where it lacks one. It is given exactly for an answer with
/// status 200 whose grant is active, enrolled and not revoked, and whose time can be read.
pub proof fn a_confirmation_says_what_the_body_says(status: u16, body: Option<GrantStatusBody>)
    requires
        body is Some ==> (rfc3339_seconds(body->0.server_time@) matches Some(t) ==> i64::MIN <= t
            <= i64::MAX),
    ensures
        match answered(status, body) {
            GrantStatusOutcome::Live { server_time, sla } => {
                &&& status == 200 && body is Some
                &&& body->0.status@ == "active"@ && body->0.enrollment_confirmed
                    && !body->0.cert_revoked
                &&& rfc3339_seconds(body->0.server_time@) == Some(server_time as int)
                &&& match sla {
                    Some(s) => body->0.lease_seconds == Some(s.lease_seconds)
                        && body->0.outage_grace_seconds == Some(s.outage_grace_seconds),
                    None => body->0.lease_seconds is None || body->0.outage_grace_seconds is None,
                }
            },
            _ => !(status == 200 && body is Some && body->0.status@ == "active"@
                && body->0.enrollment_confirmed && !body->0.cert_revoked && rfc3339_seconds(
                body->0.server_time@,
            ) is Some),
        },
{
}

/// A query comes to the first answer that it gets: the first attempt's, or the retry's where the
/// first was met with silence; only where both were the server is unreachable.
pub proof fn a_query_comes_to_its_first_answer<
    F: FnOnce() -> Result<GrantStatusOutcome, ()>,
    G: FnOnce() -> Result<GrantStatusOutcome, ()>,
>(
    attempt: F,
    retry: G,
    first: Result<GrantStatusOutcome, ()>,
    second: Result<GrantStatusOutcome, ()>,
    r: GrantStatusOutcome,
)
    requires
        forall|out: Result<GrantStatusOutcome, ()>| #[trigger]
            call_ensures(attempt, (), out) ==> out == first,
        forall|out: Result<GrantStatusOutcome, ()>| #[trigger]
            call_ensures(retry, (), out) ==> out == second,
        call_ensures(query_with_one_retry::<F, G>, (attempt, retry), r),
    ensures
        first matches Ok(o) ==> r == o,
        first is Err ==> (second matches Ok(o) ==> r == o),
        first is Err && second is Err ==> r == GrantStatusOutcome::Unreachable,
{
}

/// An attempt that was answered comes to what the answer says; one that was not has failed.
pub proof fn an_answered_attempt_is_over(
    status: u16,
    body: Option<GrantStatusBody>,
    r: Result<GrantStatusOutcome, ()>,
    silent: Result<GrantStatusOutcome, ()>,
)
    requires
        call_ensures(attempt_outcome, (Some((status, body)),), r),
        call_ensures(attempt_outcome, (None::<(u16, Option<GrantStatusBody>)>,), silent),
    ensures
        r is Ok,
        r->Ok_0 == answered(status, body),
        silent is Err,
{
}

} // verus!
