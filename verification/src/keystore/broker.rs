//! The keystore via the local **broker**: lazy token renewal, and the two recoveries.
//!
//! Every operation presents a short-lived broker token, renewed when it is absent or near its
//! expiry. Two rejections are renewable and trigger one forced renewal and retry:
//! `token_expired` and `unauthorized`. A failed attempt is then recovered at most once:
//! `broker_pin_mismatch` refreshes the pin by a signed re-pickup; `access_paused` and
//! `token_denied` check, once per keystore, whether the guardian re-authorized. Where no fresh
//! grant awaits, the original error stands.

use vstd::prelude::*;

use super::{cli_error_from_wire, wire_error};
use crate::codec::{base64url_bytes, base64url_decode};
use crate::error::{outcome, seen, CliError, ErrorView};
use crate::json::{json_slice, parse_bytes};
use crate::text::{a_piece_is_split_off, join3, pieces, same, split, views};
use crate::wire::{OkView, OpOk, Reply, Response};

verus! {

/// Renew the broker token this many seconds before it expires.
pub const RENEW_MARGIN_SECS: i64 = 120;

/// The name of this backend's peer in its errors.
pub const PEER: &'static str = "broker";

/// The `exp` claim of a compact JWS `header.payload.signature`, read without checking the
/// signature; none where the shape, the base64 or the JSON is unreadable.
pub open spec fn exp_of(jws: Seq<char>) -> Option<int> {
    let parts = pieces(jws, '.');
    if parts.len() < 2 {
        None
    } else {
        match base64url_bytes(parts[1]) {
            None => None,
            Some(payload) => match json_slice(payload) {
                None => None,
                Some(claims) => claims.integer_field("exp"@),
            },
        }
    }
}

/// Read the `exp` (seconds since the epoch) of a compact JWS.
pub fn token_exp(jws: &str) -> (r: Option<i64>)
    ensures
        match r {
            Some(t) => exp_of(jws@) == Some(t as int),
            None => exp_of(jws@) is None,
        },
{
    let parts = split(jws, '.');
    assert(views(parts@).len() == parts@.len());
    if parts.len() < 2 {
        return None;
    }
    assert(views(parts@)[1] == parts@[1]@);
    match base64url_decode(&parts[1]) {
        None => None,
        Some(payload) => match parse_bytes(&payload) {
            None => None,
            Some(claims) => claims.get_i64("exp"),
        },
    }
}

/// Whether a token with this expiry is due for renewal: unreadable, or within the margin.
pub fn near_expiry(exp: Option<i64>, now: i64) -> (r: bool)
    ensures
        r == match exp {
            Some(t) => t - now < RENEW_MARGIN_SECS,
            None => true,
        },
{
    match exp {
        Some(t) => (t as i128) - (now as i128) < RENEW_MARGIN_SECS as i128,
        None => true,
    }
}

/// Whether a JWS access token is within the renewal margin of its expiry, or unreadable.
pub fn token_near_expiry(jws: &str, now: i64) -> (r: bool)
    ensures
        r == match exp_of(jws@) {
            Some(t) => t - now < RENEW_MARGIN_SECS,
            None => true,
        },
{
    near_expiry(token_exp(jws), now)
}

/// Whether the broker token must be renewed before the next operation: when forced, absent,
/// or near its expiry.
pub fn renewal_due(force: bool, token: Option<&str>, now: i64) -> (r: bool)
    ensures
        r == (force || match token {
            None => true,
            Some(t) => match exp_of(t@) {
                Some(exp) => exp - now < RENEW_MARGIN_SECS,
                None => true,
            },
        }),
{
    if force {
        return true;
    }
    match token {
        None => true,
        Some(t) => token_near_expiry(t, now),
    }
}

/// What is done about a failed attempt.
#[derive(Debug, Clone, Copy, PartialEq, Eq, Structural)]
pub enum Recovery {
    /// Refresh the pin by a signed re-pickup and retry.
    PinRefresh,
    /// One signed re-pickup, in case the guardian re-authorized, and one retry.
    ReauthOnce,
    /// Raise the failure as it is.
    Definitive,
}

/// The recovery that a failure code calls for, given whether re-authorization was tried.
pub open spec fn recovery(code: Seq<char>, attempted: bool) -> Recovery {
    if code == "broker_pin_mismatch"@ {
        Recovery::PinRefresh
    } else if (code == "access_paused"@ || code == "token_denied"@) && !attempted {
        Recovery::ReauthOnce
    } else {
        Recovery::Definitive
    }
}

/// Whether re-authorization counts as tried once this failure has been looked at.
pub open spec fn attempted_after(code: Seq<char>, attempted: bool) -> bool {
    attempted || code == "access_paused"@ || code == "token_denied"@
}

/// Decide the recovery and spend the once-per-keystore guard in the same step.
pub fn recovery_for(code: &str, attempted: &mut bool) -> (r: Recovery)
    ensures
        r == recovery(code@, *old(attempted)),
        *final(attempted) == attempted_after(code@, *old(attempted)),
{
    proof {
        reveal_strlit("broker_pin_mismatch");
        reveal_strlit("access_paused");
        reveal_strlit("token_denied");
        assert("broker_pin_mismatch"@.len() == 19);
        assert("access_paused"@.len() == 13);
        assert("token_denied"@.len() == 12);
    }
    if same(code, "broker_pin_mismatch") {
        Recovery::PinRefresh
    } else if same(code, "access_paused") || same(code, "token_denied") {
        let before = *attempted;
        *attempted = true;
        if before {
            Recovery::Definitive
        } else {
            Recovery::ReauthOnce
        }
    } else {
        Recovery::Definitive
    }
}

/// Re-authorization is tried at most once, and only by one of its two triggers.
pub proof fn reauthorization_is_tried_once(first: Seq<char>, second: Seq<char>, attempted: bool)
    ensures
        recovery(first, attempted) == Recovery::ReauthOnce ==> recovery(
            second,
            attempted_after(first, attempted),
        ) != Recovery::ReauthOnce,
        recovery(first, attempted) != Recovery::ReauthOnce && !attempted ==> !attempted_after(
            first,
            attempted,
        ),
{
    reveal_strlit("broker_pin_mismatch");
    reveal_strlit("access_paused");
    reveal_strlit("token_denied");
    assert("broker_pin_mismatch"@.len() == 19);
    assert("access_paused"@.len() == 13);
    assert("token_denied"@.len() == 12);
}

/// Where an operation stands: what the broker keystore is waiting for.
#[derive(Debug, Clone, Copy, PartialEq, Eq, Structural)]
pub enum Stage {
    /// A usable token.
    Token,
    /// The answer to the operation.
    Wire,
    /// A freshly renewed token, after a renewable rejection.
    RenewedToken,
    /// The answer to the operation sent again.
    RetriedWire,
    /// The re-pickup for a changed pin.
    PinRefresh,
    /// The re-pickup for a possible re-authorization.
    Reauthorization,
}

/// One operation in flight.
pub struct PerformOp {
    stage: Stage,
    /// Whether a recovery has been spent on this operation.
    recovered: bool,
    /// The failure that stands if a re-authorization check finds nothing.
    original: Option<CliError>,
}

/// [`PerformOp`], viewed.
pub struct OpState {
    pub stage: Stage,
    pub recovered: bool,
    pub original: Option<ErrorView>,
}

impl View for PerformOp {
    type V = OpState;

    closed spec fn view(&self) -> OpState {
        OpState { stage: self.stage, recovered: self.recovered, original: seen(self.original) }
    }
}

/// What happened since the last step.
pub enum OpEvent {
    /// A usable token is at hand.
    TokenReady,
    /// No token could be had.
    TokenFailed(CliError),
    /// The broker answered.
    Answered(Response),
    /// The broker could not be reached.
    WireFailed(CliError),
    /// The re-pickup went through and the client was rebuilt.
    Refreshed,
    /// The re-pickup was refused or failed.
    RefreshFailed(CliError),
}

/// [`OpEvent`], viewed.
pub enum EventView {
    TokenReady,
    TokenFailed(ErrorView),
    Answered(Reply),
    WireFailed(ErrorView),
    Refreshed,
    RefreshFailed(ErrorView),
}

impl View for OpEvent {
    type V = EventView;

    open spec fn view(&self) -> EventView {
        match self {
            OpEvent::TokenReady => EventView::TokenReady,
            OpEvent::TokenFailed(e) => EventView::TokenFailed(e@),
            OpEvent::Answered(r) => EventView::Answered(r@),
            OpEvent::WireFailed(e) => EventView::WireFailed(e@),
            OpEvent::Refreshed => EventView::Refreshed,
            OpEvent::RefreshFailed(e) => EventView::RefreshFailed(e@),
        }
    }
}

/// The operation goes on, waiting for its new stage, or it is over.
pub enum OpStep {
    Go(PerformOp),
    Over(Result<OpOk, CliError>),
}

/// [`OpStep`], viewed.
pub enum StepView {
    Go(OpState),
    Over(Result<OkView, ErrorView>),
}

impl View for OpStep {
    type V = StepView;

    open spec fn view(&self) -> StepView {
        match self {
            OpStep::Go(p) => StepView::Go(p@),
            OpStep::Over(r) => StepView::Over(outcome(*r)),
        }
    }
}

impl OpState {
    /// An operation about to start.
    pub open spec fn start() -> OpState {
        OpState { stage: Stage::Token, recovered: false, original: None }
    }

    /// Whether an event is one this stage waits for.
    pub open spec fn awaits(self, event: EventView) -> bool {
        match self.stage {
            Stage::Token | Stage::RenewedToken => event is TokenReady || event is TokenFailed,
            Stage::Wire | Stage::RetriedWire => event is Answered || event is WireFailed,
            Stage::PinRefresh => event is Refreshed || event is RefreshFailed,
            Stage::Reauthorization => (event is Refreshed || event is RefreshFailed)
                && self.original is Some,
        }
    }

    /// The same operation at another stage.
    pub open spec fn at(self, stage: Stage) -> StepView {
        StepView::Go(OpState { stage, recovered: self.recovered, original: self.original })
    }

    /// What an attempt's failure leads to: a recovery, if none was spent yet, else the failure.
    pub open spec fn failed(self, e: ErrorView, attempted: bool) -> StepView {
        if self.recovered {
            StepView::Over(Err(e))
        } else {
            match recovery(e.code, attempted) {
                Recovery::PinRefresh => StepView::Go(
                    OpState { stage: Stage::PinRefresh, recovered: true, original: None },
                ),
                Recovery::ReauthOnce => StepView::Go(
                    OpState { stage: Stage::Reauthorization, recovered: true, original: Some(e) },
                ),
                Recovery::Definitive => StepView::Over(Err(e)),
            }
        }
    }

    /// The failure that a stage and an event make of an attempt, where they make one.
    pub open spec fn attempt_failure(self, event: EventView) -> Option<ErrorView> {
        match event {
            EventView::TokenFailed(e) => Some(e),
            EventView::WireFailed(e) => Some(e),
            EventView::Answered(Reply::Failed { code, message }) => if self.stage == Stage::Wire
                && (code == "token_expired"@ || code == "unauthorized"@) {
                None
            } else {
                Some(wire_error(code, message))
            },
            _ => None,
        }
    }

    /// What an event leads to.
    pub open spec fn stepped(self, event: EventView, attempted: bool) -> StepView {
        match self.attempt_failure(event) {
            Some(e) => self.failed(e, attempted),
            None => match event {
                EventView::TokenReady => self.at(
                    if self.stage == Stage::Token {
                        Stage::Wire
                    } else {
                        Stage::RetriedWire
                    },
                ),
                EventView::Answered(Reply::Done(ok)) => StepView::Over(Ok(ok)),
                EventView::Answered(_) => self.at(Stage::RenewedToken),
                EventView::Refreshed => StepView::Go(
                    OpState { stage: Stage::Token, recovered: true, original: None },
                ),
                EventView::RefreshFailed(e) => StepView::Over(
                    Err(
                        match self.original {
                            Some(o) => o,
                            None => e,
                        },
                    ),
                ),
                _ => self.at(self.stage),
            },
        }
    }

    /// The guard after an event.
    pub open spec fn guard_after(self, event: EventView, attempted: bool) -> bool {
        match self.attempt_failure(event) {
            Some(e) => if self.recovered {
                attempted
            } else {
                attempted_after(e.code, attempted)
            },
            None => attempted,
        }
    }

    /// How many more events can come at most.
    pub open spec fn events_left(self) -> nat {
        let left: nat = match self.stage {
            Stage::Token => 4,
            Stage::Wire => 3,
            Stage::RenewedToken => 2,
            Stage::RetriedWire => 1,
            Stage::PinRefresh => 5,
            Stage::Reauthorization => 5,
        };
        if self.recovered {
            left
        } else {
            left + 5
        }
    }
}

impl PerformOp {
    /// Start an operation: it waits for a token.
    pub fn start() -> (p: PerformOp)
        ensures
            p@ == OpState::start(),
    {
        PerformOp { stage: Stage::Token, recovered: false, original: None }
    }

    /// What the operation waits for.
    pub fn stage(&self) -> (s: Stage)
        ensures
            s == self@.stage,
    {
        self.stage
    }

    fn fail(self, e: CliError, attempted: &mut bool) -> (s: OpStep)
        ensures
            s@ == self@.failed(e@, *old(attempted)),
            *final(attempted) == if self@.recovered {
                *old(attempted)
            } else {
                attempted_after(e@.code, *old(attempted))
            },
    {
        if self.recovered {
            return OpStep::Over(Err(e));
        }
        match recovery_for(e.code, attempted) {
            Recovery::PinRefresh => OpStep::Go(
                PerformOp { stage: Stage::PinRefresh, recovered: true, original: None },
            ),
            Recovery::ReauthOnce => OpStep::Go(
                PerformOp { stage: Stage::Reauthorization, recovered: true, original: Some(e) },
            ),
            Recovery::Definitive => OpStep::Over(Err(e)),
        }
    }

    /// Take in what happened and say how the operation goes on.
    pub fn step(self, event: OpEvent, attempted: &mut bool) -> (s: OpStep)
        requires
            self@.awaits(event@),
        ensures
            s@ == self@.stepped(event@, *old(attempted)),
            *final(attempted) == self@.guard_after(event@, *old(attempted)),
    {
        match event {
            OpEvent::TokenReady => {
                let stage = if self.stage == Stage::Token {
                    Stage::Wire
                } else {
                    Stage::RetriedWire
                };
                OpStep::Go(
                    PerformOp { stage, recovered: self.recovered, original: self.original },
                )
            },
            OpEvent::TokenFailed(e) => self.fail(e, attempted),
            OpEvent::WireFailed(e) => self.fail(e, attempted),
            OpEvent::Answered(Response::Done(ok)) => OpStep::Over(Ok(ok)),
            OpEvent::Answered(Response::Failed(e)) => {
                if self.stage == Stage::Wire && (same(&e.code, "token_expired") || same(
                    &e.code,
                    "unauthorized",
                )) {
                    return OpStep::Go(
                        PerformOp {
                            stage: Stage::RenewedToken,
                            recovered: self.recovered,
                            original: self.original,
                        },
                    );
                }
                self.fail(cli_error_from_wire(&e.code, &e.message), attempted)
            },
            OpEvent::Refreshed => OpStep::Go(
                PerformOp { stage: Stage::Token, recovered: true, original: None },
            ),
            OpEvent::RefreshFailed(e) => match self.original {
                Some(o) => OpStep::Over(Err(o)),
                None => OpStep::Over(Err(e)),
            },
        }
    }
}

/// What the operator is told when an operation enters a stage: each of the two re-pickups is
/// announced, with the handle it is for.
pub fn stage_notice(stage: Stage, handle: &str) -> (r: Option<String>)
    ensures
        seen(r) == match stage {
            Stage::PinRefresh => Some(
                "signet: the broker's identity changed (it no longer matches this credential's pin: a re-provisioned broker); refreshing the credential for '"@
                    + handle@ + "' by signed pickup…"@,
            ),
            Stage::Reauthorization => Some(
                "signet: access is paused for '"@ + handle@
                    + "'. Checking whether your guardian re-authorized (one signed pickup)…"@,
            ),
            _ => None,
        },
{
    match stage {
        Stage::PinRefresh => Some(
            join3(
                "signet: the broker's identity changed (it no longer matches this credential's pin: a re-provisioned broker); refreshing the credential for '",
                handle,
                "' by signed pickup…",
            ),
        ),
        Stage::Reauthorization => Some(
            join3(
                "signet: access is paused for '",
                handle,
                "'. Checking whether your guardian re-authorized (one signed pickup)…",
            ),
        ),
        _ => None,
    }
}

/// What the operator is told when a stage is over, given whether it went through: what the check
/// for a re-authorization found.
pub fn outcome_notice(stage: Stage, done: bool, handle: &str) -> (r: Option<String>)
    ensures
        seen(r) == match stage {
            Stage::Reauthorization => Some(
                if done {
                    "signet: re-authorized. Reconnected as '"@ + handle@
                        + "' with a fresh credential."@
                } else {
                    "signet: no new authorization found. Access remains paused."@
                },
            ),
            _ => None,
        },
{
    match stage {
        Stage::Reauthorization => if done {
            Some(
                join3(
                    "signet: re-authorized. Reconnected as '",
                    handle,
                    "' with a fresh credential.",
                ),
            )
        } else {
            Some("signet: no new authorization found. Access remains paused.".to_owned())
        },
        _ => None,
    }
}

/// Every event brings an operation closer to its end: it takes nine at most.
pub proof fn operations_end(s: OpState, event: EventView, attempted: bool)
    requires
        s.awaits(event),
        s.stage == Stage::PinRefresh || s.stage == Stage::Reauthorization ==> s.recovered,
    ensures
        s.stepped(event, attempted) matches StepView::Go(next) ==> next.events_left()
            < s.events_left(),
        OpState::start().events_left() == 9,
{
}

/// A recovery is spent at most once per operation: once one was, a failure is final.
pub proof fn a_second_failure_is_final(s: OpState, e: ErrorView, attempted: bool)
    requires
        s.recovered,
    ensures
        s.failed(e, attempted) == StepView::Over(Err::<OkView, ErrorView>(e)),
{
}

/// Where the re-authorization check finds nothing, the original failure stands.
pub proof fn the_original_failure_stands(s: OpState, e: ErrorView, attempted: bool)
    requires
        s.stage == Stage::Reauthorization,
        s.original is Some,
    ensures
        s.stepped(EventView::RefreshFailed(e), attempted) == StepView::Over(
            Err::<OkView, ErrorView>(s.original->0),
        ),
{
}

/// An operation succeeds with what the broker answered, as it answered it, at once and never
/// otherwise.
pub proof fn only_the_brokers_answer_is_a_result(s: OpState, event: EventView, attempted: bool)
    requires
        s.awaits(event),
    ensures
        event matches EventView::Answered(Reply::Done(ok)) ==> s.stepped(event, attempted)
            == StepView::Over(Ok::<OkView, ErrorView>(ok)),
        s.stepped(event, attempted) matches StepView::Over(Ok(ok)) ==> event
            == EventView::Answered(Reply::Done(ok)),
{
}

/// An operation fails with what went wrong last, or, after a re-authorization check, with what
/// went wrong before it; an answer's failure comes as the wire carries it.
pub proof fn a_failure_is_what_went_wrong(s: OpState, event: EventView, attempted: bool)
    requires
        s.awaits(event),
    ensures
        s.stepped(event, attempted) matches StepView::Over(Err(e)) ==> match event {
            EventView::TokenFailed(f) => e == f,
            EventView::WireFailed(f) => e == f,
            EventView::Answered(Reply::Failed { code, message }) => e == wire_error(
                code,
                message,
            ),
            EventView::RefreshFailed(f) => if s.original is Some {
                e == s.original->0
            } else {
                e == f
            },
            _ => false,
        },
        event is RefreshFailed ==> s.stepped(event, attempted) is Over,
{
}

/// An operation is sent once a token is at hand, the second time with a renewed one. A rejected
/// token is renewed where it was the first one sent, and only for the two codes that say so; the
/// recoveries already spent stay spent.
pub proof fn a_rejected_token_is_renewed_once(
    s: OpState,
    code: Seq<char>,
    message: Seq<char>,
    attempted: bool,
)
    ensures
        ({
            let rejected = s.stepped(
                EventView::Answered(Reply::Failed { code, message }),
                attempted,
            );
            let renewable = code == "token_expired"@ || code == "unauthorized"@;
            &&& s.stage == Stage::Wire && renewable ==> rejected == StepView::Go(
                OpState { stage: Stage::RenewedToken, ..s },
            )
            &&& s.stage == Stage::RetriedWire || !renewable ==> !(rejected matches StepView::Go(
                next,
            ) && next.stage == Stage::RenewedToken)
        }),
        s.stage == Stage::Token ==> s.stepped(EventView::TokenReady, attempted) == StepView::Go(
            OpState { stage: Stage::Wire, ..s },
        ),
        s.stage == Stage::RenewedToken ==> s.stepped(EventView::TokenReady, attempted)
            == StepView::Go(OpState { stage: Stage::RetriedWire, ..s }),
{
}

/// What a failed attempt is recovered by. A pin that no longer matches is refreshed; paused or
/// denied access is checked for a re-authorization, once per keystore, keeping the failure in
/// case there is none; nothing else is recovered, and nothing on an operation that was recovered
/// before. The check counts as spent as soon as it is due.
pub proof fn recoveries_fit_their_failures(s: OpState, e: ErrorView, attempted: bool)
    requires
        !s.recovered,
    ensures
        ({
            let refused = e.code == "access_paused"@ || e.code == "token_denied"@;
            let next = s.stepped(EventView::WireFailed(e), attempted);
            &&& next == s.stepped(EventView::TokenFailed(e), attempted)
            &&& e.code == "broker_pin_mismatch"@ ==> next == StepView::Go(
                OpState { stage: Stage::PinRefresh, recovered: true, original: None },
            )
            &&& refused && !attempted ==> next == StepView::Go(
                OpState { stage: Stage::Reauthorization, recovered: true, original: Some(e) },
            )
            &&& refused && attempted || !refused && e.code != "broker_pin_mismatch"@ ==> next
                == StepView::Over(Err::<OkView, ErrorView>(e))
            &&& s.guard_after(EventView::WireFailed(e), attempted) == (attempted || refused)
        }),
{
    reveal_strlit("broker_pin_mismatch");
    reveal_strlit("access_paused");
    reveal_strlit("token_denied");
    assert("broker_pin_mismatch"@.len() == 19);
    assert("access_paused"@.len() == 13);
    assert("token_denied"@.len() == 12);
}

/// A refreshed operation starts over with a token, and is not recovered again.
pub proof fn a_refreshed_operation_starts_over(s: OpState, attempted: bool)
    ensures
        s.stepped(EventView::Refreshed, attempted) == StepView::Go(
            OpState { stage: Stage::Token, recovered: true, original: None },
        ),
        s.guard_after(EventView::Refreshed, attempted) == attempted,
        OpState::start() == (OpState { stage: Stage::Token, recovered: false, original: None }),
{
}

/// A token is renewed when that is forced, when there is none, when its expiry cannot be read,
/// and within two minutes of it; never before.
pub proof fn a_token_is_renewed_in_its_last_two_minutes(
    force: bool,
    token: Option<&str>,
    now: i64,
    due: bool,
)
    requires
        call_ensures(renewal_due, (force, token, now), due),
    ensures
        force || token is None ==> due,
        !force ==> (token matches Some(t) ==> match exp_of(t@) {
            None => due,
            Some(exp) => due <==> now > exp - 120,
        }),
{
}

/// The expiry of a token is the `exp` in the second of its parts, whether or not a third follows.
pub proof fn the_expiry_is_in_the_second_part(
    header: Seq<char>,
    payload: Seq<char>,
    signature: Seq<char>,
)
    requires
        !header.contains('.'),
        !payload.contains('.'),
    ensures
        exp_of(header + seq!['.'] + (payload + seq!['.'] + signature)) == match base64url_bytes(
            payload,
        ) {
            None => None,
            Some(b) => match json_slice(b) {
                None => None,
                Some(claims) => claims.integer_field("exp"@),
            },
        },
        exp_of(header + seq!['.'] + payload) == exp_of(
            header + seq!['.'] + (payload + seq!['.'] + signature),
        ),
        exp_of(header) is None,
{
    a_piece_is_split_off(header, '.', payload + seq!['.'] + signature);
    a_piece_is_split_off(header, '.', payload);
    a_piece_is_split_off(payload, '.', signature);
    assert(pieces(header + seq!['.'] + payload, '.')[1] == payload);
    let jws = header + seq!['.'] + (payload + seq!['.'] + signature);
    assert(pieces(jws, '.')[1] == payload);
    assert(pieces(jws, '.').len() >= 2);
}

} // verus!
