//! Broker-side revocation enforcement: **check-at-use**.
//!
//! The broker performs a Secure-Enclave operation only for a grant it has confirmed live.
//! It confirms at the moment of an operation and leases that confirmation for a short
//! window, so that a burst of operations shares one check. This module is the decision core:
//! the query itself happens in the caller, which feeds the [`GrantStatusOutcome`] back.
//!
//! * **Lease.** After a confirm, serve without re-checking while the lease lasts.
//! * **Three answers, fail-closed.** `Live` refreshes the lease; a definitive `Revoked` cuts at
//!   once, with no grace; `Unreachable` is graced within `lease + outage_grace` of the last
//!   confirm, then fails closed.
//! * **Trusted time.** A token's expiry is held against the server's own time at the last
//!   confirm, advanced by the monotonic clock. A confirm never sets it back: it anchors no lower
//!   than the trusted time already reached, so no step of the server's clock revives a token.
//! * **Cold start.** With no confirm yet, every operation is refused until the first `Live`.

use vstd::prelude::*;

use crate::clock::{elapsed, max_ns, Moment, Span};
use crate::text::{decimal, to_decimal};

verus! {

/// The broker's own bounds on the revocation values a server may supply.
pub const LEASE_MIN_SECS: u64 = 5;

pub const LEASE_MAX_SECS: u64 = 120;

pub const OUTAGE_GRACE_MIN_SECS: u64 = 0;

pub const OUTAGE_GRACE_MAX_SECS: u64 = 600;

/// The check-at-use control values.
#[derive(Debug, Clone, Copy)]
pub struct LeaseConfig {
    /// How long a confirm is served on without re-checking.
    pub lease: Span,
    /// How much longer an unreachable server is tolerated on last-known-good.
    pub outage_grace: Span,
    /// The clock-skew tolerance on a token's expiry.
    pub token_skew: Span,
}

/// The control values in nanoseconds.
pub struct LeaseTimes {
    pub lease: nat,
    pub outage_grace: nat,
    pub token_skew: nat,
}

impl View for LeaseConfig {
    type V = LeaseTimes;

    open spec fn view(&self) -> LeaseTimes {
        LeaseTimes {
            lease: self.lease.ns(),
            outage_grace: self.outage_grace.ns(),
            token_skew: self.token_skew.ns(),
        }
    }
}

/// `n` brought into `lo ..= hi`.
pub open spec fn clamped(n: int, lo: int, hi: int) -> int {
    if n < lo {
        lo
    } else if n > hi {
        hi
    } else {
        n
    }
}

fn clamp_secs(n: i64, lo: u64, hi: u64) -> (r: u64)
    requires
        lo <= hi <= i64::MAX,
    ensures
        r == clamped(n as int, lo as int, hi as int),
{
    if n < 0 || (n as u64) < lo {
        lo
    } else if (n as u64) > hi {
        hi
    } else {
        n as u64
    }
}

impl LeaseTimes {
    /// How long after the last confirm an unreachable server is tolerated in all.
    pub open spec fn budget(self) -> nat {
        self.lease + self.outage_grace
    }

    /// The values that take effect when a server supplies these seconds: brought within the
    /// broker's bounds and adopted together where they fit in the budget, refused together
    /// where they do not. The token skew is never the server's to set.
    pub open spec fn with_server_values(
        self,
        lease_seconds: int,
        outage_grace_seconds: int,
    ) -> LeaseTimes {
        let lease = clamped(lease_seconds, LEASE_MIN_SECS as int, LEASE_MAX_SECS as int);
        let grace = clamped(
            outage_grace_seconds,
            OUTAGE_GRACE_MIN_SECS as int,
            OUTAGE_GRACE_MAX_SECS as int,
        );
        if (lease + grace) * 1_000_000_000 > self.budget() {
            self
        } else {
            LeaseTimes {
                lease: (lease * 1_000_000_000) as nat,
                outage_grace: (grace * 1_000_000_000) as nat,
                token_skew: self.token_skew,
            }
        }
    }

    /// What an operator is told when a server's values do not fit in the budget.
    pub open spec fn over_budget_notice(self, lease_seconds: int, outage_grace_seconds: int) -> Seq<
        char,
    > {
        let lease = clamped(lease_seconds, LEASE_MIN_SECS as int, LEASE_MAX_SECS as int);
        let grace = clamped(
            outage_grace_seconds,
            OUTAGE_GRACE_MIN_SECS as int,
            OUTAGE_GRACE_MAX_SECS as int,
        );
        "signet broker: server-supplied revocation SLA (lease "@ + decimal(lease as nat)
            + "s + grace "@ + decimal(grace as nat) + "s = "@ + decimal((lease + grace) as nat)
            + "s) exceeds this deployment's total budget of "@ + decimal(
            self.budget() / 1_000_000_000,
        ) + "s; keeping the compiled configuration (lease "@ + decimal(self.lease / 1_000_000_000)
            + "s + grace "@ + decimal(self.outage_grace / 1_000_000_000) + "s)"@
    }
}

impl LeaseConfig {
    /// Adopt server-supplied revocation values, clamped to the broker's own bounds.
    ///
    /// The invariant is the total `lease + outage_grace`, the longest a same-host attacker who
    /// blocks the check can delay the cut. A server may spend that budget as it likes; values
    /// that exceed it are refused whole, never trimmed.
    pub fn with_server_values(self, lease_seconds: i64, outage_grace_seconds: i64) -> (r: Self)
        requires
            self@.budget() <= max_ns(),
        ensures
            r@ == self@.with_server_values(lease_seconds as int, outage_grace_seconds as int),
    {
        let lease = Span::from_secs(clamp_secs(lease_seconds, LEASE_MIN_SECS, LEASE_MAX_SECS));
        let outage_grace = Span::from_secs(
            clamp_secs(outage_grace_seconds, OUTAGE_GRACE_MIN_SECS, OUTAGE_GRACE_MAX_SECS),
        );
        let budget = self.lease.plus(&self.outage_grace);
        if budget.less_than(&lease.plus(&outage_grace)) {
            return self;
        }
        LeaseConfig { lease, outage_grace, token_skew: self.token_skew }
    }

    /// The notice owed to the operator when these server values are refused as over budget.
    pub fn over_budget_notice(&self, lease_seconds: i64, outage_grace_seconds: i64) -> (r: Option<
        String,
    >)
        requires
            self@.budget() <= max_ns(),
        ensures
            ({
                let lease = clamped(
                    lease_seconds as int,
                    LEASE_MIN_SECS as int,
                    LEASE_MAX_SECS as int,
                );
                let grace = clamped(
                    outage_grace_seconds as int,
                    OUTAGE_GRACE_MIN_SECS as int,
                    OUTAGE_GRACE_MAX_SECS as int,
                );
                if (lease + grace) * 1_000_000_000 > self@.budget() {
                    r is Some && r->0@ == self@.over_budget_notice(
                        lease_seconds as int,
                        outage_grace_seconds as int,
                    )
                } else {
                    r is None
                }
            }),
    {
        let lease: u64 = clamp_secs(lease_seconds, LEASE_MIN_SECS, LEASE_MAX_SECS);
        let grace: u64 = clamp_secs(
            outage_grace_seconds,
            OUTAGE_GRACE_MIN_SECS,
            OUTAGE_GRACE_MAX_SECS,
        );
        let budget = self.lease.plus(&self.outage_grace);
        if !budget.less_than(&Span::from_secs(lease + grace)) {
            return None;
        }
        let mut m = "signet broker: server-supplied revocation SLA (lease ".to_owned();
        m.append(&to_decimal(lease));
        m.append("s + grace ");
        m.append(&to_decimal(grace));
        m.append("s = ");
        m.append(&to_decimal(lease + grace));
        m.append("s) exceeds this deployment's total budget of ");
        m.append(&to_decimal(budget.as_secs()));
        m.append("s; keeping the compiled configuration (lease ");
        m.append(&to_decimal(self.lease.as_secs()));
        m.append("s + grace ");
        m.append(&to_decimal(self.outage_grace.as_secs()));
        m.append("s)");
        Some(m)
    }
}

/// The revocation values as a server reported them, unclamped: what the peer said, which
/// becomes policy only through [`LeaseConfig::with_server_values`].
#[derive(Debug, Clone, Copy, PartialEq, Eq, Structural)]
pub struct ServerSla {
    pub lease_seconds: i64,
    pub outage_grace_seconds: i64,
}

/// The outcome of a grant-status query.
#[derive(Debug, Clone, Copy, PartialEq, Eq, Structural)]
pub enum GrantStatusOutcome {
    /// The server confirmed the grant. `server_time` is the trusted-time anchor (unix
    /// seconds); `sla` the revocation values, where the server supplied them.
    Live { server_time: i64, sla: Option<ServerSla> },
    /// A definitive "no": cut at once, without grace.
    Revoked,
    /// No usable answer; the only outcome that is graced.
    Unreachable,
}

impl GrantStatusOutcome {
    /// A `Live` outcome from a server that supplied no revocation values.
    pub fn live(server_time: i64) -> (r: Self)
        ensures
            r == (GrantStatusOutcome::Live { server_time, sla: None }),
    {
        GrantStatusOutcome::Live { server_time, sla: None }
    }

    /// A `Live` outcome carrying server-supplied revocation values.
    pub fn live_with_sla(server_time: i64, lease_seconds: i64, outage_grace_seconds: i64) -> (r:
        Self)
        ensures
            r == (GrantStatusOutcome::Live {
                server_time,
                sla: Some(ServerSla { lease_seconds, outage_grace_seconds }),
            }),
    {
        GrantStatusOutcome::Live {
            server_time,
            sla: Some(ServerSla { lease_seconds, outage_grace_seconds }),
        }
    }
}

/// Why an operation is refused.
#[derive(Debug, Clone, Copy, PartialEq, Eq, Structural)]
pub enum FailReason {
    /// The server answered a definitive `Revoked`.
    Revoked,
    /// The server is unreachable and the last-known-good window has passed, or there was none.
    Unreachable,
    /// The token expired against trusted time, beyond the skew.
    TokenExpired,
}

/// The decision for a single operation.
#[derive(Debug, Clone, Copy, PartialEq, Eq, Structural)]
pub enum Decision {
    /// Serve the operation.
    Serve,
    /// A fresh grant-status confirm is required first.
    ReconfirmRequired,
    /// Refuse the operation.
    FailClosed(FailReason),
}

/// The last successful confirm.
#[derive(Debug, Clone, Copy)]
struct Confirm {
    /// The trusted time at the confirm (unix seconds).
    server_time: i64,
    /// The monotonic point at which it was received.
    at: Moment,
}

/// Per-grant lease state.
#[derive(Debug, Clone)]
pub struct GrantLease {
    /// The last successful confirm; none when cold.
    last_confirm: Option<Confirm>,
    /// The trusted time at the last confirm (unix seconds), which is at or above every trusted
    /// time computed before it.
    trusted_floor: i64,
    /// The server-supplied values in force, already clamped; none while no server supplied any.
    server_sla: Option<LeaseConfig>,
}

/// What a confirm established: the trusted time then, and when it was received.
pub struct Anchor {
    pub server_time: int,
    pub at: nat,
}

/// The state of a [`GrantLease`], as mathematical values.
pub struct LeaseState {
    pub last_confirm: Option<Anchor>,
    pub trusted_floor: int,
    pub server_sla: Option<LeaseTimes>,
}

impl View for GrantLease {
    type V = LeaseState;

    closed spec fn view(&self) -> LeaseState {
        LeaseState {
            last_confirm: match self.last_confirm {
                Some(c) => Some(Anchor { server_time: c.server_time as int, at: c.at.ns() }),
                None => None,
            },
            trusted_floor: self.trusted_floor as int,
            server_sla: match self.server_sla {
                Some(c) => Some(c@),
                None => None,
            },
        }
    }
}

/// A sum held within the range of `i64`.
pub open spec fn saturated(n: int) -> int {
    clamped(n, i64::MIN as int, i64::MAX as int)
}

/// A count of seconds as a signed number, held at `i64::MAX`.
pub open spec fn signed_secs(secs: nat) -> int {
    if secs <= i64::MAX {
        secs as int
    } else {
        i64::MAX as int
    }
}

fn saturating_sum(a: i64, b: i64) -> (r: i64)
    ensures
        r == saturated(a + b),
{
    match a.checked_add(b) {
        Some(s) => s,
        None => if a < 0 {
            i64::MIN
        } else {
            i64::MAX
        },
    }
}

fn seconds_signed(s: &Span) -> (r: i64)
    ensures
        r == signed_secs(s.ns() / 1_000_000_000),
{
    let n: u64 = s.as_secs();
    if n <= 0x7fff_ffff_ffff_ffff {
        n as i64
    } else {
        i64::MAX
    }
}

impl LeaseState {
    /// The state before any confirm.
    pub open spec fn cold() -> LeaseState {
        LeaseState { last_confirm: None, trusted_floor: i64::MIN as int, server_sla: None }
    }

    /// The values in force: the server's once it supplied some, else the compiled ones.
    pub open spec fn effective(self, compiled: LeaseTimes) -> LeaseTimes {
        match self.server_sla {
            Some(t) => t,
            None => compiled,
        }
    }

    /// Trusted time `age` nanoseconds after a confirm at `server_time`: never below the floor.
    pub open spec fn trusted_time(self, server_time: int, age: nat) -> int {
        let advanced = saturated(server_time + signed_secs(age / 1_000_000_000));
        if advanced >= self.trusted_floor {
            advanced
        } else {
            self.trusted_floor
        }
    }

    /// Trusted time at `now`: what the last confirm and the monotonic clock give, never below
    /// the floor. With no confirm yet it is the floor.
    pub open spec fn trusted_at(self, now: nat) -> int {
        match self.last_confirm {
            Some(c) => self.trusted_time(c.server_time, elapsed(c.at, now)),
            None => self.trusted_floor,
        }
    }

    /// Whether the token is still good: serve unless it expired against trusted time by more
    /// than the skew.
    pub open spec fn token_decision(
        self,
        server_time: int,
        age: nat,
        token_exp: int,
        times: LeaseTimes,
    ) -> Decision {
        if saturated(token_exp + signed_secs(times.token_skew / 1_000_000_000))
            < self.trusted_time(server_time, age) {
            Decision::FailClosed(FailReason::TokenExpired)
        } else {
            Decision::Serve
        }
    }

    /// The decision for an operation at `now`.
    pub open spec fn decide(self, now: nat, token_exp: int, compiled: LeaseTimes) -> Decision {
        match self.last_confirm {
            None => Decision::ReconfirmRequired,
            Some(c) => {
                let times = self.effective(compiled);
                let age = elapsed(c.at, now);
                if age >= times.lease {
                    Decision::ReconfirmRequired
                } else {
                    self.token_decision(c.server_time, age, token_exp, times)
                }
            },
        }
    }

    /// The state after a grant-status outcome. Only `Live` changes it: it adopts the server's
    /// values where there are any, and anchors at the server's time or at the trusted time that
    /// was already reached, whichever is later. The floor rises to that anchor.
    pub open spec fn after(
        self,
        outcome: GrantStatusOutcome,
        now: nat,
        compiled: LeaseTimes,
    ) -> LeaseState {
        match outcome {
            GrantStatusOutcome::Live { server_time, sla } => {
                let reached = self.trusted_at(now);
                let anchored = if server_time >= reached {
                    server_time as int
                } else {
                    reached
                };
                LeaseState {
                    last_confirm: Some(Anchor { server_time: anchored, at: now }),
                    trusted_floor: anchored,
                    server_sla: match sla {
                        Some(s) => Some(
                            compiled.with_server_values(
                                s.lease_seconds as int,
                                s.outage_grace_seconds as int,
                            ),
                        ),
                        None => self.server_sla,
                    },
                }
            },
            _ => self,
        }
    }

    /// The decision once a grant-status outcome is in.
    pub open spec fn decide_on(
        self,
        outcome: GrantStatusOutcome,
        now: nat,
        token_exp: int,
        compiled: LeaseTimes,
    ) -> Decision {
        match outcome {
            GrantStatusOutcome::Live { .. } => {
                let s = self.after(outcome, now, compiled);
                s.token_decision(s.trusted_floor, 0, token_exp, s.effective(compiled))
            },
            GrantStatusOutcome::Revoked => Decision::FailClosed(FailReason::Revoked),
            GrantStatusOutcome::Unreachable => match self.last_confirm {
                Some(c) => {
                    let times = self.effective(compiled);
                    let age = elapsed(c.at, now);
                    if age < times.budget() {
                        self.token_decision(c.server_time, age, token_exp, times)
                    } else {
                        Decision::FailClosed(FailReason::Unreachable)
                    }
                },
                None => Decision::FailClosed(FailReason::Unreachable),
            },
        }
    }
}

impl Default for GrantLease {
    fn default() -> (r: Self)
        ensures
            r@ == LeaseState::cold(),
    {
        GrantLease::new()
    }
}

impl GrantLease {
    /// A fresh, cold lease: it refuses operations until the first `Live`.
    pub fn new() -> (r: Self)
        ensures
            r@ == LeaseState::cold(),
    {
        GrantLease { last_confirm: None, trusted_floor: i64::MIN, server_sla: None }
    }

    fn effective(&self, defaults: &LeaseConfig) -> (r: LeaseConfig)
        ensures
            r@ == self@.effective(defaults@),
    {
        match self.server_sla {
            Some(c) => c,
            None => *defaults,
        }
    }

    /// Decide for an operation at monotonic `now`, given the token's expiry (unix seconds).
    pub fn decide(&self, now: Moment, token_exp: i64, cfg: &LeaseConfig) -> (d: Decision)
        ensures
            d == self@.decide(now.ns(), token_exp as int, cfg@),
    {
        let times = self.effective(cfg);
        match self.last_confirm {
            None => Decision::ReconfirmRequired,
            Some(confirm) => {
                let age = now.saturating_since(&confirm.at);
                if !age.less_than(&times.lease) {
                    Decision::ReconfirmRequired
                } else {
                    self.token_exp_decision(confirm.server_time, age, token_exp, &times)
                }
            },
        }
    }

    /// Take in the grant-status outcome after a [`Decision::ReconfirmRequired`]: update the
    /// lease and give the final decision.
    pub fn on_grant_status(
        &mut self,
        outcome: GrantStatusOutcome,
        now: Moment,
        token_exp: i64,
        cfg: &LeaseConfig,
    ) -> (d: Decision)
        requires
            outcome matches GrantStatusOutcome::Live { sla: Some(_), .. } ==> cfg@.budget()
                <= max_ns(),
            outcome is Unreachable && old(self)@.last_confirm is Some ==> old(self)@.effective(
                cfg@,
            ).budget() <= max_ns(),
        ensures
            final(self)@ == old(self)@.after(outcome, now.ns(), cfg@),
            d == old(self)@.decide_on(outcome, now.ns(), token_exp as int, cfg@),
    {
        match outcome {
            GrantStatusOutcome::Live { server_time, sla } => {
                match sla {
                    Some(s) => {
                        self.server_sla = Some(
                            cfg.with_server_values(s.lease_seconds, s.outage_grace_seconds),
                        );
                    },
                    None => {},
                }
                let times = self.effective(cfg);
                let reached: i64 = self.trusted_at(now);
                let anchored: i64 = if server_time >= reached {
                    server_time
                } else {
                    reached
                };
                self.trusted_floor = anchored;
                self.last_confirm = Some(Confirm { server_time: anchored, at: now });
                self.token_exp_decision(anchored, Span::from_secs(0), token_exp, &times)
            },
            GrantStatusOutcome::Revoked => Decision::FailClosed(FailReason::Revoked),
            GrantStatusOutcome::Unreachable => {
                let times = self.effective(cfg);
                match self.last_confirm {
                    Some(confirm) => {
                        let age = now.saturating_since(&confirm.at);
                        if age.less_than(&times.lease.plus(&times.outage_grace)) {
                            self.token_exp_decision(confirm.server_time, age, token_exp, &times)
                        } else {
                            Decision::FailClosed(FailReason::Unreachable)
                        }
                    },
                    None => Decision::FailClosed(FailReason::Unreachable),
                }
            },
        }
    }

    fn trusted_time(&self, server_time: i64, age: &Span) -> (t: i64)
        ensures
            t == self@.trusted_time(server_time as int, age.ns()),
    {
        let advanced: i64 = saturating_sum(server_time, seconds_signed(age));
        if advanced >= self.trusted_floor {
            advanced
        } else {
            self.trusted_floor
        }
    }

    fn trusted_at(&self, now: Moment) -> (t: i64)
        ensures
            t == self@.trusted_at(now.ns()),
    {
        match self.last_confirm {
            Some(confirm) => {
                let age = now.saturating_since(&confirm.at);
                self.trusted_time(confirm.server_time, &age)
            },
            None => self.trusted_floor,
        }
    }

    fn token_exp_decision(
        &self,
        server_time: i64,
        age: Span,
        token_exp: i64,
        cfg: &LeaseConfig,
    ) -> (d: Decision)
        ensures
            d == self@.token_decision(server_time as int, age.ns(), token_exp as int, cfg@),
    {
        let trusted_now: i64 = self.trusted_time(server_time, &age);
        let skew: i64 = seconds_signed(&cfg.token_skew);
        if saturating_sum(token_exp, skew) < trusted_now {
            Decision::FailClosed(FailReason::TokenExpired)
        } else {
            Decision::Serve
        }
    }
}

/// A server's values never lengthen the total window and never touch the token skew.
pub proof fn server_values_stay_within_budget(compiled: LeaseTimes, lease: int, grace: int)
    ensures
        compiled.with_server_values(lease, grace).budget() <= compiled.budget(),
        compiled.with_server_values(lease, grace).token_skew == compiled.token_skew,
{
}

/// Once an outcome is in, the answer is final: it is never "confirm again".
pub proof fn an_outcome_settles_the_decision(
    s: LeaseState,
    outcome: GrantStatusOutcome,
    now: nat,
    token_exp: int,
    compiled: LeaseTimes,
)
    ensures
        s.decide_on(outcome, now, token_exp, compiled) != Decision::ReconfirmRequired,
{
}

/// A definitive "no" is cut at once, whatever was held before, and changes nothing.
pub proof fn revoked_is_never_graced(
    s: LeaseState,
    now: nat,
    token_exp: int,
    compiled: LeaseTimes,
)
    ensures
        s.decide_on(GrantStatusOutcome::Revoked, now, token_exp, compiled)
            == Decision::FailClosed(FailReason::Revoked),
        s.after(GrantStatusOutcome::Revoked, now, compiled) == s,
{
}

/// A grant-status exchange: the outcome, when it came in, and the compiled values then.
pub struct Exchange {
    pub outcome: GrantStatusOutcome,
    pub now: nat,
    pub compiled: LeaseTimes,
}

impl LeaseState {
    /// The state after a run of exchanges.
    pub open spec fn after_all(self, exchanges: Seq<Exchange>) -> LeaseState
        decreases exchanges.len(),
    {
        if exchanges.len() == 0 {
            self
        } else {
            let e = exchanges.last();
            self.after_all(exchanges.drop_last()).after(e.outcome, e.now, e.compiled)
        }
    }
}

/// The trusted-time floor only rises, whatever the server says.
pub proof fn trusted_floor_never_falls(s: LeaseState, exchanges: Seq<Exchange>)
    ensures
        s.after_all(exchanges).trusted_floor >= s.trusted_floor,
    decreases exchanges.len(),
{
    if exchanges.len() > 0 {
        trusted_floor_never_falls(s, exchanges.drop_last());
    }
}

/// Whether exchanges came in one after another, none before `from` and none after `to`.
pub open spec fn in_order(exchanges: Seq<Exchange>, from: nat, to: nat) -> bool
    decreases exchanges.len(),
{
    if exchanges.len() == 0 {
        from <= to
    } else {
        let e = exchanges.last();
        e.now <= to && in_order(exchanges.drop_last(), from, e.now)
    }
}

/// Trusted time never falls: whatever the server says meanwhile, it is later no lower than it
/// was computed before.
pub proof fn trusted_time_never_falls(s: LeaseState, exchanges: Seq<Exchange>, from: nat, to: nat)
    requires
        in_order(exchanges, from, to),
    ensures
        s.after_all(exchanges).trusted_at(to) >= s.trusted_at(from),
    decreases exchanges.len(),
{
    if exchanges.len() > 0 {
        let e = exchanges.last();
        let before = s.after_all(exchanges.drop_last());
        trusted_time_never_falls(s, exchanges.drop_last(), from, e.now);
        let after = before.after(e.outcome, e.now, e.compiled);
        assert(after.trusted_at(e.now) >= before.trusted_at(e.now));
        trusted_time_advances(after, e.now, to);
    } else {
        trusted_time_advances(s, from, to);
    }
}

proof fn trusted_time_advances(s: LeaseState, from: nat, to: nat)
    requires
        from <= to,
    ensures
        s.trusted_at(to) >= s.trusted_at(from),
{
    if s.last_confirm is Some {
        let at = s.last_confirm->0.at;
        assert(elapsed(at, from) <= elapsed(at, to));
        assert(elapsed(at, from) / 1_000_000_000 <= elapsed(at, to) / 1_000_000_000);
    }
}

/// What an operation was told: without a query where `outcome` is absent, else once that outcome
/// of a query was in.
pub open spec fn told(
    s: LeaseState,
    outcome: Option<GrantStatusOutcome>,
    now: nat,
    token_exp: int,
    compiled: LeaseTimes,
) -> Decision {
    match outcome {
        None => s.decide(now, token_exp, compiled),
        Some(o) => s.decide_on(o, now, token_exp, compiled),
    }
}

/// The state that [`told`] leaves.
pub open spec fn told_after(
    s: LeaseState,
    outcome: Option<GrantStatusOutcome>,
    now: nat,
    compiled: LeaseTimes,
) -> LeaseState {
    match outcome {
        None => s,
        Some(o) => s.after(o, now, compiled),
    }
}

/// A token once found expired is never served again, whatever the server answers later: neither
/// the host's wall clock, which plays no part, nor a step of the server's clock revives it. The
/// compiled token skew is the same throughout.
pub proof fn an_expired_token_is_never_revived(
    s: LeaseState,
    found: Option<GrantStatusOutcome>,
    earlier: nat,
    exchanges: Seq<Exchange>,
    outcome: Option<GrantStatusOutcome>,
    now: nat,
    token_exp: int,
    compiled: LeaseTimes,
)
    requires
        s.effective(compiled).token_skew == compiled.token_skew,
        forall|i: int|
            0 <= i < exchanges.len() ==> (#[trigger] exchanges[i]).compiled.token_skew
                == compiled.token_skew,
        in_order(exchanges, earlier, now),
        told(s, found, earlier, token_exp, compiled) == Decision::FailClosed(
            FailReason::TokenExpired,
        ),
    ensures
        told(
            told_after(s, found, earlier, compiled).after_all(exchanges),
            outcome,
            now,
            token_exp,
            compiled,
        ) != Decision::Serve,
{
    let t = told_after(s, found, earlier, compiled);
    let limit = saturated(token_exp + signed_secs(compiled.token_skew / 1_000_000_000));
    assert(limit < t.trusted_at(earlier));
    trusted_time_never_falls(t, exchanges, earlier, now);
    skew_is_kept(t, exchanges, compiled);
}

proof fn skew_is_kept(s: LeaseState, exchanges: Seq<Exchange>, compiled: LeaseTimes)
    requires
        s.effective(compiled).token_skew == compiled.token_skew,
        forall|i: int|
            0 <= i < exchanges.len() ==> (#[trigger] exchanges[i]).compiled.token_skew
                == compiled.token_skew,
    ensures
        s.after_all(exchanges).effective(compiled).token_skew == compiled.token_skew,
    decreases exchanges.len(),
{
    if exchanges.len() > 0 {
        assert forall|i: int| 0 <= i < exchanges.len() - 1 implies (
        #[trigger] exchanges.drop_last()[i]).compiled.token_skew == compiled.token_skew by {
            assert(exchanges.drop_last()[i] == exchanges[i]);
        }
        skew_is_kept(s, exchanges.drop_last(), compiled);
        assert(exchanges.last().compiled.token_skew == compiled.token_skew);
    }
}

/// Without a single `Live` the lease stays cold, and a cold lease serves nothing.
pub proof fn cold_until_first_live(
    exchanges: Seq<Exchange>,
    now: nat,
    token_exp: int,
    compiled: LeaseTimes,
)
    requires
        forall|i: int|
            0 <= i < exchanges.len() ==> !((#[trigger] exchanges[i]).outcome is Live),
    ensures
        LeaseState::cold().after_all(exchanges) == LeaseState::cold(),
        LeaseState::cold().after_all(exchanges).decide(now, token_exp, compiled)
            == Decision::ReconfirmRequired,
        LeaseState::cold().after_all(exchanges).decide_on(
            GrantStatusOutcome::Unreachable,
            now,
            token_exp,
            compiled,
        ) == Decision::FailClosed(FailReason::Unreachable),
    decreases exchanges.len(),
{
    if exchanges.len() > 0 {
        assert forall|i: int| 0 <= i < exchanges.len() - 1 implies !((
        #[trigger] exchanges.drop_last()[i]).outcome is Live) by {
            assert(exchanges.drop_last()[i] == exchanges[i]);
        }
        cold_until_first_live(exchanges.drop_last(), now, token_exp, compiled);
        assert(!(exchanges.last().outcome is Live));
    }
}

/// An operation is served only within the lease of the last confirm, or, with the server out
/// of reach, within the whole window; with unchanging compiled values that window never
/// exceeds the compiled budget.
pub proof fn served_only_within_the_window(
    exchanges: Seq<Exchange>,
    now: nat,
    token_exp: int,
    compiled: LeaseTimes,
)
    requires
        forall|i: int|
            0 <= i < exchanges.len() ==> (#[trigger] exchanges[i]).compiled == compiled,
    ensures
        ({
            let s = LeaseState::cold().after_all(exchanges);
            &&& s.effective(compiled).budget() <= compiled.budget()
            &&& s.effective(compiled).token_skew == compiled.token_skew
            &&& s.decide(now, token_exp, compiled) == Decision::Serve ==> s.last_confirm is Some
                && elapsed(s.last_confirm->0.at, now) < s.effective(compiled).lease
            &&& s.decide_on(GrantStatusOutcome::Unreachable, now, token_exp, compiled)
                == Decision::Serve ==> s.last_confirm is Some && elapsed(
                s.last_confirm->0.at,
                now,
            ) < compiled.budget()
        }),
    decreases exchanges.len(),
{
    if exchanges.len() > 0 {
        assert forall|i: int| 0 <= i < exchanges.len() - 1 implies (
        #[trigger] exchanges.drop_last()[i]).compiled == compiled by {
            assert(exchanges.drop_last()[i] == exchanges[i]);
        }
        served_only_within_the_window(exchanges.drop_last(), now, token_exp, compiled);
        assert(exchanges.last().compiled == compiled);
    }
}

/// A `Live` answer without revocation values leaves the values in force as they were.
pub proof fn absent_values_change_nothing(
    s: LeaseState,
    server_time: i64,
    now: nat,
    compiled: LeaseTimes,
)
    ensures
        s.after(GrantStatusOutcome::Live { server_time, sla: None }, now, compiled).server_sla
            == s.server_sla,
{
}

/// With the server out of reach, an operation is let through to the check of its token if, and
/// only if, less time has passed since the last confirm than the lease and the outage grace that
/// are in force allow together: the server's once it supplied some, the compiled ones until then.
pub proof fn an_outage_is_graced_by_the_values_in_force(
    s: LeaseState,
    now: nat,
    token_exp: int,
    compiled: LeaseTimes,
)
    ensures
        ({
            let d = s.decide_on(GrantStatusOutcome::Unreachable, now, token_exp, compiled);
            let in_force = if s.server_sla is Some {
                s.server_sla->0
            } else {
                compiled
            };
            let graced = s.last_confirm is Some && now < s.last_confirm->0.at + in_force.lease
                + in_force.outage_grace && in_force.lease + in_force.outage_grace > 0;
            &&& d == Decision::Serve ==> graced
            &&& graced ==> d == Decision::Serve || d == Decision::FailClosed(
                FailReason::TokenExpired,
            )
            &&& !graced ==> d == Decision::FailClosed(FailReason::Unreachable)
            &&& s.after(GrantStatusOutcome::Unreachable, now, compiled) == s
        }),
{
}

/// Server values outside the broker's bounds, 5 to 120 seconds of lease and none to 600 seconds
/// of grace, count as the nearest ones inside. Inside they take effect exactly as they are where
/// both together fit in the compiled window, and not at all where they do not.
pub proof fn server_values_take_effect_whole_or_not_at_all(
    compiled: LeaseTimes,
    lease: int,
    grace: int,
)
    ensures
        ({
            let r = compiled.with_server_values(lease, grace);
            &&& lease < 5 ==> r == compiled.with_server_values(5, grace)
            &&& lease > 120 ==> r == compiled.with_server_values(120, grace)
            &&& grace < 0 ==> r == compiled.with_server_values(lease, 0)
            &&& grace > 600 ==> r == compiled.with_server_values(lease, 600)
            &&& 5 <= lease <= 120 && 0 <= grace <= 600 ==> if (lease + grace) * 1_000_000_000
                <= compiled.lease + compiled.outage_grace {
                r.lease == lease * 1_000_000_000 && r.outage_grace == grace * 1_000_000_000
                    && r.token_skew == compiled.token_skew
            } else {
                r == compiled
            }
        }),
{
}

/// A confirm at the moment `at` is good for as long as the values in force from then on say. It
/// anchors trusted time at `t`, the server's time or the trusted time already reached, whichever
/// is later, and trusted time runs on from there second by second. Until the lease is over an
/// operation is served unless its token has expired by more than the skew; after that it needs a
/// new confirm, and is served without one, the server being out of reach, for the outage grace
/// beyond the lease and no longer. No sum here leaves the range of `i64`.
pub proof fn a_confirm_is_good_for_its_window(
    s: LeaseState,
    server_time: i64,
    sla: Option<ServerSla>,
    at: nat,
    now: nat,
    token_exp: int,
    compiled: LeaseTimes,
    in_force: LeaseTimes,
    t: int,
)
    requires
        at <= now,
        t == server_time >= s.trusted_at(at) || t == s.trusted_at(at) >= server_time,
        i64::MIN <= t,
        (now - at) / 1_000_000_000 <= i64::MAX,
        t + (now - at) / 1_000_000_000 <= i64::MAX,
        i64::MIN <= token_exp,
        token_exp + in_force.token_skew / 1_000_000_000 <= i64::MAX,
        in_force.token_skew / 1_000_000_000 <= i64::MAX,
        match sla {
            Some(x) => in_force == compiled.with_server_values(
                x.lease_seconds as int,
                x.outage_grace_seconds as int,
            ),
            None => in_force == if s.server_sla is Some {
                s.server_sla->0
            } else {
                compiled
            },
        },
    ensures
        ({
            let live = GrantStatusOutcome::Live { server_time, sla };
            let after = s.after(live, at, compiled);
            let good = t + (now - at) / 1_000_000_000 <= token_exp + in_force.token_skew
                / 1_000_000_000;
            let by_token = if good {
                Decision::Serve
            } else {
                Decision::FailClosed(FailReason::TokenExpired)
            };
            &&& after.trusted_at(now) == t + (now - at) / 1_000_000_000
            &&& after.decide(now, token_exp, compiled) == if now - at < in_force.lease {
                by_token
            } else {
                Decision::ReconfirmRequired
            }
            &&& after.decide_on(GrantStatusOutcome::Unreachable, now, token_exp, compiled)
                == if now - at < in_force.lease + in_force.outage_grace {
                by_token
            } else {
                Decision::FailClosed(FailReason::Unreachable)
            }
            &&& now == at ==> s.decide_on(live, at, token_exp, compiled) == by_token
        }),
{
    let after = s.after(GrantStatusOutcome::Live { server_time, sla }, at, compiled);
    assert(elapsed(at, now) / 1_000_000_000 == (now - at) / 1_000_000_000);
    assert(after.last_confirm == Some(Anchor { server_time: t, at }));
    assert(after.effective(compiled) == in_force);
    assert(after.trusted_time(t, elapsed(at, now)) == t + (now - at) / 1_000_000_000);
    assert(after.trusted_time(t, 0) == t);
}

/// An operator is told of a refusal exactly where a server's values are refused: where nothing is
/// said, the lease and the grace in force are the server's, brought within the bounds; where
/// something is, they are the compiled ones.
pub proof fn a_refusal_of_server_values_is_told(
    cfg: &LeaseConfig,
    lease_seconds: i64,
    outage_grace_seconds: i64,
    notice: Option<String>,
    in_force: LeaseConfig,
)
    requires
        call_ensures(
            LeaseConfig::over_budget_notice,
            (cfg, lease_seconds, outage_grace_seconds),
            notice,
        ),
        call_ensures(
            LeaseConfig::with_server_values,
            (*cfg, lease_seconds, outage_grace_seconds),
            in_force,
        ),
    ensures
        notice is Some ==> in_force@ == cfg@,
        notice is None ==> {
            &&& 5_000_000_000 <= in_force@.lease <= 120_000_000_000
            &&& in_force@.outage_grace <= 600_000_000_000
            &&& 5 <= lease_seconds <= 120 ==> in_force@.lease == lease_seconds * 1_000_000_000
            &&& 0 <= outage_grace_seconds <= 600 ==> in_force@.outage_grace == outage_grace_seconds
                * 1_000_000_000
        },
{
}

/// At the ends of the range nothing wraps: a token whose expiry, with the skew, reaches the
/// latest representable second is never found expired, and trusted time that would pass that
/// second stays there.
pub proof fn nothing_wraps_at_the_end_of_time(
    s: LeaseState,
    now: nat,
    token_exp: int,
    compiled: LeaseTimes,
)
    requires
        s.last_confirm is Some,
        i64::MIN <= s.last_confirm->0.server_time <= i64::MAX,
        s.trusted_floor <= i64::MAX,
        0 <= token_exp <= i64::MAX,
    ensures
        ({
            let in_force = if s.server_sla is Some {
                s.server_sla->0
            } else {
                compiled
            };
            let secs = if now >= s.last_confirm->0.at {
                (now - s.last_confirm->0.at) / 1_000_000_000
            } else {
                0int
            };
            &&& token_exp + in_force.token_skew / 1_000_000_000 >= i64::MAX ==> s.decide(
                now,
                token_exp,
                compiled,
            ) != Decision::FailClosed(FailReason::TokenExpired)
            &&& 0 <= s.last_confirm->0.server_time && s.last_confirm->0.server_time + secs
                >= i64::MAX ==> s.trusted_at(now) == i64::MAX
            &&& s.trusted_at(now) <= i64::MAX
        }),
{
}

/// The notice of a refusal gives the values that the server asked for, their sum, and the
/// compiled ones that stay in force, all in seconds.
pub proof fn a_refusal_gives_both_sets_of_values(
    cfg: &LeaseConfig,
    lease_seconds: i64,
    outage_grace_seconds: i64,
    own_lease: nat,
    own_grace: nat,
    notice: Option<String>,
)
    requires
        5 <= lease_seconds <= 120,
        0 <= outage_grace_seconds <= 600,
        cfg@.lease == own_lease * 1_000_000_000,
        cfg@.outage_grace == own_grace * 1_000_000_000,
        call_ensures(
            LeaseConfig::over_budget_notice,
            (cfg, lease_seconds, outage_grace_seconds),
            notice,
        ),
    ensures
        notice is Some <==> lease_seconds + outage_grace_seconds > own_lease + own_grace,
        notice matches Some(text) ==> text@
            == "signet broker: server-supplied revocation SLA (lease "@ + decimal(
            lease_seconds as nat,
        ) + "s + grace "@ + decimal(outage_grace_seconds as nat) + "s = "@ + decimal(
            (lease_seconds + outage_grace_seconds) as nat,
        ) + "s) exceeds this deployment's total budget of "@ + decimal(own_lease + own_grace)
            + "s; keeping the compiled configuration (lease "@ + decimal(own_lease)
            + "s + grace "@ + decimal(own_grace) + "s)"@,
{
    assert(cfg@.budget() == (own_lease + own_grace) * 1_000_000_000);
    assert(cfg@.budget() / 1_000_000_000 == own_lease + own_grace);
    assert(cfg@.lease / 1_000_000_000 == own_lease);
    assert(cfg@.outage_grace / 1_000_000_000 == own_grace);
}

} // verus!
