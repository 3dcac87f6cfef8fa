//! The check-at-use lease: what is served, what must be confirmed, and what fails closed.

use signet_cli::clock::{Moment, Span};
use signet_cli::garnet_revocation::{
    Decision, FailReason, GrantLease, GrantStatusOutcome, LeaseConfig, LEASE_MIN_SECS,
    OUTAGE_GRACE_MIN_SECS,
};

const T0: i64 = 1_750_000_000;
const TOKEN_EXP: i64 = T0 + 10_000;

fn cfg() -> LeaseConfig {
    LeaseConfig {
        lease: Span::from_secs(30),
        outage_grace: Span::from_secs(90),
        token_skew: Span::from_secs(30),
    }
}
fn base() -> Moment {
    Moment { since_origin: Span::from_secs(1_000_000) }
}

fn after(base: Moment, secs: u64) -> Moment {
    base.after(Span::from_secs(secs))
}

#[test]
fn cold_decide_requires_a_confirm() {
    let lease = GrantLease::new();
    assert_eq!(
        lease.decide(base(), TOKEN_EXP, &cfg()),
        Decision::ReconfirmRequired
    );
}

#[test]
fn cold_plus_unreachable_fails_closed() {
    let mut lease = GrantLease::new();
    let d = lease.on_grant_status(GrantStatusOutcome::Unreachable, base(), TOKEN_EXP, &cfg());
    assert_eq!(d, Decision::FailClosed(FailReason::Unreachable));
}

#[test]
fn live_confirm_serves() {
    let mut lease = GrantLease::new();
    let d = lease.on_grant_status(GrantStatusOutcome::live(T0), base(), TOKEN_EXP, &cfg());
    assert_eq!(d, Decision::Serve);
}

#[test]
fn lease_is_honored_then_requires_reconfirm() {
    let b = base();
    let mut lease = GrantLease::new();
    lease.on_grant_status(GrantStatusOutcome::live(T0), b, TOKEN_EXP, &cfg());
    assert_eq!(
        lease.decide(after(b, 5), TOKEN_EXP, &cfg()),
        Decision::Serve
    );
    assert_eq!(
        lease.decide(after(b, 29), TOKEN_EXP, &cfg()),
        Decision::Serve
    );
    assert_eq!(
        lease.decide(after(b, 30), TOKEN_EXP, &cfg()),
        Decision::ReconfirmRequired
    );
    assert_eq!(
        lease.decide(after(b, 120), TOKEN_EXP, &cfg()),
        Decision::ReconfirmRequired
    );
}

#[test]
fn revoked_is_immediate_fail_closed_even_within_grace() {
    let b = base();
    let mut lease = GrantLease::new();
    lease.on_grant_status(GrantStatusOutcome::live(T0), b, TOKEN_EXP, &cfg());
    let d = lease.on_grant_status(GrantStatusOutcome::Revoked, after(b, 10), TOKEN_EXP, &cfg());
    assert_eq!(d, Decision::FailClosed(FailReason::Revoked));
}

#[test]
fn unreachable_within_grace_serves_on_last_known_good() {
    let b = base();
    let mut lease = GrantLease::new();
    lease.on_grant_status(GrantStatusOutcome::live(T0), b, TOKEN_EXP, &cfg());
    let d = lease.on_grant_status(
        GrantStatusOutcome::Unreachable,
        after(b, 100),
        TOKEN_EXP,
        &cfg(),
    );
    assert_eq!(d, Decision::Serve);
}

#[test]
fn unreachable_past_grace_fails_closed() {
    let b = base();
    let mut lease = GrantLease::new();
    lease.on_grant_status(GrantStatusOutcome::live(T0), b, TOKEN_EXP, &cfg());
    let d = lease.on_grant_status(
        GrantStatusOutcome::Unreachable,
        after(b, 121),
        TOKEN_EXP,
        &cfg(),
    );
    assert_eq!(d, Decision::FailClosed(FailReason::Unreachable));
}

#[test]
fn unreachable_grace_boundary_is_exact() {
    let b = base();
    let mut lease = GrantLease::new();
    lease.on_grant_status(GrantStatusOutcome::live(T0), b, TOKEN_EXP, &cfg());
    assert_eq!(
        lease.on_grant_status(
            GrantStatusOutcome::Unreachable,
            after(b, 120),
            TOKEN_EXP,
            &cfg()
        ),
        Decision::FailClosed(FailReason::Unreachable)
    );
}

#[test]
fn token_expired_against_trusted_time_fails_closed() {
    let b = base();
    let mut lease = GrantLease::new();
    let expired = T0 - 100;
    let d = lease.on_grant_status(GrantStatusOutcome::live(T0), b, expired, &cfg());
    assert_eq!(d, Decision::FailClosed(FailReason::TokenExpired));
}

#[test]
fn token_within_skew_still_serves() {
    let b = base();
    let mut lease = GrantLease::new();
    let d = lease.on_grant_status(GrantStatusOutcome::live(T0 + 10), b, T0, &cfg());
    assert_eq!(d, Decision::Serve);
}

#[test]
fn token_expires_as_trusted_time_advances_by_monotonic_age() {
    let b = base();
    let mut lease = GrantLease::new();
    let exp = T0 + 5;
    lease.on_grant_status(GrantStatusOutcome::live(T0), b, exp, &cfg());
    assert_eq!(lease.decide(after(b, 29), exp, &cfg()), Decision::Serve);
    let mut lease2 = GrantLease::new();
    lease2.on_grant_status(GrantStatusOutcome::live(T0 + 100), b, exp, &cfg());
    assert_eq!(
        lease2.decide(after(b, 1), exp, &cfg()),
        Decision::FailClosed(FailReason::TokenExpired)
    );
}

#[test]
fn server_clock_regression_cannot_move_trusted_time_backward() {
    let b = base();
    let mut lease = GrantLease::new();
    lease.on_grant_status(GrantStatusOutcome::live(T0 + 1_000), b, TOKEN_EXP, &cfg());
    let stale_exp = T0 + 500;
    let d = lease.on_grant_status(
        GrantStatusOutcome::live(T0),
        after(b, 40),
        stale_exp,
        &cfg(),
    );
    assert_eq!(d, Decision::FailClosed(FailReason::TokenExpired));
}

#[test]
fn a_server_clock_step_cannot_revive_an_expired_token() {
    let b = base();
    let exp = T0 - 20;
    let expired = Decision::FailClosed(FailReason::TokenExpired);
    let mut lease = GrantLease::new();
    lease.on_grant_status(GrantStatusOutcome::live(T0), b, exp, &cfg());
    assert_eq!(lease.decide(after(b, 10), exp, &cfg()), Decision::Serve);
    assert_eq!(lease.decide(after(b, 20), exp, &cfg()), expired);
    let again = lease.on_grant_status(GrantStatusOutcome::live(T0), after(b, 40), exp, &cfg());
    assert_eq!(again, expired);
    assert_eq!(lease.decide(after(b, 41), exp, &cfg()), expired);
    let out = lease.on_grant_status(GrantStatusOutcome::Unreachable, after(b, 80), exp, &cfg());
    assert_eq!(out, expired);
    let back = lease.on_grant_status(GrantStatusOutcome::live(T0 - 500), after(b, 90), exp, &cfg());
    assert_eq!(back, expired);
}

#[test]
fn trusted_time_and_skew_saturate() {
    let b = base();
    let endless = LeaseConfig { token_skew: Span::from_secs(u64::MAX), ..cfg() };
    let mut lease = GrantLease::new();
    let d = lease.on_grant_status(GrantStatusOutcome::live(T0), b, 0, &endless);
    assert_eq!(d, Decision::Serve);
    let boundless = LeaseConfig { lease: Span::from_secs(u64::MAX), ..cfg() };
    let far = Moment { since_origin: Span::from_secs(u64::MAX - 1) };
    let mut lease = GrantLease::new();
    lease.on_grant_status(GrantStatusOutcome::live(T0), b, TOKEN_EXP, &boundless);
    assert_eq!(
        lease.decide(far, TOKEN_EXP, &boundless),
        Decision::FailClosed(FailReason::TokenExpired)
    );
    let mut cold = GrantLease::new();
    let d = cold.on_grant_status(GrantStatusOutcome::Unreachable, b, TOKEN_EXP, &boundless);
    assert_eq!(d, Decision::FailClosed(FailReason::Unreachable));
}

#[test]
fn server_supplied_lease_is_adopted_and_tightens_the_revocation_bound() {
    let b = base();
    let mut lease = GrantLease::new();
    lease.on_grant_status(
        GrantStatusOutcome::live_with_sla(T0, 10, 90),
        b,
        TOKEN_EXP,
        &cfg(),
    );
    assert_eq!(
        lease.decide(after(b, 20), TOKEN_EXP, &cfg()),
        Decision::ReconfirmRequired
    );
    let mut default_lease = GrantLease::new();
    default_lease.on_grant_status(GrantStatusOutcome::live(T0), b, TOKEN_EXP, &cfg());
    assert_eq!(
        default_lease.decide(after(b, 20), TOKEN_EXP, &cfg()),
        Decision::Serve
    );
}

#[test]
fn server_supplied_outage_grace_is_adopted() {
    let b = base();
    let mut lease = GrantLease::new();
    lease.on_grant_status(
        GrantStatusOutcome::live_with_sla(T0, 30, 0),
        b,
        TOKEN_EXP,
        &cfg(),
    );
    let d = lease.on_grant_status(
        GrantStatusOutcome::Unreachable,
        after(b, 40),
        TOKEN_EXP,
        &cfg(),
    );
    assert_eq!(d, Decision::FailClosed(FailReason::Unreachable));
}

#[test]
fn a_server_supplied_lease_can_never_widen_the_compiled_bound() {
    let b = base();
    let mut lease = GrantLease::new();
    lease.on_grant_status(
        GrantStatusOutcome::live_with_sla(T0, 86_400, 86_400),
        b,
        TOKEN_EXP,
        &cfg(),
    );
    assert_eq!(
        lease.decide(after(b, 29), TOKEN_EXP, &cfg()),
        Decision::Serve
    );
    assert_eq!(
        lease.decide(after(b, 30), TOKEN_EXP, &cfg()),
        Decision::ReconfirmRequired
    );
}

#[test]
fn a_zero_lease_deployment_re_confirms_on_every_op() {
    let b = base();
    let zero = LeaseConfig {
        lease: Span::from_secs(0),
        outage_grace: Span::from_secs(90),
        token_skew: Span::from_secs(30),
    };
    let mut lease = GrantLease::new();
    lease.on_grant_status(
        GrantStatusOutcome::live_with_sla(T0, 30, 90),
        b,
        TOKEN_EXP,
        &zero,
    );
    assert_eq!(
        lease.decide(b, TOKEN_EXP, &zero),
        Decision::ReconfirmRequired
    );
}

#[test]
fn an_operator_may_reallocate_the_budget_and_it_reaches_the_enforcer() {
    let c = cfg().with_server_values(120, 0);
    assert_eq!(
        c.lease,
        Span::from_secs(120)
    );
    assert_eq!(c.outage_grace, Span::from_secs(0));
    assert_eq!(
        c.lease.plus(&c.outage_grace),
        cfg().lease.plus(&cfg().outage_grace)
    );
    let c = cfg().with_server_values(5, 115);
    assert_eq!(c.lease, Span::from_secs(5));
    assert_eq!(c.outage_grace, Span::from_secs(115));
}

#[test]
fn an_over_budget_allocation_is_refused_whole_not_trimmed() {
    let c = cfg().with_server_values(120, 600);
    assert_eq!(
        c.lease,
        cfg().lease
    );
    assert_eq!(c.outage_grace, cfg().outage_grace);
}

#[test]
fn absurd_or_negative_server_values_cannot_widen_the_window() {
    let c = cfg().with_server_values(-1, -1);
    assert_eq!(c.lease, Span::from_secs(LEASE_MIN_SECS));
    assert_eq!(c.outage_grace, Span::from_secs(OUTAGE_GRACE_MIN_SECS));
    let c = cfg().with_server_values(i64::MIN, i64::MIN);
    assert_eq!(c.lease, Span::from_secs(LEASE_MIN_SECS));
    let c = cfg().with_server_values(i64::MAX, i64::MAX);
    assert_eq!(c.lease, cfg().lease);
    assert_eq!(c.outage_grace, cfg().outage_grace);
}

#[test]
fn token_skew_is_not_server_controlled() {
    let c = cfg().with_server_values(60, 120);
    assert_eq!(c.token_skew, cfg().token_skew);
}

#[test]
fn an_absent_sla_leaves_the_compiled_defaults_in_force() {
    let b = base();
    let mut lease = GrantLease::new();
    lease.on_grant_status(GrantStatusOutcome::live(T0), b, TOKEN_EXP, &cfg());
    assert_eq!(
        lease.decide(after(b, 20), TOKEN_EXP, &cfg()),
        Decision::Serve
    );
}

#[test]
fn a_later_absent_sla_cannot_widen_an_already_tightened_window() {
    let b = base();
    let mut lease = GrantLease::new();
    lease.on_grant_status(
        GrantStatusOutcome::live_with_sla(T0, 10, 90),
        b,
        TOKEN_EXP,
        &cfg(),
    );
    lease.on_grant_status(
        GrantStatusOutcome::live(T0 + 1),
        after(b, 1),
        TOKEN_EXP,
        &cfg(),
    );
    assert_eq!(
        lease.decide(after(b, 20), TOKEN_EXP, &cfg()),
        Decision::ReconfirmRequired
    );
}
