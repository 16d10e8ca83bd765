//! Login attempts against a scripted gateway, and what they come to.
//!
//! The gateway model answers registration with a fixed result and the poll
//! with index `k` with the `k`-th entry of a script (pending past its end).
//! Poll `k` takes the `k`-th entry of a list of latencies (no time past its
//! end); each wait lasts exactly what the session asked for.
use vstd::prelude::*;

use crate::auth::{next, AuthError, LoginAction, LoginEvent, LoginPhase, PollConfig};
use crate::model::TokenPollResponse;

verus! {

/// The answer to the poll with index `k`.
pub open spec fn scripted_answer(script: Seq<TokenPollResponse>, k: nat) -> TokenPollResponse {
    if k < script.len() {
        script[k as int]
    } else {
        TokenPollResponse::Pending
    }
}

/// The time the poll with index `k` takes.
pub open spec fn poll_latency(latency: Seq<nat>, k: nat) -> nat {
    if k < latency.len() {
        latency[k as int]
    } else {
        0
    }
}

/// A clock reading of `now`, saturating at the largest `u64`.
pub open spec fn clock_reading(now: nat) -> u64 {
    if now <= u64::MAX {
        now as u64
    } else {
        u64::MAX
    }
}

/// Carries out `action` and feeds the resulting events to the machine, for at
/// most `fuel` actions. Gives the result of `Finish` with the number of polls
/// sent and the time elapsed since polling began; `None` when the fuel runs
/// out or an event is ignored.
pub open spec fn scripted_run(
    phase: LoginPhase,
    config: PollConfig,
    action: LoginAction,
    registration: Result<(), String>,
    script: Seq<TokenPollResponse>,
    latency: Seq<nat>,
    polls: nat,
    now: nat,
    fuel: nat,
) -> Option<(Result<String, AuthError>, nat, nat)>
    decreases fuel,
{
    if fuel == 0 {
        None
    } else {
        match action {
            LoginAction::Finish(r) => Some((r, polls, now)),
            LoginAction::Ignore => None,
            LoginAction::Register => {
                let (p, a) = next(phase, config, LoginEvent::Registered(registration));
                scripted_run(p, config, a, registration, script, latency, polls, now, (fuel - 1) as nat)
            },
            LoginAction::Present => {
                let (p, a) = next(phase, config, LoginEvent::Clock(clock_reading(now)));
                scripted_run(p, config, a, registration, script, latency, polls, now, (fuel - 1) as nat)
            },
            LoginAction::Poll => {
                let answer = scripted_answer(script, polls);
                let later = (now + poll_latency(latency, polls)) as nat;
                let (p, a) = next(phase, config, LoginEvent::Polled(Ok(answer)));
                scripted_run(
                    p,
                    config,
                    a,
                    registration,
                    script,
                    latency,
                    polls + 1,
                    later,
                    (fuel - 1) as nat,
                )
            },
            LoginAction::Wait(d) => {
                let later = (now + d) as nat;
                let (p, a) = next(phase, config, LoginEvent::Clock(clock_reading(later)));
                scripted_run(p, config, a, registration, script, latency, polls, later, (fuel - 1) as nat)
            },
        }
    }
}

/// A whole attempt: a fresh session, whose first action is to register.
pub open spec fn scripted_login(
    config: PollConfig,
    registration: Result<(), String>,
    script: Seq<TokenPollResponse>,
    latency: Seq<nat>,
    fuel: nat,
) -> Option<(Result<String, AuthError>, nat, nat)> {
    scripted_run(
        LoginPhase::Registering,
        config,
        LoginAction::Register,
        registration,
        script,
        latency,
        0,
        0,
        fuel,
    )
}

/// The clock reading taken before the poll with index `k`, when every
/// earlier poll was answered pending: each earlier poll's latency plus one
/// interval.
pub open spec fn poll_start(config: PollConfig, latency: Seq<nat>, k: nat) -> nat
    decreases k,
{
    if k == 0 {
        0
    } else {
        (poll_start(config, latency, (k - 1) as nat) + poll_latency(latency, (k - 1) as nat)
            + config.interval_ms) as nat
    }
}

/// The run from the clock reading taken before poll `k`.
spec fn run_from_clock(
    config: PollConfig,
    registration: Result<(), String>,
    script: Seq<TokenPollResponse>,
    latency: Seq<nat>,
    k: nat,
    fuel: nat,
) -> Option<(Result<String, AuthError>, nat, nat)> {
    let now = poll_start(config, latency, k);
    let (p, a) = next(LoginPhase::AwaitingClock, config, LoginEvent::Clock(clock_reading(now)));
    scripted_run(p, config, a, registration, script, latency, k, now, fuel)
}

proof fn lemma_start(
    config: PollConfig,
    script: Seq<TokenPollResponse>,
    latency: Seq<nat>,
    fuel: nat,
)
    requires
        fuel >= 2,
    ensures
        scripted_login(config, Ok(()), script, latency, fuel) == run_from_clock(
            config,
            Ok(()),
            script,
            latency,
            0,
            (fuel - 2) as nat,
        ),
{
    reveal_with_fuel(scripted_run, 3);
    assert(poll_start(config, latency, 0) == 0);
}

/// Readings before later polls are later.
proof fn lemma_poll_start_grows(config: PollConfig, latency: Seq<nat>, j: nat, k: nat)
    requires
        j <= k,
    ensures
        poll_start(config, latency, j) + (k - j) * config.interval_ms <= poll_start(
            config,
            latency,
            k,
        ),
    decreases k - j,
{
    if j < k {
        lemma_poll_start_grows(config, latency, j, (k - 1) as nat);
        assert((k - 1 - j) * config.interval_ms + config.interval_ms == (k - j)
            * config.interval_ms) by (nonlinear_arith);
        assert(poll_start(config, latency, k) == poll_start(config, latency, (k - 1) as nat)
            + poll_latency(latency, (k - 1) as nat) + config.interval_ms);
    } else {
        assert((k - j) * config.interval_ms == 0) by (nonlinear_arith)
            requires
                k == j,
        ;
    }
}

/// A pending answer to a poll sent below the ceiling leads to the next reading.
proof fn lemma_one_pending(
    config: PollConfig,
    registration: Result<(), String>,
    script: Seq<TokenPollResponse>,
    latency: Seq<nat>,
    k: nat,
    fuel: nat,
)
    requires
        poll_start(config, latency, k) < config.ceiling_ms,
        scripted_answer(script, k) == TokenPollResponse::Pending,
        fuel >= 2,
    ensures
        run_from_clock(config, registration, script, latency, k, fuel) == run_from_clock(
            config,
            registration,
            script,
            latency,
            k + 1,
            (fuel - 2) as nat,
        ),
{
    let now = poll_start(config, latency, k);
    assert(clock_reading(now) == now);
    assert(poll_start(config, latency, k + 1) == now + poll_latency(latency, k)
        + config.interval_ms);
    reveal_with_fuel(scripted_run, 3);
}

/// Pending answers to polls `k` up to `n - 1`, all sent below the ceiling,
/// lead from the reading before poll `k` to the one before poll `n`.
proof fn lemma_pending_stretch(
    config: PollConfig,
    registration: Result<(), String>,
    script: Seq<TokenPollResponse>,
    latency: Seq<nat>,
    k: nat,
    n: nat,
    fuel: nat,
)
    requires
        k <= n,
        forall|j: nat| k <= j < n ==> poll_start(config, latency, j) < config.ceiling_ms,
        forall|j: nat| k <= j < n ==> scripted_answer(script, j) == TokenPollResponse::Pending,
        fuel >= 2 * (n - k),
    ensures
        run_from_clock(config, registration, script, latency, k, fuel) == run_from_clock(
            config,
            registration,
            script,
            latency,
            n,
            (fuel - 2 * (n - k)) as nat,
        ),
    decreases n - k,
{
    if k < n {
        lemma_one_pending(config, registration, script, latency, k, fuel);
        lemma_pending_stretch(config, registration, script, latency, k + 1, n, (fuel - 2) as nat);
    }
}

/// A gateway that answers pending `n` times and then issues token `t` yields
/// `t` after exactly `n + 1` polls, when the last of them starts below the
/// ceiling. The attempt ends when that poll returns.
pub proof fn lemma_pending_then_success(
    config: PollConfig,
    script: Seq<TokenPollResponse>,
    latency: Seq<nat>,
    t: String,
    n: nat,
    fuel: nat,
)
    requires
        config.wf(),
        script.len() == n + 1,
        forall|j: int| 0 <= j < n ==> script[j] == TokenPollResponse::Pending,
        script[n as int] == TokenPollResponse::Success(t),
        poll_start(config, latency, n) < config.ceiling_ms,
        fuel >= 2 * n + 4,
    ensures
        scripted_login(config, Ok(()), script, latency, fuel) == Some(
            (
                Ok::<String, AuthError>(t),
                n + 1,
                poll_start(config, latency, n) + poll_latency(latency, n),
            ),
        ),
{
    lemma_start(config, script, latency, fuel);
    assert forall|j: nat| 0 <= j < n implies poll_start(config, latency, j)
        < config.ceiling_ms by {
        lemma_poll_start_grows(config, latency, j, n);
    }
    assert forall|j: nat| 0 <= j < n implies scripted_answer(script, j)
        == TokenPollResponse::Pending by {
        assert(script[j as int] == TokenPollResponse::Pending);
    }
    lemma_pending_stretch(config, Ok(()), script, latency, 0, n, (fuel - 2) as nat);
    let now = poll_start(config, latency, n);
    assert(clock_reading(now) == now);
    assert(scripted_answer(script, n) == TokenPollResponse::Success(t));
    reveal_with_fuel(scripted_run, 3);
}

/// A reading below the ceiling comes before at most `ceiling / interval`
/// intervals have passed.
proof fn lemma_polls_below_ceiling(config: PollConfig, latency: Seq<nat>, j: nat)
    requires
        config.wf(),
        poll_start(config, latency, j) < config.ceiling_ms,
    ensures
        j <= config.ceiling_ms / config.interval_ms,
{
    let iv = config.interval_ms as int;
    let c = config.ceiling_ms as int;
    lemma_poll_start_grows(config, latency, 0, j);
    assert(poll_start(config, latency, 0) == 0);
    assert(j * iv < c);
    vstd::arithmetic::div_mod::lemma_fundamental_div_mod(c, iv);
    vstd::arithmetic::div_mod::lemma_mod_bound(c, iv);
    let q = c / iv;
    if j > q {
        assert(j * iv >= (q + 1) * iv) by (nonlinear_arith)
            requires
                j >= q + 1,
                iv > 0,
        ;
        assert((q + 1) * iv == iv * q + iv) by (nonlinear_arith);
    }
}

/// From the reading before poll `j`, a gateway that only answers pending
/// makes the attempt time out at the first reading at or past the ceiling.
proof fn lemma_pending_until_timeout(
    config: PollConfig,
    registration: Result<(), String>,
    script: Seq<TokenPollResponse>,
    latency: Seq<nat>,
    max_latency: nat,
    j: nat,
    fuel: nat,
) -> (k: nat)
    requires
        config.wf(),
        forall|i: int| 0 <= i < script.len() ==> script[i] == TokenPollResponse::Pending,
        forall|i: int| 0 <= i < latency.len() ==> latency[i] <= max_latency,
        j == 0 || poll_start(config, latency, (j - 1) as nat) < config.ceiling_ms,
        j <= config.ceiling_ms / config.interval_ms + 1,
        fuel >= 2 * (config.ceiling_ms / config.interval_ms + 1 - j) + 1,
    ensures
        j <= k,
        run_from_clock(config, registration, script, latency, j, fuel) == Some(
            (
                Err::<String, AuthError>(AuthError::AuthenticationTimedOut),
                k,
                poll_start(config, latency, k),
            ),
        ),
        config.ceiling_ms <= poll_start(config, latency, k),
        poll_start(config, latency, k) < config.ceiling_ms + config.interval_ms + max_latency,
        k == 0 || poll_start(config, latency, (k - 1) as nat) < config.ceiling_ms,
    decreases fuel,
{
    let now = poll_start(config, latency, j);
    if j > 0 {
        assert(now == poll_start(config, latency, (j - 1) as nat) + poll_latency(
            latency,
            (j - 1) as nat,
        ) + config.interval_ms);
        assert(poll_latency(latency, (j - 1) as nat) <= max_latency);
    }
    if now >= config.ceiling_ms {
        assert(clock_reading(now) >= config.ceiling_ms);
        j
    } else {
        lemma_polls_below_ceiling(config, latency, j);
        lemma_one_pending(config, registration, script, latency, j, fuel);
        lemma_pending_until_timeout(
            config,
            registration,
            script,
            latency,
            max_latency,
            j + 1,
            (fuel - 2) as nat,
        )
    }
}

/// A gateway that only answers pending makes the attempt time out after `k`
/// polls: at the first reading taken at or past the ceiling, which is less
/// than one interval plus one poll's latency past it.
pub proof fn lemma_always_pending_times_out(
    config: PollConfig,
    script: Seq<TokenPollResponse>,
    latency: Seq<nat>,
    max_latency: nat,
    fuel: nat,
) -> (k: nat)
    requires
        config.wf(),
        forall|i: int| 0 <= i < script.len() ==> script[i] == TokenPollResponse::Pending,
        forall|i: int| 0 <= i < latency.len() ==> latency[i] <= max_latency,
        fuel >= 2 * (config.ceiling_ms / config.interval_ms) + 5,
    ensures
        scripted_login(config, Ok(()), script, latency, fuel) == Some(
            (
                Err::<String, AuthError>(AuthError::AuthenticationTimedOut),
                k,
                poll_start(config, latency, k),
            ),
        ),
        config.ceiling_ms <= poll_start(config, latency, k),
        poll_start(config, latency, k) < config.ceiling_ms + config.interval_ms + max_latency,
        k == 0 || poll_start(config, latency, (k - 1) as nat) < config.ceiling_ms,
{
    lemma_start(config, script, latency, fuel);
    lemma_pending_until_timeout(config, Ok(()), script, latency, max_latency, 0, (fuel - 2) as nat)
}

/// A gateway that refuses the registration ends the attempt with
/// `RegistrationFailed`, carrying its message, before any poll.
pub proof fn lemma_registration_failure(
    config: PollConfig,
    message: String,
    script: Seq<TokenPollResponse>,
    latency: Seq<nat>,
    fuel: nat,
)
    requires
        fuel >= 2,
    ensures
        scripted_login(config, Err(message), script, latency, fuel) == Some(
            (Err::<String, AuthError>(AuthError::RegistrationFailed(message)), 0nat, 0nat),
        ),
{
    reveal_with_fuel(scripted_run, 3);
}

/// A gateway that rejects the first poll with `reason` ends the attempt with
/// `AuthenticationFailed(reason)` after exactly one poll, when the ceiling
/// leaves room for that poll.
pub proof fn lemma_failure_on_first_poll(
    config: PollConfig,
    script: Seq<TokenPollResponse>,
    latency: Seq<nat>,
    reason: String,
    fuel: nat,
)
    requires
        config.ceiling_ms > 0,
        script.len() >= 1,
        script[0] == TokenPollResponse::Failure(reason),
        fuel >= 4,
    ensures
        scripted_login(config, Ok(()), script, latency, fuel) == Some(
            (
                Err::<String, AuthError>(AuthError::AuthenticationFailed(reason)),
                1nat,
                poll_latency(latency, 0),
            ),
        ),
{
    lemma_start(config, script, latency, fuel);
    assert(poll_start(config, latency, 0) == 0);
    assert(scripted_answer(script, 0) == TokenPollResponse::Failure(reason));
    reveal_with_fuel(scripted_run, 3);
}

} // verus!
