//! Fetch engine: a state machine that orchestrates repeated attempts of one
//! network operation, reacting to classified failures with the backoff
//! policy until it reaches a terminal success or failure.
//!
//! The engine owns no I/O. The surrounding code performs one transfer per
//! `Attempting` state, hands the outcome to `on_outcome`, sleeps for the
//! seconds a `Waiting` state names, and wakes the engine with `on_wake`.

use vstd::pervasive::unreached;
use vstd::prelude::*;

use crate::backoff::{
    cap_decision, compute_backoff_secs, spec_backoff_secs, spec_cap_decision, RetryDecision,
    MAX_RETRY_SLEEP_SECS,
};
use crate::classify::FailureClass;

verus! {

/// One fetch operation, fully described before any I/O happens.
pub struct FetchRequest {
    /// Where the resource is fetched from.
    pub url: String,
    /// Where the payload is published.
    pub destination: String,
    /// Attempt budget; zero is rejected before any I/O.
    pub max_attempts: u32,
    /// Base retry delay in seconds; values below 1 are raised to 1.
    pub base_delay_secs: u64,
}

/// What one attempt produced. Produced fresh per attempt; never persisted.
pub enum AttemptOutcome {
    /// The transfer and the publish both finished; the payload is the bytes received.
    Success(Vec<u8>),
    /// The attempt failed, already classified.
    Failure { class: FailureClass, message: String, retryable: bool },
}

/// Why the engine will not retry further.
#[derive(Clone, Copy, Debug, PartialEq, Eq, Structural)]
pub enum StopReason {
    /// The classifier marked the failure terminal.
    NonRetryable,
    /// The attempt budget ran out; no further sleep is issued.
    AttemptsExhausted,
    /// The cap-interaction rule stopped an HTTP-status retry streak.
    BackoffCapReached,
}

/// Final result of a fetch operation that did not succeed.
#[derive(Clone, Copy, Debug, PartialEq, Eq, Structural)]
pub enum FetchError {
    /// Zero attempts were requested: refused, not treated as success.
    Configuration,
    /// The engine stopped on this failure for this reason.
    Terminal(StopReason, FailureClass),
}

/// Where the engine stands between calls.
#[derive(Clone, Copy, Debug, PartialEq, Eq, Structural)]
pub enum EngineState {
    /// Attempt `attempt` (1-based) should be performed now.
    Attempting { attempt: u32 },
    /// Sleep `sleep_secs`, then wake into attempt `next_attempt`.
    Waiting { sleep_secs: u64, next_attempt: u32 },
    /// Terminal: the payload was received and published.
    Succeeded,
    /// Terminal: no further attempt will be made.
    Failed { reason: StopReason, class: FailureClass },
}

/// The transition taken when attempt `attempt` (1-based) of `max_attempts`
/// ends with `outcome`. Non-retryable failures stop at once; an exhausted
/// budget stops without sleeping; otherwise the cap-interaction rule either
/// stops the engine or schedules the next attempt behind a bounded sleep.
/// The backoff exponent is the 0-based attempt index.
pub open spec fn spec_step(
    max_attempts: u32,
    base_delay_secs: u64,
    attempt: u32,
    outcome: AttemptOutcome,
) -> EngineState {
    match outcome {
        AttemptOutcome::Success(_) => EngineState::Succeeded,
        AttemptOutcome::Failure { class, retryable, .. } => {
            if !retryable {
                EngineState::Failed { reason: StopReason::NonRetryable, class }
            } else if attempt >= max_attempts {
                EngineState::Failed { reason: StopReason::AttemptsExhausted, class }
            } else {
                let uncapped = spec_backoff_secs(base_delay_secs, (attempt - 1) as u32);
                match spec_cap_decision(uncapped, class) {
                    RetryDecision::Stop => EngineState::Failed {
                        reason: StopReason::BackoffCapReached,
                        class,
                    },
                    RetryDecision::Sleep(s) => EngineState::Waiting {
                        sleep_secs: s,
                        next_attempt: (attempt + 1) as u32,
                    },
                }
            }
        },
    }
}

pub struct FetchEngine {
    pub max_attempts: u32,
    pub base_delay_secs: u64,
    pub state: EngineState,
}

impl FetchEngine {
    /// Internal consistency: a live state never stands outside the budget,
    /// and a scheduled sleep never exceeds the cap.
    pub open spec fn wf(self) -> bool {
        &&& 1 <= self.max_attempts
        &&& 1 <= self.base_delay_secs
        &&& match self.state {
            EngineState::Attempting { attempt } => 1 <= attempt <= self.max_attempts,
            EngineState::Waiting { sleep_secs, next_attempt } => {
                &&& 2 <= next_attempt <= self.max_attempts
                &&& sleep_secs <= MAX_RETRY_SLEEP_SECS
            },
            _ => true,
        }
    }

    /// The attempt number the state stands at (the one to perform next).
    pub open spec fn spec_current_attempt(self) -> u32 {
        match self.state {
            EngineState::Attempting { attempt } => attempt,
            EngineState::Waiting { next_attempt, .. } => next_attempt,
            _ => 0,
        }
    }

    /// Begin a fetch. Zero attempts is a configuration error, surfaced
    /// immediately; otherwise the engine stands at attempt 1, with the
    /// base delay raised to at least one second.
    pub fn start(req: &FetchRequest) -> (r: Result<FetchEngine, FetchError>)
        ensures
            req.max_attempts == 0 <==> r is Err,
            r is Err ==> r == Result::<FetchEngine, FetchError>::Err(FetchError::Configuration),
            r matches Ok(e) ==> {
                &&& e.wf()
                &&& e.max_attempts == req.max_attempts
                &&& e.base_delay_secs == (if req.base_delay_secs >= 1 {
                    req.base_delay_secs
                } else {
                    1u64
                })
                &&& e.state == (EngineState::Attempting { attempt: 1u32 })
            },
    {
        if req.max_attempts == 0 {
            Err(FetchError::Configuration)
        } else {
            let base = if req.base_delay_secs >= 1 {
                req.base_delay_secs
            } else {
                1
            };
            Ok(FetchEngine {
                max_attempts: req.max_attempts,
                base_delay_secs: base,
                state: EngineState::Attempting { attempt: 1 },
            })
        }
    }

    /// Feed the outcome of the attempt the engine is standing at. The new
    /// state is exactly the `spec_step` transition.
    pub fn on_outcome(&mut self, outcome: &AttemptOutcome)
        requires
            old(self).wf(),
            old(self).state is Attempting,
        ensures
            final(self).wf(),
            final(self).max_attempts == old(self).max_attempts,
            final(self).base_delay_secs == old(self).base_delay_secs,
            final(self).state == spec_step(
                old(self).max_attempts,
                old(self).base_delay_secs,
                old(self).spec_current_attempt(),
                *outcome,
            ),
    {
        let attempt: u32 = match self.state {
            EngineState::Attempting { attempt } => attempt,
            _ => unreached(),
        };
        match outcome {
            AttemptOutcome::Success(_) => {
                self.state = EngineState::Succeeded;
            },
            AttemptOutcome::Failure { class, retryable, .. } => {
                if !*retryable {
                    self.state = EngineState::Failed {
                        reason: StopReason::NonRetryable,
                        class: *class,
                    };
                } else if attempt >= self.max_attempts {
                    self.state = EngineState::Failed {
                        reason: StopReason::AttemptsExhausted,
                        class: *class,
                    };
                } else {
                    let uncapped = compute_backoff_secs(self.base_delay_secs, attempt - 1);
                    match cap_decision(uncapped, *class) {
                        RetryDecision::Stop => {
                            self.state = EngineState::Failed {
                                reason: StopReason::BackoffCapReached,
                                class: *class,
                            };
                        },
                        RetryDecision::Sleep(s) => {
                            self.state = EngineState::Waiting {
                                sleep_secs: s,
                                next_attempt: attempt + 1,
                            };
                        },
                    }
                }
            },
        }
    }

    /// The sleep is over: stand at the scheduled attempt.
    pub fn on_wake(&mut self)
        requires
            old(self).wf(),
            old(self).state is Waiting,
        ensures
            final(self).wf(),
            final(self).max_attempts == old(self).max_attempts,
            final(self).base_delay_secs == old(self).base_delay_secs,
            final(self).state == (EngineState::Attempting {
                attempt: old(self).spec_current_attempt(),
            }),
    {
        let next: u32 = match self.state {
            EngineState::Waiting { next_attempt, .. } => next_attempt,
            _ => unreached(),
        };
        self.state = EngineState::Attempting { attempt: next };
    }

    /// The operation's final result, if the engine stands in a terminal state.
    pub open spec fn spec_result(self) -> Option<Result<(), FetchError>> {
        match self.state {
            EngineState::Succeeded => Some(Ok(())),
            EngineState::Failed { reason, class } => Some(
                Err(FetchError::Terminal(reason, class)),
            ),
            _ => None,
        }
    }

    /// Report the terminal outcome, or `None` while attempts continue.
    /// Intermediate retries stay invisible to the caller's control flow.
    pub fn result(&self) -> (r: Option<Result<(), FetchError>>)
        ensures
            r == self.spec_result(),
    {
        match self.state {
            EngineState::Succeeded => Some(Ok(())),
            EngineState::Failed { reason, class } => Some(Err(FetchError::Terminal(reason, class))),
            _ => None,
        }
    }
}

/// What a whole fetch produces when attempt number `attempt` is about to
/// run and the remaining attempts would end with `outcomes`, one per
/// attempt, in order: the state the engine stops in (or stands in, when the
/// outcomes run out first) and the sleeps issued along the way.
pub open spec fn spec_run(
    max_attempts: u32,
    base_delay_secs: u64,
    attempt: u32,
    outcomes: Seq<AttemptOutcome>,
) -> (EngineState, Seq<u64>)
    decreases outcomes.len(),
{
    if outcomes.len() == 0 {
        (EngineState::Attempting { attempt }, Seq::empty())
    } else {
        let stepped = spec_step(max_attempts, base_delay_secs, attempt, outcomes[0]);
        match stepped {
            EngineState::Waiting { sleep_secs, next_attempt } => {
                let rest = spec_run(
                    max_attempts,
                    base_delay_secs,
                    next_attempt,
                    outcomes.drop_first(),
                );
                (rest.0, seq![sleep_secs] + rest.1)
            },
            _ => (stepped, Seq::<u64>::empty()),
        }
    }
}

/// Run one fetch against scripted outcomes — the deterministic double of
/// the real attempt loop, with the sleeps recorded instead of slept.
/// Returns the state the engine ended in and the recorded sleeps, exactly
/// as `spec_run` folds them; zero attempts is refused as a configuration
/// error before anything runs.
pub fn run_scripted(req: &FetchRequest, outcomes: &Vec<AttemptOutcome>) -> (r: Result<
    (EngineState, Vec<u64>),
    FetchError,
>)
    ensures
        req.max_attempts == 0 <==> r is Err,
        r is Err ==> r == Result::<(EngineState, Vec<u64>), FetchError>::Err(
            FetchError::Configuration,
        ),
        r matches Ok(out) ==> {
            let base = if req.base_delay_secs >= 1 {
                req.base_delay_secs
            } else {
                1u64
            };
            let folded = spec_run(req.max_attempts, base, 1, outcomes@);
            out.0 == folded.0 && out.1@ == folded.1
        },
{
    let mut engine = match FetchEngine::start(req) {
        Ok(engine) => engine,
        Err(e) => {
            return Err(e);
        },
    };
    let ghost max = engine.max_attempts;
    let ghost base = engine.base_delay_secs;
    let mut sleeps: Vec<u64> = Vec::new();
    let mut i: usize = 0;
    proof {
        assert(outcomes@.skip(0) =~= outcomes@);
        let rest = spec_run(max, base, 1, outcomes@);
        assert(sleeps@ + rest.1 =~= rest.1);
    }
    loop
        invariant
            engine.wf(),
            engine.max_attempts == max,
            engine.base_delay_secs == base,
            i <= outcomes@.len(),
            engine.state is Attempting ==> spec_run(max, base, 1, outcomes@) == {
                let rest = spec_run(
                    max,
                    base,
                    engine.spec_current_attempt(),
                    outcomes@.skip(i as int),
                );
                (rest.0, sleeps@ + rest.1)
            },
            !(engine.state is Attempting) ==> spec_run(max, base, 1, outcomes@) == (
                engine.state,
                sleeps@,
            ),
            !(engine.state is Waiting),
        ensures
            spec_run(max, base, 1, outcomes@) == (engine.state, sleeps@),
        decreases outcomes@.len() - i,
    {
        let attempting = match engine.state {
            EngineState::Attempting { .. } => true,
            _ => false,
        };
        if !attempting || i >= outcomes.len() {
            proof {
                if engine.state is Attempting {
                    assert(outcomes@.skip(i as int) =~= Seq::<AttemptOutcome>::empty());
                    assert(sleeps@ + Seq::<u64>::empty() =~= sleeps@);
                }
            }
            break;
        }
        let ghost rest_before = outcomes@.skip(i as int);
        proof {
            assert(rest_before[0] == outcomes@[i as int]);
            assert(rest_before.drop_first() =~= outcomes@.skip(i as int + 1));
        }
        engine.on_outcome(&outcomes[i]);
        i = i + 1;
        match engine.state {
            EngineState::Waiting { sleep_secs, .. } => {
                let ghost old_sleeps = sleeps@;
                sleeps.push(sleep_secs);
                proof {
                    let rest_after = spec_run(
                        max,
                        base,
                        engine.spec_current_attempt(),
                        outcomes@.skip(i as int),
                    );
                    assert(old_sleeps + (seq![sleep_secs] + rest_after.1) =~= sleeps@
                        + rest_after.1);
                }
                engine.on_wake();
            },
            _ => {
                proof {
                    assert(sleeps@ + Seq::<u64>::empty() =~= sleeps@);
                }
            },
        }
    }
    Ok((engine.state, sleeps))
}

/// Law: once the uncapped backoff reaches the cap, a retryable HTTP-status
/// failure stops the engine at once — `Failed`, never `Waiting`, so no sleep
/// is issued — regardless of the attempt budget remaining.
pub proof fn lemma_cap_stops_http_retries(
    max_attempts: u32,
    base_delay_secs: u64,
    attempt: u32,
    outcome: AttemptOutcome,
)
    requires
        1 <= attempt < max_attempts,
        outcome matches AttemptOutcome::Failure { class, retryable, .. } && retryable
            && class is HttpStatus,
        spec_backoff_secs(base_delay_secs, (attempt - 1) as u32) >= MAX_RETRY_SLEEP_SECS,
    ensures
        outcome matches AttemptOutcome::Failure { class, .. } ==> spec_step(
            max_attempts,
            base_delay_secs,
            attempt,
            outcome,
        ) == (EngineState::Failed { reason: StopReason::BackoffCapReached, class }),
{
}

/// Law: at the same cap boundary, a retryable transport failure keeps the
/// engine going — it waits exactly the capped sleep while budget remains,
/// and fails with `AttemptsExhausted` only when the budget runs out.
pub proof fn lemma_cap_keeps_transport_retrying(
    max_attempts: u32,
    base_delay_secs: u64,
    attempt: u32,
    outcome: AttemptOutcome,
)
    requires
        1 <= attempt <= max_attempts,
        outcome matches AttemptOutcome::Failure { class, retryable, .. } && retryable && class
            == FailureClass::NetworkTransport,
        spec_backoff_secs(base_delay_secs, (attempt - 1) as u32) >= MAX_RETRY_SLEEP_SECS,
    ensures
        attempt < max_attempts ==> spec_step(max_attempts, base_delay_secs, attempt, outcome)
            == (EngineState::Waiting {
            sleep_secs: MAX_RETRY_SLEEP_SECS,
            next_attempt: (attempt + 1) as u32,
        }),
        attempt == max_attempts ==> spec_step(max_attempts, base_delay_secs, attempt, outcome)
            == (EngineState::Failed {
            reason: StopReason::AttemptsExhausted,
            class: FailureClass::NetworkTransport,
        }),
{
}

} // verus!
