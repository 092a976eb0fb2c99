//! How long to wait before a retry.

use crate::delay::Delay;
use crate::retry::types::{BackoffPolicy, CategoryConfig};
use vstd::prelude::*;

verus! {

/// `initial` multiplied `steps` times by `permille / 1000`, rounding down to
/// a whole number after each step.
pub open spec fn scaled(initial: nat, permille: nat, steps: nat) -> nat
    decreases steps,
{
    if steps == 0 {
        initial
    } else {
        scaled(initial, permille, (steps - 1) as nat) * permille / 1000
    }
}

/// The delay before the cap: `initial` for the first attempt whatever the
/// policy; afterwards `initial` (constant), `initial * attempt` (linear) or
/// `initial` scaled `attempt` times by the factor (exponential).
pub open spec fn uncapped_delay(initial: nat, policy: BackoffPolicy, attempt: nat) -> nat {
    if attempt == 0 {
        initial
    } else {
        match policy {
            BackoffPolicy::Constant => initial,
            BackoffPolicy::Linear => initial * attempt,
            BackoffPolicy::Exponential { factor_permille } => scaled(
                initial,
                factor_permille as nat,
                attempt,
            ),
        }
    }
}

/// The delay, in nanoseconds, before retry number `attempt` (counted from
/// zero) under `config`: the policy's delay, never more than the maximum.
pub open spec fn delay_nanos(config: CategoryConfig, attempt: nat) -> nat {
    let raw = uncapped_delay(config.initial_delay.nanos as nat, config.backoff_policy, attempt);
    if raw <= config.max_delay.nanos {
        raw
    } else {
        config.max_delay.nanos as nat
    }
}

/// One scaling step by a factor of at least one does not shrink a value.
proof fn lemma_step_grows(value: nat, permille: nat)
    requires
        permille >= 1000,
    ensures
        value * permille / 1000 >= value,
{
    assert(value * permille >= value * 1000) by (nonlinear_arith)
        requires
            permille >= 1000,
    ;
    assert(value * permille / 1000 >= value * 1000 / 1000) by (nonlinear_arith)
        requires
            value * permille >= value * 1000,
    ;
}

/// One scaling step by a factor below one does not enlarge a value.
proof fn lemma_step_shrinks(value: nat, permille: nat)
    requires
        permille <= 1000,
    ensures
        value * permille / 1000 <= value,
{
    assert(value * permille <= value * 1000) by (nonlinear_arith)
        requires
            permille <= 1000,
    ;
    assert(value * permille / 1000 <= value * 1000 / 1000) by (nonlinear_arith)
        requires
            value * permille <= value * 1000,
    ;
}

/// With a factor of at least one, more steps never give less.
pub proof fn lemma_scaled_monotonic(initial: nat, permille: nat, fewer: nat, more: nat)
    requires
        permille >= 1000,
        fewer <= more,
    ensures
        scaled(initial, permille, fewer) <= scaled(initial, permille, more),
    decreases more,
{
    if fewer < more {
        lemma_scaled_monotonic(initial, permille, fewer, (more - 1) as nat);
        lemma_step_grows(scaled(initial, permille, (more - 1) as nat), permille);
    }
}

/// Once a step leaves the value unchanged, every later step does too.
pub proof fn lemma_scaled_fixpoint(initial: nat, permille: nat, at: nat, later: nat)
    requires
        at <= later,
        scaled(initial, permille, at + 1) == scaled(initial, permille, at),
    ensures
        scaled(initial, permille, later) == scaled(initial, permille, at),
    decreases later,
{
    if at < later {
        lemma_scaled_fixpoint(initial, permille, at, (later - 1) as nat);
    }
}

/// `initial` scaled `steps` times, capped at `cap`.
fn scaled_capped(initial: u64, permille: u32, steps: usize, cap: u64) -> (out: u64)
    ensures
        out == if scaled(initial as nat, permille as nat, steps as nat) <= cap {
            scaled(initial as nat, permille as nat, steps as nat)
        } else {
            cap as nat
        },
{
    let mut current: u64 = initial;
    let mut done: usize = 0;
    while done < steps
        invariant
            done <= steps,
            current == scaled(initial as nat, permille as nat, done as nat),
        decreases steps - done,
    {
        assert(current as nat * permille as nat <= u64::MAX as nat * u32::MAX as nat)
            by (nonlinear_arith)
            requires
                current <= u64::MAX,
                permille <= u32::MAX,
        ;
        let wide: u128 = (current as u128) * (permille as u128) / 1000;
        if wide == current as u128 {
            proof {
                lemma_scaled_fixpoint(initial as nat, permille as nat, done as nat, steps as nat);
            }
            return if current <= cap {
                current
            } else {
                cap
            };
        }
        if permille >= 1000 {
            if wide > cap as u128 {
                proof {
                    lemma_scaled_monotonic(
                        initial as nat,
                        permille as nat,
                        (done + 1) as nat,
                        steps as nat,
                    );
                }
                return cap;
            }
        } else {
            proof {
                lemma_step_shrinks(current as nat, permille as nat);
            }
        }
        current = wide as u64;
        done += 1;
    }
    if current <= cap {
        current
    } else {
        cap
    }
}

/// The delay before retry number `attempt`, counted from zero.
pub fn calculate_delay(config: &CategoryConfig, attempt: usize) -> (delay: Delay)
    ensures
        delay.nanos == delay_nanos(*config, attempt as nat),
{
    let initial = config.initial_delay.nanos;
    let cap = config.max_delay.nanos;
    if attempt == 0 {
        return Delay { nanos: if initial <= cap { initial } else { cap } };
    }
    let nanos = match config.backoff_policy {
        BackoffPolicy::Constant => if initial <= cap {
            initial
        } else {
            cap
        },
        BackoffPolicy::Linear => {
            assert(initial as nat * attempt as nat <= u64::MAX as nat * u64::MAX as nat)
                by (nonlinear_arith)
                requires
                    initial <= u64::MAX,
                    attempt <= u64::MAX,
            ;
            let wide: u128 = (initial as u128) * (attempt as u128);
            if wide <= cap as u128 {
                wide as u64
            } else {
                cap
            }
        },
        BackoffPolicy::Exponential { factor_permille } => scaled_capped(
            initial,
            factor_permille,
            attempt,
            cap,
        ),
    };
    Delay { nanos }
}

impl CategoryConfig {
    /// The delay before retry number `attempt`, counted from zero.
    pub fn calculate_delay(&self, attempt: usize) -> (delay: Delay)
        ensures
            delay.nanos == delay_nanos(*self, attempt as nat),
    {
        calculate_delay(self, attempt)
    }
}

/// The policies under which delays cannot shrink from one attempt to the
/// next: every policy but an exponential one with a factor below one.
pub open spec fn never_shrinks(policy: BackoffPolicy) -> bool {
    match policy {
        BackoffPolicy::Exponential { factor_permille } => factor_permille >= 1000,
        _ => true,
    }
}

/// Delays are non-decreasing in the attempt index, up to the cap: a later
/// attempt never waits less than an earlier one, provided an exponential
/// factor is at least one.
pub proof fn lemma_delay_monotonic(config: CategoryConfig, earlier: nat, later: nat)
    requires
        earlier <= later,
        never_shrinks(config.backoff_policy),
    ensures
        delay_nanos(config, earlier) <= delay_nanos(config, later),
        delay_nanos(config, later) <= config.max_delay.nanos,
{
    let initial = config.initial_delay.nanos as nat;
    match config.backoff_policy {
        BackoffPolicy::Constant => {},
        BackoffPolicy::Linear => {
            if later > 0 {
                assert(initial * later >= initial) by (nonlinear_arith)
                    requires
                        later >= 1,
                ;
                assert(initial * earlier <= initial * later) by (nonlinear_arith)
                    requires
                        earlier <= later,
                ;
            }
        },
        BackoffPolicy::Exponential { factor_permille } => {
            lemma_scaled_monotonic(initial, factor_permille as nat, earlier, later);
            lemma_scaled_monotonic(initial, factor_permille as nat, 0, later);
            lemma_scaled_monotonic(initial, factor_permille as nat, 0, earlier);
        },
    }
}

} // verus!
