//! What holds of the system over any sequence of transitions.

use vstd::prelude::*;
use crate::bridge::ExportCows;
use crate::bridge::ImportCows;
use crate::buy::BuyCows;
use crate::compound::CompoundCows;
use crate::state::Config;
use crate::withdraw::WithdrawMilk;

verus! {

/// One transition of the system: the records and accounts it works on and
/// what it was asked for.
pub enum Transition {
    /// A purchase of cows.
    Buy { ctx: BuyCows, num_cows: u64, now: i64, curve_rate: Option<u64> },
    /// A purchase of cows from rewards.
    Compound { ctx: CompoundCows, num_cows: u64, now: i64, curve_rate: Option<u64> },
    /// A withdrawal of rewards.
    Withdraw { ctx: WithdrawMilk, now: i64, curve_rate: Option<u64> },
    /// An export of cows to cow tokens.
    Export { ctx: ExportCows, num_cows: u64, now: i64 },
    /// An import of cows from cow tokens.
    Import { ctx: ImportCows, num_cows: u64, now: i64, curve_rate: Option<u64> },
}

impl Transition {
    /// The configuration that the transition finds.
    pub open spec fn config_before(&self) -> Config {
        match self {
            Transition::Buy { ctx, .. } => ctx.config,
            Transition::Compound { ctx, .. } => ctx.config,
            Transition::Withdraw { ctx, .. } => ctx.config,
            Transition::Export { ctx, .. } => ctx.config,
            Transition::Import { ctx, .. } => ctx.config,
        }
    }

    /// The configuration that the transition leaves, or `None` where it
    /// fails.
    pub open spec fn config_after(&self) -> Option<Config> {
        match self {
            Transition::Buy { ctx, num_cows, now, curve_rate } => match ctx.outcome(
                *num_cows,
                *now,
                *curve_rate,
            ) {
                Ok((after, _)) => Some(after.config),
                Err(_) => None,
            },
            Transition::Compound { ctx, num_cows, now, curve_rate } => match ctx.outcome(
                *num_cows,
                *now,
                *curve_rate,
            ) {
                Ok(after) => Some(after.config),
                Err(_) => None,
            },
            Transition::Withdraw { ctx, now, curve_rate } => match ctx.outcome(*now, *curve_rate) {
                Ok((after, _)) => Some(after.config),
                Err(_) => None,
            },
            Transition::Export { ctx, num_cows, now } => match ctx.outcome(*num_cows, *now) {
                Ok((after, _)) => Some(after.config),
                Err(_) => None,
            },
            Transition::Import { ctx, num_cows, now, curve_rate } => match ctx.outcome(
                *num_cows,
                *now,
                *curve_rate,
            ) {
                Ok((after, _)) => Some(after.config),
                Err(_) => None,
            },
        }
    }

    /// The cows that the transition brings into the system: those bought,
    /// compounded or imported. A withdrawal and an export bring none.
    pub open spec fn cows_added(&self) -> int {
        match self {
            Transition::Buy { num_cows, .. } => *num_cows as int,
            Transition::Compound { num_cows, .. } => *num_cows as int,
            Transition::Withdraw { .. } => 0,
            Transition::Export { .. } => 0,
            Transition::Import { num_cows, .. } => *num_cows as int,
        }
    }
}

/// Whether `steps` is a course that the system can take: every transition
/// succeeds, and each finds the configuration that the one before left. The
/// farms and accounts may differ from one transition to the next.
pub open spec fn is_history(steps: Seq<Transition>) -> bool {
    &&& forall|i: int| 0 <= i < steps.len() ==> (#[trigger] steps[i]).config_after() is Some
    &&& forall|i: int|
        0 < i < steps.len() ==> (#[trigger] steps[i]).config_before() == steps[i
            - 1].config_after()->Some_0
}

/// The cows that the transitions of `steps` bring into the system, all
/// together.
pub open spec fn cows_added(steps: Seq<Transition>) -> int
    decreases steps.len(),
{
    if steps.len() == 0 {
        0
    } else {
        cows_added(steps.drop_last()) + steps.last().cows_added()
    }
}

/// A transition that succeeds adds its cows to the system's count and
/// leaves the rest of the configuration as it was.
pub proof fn lemma_transition_counts(step: Transition)
    requires
        step.config_after() is Some,
    ensures
        step.config_after()->Some_0 == (Config {
            global_cows_count: (step.config_before().global_cows_count + step.cows_added()) as u64,
            ..step.config_before()
        }),
        step.config_before().global_cows_count + step.cows_added() <= u64::MAX,
{
}

/// Over any course of the system, its count of cows grows by the cows
/// bought, compounded and imported, and by nothing else; the rest of the
/// configuration stays as it was at the beginning.
pub proof fn lemma_history_counts(steps: Seq<Transition>)
    requires
        is_history(steps),
        steps.len() > 0,
    ensures
        steps.last().config_after()->Some_0 == (Config {
            global_cows_count: (steps[0].config_before().global_cows_count + cows_added(
                steps,
            )) as u64,
            ..steps[0].config_before()
        }),
        cows_added(steps) >= 0,
        steps[0].config_before().global_cows_count + cows_added(steps) <= u64::MAX,
    decreases steps.len(),
{
    lemma_transition_counts(steps.last());
    if steps.len() == 1 {
        assert(steps.drop_last().len() == 0);
        assert(cows_added(steps.drop_last()) == 0);
    } else {
        let earlier = steps.drop_last();
        assert(is_history(earlier)) by {
            assert forall|i: int| 0 <= i < earlier.len() implies (#[trigger] earlier[i]).config_after() is Some by {
                assert(earlier[i] == steps[i]);
            }
            assert forall|i: int| 0 < i < earlier.len() implies (#[trigger] earlier[i]).config_before()
                == earlier[i - 1].config_after()->Some_0 by {
                assert(earlier[i] == steps[i]);
                assert(earlier[i - 1] == steps[i - 1]);
            }
        }
        lemma_history_counts(earlier);
        assert(earlier.last() == steps[steps.len() - 2]);
        assert(earlier[0] == steps[0]);
        assert(steps.last() == steps[steps.len() - 1]);
    }
}

} // verus!
