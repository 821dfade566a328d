//! Rotor warm-up: when has the rotor reached steady state?
//!
//! The number of points per revolution stands for the rotor's speed. It starts
//! below the native count and climbs; the warm-up ends when it stays within a band
//! around that count, stops climbing below the band, or runs out of spins.

use vstd::prelude::*;

use crate::coin_d6::types::{WarmupConfig, WarmupOutcome, NATIVE_POINTS};

verus! {

/// Whether a revolution of `points` points is in the settle band.
pub open spec fn in_band(config: WarmupConfig, points: usize) -> bool {
    NATIVE_POINTS - config.settle_tolerance <= points <= NATIVE_POINTS + config.settle_tolerance
}

/// The highest point count of the revolutions, zero for none.
pub open spec fn ceiling(history: Seq<usize>) -> usize
    decreases history.len(),
{
    if history.len() == 0 {
        0
    } else if history.last() > ceiling(history.drop_last()) {
        history.last()
    } else {
        ceiling(history.drop_last())
    }
}

/// How many revolutions at the end of the history are in the settle band.
pub open spec fn band_run(config: WarmupConfig, history: Seq<usize>) -> nat
    decreases history.len(),
{
    if history.len() == 0 || !in_band(config, history.last()) {
        0
    } else {
        band_run(config, history.drop_last()) + 1
    }
}

/// How many revolutions at the end of the history brought no new highest count.
pub open spec fn flat_run(history: Seq<usize>) -> nat
    decreases history.len(),
{
    if history.len() == 0 || history.last() > ceiling(history.drop_last()) {
        0
    } else {
        flat_run(history.drop_last()) + 1
    }
}

/// What a history of point counts, ending with the revolution just observed, says.
pub open spec fn decision(config: WarmupConfig, history: Seq<usize>) -> Option<WarmupOutcome> {
    let spins = history.len() as usize;
    if band_run(config, history) >= config.settle_stable_spins {
        Some(WarmupOutcome::Settled { spins, points: history.last() })
    } else if flat_run(history) >= config.settle_stable_spins && ceiling(history) < NATIVE_POINTS
        - config.settle_tolerance {
        Some(WarmupOutcome::Plateaued { spins, points: ceiling(history) })
    } else if spins >= config.max_spins {
        Some(WarmupOutcome::Exhausted { spins })
    } else {
        None
    }
}

/// Decides when the rotor has reached steady state.
pub struct Warmup {
    config: WarmupConfig,
    spin: usize,
    in_band: usize,
    ceiling: usize,
    flat: usize,
    history: Ghost<Seq<usize>>,
}

impl Warmup {
    /// The warm-up policy.
    pub closed spec fn config(&self) -> WarmupConfig {
        self.config
    }

    /// The point counts observed so far.
    pub closed spec fn view(&self) -> Seq<usize> {
        self.history@
    }

    /// The counters agree with the observed point counts.
    pub closed spec fn wf(&self) -> bool {
        &&& self.spin == self.history@.len()
        &&& self.in_band == band_run(self.config, self.history@)
        &&& self.ceiling == ceiling(self.history@)
        &&& self.flat == flat_run(self.history@)
    }

    /// A tracker that has observed nothing.
    pub fn new(config: &WarmupConfig) -> (warmup: Self)
        ensures
            warmup.wf(),
            warmup.config() == *config,
            warmup@ == Seq::<usize>::empty(),
    {
        Warmup {
            config: *config,
            spin: 0,
            in_band: 0,
            ceiling: 0,
            flat: 0,
            history: Ghost(Seq::empty()),
        }
    }

    /// Observe one revolution's point count, returning the outcome once there is
    /// one.
    pub fn observe(&mut self, points: usize) -> (outcome: Option<WarmupOutcome>)
        requires
            old(self).wf(),
            old(self)@.len() < usize::MAX,
        ensures
            final(self).wf(),
            final(self).config() == old(self).config(),
            final(self)@ == old(self)@.push(points),
            outcome == decision(final(self).config(), final(self)@),
    {
        proof {
            lemma_runs_bounded(self.config, self.history@);
            assert(self.history@.push(points).drop_last() =~= self.history@);
        }
        self.history = Ghost(self.history@.push(points));
        self.spin += 1;
        let distance: usize = if points < NATIVE_POINTS {
            NATIVE_POINTS - points
        } else {
            points - NATIVE_POINTS
        };
        if distance <= self.config.settle_tolerance {
            self.in_band += 1;
        } else {
            self.in_band = 0;
        }
        if points > self.ceiling {
            self.ceiling = points;
            self.flat = 0;
        } else {
            self.flat += 1;
        }
        if self.in_band >= self.config.settle_stable_spins {
            return Some(WarmupOutcome::Settled { spins: self.spin, points });
        }
        // An overshoot above the band descends back to the native count, so only a
        // plateau below the band is a reason to give up.
        if self.flat >= self.config.settle_stable_spins && self.ceiling
            < NATIVE_POINTS.saturating_sub(self.config.settle_tolerance) {
            return Some(WarmupOutcome::Plateaued { spins: self.spin, points: self.ceiling });
        }
        if self.spin >= self.config.max_spins {
            return Some(WarmupOutcome::Exhausted { spins: self.spin });
        }
        None
    }
}

/// No run is longer than the history.
proof fn lemma_runs_bounded(config: WarmupConfig, history: Seq<usize>)
    ensures
        band_run(config, history) <= history.len(),
        flat_run(history) <= history.len(),
    decreases history.len(),
{
    if history.len() > 0 {
        lemma_runs_bounded(config, history.drop_last());
    }
}

/// A warm-up always ends: the spin budget is never overrun.
pub proof fn law_warmup_ends(config: WarmupConfig, history: Seq<usize>)
    requires
        config.max_spins <= history.len() <= usize::MAX,
    ensures
        decision(config, history) is Some,
{
}

/// A count above the settle band is never taken for a plateau, however long ago it
/// was seen: an overshoot is waited out.
pub proof fn law_overshoot_is_not_a_plateau(
    config: WarmupConfig,
    history: Seq<usize>,
    overshoot: int,
)
    requires
        0 <= overshoot < history.len(),
        history[overshoot] >= NATIVE_POINTS,
    ensures
        !(decision(config, history) matches Some(WarmupOutcome::Plateaued { .. })),
{
    lemma_ceiling_is_highest(history, overshoot);
}

/// No observed count exceeds the ceiling.
proof fn lemma_ceiling_is_highest(history: Seq<usize>, i: int)
    requires
        0 <= i < history.len(),
    ensures
        history[i] <= ceiling(history),
    decreases history.len(),
{
    if i < history.len() - 1 {
        lemma_ceiling_is_highest(history.drop_last(), i);
    }
}

/// The rotor counts as settled only after as many revolutions in the band, in a
/// row, as the policy asks for.
pub proof fn law_settling_needs_stable_spins(config: WarmupConfig, history: Seq<usize>, back: int)
    requires
        decision(config, history) matches Some(WarmupOutcome::Settled { .. }),
        0 <= back < config.settle_stable_spins,
    ensures
        back < history.len(),
        in_band(config, history[history.len() - 1 - back]),
{
    lemma_band_run(config, history, back);
    lemma_runs_bounded(config, history);
}

proof fn lemma_band_run(config: WarmupConfig, history: Seq<usize>, back: int)
    requires
        0 <= back < band_run(config, history),
    ensures
        back < history.len(),
        in_band(config, history[history.len() - 1 - back]),
    decreases history.len(),
{
    if back > 0 {
        lemma_band_run(config, history.drop_last(), back - 1);
    }
}

/// A revolution is in the band exactly where its points are within the tolerance of four
/// hundred.
pub proof fn law_band_lies_about_the_native_count(config: WarmupConfig, points: usize)
    ensures
        in_band(config, points) <==> -config.settle_tolerance <= points - 400
            <= config.settle_tolerance,
{
}

/// The rotor settles once enough revolutions in a row are in the band, whatever went
/// before: with the last of them, after as many spins as there were.
pub proof fn law_stable_spins_settle(config: WarmupConfig, history: Seq<usize>)
    requires
        0 < config.settle_stable_spins <= history.len() <= usize::MAX,
        forall|i: int|
            history.len() - config.settle_stable_spins <= i < history.len() ==> in_band(
                config,
                #[trigger] history[i],
            ),
    ensures
        decision(config, history) == Some(
            WarmupOutcome::Settled { spins: history.len() as usize, points: history.last() },
        ),
{
    lemma_band_run_reaches(config, history, config.settle_stable_spins as int);
}

proof fn lemma_band_run_reaches(config: WarmupConfig, history: Seq<usize>, count: int)
    requires
        0 <= count <= history.len(),
        forall|i: int|
            history.len() - count <= i < history.len() ==> in_band(config, #[trigger] history[i]),
    ensures
        band_run(config, history) >= count,
    decreases history.len(),
{
    if count > 0 {
        let rest = history.drop_last();
        assert(in_band(config, history[history.len() - 1]));
        assert forall|i: int| rest.len() - (count - 1) <= i < rest.len() implies in_band(
            config,
            #[trigger] rest[i],
        ) by {
            assert(rest[i] == history[i]);
        }
        lemma_band_run_reaches(config, rest, count - 1);
    }
}

/// A plateau is reported only below the band and only where the count has stopped climbing:
/// the reported count is the highest there was, and none of the last revolutions, as many as
/// the policy asks for, exceeded those before it.
pub proof fn law_plateau_has_stopped_climbing(
    config: WarmupConfig,
    history: Seq<usize>,
    i: int,
    back: int,
)
    requires
        decision(config, history) is Some,
        decision(config, history)->0 is Plateaued,
        0 <= i < history.len(),
        0 <= back < config.settle_stable_spins,
    ensures
        ({
            let top = ceiling(history);
            &&& decision(config, history) == Some(
                WarmupOutcome::Plateaued { spins: history.len() as usize, points: top },
            )
            &&& history[i] <= top
            &&& top < 400 - config.settle_tolerance
            &&& top == 0 || history.contains(top)
            &&& back < history.len()
            &&& history[history.len() - 1 - back] <= ceiling(
                history.take(history.len() - 1 - back),
            )
        }),
{
    lemma_ceiling_is_highest(history, i);
    lemma_ceiling_is_met(history);
    lemma_runs_bounded(config, history);
    lemma_flat_run(history, back);
}

proof fn lemma_ceiling_is_met(history: Seq<usize>)
    ensures
        ceiling(history) == 0 || history.contains(ceiling(history)),
    decreases history.len(),
{
    if history.len() > 0 {
        lemma_ceiling_is_met(history.drop_last());
        if history.last() > ceiling(history.drop_last()) {
            assert(history[history.len() - 1] == ceiling(history));
        } else if ceiling(history) != 0 {
            let rest = history.drop_last();
            let j = choose|j: int| 0 <= j < rest.len() && rest[j] == ceiling(rest);
            assert(history[j] == ceiling(history));
        }
    }
}

proof fn lemma_flat_run(history: Seq<usize>, back: int)
    requires
        0 <= back < flat_run(history),
    ensures
        back < history.len(),
        history[history.len() - 1 - back] <= ceiling(history.take(history.len() - 1 - back)),
    decreases history.len(),
{
    if back > 0 {
        lemma_flat_run(history.drop_last(), back - 1);
        let keep = history.len() - 1 - back;
        assert(history.drop_last().take(keep) =~= history.take(keep));
    } else {
        assert(history.take(history.len() - 1) =~= history.drop_last());
    }
}

/// A climb that stops below the band is a plateau: after as many revolutions without a new
/// highest count as the policy asks for, none of them in the band.
pub proof fn law_stopped_climb_is_a_plateau(config: WarmupConfig, history: Seq<usize>)
    requires
        0 < config.settle_stable_spins,
        history.len() <= usize::MAX,
        flat_run(history) >= config.settle_stable_spins,
        ceiling(history) < 400 - config.settle_tolerance,
    ensures
        decision(config, history) == Some(
            WarmupOutcome::Plateaued {
                spins: history.len() as usize,
                points: ceiling(history),
            },
        ),
{
    if history.len() > 0 {
        lemma_ceiling_is_highest(history, history.len() - 1);
    }
}

/// The budget decides only where nothing else does, and never early.
pub proof fn law_budget_decides_last(config: WarmupConfig, history: Seq<usize>)
    requires
        history.len() <= usize::MAX,
    ensures
        decision(config, history) matches Some(WarmupOutcome::Exhausted { spins }) ==> spins
            == history.len() && spins >= config.max_spins,
        decision(config, history) is None ==> history.len() < config.max_spins,
{
}

/// Whatever a rotor shows, it has settled once it stayed within the band for as long as is
/// asked, it gives up where the budget is spent, and neither happens before.
pub proof fn law_observed_rotor_settles(
    warmup: &mut Warmup,
    points: usize,
    outcome: Option<WarmupOutcome>,
)
    requires
        call_ensures(Warmup::observe, (warmup, points), outcome),
        old(warmup)@.len() < usize::MAX,
        old(warmup).config().settle_stable_spins > 0,
    ensures
        final(warmup)@ == old(warmup)@.push(points),
        outcome matches Some(WarmupOutcome::Settled { spins, points: at }) ==> at == points && spins
            == old(warmup)@.len() + 1 && in_band(old(warmup).config(), points),
        outcome is None ==> final(warmup)@.len() < old(warmup).config().max_spins,
        outcome matches Some(WarmupOutcome::Exhausted { spins }) ==> spins == final(warmup)@.len()
            && spins >= old(warmup).config().max_spins,
{
    law_budget_decides_last(final(warmup).config(), final(warmup)@);
}

} // verus!
