//! The pool record: the sale window, the weights and the pause flag, with
//! the rules that depend on nothing else.

use vstd::prelude::*;

use crate::types::{AssetId, Balance, BlockNumber, Error, LBPWeight, MAX_SALE_DURATION};
use crate::weights::{calculate_weight, spec_weight, WeightCurveType};

verus! {

/// The weights of the two assets of a pool, each beside its asset, in the
/// order in which the pool was created. The rules read the weights by their
/// position: the first belongs to the first asset of the pool.
pub type WeightPair = ((AssetId, LBPWeight), (AssetId, LBPWeight));

/// What the creator of a pool says of one of its two assets.
#[derive(Clone, Copy, Debug, PartialEq, Eq)]
pub struct LBPAssetInfo {
    pub id: AssetId,
    pub amount: Balance,
    pub initial_weight: LBPWeight,
    pub final_weight: LBPWeight,
}

/// Where a pool stands in its life at a given time.
#[derive(Clone, Copy, Debug, PartialEq, Eq, Structural)]
pub enum Phase {
    /// The start of the sale has not been reached.
    NotStarted,
    /// The sale window is open, and the pool is paused.
    Paused,
    /// The sale window is open, and the pool trades.
    Running,
    /// The end of the sale has been reached.
    Ended,
}

/// The parameters and the cached weights of a pool.
///
/// The sale runs from `start`, inclusive, to `end`, exclusive. The window
/// `(0, 0)` stands for a sale without a date: such a pool never trades.
#[derive(Clone, Copy, Debug, PartialEq, Eq)]
pub struct Pool {
    pub start: BlockNumber,
    pub end: BlockNumber,
    pub initial_weights: WeightPair,
    pub final_weights: WeightPair,
    pub last_weight_update: BlockNumber,
    pub last_weights: WeightPair,
    pub curve: WeightCurveType,
    pub pausable: bool,
    pub paused: bool,
}

impl Pool {
    /// The record of a new pool: the weights last computed are the initial
    /// ones, at time 0, and the pool is paused if and only if it can be.
    pub open spec fn spec_new(
        asset_a: LBPAssetInfo,
        asset_b: LBPAssetInfo,
        sale_duration: (BlockNumber, BlockNumber),
        weight_curve: WeightCurveType,
        pausable: bool,
    ) -> Pool {
        Pool {
            start: sale_duration.0,
            end: sale_duration.1,
            initial_weights: (
                (asset_a.id, asset_a.initial_weight),
                (asset_b.id, asset_b.initial_weight),
            ),
            final_weights: ((asset_a.id, asset_a.final_weight), (asset_b.id, asset_b.final_weight)),
            last_weight_update: 0,
            last_weights: (
                (asset_a.id, asset_a.initial_weight),
                (asset_b.id, asset_b.initial_weight),
            ),
            curve: weight_curve,
            pausable,
            paused: pausable,
        }
    }

    /// The record of a new pool.
    pub fn new(
        asset_a: LBPAssetInfo,
        asset_b: LBPAssetInfo,
        sale_duration: (BlockNumber, BlockNumber),
        weight_curve: WeightCurveType,
        pausable: bool,
    ) -> (pool: Pool)
        ensures
            pool == Pool::spec_new(asset_a, asset_b, sale_duration, weight_curve, pausable),
    {
        Pool {
            start: sale_duration.0,
            end: sale_duration.1,
            initial_weights: (
                (asset_a.id, asset_a.initial_weight),
                (asset_b.id, asset_b.initial_weight),
            ),
            final_weights: ((asset_a.id, asset_a.final_weight), (asset_b.id, asset_b.final_weight)),
            last_weight_update: 0,
            last_weights: (
                (asset_a.id, asset_a.initial_weight),
                (asset_b.id, asset_b.initial_weight),
            ),
            curve: weight_curve,
            pausable,
            paused: pausable,
        }
    }

    /// The phase of the pool at time `now`.
    pub open spec fn spec_phase(self, now: BlockNumber) -> Phase {
        if now >= self.end {
            Phase::Ended
        } else if now < self.start {
            Phase::NotStarted
        } else if self.paused {
            Phase::Paused
        } else {
            Phase::Running
        }
    }

    /// The phase of the pool at time `now`.
    pub fn phase(&self, now: BlockNumber) -> (phase: Phase)
        ensures
            phase == self.spec_phase(now),
    {
        if now >= self.end {
            Phase::Ended
        } else if now < self.start {
            Phase::NotStarted
        } else if self.paused {
            Phase::Paused
        } else {
            Phase::Running
        }
    }

    /// Whether the start of the sale has been reached.
    pub open spec fn spec_has_started(self, now: BlockNumber) -> bool {
        now >= self.start
    }

    /// Whether the start of the sale has been reached.
    pub fn has_started(&self, now: BlockNumber) -> (started: bool)
        ensures
            started == self.spec_has_started(now),
    {
        now >= self.start
    }

    /// Whether the end of the sale has been reached.
    pub open spec fn spec_has_ended(self, now: BlockNumber) -> bool {
        now >= self.end
    }

    /// Whether the end of the sale has been reached.
    pub fn has_ended(&self, now: BlockNumber) -> (ended: bool)
        ensures
            ended == self.spec_has_ended(now),
    {
        now >= self.end
    }

    /// Whether the pool trades at time `now`: it is not paused, and `now`
    /// lies in the sale window.
    pub open spec fn spec_is_running(self, now: BlockNumber) -> bool {
        !self.paused && self.start <= now && now < self.end
    }

    /// Whether the pool trades at time `now`.
    pub fn is_running(&self, now: BlockNumber) -> (running: bool)
        ensures
            running == self.spec_is_running(now),
            running == (self.spec_phase(now) == Phase::Running),
    {
        !self.paused && self.start <= now && now < self.end
    }

    /// Why the sale window is refused, if it is: it must not end before it
    /// starts, nor be longer than [`MAX_SALE_DURATION`].
    pub open spec fn spec_validate(self) -> Result<(), Error> {
        if self.start > self.end {
            Err(Error::InvalidTimeRange)
        } else if self.end - self.start > MAX_SALE_DURATION {
            Err(Error::MaxDurationExceeded)
        } else {
            Ok(())
        }
    }

    /// What holds of the record of every pool of the engine: its sale
    /// window is valid, and it is paused only if it can be.
    pub open spec fn spec_well_formed(self) -> bool {
        &&& self.spec_validate() is Ok
        &&& self.paused ==> self.pausable
    }

    /// The pool with the weights of time `now` in place of the cached ones,
    /// where the cached ones are older than `now`; else the pool as it is.
    pub open spec fn spec_refreshed(self, now: BlockNumber) -> Pool {
        if self.last_weight_update < now {
            Pool {
                last_weight_update: now,
                last_weights: (
                    (
                        self.last_weights.0.0,
                        spec_weight(
                            self.curve,
                            self.start,
                            self.end,
                            self.initial_weights.0.1,
                            self.final_weights.0.1,
                            now,
                        ) as LBPWeight,
                    ),
                    (
                        self.last_weights.1.0,
                        spec_weight(
                            self.curve,
                            self.start,
                            self.end,
                            self.initial_weights.1.1,
                            self.final_weights.1.1,
                            now,
                        ) as LBPWeight,
                    ),
                ),
                ..self
            }
        } else {
            self
        }
    }

    /// Brings the cached weights up to time `now`. A second call at the same
    /// time changes nothing.
    pub fn update_weights(&mut self, now: BlockNumber)
        ensures
            *final(self) == old(self).spec_refreshed(now),
    {
        if self.last_weight_update < now {
            let weight_a: LBPWeight = calculate_weight(
                self.curve,
                self.start,
                self.end,
                self.initial_weights.0.1,
                self.final_weights.0.1,
                now,
            );
            let weight_b: LBPWeight = calculate_weight(
                self.curve,
                self.start,
                self.end,
                self.initial_weights.1.1,
                self.final_weights.1.1,
                now,
            );
            self.last_weights = ((self.last_weights.0.0, weight_a), (self.last_weights.1.0, weight_b));
            self.last_weight_update = now;
        }
    }
}

/// Checks the sale window of a pool.
pub fn validate_pool_data(pool: &Pool) -> (result: Result<(), Error>)
    ensures
        result == pool.spec_validate(),
{
    if pool.start > pool.end {
        Err(Error::InvalidTimeRange)
    } else if pool.end - pool.start > MAX_SALE_DURATION {
        Err(Error::MaxDurationExceeded)
    } else {
        Ok(())
    }
}

/// How far a phase is into the life of a pool.
pub open spec fn spec_phase_rank(phase: Phase) -> int {
    match phase {
        Phase::NotStarted => 0,
        Phase::Paused => 1,
        Phase::Running => 1,
        Phase::Ended => 2,
    }
}

/// As time goes on a pool never falls back into an earlier phase: from not
/// started to paused or running, and from there to ended. A pool without a
/// date, as any whose window has no width once it is reached, has ended.
pub proof fn lemma_phase_advances(pool: Pool, earlier: BlockNumber, later: BlockNumber)
    requires
        earlier <= later,
    ensures
        spec_phase_rank(pool.spec_phase(earlier)) <= spec_phase_rank(pool.spec_phase(later)),
        pool.spec_is_running(later) <==> pool.spec_phase(later) == Phase::Running,
        pool.start == pool.end && later >= pool.end ==> pool.spec_phase(later) == Phase::Ended,
{
}

/// Refreshing the weights twice at one time gives what refreshing them once
/// gives.
pub proof fn lemma_refresh_idempotent(pool: Pool, now: BlockNumber)
    ensures
        pool.spec_refreshed(now).spec_refreshed(now) == pool.spec_refreshed(now),
{
}

/// A refresh never turns the time of the last weight update back, and
/// touches nothing but that time and the cached weights.
pub proof fn lemma_refresh_keeps_parameters(pool: Pool, now: BlockNumber)
    ensures
        pool.spec_refreshed(now).last_weight_update >= pool.last_weight_update,
        pool.spec_refreshed(now).last_weight_update >= now,
        pool.spec_refreshed(now).spec_well_formed() == pool.spec_well_formed(),
        pool.spec_refreshed(now) == (Pool {
            last_weight_update: pool.spec_refreshed(now).last_weight_update,
            last_weights: pool.spec_refreshed(now).last_weights,
            ..pool
        }),
{
}

} // verus!
