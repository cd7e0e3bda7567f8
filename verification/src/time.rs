//! Fixed-step city time: the clock is a tick count, and calendar position is
//! derived from it.
use vstd::prelude::*;

use crate::model::{CitySave, CityScenario, CityWorld};
use crate::model::spec_start;
use crate::population::{PopulationError, PopulationRules};
use crate::rules::CityRuleset;
use crate::text::{decimal, decimal_text};

verus! {

pub const MINUTES_PER_DAY: u16 = 1440;

pub const DEFAULT_MINUTES_PER_TICK: u16 = 15;

/// How many city minutes one tick advances.
#[derive(Debug, Clone, Copy, PartialEq, Eq, Structural)]
pub struct CityTimeConfig {
    minutes_per_tick: u16,
}

#[derive(Debug, Clone, Copy, PartialEq, Eq, Structural)]
pub struct CityTimePosition {
    pub tick: u64,
    pub day: u64,
    pub minute_of_day: u16,
}

#[derive(Debug, Clone, Copy, PartialEq, Eq, Structural)]
pub enum CityTimeError {
    InvalidMinutesPerTick(u16),
    TickOverflow,
}

impl CityTimeError {
    /// The error's message.
    pub open spec fn spec_message(self) -> Seq<char> {
        match self {
            CityTimeError::InvalidMinutesPerTick(value) => "city minutes per tick must be a non-zero divisor of "@
                + decimal(MINUTES_PER_DAY as nat) + ", got "@ + decimal(value as nat),
            CityTimeError::TickOverflow => "city simulation tick overflow"@,
        }
    }

    pub fn message(&self) -> (r: String)
        ensures
            r@ == self.spec_message(),
    {
        match self {
            CityTimeError::InvalidMinutesPerTick(value) => {
                let mut out = String::from_str(
                    "city minutes per tick must be a non-zero divisor of ",
                );
                let day = decimal_text(MINUTES_PER_DAY as u64);
                out.append(day.as_str());
                out.append(", got ");
                let got = decimal_text(*value as u64);
                out.append(got.as_str());
                out
            },
            CityTimeError::TickOverflow => String::from_str("city simulation tick overflow"),
        }
    }
}

/// A non-zero divisor of the minutes in a day.
pub open spec fn valid_minutes_per_tick(m: u16) -> bool {
    m != 0 && MINUTES_PER_DAY % m == 0
}

/// The calendar position of `tick` when each tick lasts `m` minutes.
pub open spec fn position_of(m: u16, tick: u64) -> CityTimePosition {
    let ticks_per_day = MINUTES_PER_DAY / m;
    CityTimePosition {
        tick,
        day: (tick / (ticks_per_day as u64)) as u64,
        minute_of_day: ((tick % (ticks_per_day as u64)) * m) as u16,
    }
}

/// The new tick and position after advancing `tick` by `steps`, or the error met.
pub open spec fn advance_result(m: u16, tick: u64, steps: u64) -> Result<
    (u64, CityTimePosition),
    CityTimeError,
> {
    if !valid_minutes_per_tick(m) {
        Err(CityTimeError::InvalidMinutesPerTick(m))
    } else if tick + steps > u64::MAX {
        Err(CityTimeError::TickOverflow)
    } else {
        Ok(((tick + steps) as u64, position_of(m, (tick + steps) as u64)))
    }
}

impl CityTimeConfig {
    pub closed spec fn spec_minutes_per_tick(self) -> u16 {
        self.minutes_per_tick
    }

    pub open spec fn spec_validate(self) -> Result<(), CityTimeError> {
        if valid_minutes_per_tick(self.spec_minutes_per_tick()) {
            Ok(())
        } else {
            Err(CityTimeError::InvalidMinutesPerTick(self.spec_minutes_per_tick()))
        }
    }

    pub fn new(minutes_per_tick: u16) -> (r: Result<Self, CityTimeError>)
        ensures
            valid_minutes_per_tick(minutes_per_tick) ==> r is Ok && r->Ok_0.spec_minutes_per_tick()
                == minutes_per_tick,
            !valid_minutes_per_tick(minutes_per_tick) ==> r == Err::<CityTimeConfig, _>(
                CityTimeError::InvalidMinutesPerTick(minutes_per_tick),
            ),
    {
        let config = CityTimeConfig { minutes_per_tick };
        match config.validate() {
            Ok(()) => Ok(config),
            Err(e) => Err(e),
        }
    }

    /// The configuration exactly as stored, without validation: a save read from
    /// elsewhere keeps whatever it holds, and operations that use the clock
    /// validate it then.
    pub fn from_stored(minutes_per_tick: u16) -> (r: Self)
        ensures
            r.spec_minutes_per_tick() == minutes_per_tick,
    {
        CityTimeConfig { minutes_per_tick }
    }

    pub fn minutes_per_tick(self) -> (r: u16)
        ensures
            r == self.spec_minutes_per_tick(),
    {
        self.minutes_per_tick
    }

    pub fn validate(self) -> (r: Result<(), CityTimeError>)
        ensures
            r == self.spec_validate(),
    {
        if self.minutes_per_tick == 0 || MINUTES_PER_DAY % self.minutes_per_tick != 0 {
            return Err(CityTimeError::InvalidMinutesPerTick(self.minutes_per_tick));
        }
        Ok(())
    }

    pub fn position(self, tick: u64) -> (r: Result<CityTimePosition, CityTimeError>)
        ensures
            valid_minutes_per_tick(self.spec_minutes_per_tick()) ==> r == Ok::<_, CityTimeError>(
                position_of(self.spec_minutes_per_tick(), tick),
            ),
            !valid_minutes_per_tick(self.spec_minutes_per_tick()) ==> r == Err::<CityTimePosition, _>(
                CityTimeError::InvalidMinutesPerTick(self.spec_minutes_per_tick()),
            ),
    {
        match self.validate() {
            Ok(()) => Ok(self.position_validated(tick)),
            Err(e) => Err(e),
        }
    }

    fn position_validated(self, tick: u64) -> (r: CityTimePosition)
        requires
            valid_minutes_per_tick(self.spec_minutes_per_tick()),
        ensures
            r == position_of(self.spec_minutes_per_tick(), tick),
    {
        let m = self.minutes_per_tick;
        proof {
            assert(m <= 1440) by (nonlinear_arith)
                requires
                    m > 0,
                    1440int % (m as int) == 0,
            ;
            assert(1440int / (m as int) >= 1) by (nonlinear_arith)
                requires
                    0 < m <= 1440,
            ;
        }
        let ticks_per_day: u64 = (MINUTES_PER_DAY / m) as u64;
        let tick_in_day = tick % ticks_per_day;
        proof {
            assert(ticks_per_day * m <= 1440) by (nonlinear_arith)
                requires
                    ticks_per_day == 1440int / (m as int),
                    m > 0,
            ;
            assert(tick_in_day * m < 1440) by (nonlinear_arith)
                requires
                    tick_in_day < ticks_per_day,
                    ticks_per_day * m <= 1440,
                    m > 0,
            ;
        }
        let minute_of_day: u16 = (tick_in_day as u16) * m;
        CityTimePosition { tick, day: tick / ticks_per_day, minute_of_day }
    }
}

impl Default for CityTimeConfig {
    fn default() -> (r: Self)
        ensures
            r.spec_minutes_per_tick() == DEFAULT_MINUTES_PER_TICK,
    {
        CityTimeConfig { minutes_per_tick: DEFAULT_MINUTES_PER_TICK }
    }
}

/// Advancing by `a` steps and then by `b` steps lands where advancing by `a + b`
/// steps at once lands, whenever the two separate advances succeed.
pub proof fn law_batch_steps_equal_repeated_steps(m: u16, tick: u64, a: u64, b: u64)
    requires
        advance_result(m, tick, a) is Ok,
        advance_result(m, advance_result(m, tick, a)->Ok_0.0, b) is Ok,
    ensures
        tick + a + b <= u64::MAX,
        advance_result(m, tick, (a + b) as u64) == advance_result(
            m,
            advance_result(m, tick, a)->Ok_0.0,
            b,
        ),
{
}

/// A save after advancing its clock by `steps`, and the answer: the new tick in
/// the world and its position, or the save unchanged and the error.
pub open spec fn spec_advance(save: CitySave, steps: u64) -> (CitySave, Result<CityTimePosition, CitySaveError>) {
    match advance_result(save.time.spec_minutes_per_tick(), save.world.tick, steps) {
        Ok((tick, position)) => (
            CitySave { world: CityWorld { tick, ..save.world }, ..save },
            Ok(position),
        ),
        Err(e) => (save, Err(CitySaveError::Time(e))),
    }
}

/// `n` single steps one after the other: the save after the last and that
/// step's answer.
pub open spec fn repeated_single_steps(save: CitySave, n: nat) -> (CitySave, Result<CityTimePosition, CitySaveError>)
    decreases n,
{
    if n <= 1 {
        spec_advance(save, 1)
    } else {
        spec_advance(repeated_single_steps(save, (n - 1) as nat).0, 1)
    }
}

/// `n` single steps of a save with a valid clock that stays in range give the
/// same save and the same position as one batch of `n` steps.
pub proof fn law_single_steps_equal_one_batch(save: CitySave, n: u64)
    requires
        save.time.spec_validate() is Ok,
        n >= 1,
        save.world.tick + n <= u64::MAX,
    ensures
        repeated_single_steps(save, n as nat) == spec_advance(save, n),
    decreases n,
{
    if n > 1 {
        law_single_steps_equal_one_batch(save, (n - 1) as u64);
    }
}

impl CityWorld {
    fn commit_tick(&mut self, tick: u64)
        ensures
            *final(self) == (CityWorld { tick, ..*old(self) }),
    {
        self.tick = tick;
    }

    fn advance_fixed_steps(&mut self, time: CityTimeConfig, steps: u64) -> (r: Result<
        CityTimePosition,
        CityTimeError,
    >)
        ensures
            match advance_result(time.spec_minutes_per_tick(), old(self).tick, steps) {
                Ok((tick, position)) => r == Ok::<_, CityTimeError>(position) && *final(self) == (
                CityWorld { tick, ..*old(self) }),
                Err(e) => r == Err::<CityTimePosition, _>(e) && *final(self) == *old(self),
            },
    {
        if let Err(e) = time.validate() {
            return Err(e);
        }
        let final_tick = match self.tick.checked_add(steps) {
            Some(t) => t,
            None => return Err(CityTimeError::TickOverflow),
        };
        let final_position = time.position_validated(final_tick);
        if steps != 0 {
            self.commit_tick(final_tick);
        }
        Ok(final_position)
    }
}

#[derive(Debug, Clone, PartialEq, Eq)]
pub enum CitySaveError {
    Time(CityTimeError),
    Population(PopulationError),
}

impl CitySave {
    pub fn new_with_time_config(scenario: CityScenario, time: CityTimeConfig) -> (r: Result<
        Self,
        CitySaveError,
    >)
        ensures
            match spec_start(scenario, time, true, PopulationRules::spec_default()) {
                Ok(population) => r is Ok && r->Ok_0.ruleset.is_default()
                    && r->Ok_0.is_fresh_save(scenario, time, population),
                Err(e) => r == Err::<CitySave, _>(e),
            },
    {
        CitySave::new_with_config(scenario, time, CityRuleset::default())
    }

    pub fn time_position(&self) -> (r: Result<CityTimePosition, CityTimeError>)
        ensures
            r == (match self.time.spec_validate() {
                Ok(()) => Ok(position_of(self.time.spec_minutes_per_tick(), self.world.tick)),
                Err(e) => Err(e),
            }),
    {
        self.time.position(self.world.tick)
    }

    pub fn advance_tick(&mut self) -> (r: Result<CityTimePosition, CitySaveError>)
        ensures
            match advance_result(old(self).time.spec_minutes_per_tick(), old(self).world.tick, 1) {
                Ok((tick, position)) => r == Ok::<_, CitySaveError>(position) && *final(self) == (
                CitySave { world: CityWorld { tick, ..old(self).world }, ..*old(self) }),
                Err(e) => r == Err::<CityTimePosition, _>(CitySaveError::Time(e)) && *final(self)
                    == *old(self),
            },
    {
        self.advance_fixed_steps(1)
    }

    /// Advances the clock by `steps` ticks in one commit. Nothing but the tick
    /// changes, and nothing changes at all when the clock is invalid or would
    /// overflow.
    pub fn advance_fixed_steps(&mut self, steps: u64) -> (r: Result<CityTimePosition, CitySaveError>)
        ensures
            (*final(self), r) == spec_advance(*old(self), steps),
            match advance_result(old(self).time.spec_minutes_per_tick(), old(self).world.tick, steps) {
                Ok((tick, position)) => r == Ok::<_, CitySaveError>(position) && *final(self) == (
                CitySave { world: CityWorld { tick, ..old(self).world }, ..*old(self) }),
                Err(e) => r == Err::<CityTimePosition, _>(CitySaveError::Time(e)) && *final(self)
                    == *old(self),
            },
    {
        match self.world.advance_fixed_steps(self.time, steps) {
            Ok(p) => Ok(p),
            Err(e) => Err(CitySaveError::Time(e)),
        }
    }
}

} // verus!
