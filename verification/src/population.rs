//! Aggregate population: capacity derived from the building stock, the occupied
//! baseline, and residential/commercial/industrial demand pressure.
use vstd::prelude::*;

use crate::model::{BuildingUse, CitySave, CityScenario, ScenarioBuilding};
use crate::table::KeyedTable;

verus! {

pub const BASIS_POINTS: u64 = 10_000;

pub const MAX_DEMAND_PRESSURE: i32 = 10_000;

#[derive(Debug, Clone, Copy, PartialEq, Eq, Structural)]
pub struct PopulationRules {
    pub residential_floor_area_m2_per_household: u32,
    pub commercial_floor_area_m2_per_job: u32,
    pub industrial_floor_area_m2_per_job: u32,
    pub initial_occupancy_basis_points: u16,
    pub target_occupancy_basis_points: u16,
}

#[derive(Debug, Clone, Copy, PartialEq, Eq)]
pub enum PopulationError {
    InvalidRule(&'static str),
    CapacityOverflow,
}

impl PopulationError {
    /// The error's message: the broken rule's text, or the overflow notice.
    pub open spec fn spec_message(self) -> Seq<char> {
        match self {
            PopulationError::InvalidRule(text) => text@,
            PopulationError::CapacityOverflow => "aggregate population capacity overflow"@,
        }
    }

    pub fn message(&self) -> (r: String)
        ensures
            r@ == self.spec_message(),
    {
        match self {
            PopulationError::InvalidRule(text) => String::from_str(text),
            PopulationError::CapacityOverflow => String::from_str(
                "aggregate population capacity overflow",
            ),
        }
    }
}

impl PopulationRules {
    /// The first rule that the configuration breaks, in the order they are checked.
    pub open spec fn spec_validate(self) -> Result<(), PopulationError> {
        if self.residential_floor_area_m2_per_household == 0 {
            Err(PopulationError::InvalidRule("residential floor area per household must be positive"))
        } else if self.commercial_floor_area_m2_per_job == 0 {
            Err(PopulationError::InvalidRule("commercial floor area per job must be positive"))
        } else if self.industrial_floor_area_m2_per_job == 0 {
            Err(PopulationError::InvalidRule("industrial floor area per job must be positive"))
        } else if self.initial_occupancy_basis_points > BASIS_POINTS {
            Err(
                PopulationError::InvalidRule(
                    "initial occupancy must be between 0 and 10000 basis points",
                ),
            )
        } else if self.target_occupancy_basis_points > BASIS_POINTS {
            Err(
                PopulationError::InvalidRule(
                    "target occupancy must be between 0 and 10000 basis points",
                ),
            )
        } else {
            Ok(())
        }
    }

    pub open spec fn is_valid(self) -> bool {
        self.spec_validate() is Ok
    }

    pub fn validate(self) -> (r: Result<(), PopulationError>)
        ensures
            r == self.spec_validate(),
    {
        if self.residential_floor_area_m2_per_household == 0 {
            return Err(
                PopulationError::InvalidRule(
                    "residential floor area per household must be positive",
                ),
            );
        }
        if self.commercial_floor_area_m2_per_job == 0 {
            return Err(PopulationError::InvalidRule("commercial floor area per job must be positive"));
        }
        if self.industrial_floor_area_m2_per_job == 0 {
            return Err(PopulationError::InvalidRule("industrial floor area per job must be positive"));
        }
        if self.initial_occupancy_basis_points as u64 > BASIS_POINTS {
            return Err(
                PopulationError::InvalidRule(
                    "initial occupancy must be between 0 and 10000 basis points",
                ),
            );
        }
        if self.target_occupancy_basis_points as u64 > BASIS_POINTS {
            return Err(
                PopulationError::InvalidRule(
                    "target occupancy must be between 0 and 10000 basis points",
                ),
            );
        }
        Ok(())
    }

    pub open spec fn spec_default() -> PopulationRules {
        PopulationRules {
            residential_floor_area_m2_per_household: 90,
            commercial_floor_area_m2_per_job: 35,
            industrial_floor_area_m2_per_job: 60,
            initial_occupancy_basis_points: 9_000,
            target_occupancy_basis_points: 9_000,
        }
    }
}

impl Default for PopulationRules {
    fn default() -> (r: Self)
        ensures
            r == PopulationRules::spec_default(),
    {
        PopulationRules {
            residential_floor_area_m2_per_household: 90,
            commercial_floor_area_m2_per_job: 35,
            industrial_floor_area_m2_per_job: 60,
            initial_occupancy_basis_points: 9_000,
            target_occupancy_basis_points: 9_000,
        }
    }
}

#[derive(Debug, Clone, Copy, PartialEq, Eq, Structural)]
pub struct PopulationCapacity {
    pub households: u64,
    pub commercial_jobs: u64,
    pub industrial_jobs: u64,
}

#[derive(Debug, Clone, Copy, PartialEq, Eq, Structural)]
pub struct PopulationState {
    pub households: u64,
    pub commercial_jobs: u64,
    pub industrial_jobs: u64,
}

#[derive(Debug, Clone, Copy, PartialEq, Eq, Structural)]
pub struct RciDemand {
    pub residential: i32,
    pub commercial: i32,
    pub industrial: i32,
}

impl Default for PopulationCapacity {
    fn default() -> (r: Self)
        ensures
            r == (PopulationCapacity { households: 0, commercial_jobs: 0, industrial_jobs: 0 }),
    {
        PopulationCapacity { households: 0, commercial_jobs: 0, industrial_jobs: 0 }
    }
}

impl PopulationState {
    pub open spec fn zero() -> PopulationState {
        PopulationState { households: 0, commercial_jobs: 0, industrial_jobs: 0 }
    }

    pub fn empty() -> (r: Self)
        ensures
            r == PopulationState::zero(),
    {
        PopulationState { households: 0, commercial_jobs: 0, industrial_jobs: 0 }
    }
}

impl Default for PopulationState {
    fn default() -> (r: Self)
        ensures
            r == PopulationState::zero(),
    {
        PopulationState::empty()
    }
}

impl Default for RciDemand {
    fn default() -> (r: Self)
        ensures
            r == (RciDemand { residential: 0, commercial: 0, industrial: 0 }),
    {
        RciDemand { residential: 0, commercial: 0, industrial: 0 }
    }
}

/// Floor area per unit for the building uses that carry capacity.
pub open spec fn divisor_for(use_kind: BuildingUse, rules: PopulationRules) -> nat {
    match use_kind {
        BuildingUse::Residential => rules.residential_floor_area_m2_per_household as nat,
        BuildingUse::Commercial => rules.commercial_floor_area_m2_per_job as nat,
        BuildingUse::Industrial => rules.industrial_floor_area_m2_per_job as nat,
        _ => 1,
    }
}

/// Whole units of `per_unit` square metres in `area` (none when `per_unit` is zero).
pub open spec fn units_of(area: nat, per_unit: nat) -> nat {
    if per_unit == 0 {
        0
    } else {
        area / per_unit
    }
}

/// Units of `use_kind` that the first `n` buildings offer, leaving out the ids in
/// `excluded`: each building contributes its floor area divided (rounding down)
/// by the floor area per unit.
pub open spec fn capacity_total(
    buildings: Seq<ScenarioBuilding>,
    excluded: Set<Seq<char>>,
    use_kind: BuildingUse,
    rules: PopulationRules,
    n: int,
) -> nat
    decreases n,
{
    if n <= 0 {
        0
    } else {
        let b = buildings[n - 1];
        let here: nat = if b.use_kind == use_kind && !excluded.contains(b.id@) {
            units_of(b.gross_floor_area_m2 as nat, divisor_for(use_kind, rules))
        } else {
            0
        };
        capacity_total(buildings, excluded, use_kind, rules, n - 1) + here
    }
}

proof fn lemma_capacity_total_monotone(
    buildings: Seq<ScenarioBuilding>,
    excluded: Set<Seq<char>>,
    use_kind: BuildingUse,
    rules: PopulationRules,
    n: int,
    m: int,
)
    requires
        0 <= n <= m,
    ensures
        capacity_total(buildings, excluded, use_kind, rules, n) <= capacity_total(
            buildings,
            excluded,
            use_kind,
            rules,
            m,
        ),
    decreases m - n,
{
    if n < m {
        lemma_capacity_total_monotone(buildings, excluded, use_kind, rules, n, m - 1);
        let b = buildings[m - 1];
        let here: nat = if b.use_kind == use_kind && !excluded.contains(b.id@) {
            units_of(b.gross_floor_area_m2 as nat, divisor_for(use_kind, rules))
        } else {
            0
        };
        assert(capacity_total(buildings, excluded, use_kind, rules, m) == capacity_total(
            buildings,
            excluded,
            use_kind,
            rules,
            m - 1,
        ) + here);
        assert(capacity_total(buildings, excluded, use_kind, rules, m - 1) <= capacity_total(
            buildings,
            excluded,
            use_kind,
            rules,
            m,
        ));
    }
}

/// Leaving more buildings out (suppressing them for redevelopment) never raises
/// the capacity of any use.
pub proof fn law_excluding_more_never_raises_capacity(
    buildings: Seq<ScenarioBuilding>,
    fewer: Set<Seq<char>>,
    more: Set<Seq<char>>,
    use_kind: BuildingUse,
    rules: PopulationRules,
    n: int,
)
    requires
        fewer.subset_of(more),
    ensures
        capacity_total(buildings, more, use_kind, rules, n) <= capacity_total(
            buildings,
            fewer,
            use_kind,
            rules,
            n,
        ),
    decreases n,
{
    if n > 0 {
        law_excluding_more_never_raises_capacity(buildings, fewer, more, use_kind, rules, n - 1);
        let b = buildings[n - 1];
        if !more.contains(b.id@) {
            assert(!fewer.contains(b.id@));
        }
    }
}

/// The capacity of all buildings of `buildings` whose ids are outside `excluded`,
/// or the error that deriving it meets.
pub open spec fn spec_capacity(
    buildings: Seq<ScenarioBuilding>,
    excluded: Set<Seq<char>>,
    rules: PopulationRules,
) -> Result<PopulationCapacity, PopulationError> {
    let n = buildings.len() as int;
    let h = capacity_total(buildings, excluded, BuildingUse::Residential, rules, n);
    let c = capacity_total(buildings, excluded, BuildingUse::Commercial, rules, n);
    let i = capacity_total(buildings, excluded, BuildingUse::Industrial, rules, n);
    if rules.spec_validate() is Err {
        Err(rules.spec_validate()->Err_0)
    } else if h > u64::MAX || c > u64::MAX || i > u64::MAX {
        Err(PopulationError::CapacityOverflow)
    } else {
        Ok(PopulationCapacity { households: h as u64, commercial_jobs: c as u64, industrial_jobs: i as u64 })
    }
}

/// Capacity of the buildings whose ids are not in `excluded`.
pub fn capacity_from_buildings(
    buildings: &Vec<ScenarioBuilding>,
    excluded: &KeyedTable<String>,
    rules: PopulationRules,
) -> (r: Result<PopulationCapacity, PopulationError>)
    ensures
        r == spec_capacity(buildings@, excluded.spec_keys(), rules),
{
    if let Err(e) = rules.validate() {
        return Err(e);
    }
    let ghost ex = excluded.spec_keys();
    let ghost n = buildings@.len() as int;
    let mut h: u64 = 0;
    let mut c: u64 = 0;
    let mut ind: u64 = 0;
    let mut i: usize = 0;
    while i < buildings.len()
        invariant
            0 <= i <= buildings@.len(),
            n == buildings@.len(),
            ex == excluded.spec_keys(),
            rules.is_valid(),
            h == capacity_total(buildings@, ex, BuildingUse::Residential, rules, i as int),
            c == capacity_total(buildings@, ex, BuildingUse::Commercial, rules, i as int),
            ind == capacity_total(buildings@, ex, BuildingUse::Industrial, rules, i as int),
        decreases buildings@.len() - i,
    {
        let b = &buildings[i];
        let counted = match b.use_kind {
            BuildingUse::Residential => true,
            BuildingUse::Commercial => true,
            BuildingUse::Industrial => true,
            _ => false,
        };
        if counted && !excluded.contains_key(b.id.as_str()) {
            let divisor: u32 = match b.use_kind {
                BuildingUse::Residential => rules.residential_floor_area_m2_per_household,
                BuildingUse::Commercial => rules.commercial_floor_area_m2_per_job,
                _ => rules.industrial_floor_area_m2_per_job,
            };
            let amount = b.gross_floor_area_m2 / (divisor as u64);
            assert(excluded.spec_keys().contains(b.id@) == excluded.spec_has(b.id@));
            match b.use_kind {
                BuildingUse::Residential => {
                    match h.checked_add(amount) {
                        Some(v) => h = v,
                        None => {
                            proof {
                                lemma_capacity_total_monotone(
                                    buildings@,
                                    ex,
                                    BuildingUse::Residential,
                                    rules,
                                    i + 1,
                                    n,
                                );
                            }
                            return Err(PopulationError::CapacityOverflow);
                        },
                    }
                },
                BuildingUse::Commercial => {
                    match c.checked_add(amount) {
                        Some(v) => c = v,
                        None => {
                            proof {
                                lemma_capacity_total_monotone(
                                    buildings@,
                                    ex,
                                    BuildingUse::Commercial,
                                    rules,
                                    i + 1,
                                    n,
                                );
                            }
                            return Err(PopulationError::CapacityOverflow);
                        },
                    }
                },
                _ => {
                    match ind.checked_add(amount) {
                        Some(v) => ind = v,
                        None => {
                            proof {
                                lemma_capacity_total_monotone(
                                    buildings@,
                                    ex,
                                    BuildingUse::Industrial,
                                    rules,
                                    i + 1,
                                    n,
                                );
                            }
                            return Err(PopulationError::CapacityOverflow);
                        },
                    }
                },
            }
        } else {
            assert(!counted ==> b.use_kind != BuildingUse::Residential && b.use_kind
                != BuildingUse::Commercial && b.use_kind != BuildingUse::Industrial);
        }
        i = i + 1;
    }
    Ok(PopulationCapacity { households: h, commercial_jobs: c, industrial_jobs: ind })
}

/// `value` scaled by `basis_points` ten-thousandths, rounding down.
pub open spec fn scaled(value: nat, basis_points: nat) -> nat {
    (value * basis_points / 10_000) as nat
}

/// A share of at most all of `value` stays within `value`.
pub proof fn lemma_scaled_within(value: nat, basis_points: nat)
    requires
        basis_points <= 10_000,
    ensures
        scaled(value, basis_points) <= value,
{
    assert(value * basis_points <= value * 10_000) by (nonlinear_arith)
        requires
            basis_points <= 10_000,
    ;
    assert((value * basis_points) / 10_000 <= value) by (nonlinear_arith)
        requires
            value * basis_points <= value * 10_000,
    ;
}

pub fn apply_basis_points(value: u64, basis_points: u16) -> (r: u64)
    requires
        scaled(value as nat, basis_points as nat) <= u64::MAX,
    ensures
        r == scaled(value as nat, basis_points as nat),
        basis_points <= BASIS_POINTS ==> r <= value,
{
    proof {
        assert((value as u128) * (basis_points as u128) <= (u64::MAX as u128) * 65_535) by (
        nonlinear_arith)
            requires
                value <= u64::MAX,
                basis_points <= 65_535,
        ;
    }
    let product: u128 = (value as u128) * (basis_points as u128);
    let q: u128 = product / 10_000u128;
    proof {
        assert(product == value * basis_points) by (nonlinear_arith)
            requires
                product == (value as u128) * (basis_points as u128),
        ;
        if basis_points <= BASIS_POINTS {
            lemma_scaled_within(value as nat, basis_points as nat);
        }
    }
    q as u64
}

/// Demand pressure in basis points: how far occupancy stands from the target share
/// of capacity, relative to that target, truncated toward zero and bounded by
/// `MAX_DEMAND_PRESSURE` either way. With no capacity it is zero when nothing is
/// occupied and the maximum otherwise.
pub open spec fn pressure(occupied: nat, capacity: nat, target_basis_points: nat) -> int {
    if capacity == 0 {
        if occupied == 0 {
            0
        } else {
            MAX_DEMAND_PRESSURE as int
        }
    } else {
        let t = scaled(capacity, target_basis_points);
        let target: nat = if t >= 1 {
            t
        } else {
            1
        };
        let magnitude: int = if occupied >= target {
            ((occupied - target) * 10_000) / (target as int)
        } else {
            -(((target - occupied) * 10_000) / (target as int))
        };
        if magnitude > MAX_DEMAND_PRESSURE {
            MAX_DEMAND_PRESSURE as int
        } else if magnitude < -MAX_DEMAND_PRESSURE {
            -MAX_DEMAND_PRESSURE as int
        } else {
            magnitude
        }
    }
}

pub fn demand_pressure(occupied: u64, capacity: u64, target_basis_points: u16) -> (r: i32)
    requires
        scaled(capacity as nat, target_basis_points as nat) <= u64::MAX,
    ensures
        r as int == pressure(occupied as nat, capacity as nat, target_basis_points as nat),
        -MAX_DEMAND_PRESSURE <= r <= MAX_DEMAND_PRESSURE,
{
    if capacity == 0 {
        return if occupied == 0 {
            0
        } else {
            MAX_DEMAND_PRESSURE
        };
    }
    let scaled_target = apply_basis_points(capacity, target_basis_points);
    let target: u64 = if scaled_target >= 1 {
        scaled_target
    } else {
        1
    };
    if occupied >= target {
        let diff: u128 = (occupied - target) as u128;
        let num: u128 = diff * 10_000u128;
        let q: u128 = num / (target as u128);
        proof {
            assert(num == (occupied - target) * 10_000) by (nonlinear_arith)
                requires
                    num == diff * 10_000,
                    diff == occupied - target,
                    diff <= u64::MAX,
            ;
        }
        if q > 10_000 {
            MAX_DEMAND_PRESSURE
        } else {
            q as i32
        }
    } else {
        let diff: u128 = (target - occupied) as u128;
        let num: u128 = diff * 10_000u128;
        let q: u128 = num / (target as u128);
        proof {
            assert(num == (target - occupied) * 10_000) by (nonlinear_arith)
                requires
                    num == diff * 10_000,
                    diff == target - occupied,
                    diff <= u64::MAX,
            ;
        }
        if q > 10_000 {
            -MAX_DEMAND_PRESSURE
        } else {
            -(q as i32)
        }
    }
}

/// The sign of the demand pressure says on which side of the target occupancy
/// the population stands. With some capacity, the target is the target share of
/// the capacity, `floor(capacity * target_basis_points / 10000)`, and at least one:
/// pressure is positive only above it and negative only below it, never negative
/// at or above it and never positive at or below it; at twice the target or more
/// it is the maximum.
pub proof fn law_pressure_sign_follows_the_target(occupied: nat, capacity: nat, target_basis_points: nat)
    requires
        capacity > 0,
    ensures
        ({
            let share: int = ((capacity * target_basis_points) / 10_000) as int;
            let target: int = if share >= 1 {
                share
            } else {
                1
            };
            &&& pressure(occupied, capacity, target_basis_points) > 0 ==> occupied > target
            &&& pressure(occupied, capacity, target_basis_points) < 0 ==> occupied < target
            &&& occupied >= target ==> pressure(occupied, capacity, target_basis_points) >= 0
            &&& occupied <= target ==> pressure(occupied, capacity, target_basis_points) <= 0
            &&& occupied >= 2 * target ==> pressure(occupied, capacity, target_basis_points)
                == MAX_DEMAND_PRESSURE as int
        }),
{
    let t = scaled(capacity, target_basis_points);
    let target: nat = if t >= 1 {
        t
    } else {
        1
    };
    if occupied >= target {
        let d: int = occupied - target;
        assert(d * 10_000 >= 0) by (nonlinear_arith)
            requires
                d >= 0,
        ;
        vstd::arithmetic::div_mod::lemma_div_pos_is_pos(d * 10_000, target as int);
        if occupied >= 2 * target {
            assert(d * 10_000 >= 10_000 * target) by (nonlinear_arith)
                requires
                    d >= target,
                    target >= 1,
            ;
            vstd::arithmetic::div_mod::lemma_div_is_ordered(
                (10_000 * target) as int,
                d * 10_000,
                target as int,
            );
            vstd::arithmetic::div_mod::lemma_div_multiples_vanish(10_000, target as int);
        }
    } else {
        let d: int = target - occupied;
        assert(d * 10_000 >= 0) by (nonlinear_arith)
            requires
                d >= 0,
        ;
        vstd::arithmetic::div_mod::lemma_div_pos_is_pos(d * 10_000, target as int);
    }
}

/// More occupants never lower the demand pressure.
pub proof fn law_pressure_grows_with_occupancy(
    o1: nat,
    o2: nat,
    capacity: nat,
    target_basis_points: nat,
)
    requires
        o1 <= o2,
    ensures
        pressure(o1, capacity, target_basis_points) <= pressure(o2, capacity, target_basis_points),
{
    if capacity > 0 {
        let t = scaled(capacity, target_basis_points);
        let target: nat = if t >= 1 {
            t
        } else {
            1
        };
        law_pressure_sign_follows_the_target(o1, capacity, target_basis_points);
        law_pressure_sign_follows_the_target(o2, capacity, target_basis_points);
        if o1 >= target {
            assert((o1 - target) * 10_000 <= (o2 - target) * 10_000) by (nonlinear_arith)
                requires
                    o1 <= o2,
                    o1 >= target,
            ;
            vstd::arithmetic::div_mod::lemma_div_is_ordered(
                (o1 - target) * 10_000,
                (o2 - target) * 10_000,
                target as int,
            );
        } else if o2 < target {
            assert((target - o2) * 10_000 <= (target - o1) * 10_000) by (nonlinear_arith)
                requires
                    o1 <= o2,
                    o2 < target,
            ;
            vstd::arithmetic::div_mod::lemma_div_is_ordered(
                (target - o2) * 10_000,
                (target - o1) * 10_000,
                target as int,
            );
        }
    }
}

/// The baseline population of a capacity: each kind occupied at the initial share.
pub open spec fn spec_baseline(capacity: PopulationCapacity, rules: PopulationRules) -> PopulationState {
    PopulationState {
        households: scaled(
            capacity.households as nat,
            rules.initial_occupancy_basis_points as nat,
        ) as u64,
        commercial_jobs: scaled(
            capacity.commercial_jobs as nat,
            rules.initial_occupancy_basis_points as nat,
        ) as u64,
        industrial_jobs: scaled(
            capacity.industrial_jobs as nat,
            rules.initial_occupancy_basis_points as nat,
        ) as u64,
    }
}

/// Baseline population of a scenario's full building stock, or the error met.
pub open spec fn spec_scenario_baseline(scenario: CityScenario, rules: PopulationRules) -> Result<
    PopulationState,
    PopulationError,
> {
    match spec_capacity(scenario.buildings@, Set::empty(), rules) {
        Ok(capacity) => Ok(spec_baseline(capacity, rules)),
        Err(e) => Err(e),
    }
}

/// Demand of a population against a capacity under valid rules.
pub open spec fn spec_demand(
    state: PopulationState,
    capacity: PopulationCapacity,
    rules: PopulationRules,
) -> RciDemand {
    RciDemand {
        residential: pressure(
            state.households as nat,
            capacity.households as nat,
            rules.target_occupancy_basis_points as nat,
        ) as i32,
        commercial: pressure(
            state.commercial_jobs as nat,
            capacity.commercial_jobs as nat,
            rules.target_occupancy_basis_points as nat,
        ) as i32,
        industrial: pressure(
            state.industrial_jobs as nat,
            capacity.industrial_jobs as nat,
            rules.target_occupancy_basis_points as nat,
        ) as i32,
    }
}

impl PopulationCapacity {
    pub fn from_scenario(scenario: &CityScenario, rules: PopulationRules) -> (r: Result<
        Self,
        PopulationError,
    >)
        ensures
            r == spec_capacity(scenario.buildings@, Set::empty(), rules),
    {
        let none: KeyedTable<String> = KeyedTable::new();
        proof {
            assert(none.spec_keys() =~= Set::<Seq<char>>::empty());
        }
        capacity_from_buildings(&scenario.buildings, &none, rules)
    }
}

impl PopulationState {
    pub fn baseline_from_scenario(scenario: &CityScenario, rules: PopulationRules) -> (r: Result<
        Self,
        PopulationError,
    >)
        ensures
            r == spec_scenario_baseline(*scenario, rules),
    {
        let capacity = match PopulationCapacity::from_scenario(scenario, rules) {
            Ok(c) => c,
            Err(e) => return Err(e),
        };
        proof {
            let bp = rules.initial_occupancy_basis_points as nat;
            lemma_scaled_within(capacity.households as nat, bp);
            lemma_scaled_within(capacity.commercial_jobs as nat, bp);
            lemma_scaled_within(capacity.industrial_jobs as nat, bp);
        }
        Ok(
            PopulationState {
                households: apply_basis_points(
                    capacity.households,
                    rules.initial_occupancy_basis_points,
                ),
                commercial_jobs: apply_basis_points(
                    capacity.commercial_jobs,
                    rules.initial_occupancy_basis_points,
                ),
                industrial_jobs: apply_basis_points(
                    capacity.industrial_jobs,
                    rules.initial_occupancy_basis_points,
                ),
            },
        )
    }

    pub fn demand(self, capacity: PopulationCapacity, rules: PopulationRules) -> (r: Result<
        RciDemand,
        PopulationError,
    >)
        ensures
            rules.spec_validate() is Err ==> r == Err::<RciDemand, _>(rules.spec_validate()->Err_0),
            rules.spec_validate() is Ok ==> r == Ok::<_, PopulationError>(
                spec_demand(self, capacity, rules),
            ),
    {
        if let Err(e) = rules.validate() {
            return Err(e);
        }
        proof {
            let bp = rules.target_occupancy_basis_points as nat;
            lemma_scaled_within(capacity.households as nat, bp);
            lemma_scaled_within(capacity.commercial_jobs as nat, bp);
            lemma_scaled_within(capacity.industrial_jobs as nat, bp);
        }
        Ok(
            RciDemand {
                residential: demand_pressure(
                    self.households,
                    capacity.households,
                    rules.target_occupancy_basis_points,
                ),
                commercial: demand_pressure(
                    self.commercial_jobs,
                    capacity.commercial_jobs,
                    rules.target_occupancy_basis_points,
                ),
                industrial: demand_pressure(
                    self.industrial_jobs,
                    capacity.industrial_jobs,
                    rules.target_occupancy_basis_points,
                ),
            },
        )
    }
}

impl CitySave {
    /// Whether the scenario's full building stock yields a capacity under the
    /// save's population rules.
    pub fn validate_population_configuration(&self) -> (r: Result<(), PopulationError>)
        ensures
            r == (match spec_capacity(
                self.scenario.buildings@,
                Set::empty(),
                self.ruleset.population.config,
            ) {
                Ok(_) => Ok(()),
                Err(e) => Err(e),
            }),
    {
        match PopulationCapacity::from_scenario(&self.scenario, self.ruleset.population.config) {
            Ok(_) => Ok(()),
            Err(e) => Err(e),
        }
    }

    /// Capacity of the buildings that are still developed: suppressed imported
    /// buildings (redeveloped by the player) offer none.
    pub fn developed_population_capacity(&self) -> (r: Result<PopulationCapacity, PopulationError>)
        ensures
            r == spec_capacity(
                self.scenario.buildings@,
                self.world.planning.suppressed_scenario_entities.spec_keys(),
                self.ruleset.population.config,
            ),
    {
        capacity_from_buildings(
            &self.scenario.buildings,
            &self.world.planning.suppressed_scenario_entities,
            self.ruleset.population.config,
        )
    }

    /// Demand of the current population against the developed capacity.
    pub fn rci_demand(&self) -> (r: Result<RciDemand, PopulationError>)
        ensures
            r == (match spec_capacity(
                self.scenario.buildings@,
                self.world.planning.suppressed_scenario_entities.spec_keys(),
                self.ruleset.population.config,
            ) {
                Ok(capacity) => Ok(spec_demand(self.world.population, capacity, self.ruleset.population.config)),
                Err(e) => Err(e),
            }),
    {
        let capacity = match self.developed_population_capacity() {
            Ok(c) => c,
            Err(e) => return Err(e),
        };
        self.world.population.demand(capacity, self.ruleset.population.config)
    }

    pub(crate) fn scenario_population_baseline(&self) -> (r: Result<PopulationState, PopulationError>)
        ensures
            r == spec_scenario_baseline(self.scenario, self.ruleset.population.config),
    {
        PopulationState::baseline_from_scenario(&self.scenario, self.ruleset.population.config)
    }
}

proof fn lemma_capacity_total_same_divisors(
    buildings: Seq<ScenarioBuilding>,
    excluded: Set<Seq<char>>,
    use_kind: BuildingUse,
    a: PopulationRules,
    b: PopulationRules,
    n: int,
)
    requires
        a.residential_floor_area_m2_per_household == b.residential_floor_area_m2_per_household,
        a.commercial_floor_area_m2_per_job == b.commercial_floor_area_m2_per_job,
        a.industrial_floor_area_m2_per_job == b.industrial_floor_area_m2_per_job,
    ensures
        capacity_total(buildings, excluded, use_kind, a, n) == capacity_total(
            buildings,
            excluded,
            use_kind,
            b,
            n,
        ),
    decreases n,
{
    if n > 0 {
        lemma_capacity_total_same_divisors(buildings, excluded, use_kind, a, b, n - 1);
    }
}

/// A new scenario's population is its capacity at the initial occupancy: each
/// kind is `floor(capacity * initial_occupancy_basis_points / 10000)`, and the
/// baseline exists exactly when the capacity does.
pub proof fn law_baseline_is_the_initial_share_of_capacity(scenario: CityScenario, rules: PopulationRules)
    ensures
        spec_scenario_baseline(scenario, rules) is Ok <==> spec_capacity(
            scenario.buildings@,
            Set::empty(),
            rules,
        ) is Ok,
        spec_scenario_baseline(scenario, rules) matches Ok(p) ==> {
            let c = spec_capacity(scenario.buildings@, Set::empty(), rules)->Ok_0;
            &&& p.households as int == c.households * (rules.initial_occupancy_basis_points as int) / 10_000
            &&& p.commercial_jobs as int == c.commercial_jobs * (rules.initial_occupancy_basis_points as int)
                / 10_000
            &&& p.industrial_jobs as int == c.industrial_jobs * (rules.initial_occupancy_basis_points as int)
                / 10_000
        },
{
    if spec_capacity(scenario.buildings@, Set::empty(), rules) is Ok {
        let c = spec_capacity(scenario.buildings@, Set::empty(), rules)->Ok_0;
        let bp = rules.initial_occupancy_basis_points as nat;
        lemma_scaled_within(c.households as nat, bp);
        lemma_scaled_within(c.commercial_jobs as nat, bp);
        lemma_scaled_within(c.industrial_jobs as nat, bp);
    }
}

/// The target occupancy plays no part in the baseline: two valid rule sets that
/// differ only in their target give the same baseline.
pub proof fn law_baseline_ignores_the_target(scenario: CityScenario, rules: PopulationRules, target: u16)
    requires
        rules.target_occupancy_basis_points <= 10_000,
        target <= 10_000,
    ensures
        spec_scenario_baseline(scenario, PopulationRules { target_occupancy_basis_points: target, ..rules })
            == spec_scenario_baseline(scenario, rules),
{
    let other = PopulationRules { target_occupancy_basis_points: target, ..rules };
    let n = scenario.buildings@.len() as int;
    lemma_capacity_total_same_divisors(scenario.buildings@, Set::empty(), BuildingUse::Residential, other, rules, n);
    lemma_capacity_total_same_divisors(scenario.buildings@, Set::empty(), BuildingUse::Commercial, other, rules, n);
    lemma_capacity_total_same_divisors(scenario.buildings@, Set::empty(), BuildingUse::Industrial, other, rules, n);
}

} // verus!
