//! Scenario, simulation state, progression, planning and population core of a
//! city-building game whose scenarios are imported from OpenStreetMap.
use vstd::prelude::*;

pub mod commands;
pub mod geometry;
pub mod model;
pub mod osm;
pub mod osm_transform;
pub mod planning;
pub mod population;
pub mod progression;
pub mod queries;
pub mod rules;
pub mod table;
pub mod text;
pub mod time;

verus! {

} // verus!
