# city_game_core

The verified core of a city-building game whose scenarios start from
OpenStreetMap data. The library in `src/` is written in Verus and verified:
its public functions state what they return in `requires`/`ensures` contracts,
and the laws that tie functions together are stated and proved as public proof
functions.

## Layout

- `src/text.rs` — code-point ordering, Unicode trimming, decimal reading and writing.
- `src/table.rs` — `KeyedTable`, a map kept as a vector strictly ordered by key, and a stable sort by key.
- `src/geometry.rs` — GeoJSON-shaped geometry holding coordinates as `f64` bit patterns.
- `src/model.rs` — the canonical scenario, the world state and the save.
- `src/osm.rs` — which OSM tags make roads, buildings, water, land use and transit, and how an import is assembled (SHA-256 through `sha2`).
- `src/osm_transform.rs` — import profiles that reshape a scenario.
- `src/planning.rs` — the player's planning overlay and the effective road network.
- `src/population.rs` — capacity, baseline population and RCI demand.
- `src/progression.rs` — data-driven unlocks evaluated to a fixed point.
- `src/rules.rs` — the ruleset: which systems run and their typed configuration.
- `src/time.rs` — the fixed-step clock.
- `src/commands.rs`, `src/queries.rs` — the write and read gateways of a save.
- `tests/` — scenario tests against the compiled library.
- `app/` — the command-line driver, JSON forms of the types, the OSM reader boundary, scene rendering and the WebAssembly boundary: the parts that do I/O or floating point.
