//! A verified match engine for a two-team, four-robot soccer simulation.
//!
//! The library holds the decision core of the simulator: the command-to-motion
//! mapping, the referee rule engine (scoring, out-of-bounds handling, penalty
//! lifecycle, possession-abuse detection) and the snapshot assembly. The
//! rigid-body solver itself lives outside the library; each tick the caller
//! applies the actuation the engine computed, advances the solver, and hands
//! the observed poses back.
//!
//! All quantities are fixed-point integers: micrometers and microradians at
//! the interface, multiplied by `constants::UNIT_SCALE` inside the solver
//! mirror.

pub mod actuation;
pub mod constants;
pub mod control;
pub mod game_controller;
pub mod game_state;
pub mod maths;
pub mod referee;
pub mod simulation;
pub mod steering;
pub mod wasm_server_runner;
pub mod zeromq;

