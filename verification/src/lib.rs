//! A generation-advance engine for a toroidal Game-of-Life automaton with
//! homeostatic reseeding.
//!
//! The engine evolves a fixed-size two-dimensional binary grid under the
//! classic birth/survival rules, with one addition: when the settled
//! population of the previous generation falls below a configurable floor,
//! dead cells are stochastically reseeded from a deterministic per-coordinate
//! hash, which keeps the automaton from going extinct.
//!
//! The crate is organised bottom up: [`rng`] holds the deterministic hash
//! behind every pseudo-random draw; [`config`] the validated construction
//! options; [`grid`] the row-major toroidal grid; [`count`] the
//! population-counting specifications and their algebra; [`kernels`] the
//! seeding, counter-reset and update passes; [`buffers`] the double-buffered
//! grid/counter pair set; [`pipeline`] the kernel-readiness state machine;
//! and [`engine`] the orchestrator that drives one generation per tick.

pub mod buffers;
pub mod config;
pub mod count;
pub mod engine;
pub mod error;
pub mod grid;
pub mod kernels;
pub mod pipeline;
pub mod rng;
