//! A serialising access layer for the ngSPICE circuit simulator.
//!
//! ngSPICE is a process-global, non-reentrant engine that reports its
//! diagnostics through callbacks and its results through untyped buffers.
//! This library holds the rules of talking to it: which inputs may be
//! submitted, how they are laid out for the engine, where each diagnostic
//! line goes, in which order the engine is driven, and how its result
//! vectors become owned, typed data.

pub mod circuit;
pub mod engine;
pub mod error;
pub mod laws;
pub mod simulation;
pub mod sink;
pub mod table;
pub mod text;
pub mod vector;

pub use crate::engine::{NgSpice, Phase, Reply, Request, Step};
pub use crate::error::Error;
pub use crate::simulation::Simulation;
pub use crate::table::VectorTable;
pub use crate::vector::{DataType, RawVector, VectorInfo, VectorValues};
