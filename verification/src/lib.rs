use vstd::prelude::*;

pub mod adapters;
pub mod amount;
pub mod assets;
pub mod content;
pub mod effect;
pub mod engine;
pub mod pipeline;
pub mod ids;
pub mod log;
pub mod registry;
pub mod registry_static;
pub mod rng;
pub mod rules;
pub mod setup;
pub mod state;
pub mod text;

verus! {
} // verus!
