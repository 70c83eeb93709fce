//! A virtual-pet lifecycle engine.
//!
//! The library models one owner's pet and coin records and the rules that
//! govern them: lazy time-based stat decay, action-driven stat changes,
//! death determination, and a coin economy gating a cosmetic unlock.
//! The host around the engine supplies identity checks, persistence and the
//! clock; every decision is made here, on plain values, and is verified.

pub mod engine;
pub mod laws;
pub mod pet;

pub use engine::OwnerState;
pub use engine::TamagotchiContract;
pub use pet::Error;
pub use pet::Pet;
pub use pet::MAX_STAT;
