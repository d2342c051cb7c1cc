//! Deterministic simulation core for a two-player fighting game.
//!
//! The simulation advances in fixed ticks. Each tick, per fighter: the raw
//! button state is folded with the previous tick's edge state (`input`), a
//! single semantic command is derived (`intent`), the fighter's stance
//! machine advances (`stance`), integer physics runs (`physics`), and the
//! blast-zone check despawns or respawns fighters (`death`). All state is
//! plain integers so that re-running a tick from a saved snapshot with the
//! same inputs reproduces bit-identical results, as rollback networking
//! requires.

pub mod action;
pub mod characteristics;
pub mod death;
pub mod input;
pub mod intent;
pub mod machine;
pub mod physics;
pub mod stance;
pub mod world;
