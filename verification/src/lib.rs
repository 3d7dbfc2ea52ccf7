//! A bridge between an immediate-mode GUI library and a 2D game engine.
//!
//! The crate is a pure adapter: it owns no widget logic and no rendering
//! algorithm.  It translates host input events into the GUI library's event
//! vocabulary ([`events`]), converts the GUI library's tessellated meshes and
//! font atlas into the engine's native buffer formats ([`mesh`]), and keeps
//! the small amount of per-frame bookkeeping (the pending input batch and the
//! running frame clock, [`state`]).
//!
//! All data is modelled with the crate's own plain-value types; the embedding
//! application converts at the edges, performs the GPU uploads and draw
//! calls, and queries the host for pointer position and held modifier keys.

pub mod events;
pub mod mesh;
pub mod state;
