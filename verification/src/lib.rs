//! Construction and configuration protocol for a Lua-scripted actor.
//!
//! An actor's three lifecycle hooks — `started`, `handle`, `stopped` — are
//! supplied as Lua script text through [`LuaActorBuilder`], each slot falling
//! back to a no-op script when left unset.  An optional VM-initialization
//! routine may be attached; it runs once against the fresh engine instance
//! during construction.  [`LuaActorBuilder::build`] compiles every hook and
//! runs the routine, returning the ready [`LuaActor`] or a [`BuildError`]
//! that tells a malformed script apart from a failed initialization.

pub mod actor;
pub mod builder;
pub mod engine;

pub use actor::{BuildError, InitializeVm, LuaActor, NoInit};
pub use builder::LuaActorBuilder;
