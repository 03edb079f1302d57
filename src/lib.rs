//! Hot-swap runtime for a game plugin: the reload orchestrator, the
//! capability traits a plugin implements, the operator key chords and the
//! small pure helpers the host loop relies on.
pub mod controls;
pub mod interface;
pub mod listener;
pub mod util;
pub mod world;
