//! A live screen-capture pipeline.
//!
//! The pipeline coordinates three independently scheduled actors: a platform
//! event-pump thread, a frame-ready callback invoked on that thread, and a
//! consumer that polls or blocks for frames. This crate verifies the decision
//! logic of that coordination: the single-slot newest-wins frame mailbox, the
//! frame-pool manager's reaction to arrival and resize events, the capture
//! controller's lifecycle (start, frame, stop, and the shutdown handshake),
//! and the materialization step that crops a padded row-pitch surface down to
//! a tightly packed `height * width * 4` byte buffer.
//!
//! Everything the platform itself does — window message pumping, GPU surface
//! pools, thread wake-up messages — happens outside this crate; the embedding
//! runtime performs those effects and feeds the observed events back in as
//! plain values.

pub mod capture;
pub mod capture_utils;
pub mod direct_x;
pub mod frame;
pub mod laws;
pub mod mailbox;
pub mod monitor;
pub mod pool;
pub mod window;
