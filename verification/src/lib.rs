//! Bridge between an external render-graph scheduler and a concrete
//! graphics backend.
//!
//! The scheduler owns a dependency graph of nodes and resources and, once
//! per frame, produces an ordered set of command batches together with
//! resource lifecycle requests.  This crate holds the host side of that
//! conversation: it translates the scheduler's abstract access model into
//! backend usage flags, materializes and destroys backend resources on
//! demand while leaving externally supplied resources untouched, decodes
//! the scheduler's raw node arguments into typed descriptors, and drives
//! the frame/completed-frame protocol that makes deferred destruction
//! safe while frames are in flight.

pub mod driver;
pub mod errors;
pub mod mapping;
pub mod materialize;
pub mod record;
pub mod resources;
