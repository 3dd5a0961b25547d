//! Verified core of a retained-mode GPU rendering session: a catalog of two
//! drawable shapes, the fixed render-pipeline description, the surface
//! configuration and resize rules, the shape-swap state machine, and the
//! per-frame triage of surface-acquisition outcomes. The host graphics and
//! windowing stacks sit outside this crate; the library decides, the caller
//! performs the I/O.

pub mod geometry;
pub mod pipeline;
pub mod session;
pub mod frame;
pub mod controller;
