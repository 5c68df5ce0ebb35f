//! Drawing one static white triangle through a WebGL-style rendering
//! context, with the pipeline's call sequence and error handling verified.
//!
//! The graphics driver lives outside this crate, so the run is modelled as a
//! step machine: the machine hands the caller batches of graphics calls to
//! perform, the caller hands back the driver's reply to the one decisive call
//! of each batch, and the machine decides what comes next - the next batch,
//! success once the draw call is out, or the error message the failing step
//! owes. The machine, the fixed triangle data, and the rules that pick each
//! error message are verified; a thin unverified driver performs the calls.

pub mod gl;
pub mod laws;
pub mod pipeline;
