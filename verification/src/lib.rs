//! A GPU compute dispatch-and-readback pipeline, verified on the host side.
//!
//! Host data is uploaded to device memory, a compute kernel performs a
//! per-workgroup reduction, and the partial results are copied back through a
//! host-mappable staging buffer and summed on the host. The device itself is an
//! external collaborator; this crate holds the decisions the pipeline makes
//! around it: dispatch planning, buffer sizing and capability flags, binding
//! layout validation, command encoding, the strictly sequential readback
//! protocol, and the host-side reduction with its analytic cross-check.

pub mod binding;
pub mod bytes;
pub mod encoder;
pub mod error;
pub mod pipeline;
pub mod plan;
pub mod readback;
pub mod reduce;
pub mod report;
pub mod resources;
pub mod session;
