//! Safe planning core for a binding to a native image super-resolution
//! engine.
//!
//! The native engine itself — model inference, GPU kernels, tiling — is an
//! opaque collaborator behind a C ABI and is driven by the thin shim that
//! embeds this crate.  Everything the binding has to *decide* before and
//! after each native call lives here with a proved contract: choosing a
//! tile size from the device's heap budget, deriving model file paths,
//! validating the device index, normalizing pixel formats, sizing the
//! output buffer, reconstructing a typed image from the engine's raw
//! bytes, and the lifecycle protocol that frees each native resource
//! exactly once.

pub mod digits;
pub mod dispatch;
pub mod lifecycle;
pub mod marshal;
pub mod model;
pub mod tiles;
