//! Verified core of an explicit-graphics-API rendering engine: per-frame
//! CPU/GPU synchronization and the ownership/teardown discipline for GPU
//! resources (instance, device context, command pool, buffers, pipeline).
//!
//! The engine's native API calls are `unsafe` driver entry points and are
//! performed by an unverified shell around this crate. That shell hands the
//! resulting native handles and wait/creation outcomes to this crate as plain
//! values; every decision — which fence a frame must wait on, which slot owns
//! a swapchain image, what may be torn down and in which order, whether a
//! mapped write fits — is made and proved here.

pub mod buffers;
pub mod command_pool;
pub mod device;
pub mod instance;
pub mod pipeline;
pub mod resources;
pub mod sync;
