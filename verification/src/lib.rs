//! Layout and protocol rules for running a per-pixel compute kernel over an
//! RGBA8 image on a GPU: row alignment, the resources and commands of one
//! dispatch and their order, and the recovery of tightly packed pixels from a
//! padded readback. The library decides and computes; its caller talks to
//! the GPU.

pub mod acquire;
pub mod align;
pub mod destride;
pub mod dispatch;
pub mod error;
pub mod layout;
pub mod readback;
pub mod session;
pub mod steps;
