//! Ahead-of-time initialization of a Ruby runtime inside a WebAssembly sandbox:
//! the guest lifecycle, the evaluation bridge, the preload loader and the
//! host-side snapshot plan, as verified decision logic over plain values.

pub mod assets;
pub mod bridge;
pub mod decimal;
pub mod guest;
pub mod preload;
pub mod sandbox;
pub mod staged;
