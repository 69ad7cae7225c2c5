//! On-demand fractal rendering: request validation, parameter packing,
//! render planning, read-back decoding and the two caches of the service.

pub mod cache;
pub mod color;
pub mod endpoint;
pub mod export;
pub mod fractal;
pub mod grimoire;
pub mod lookup;
pub mod pipeline;
pub mod render;
pub mod request;
pub mod uniforms;
