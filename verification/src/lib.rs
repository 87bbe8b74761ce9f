//! A GPU pipeline and resource lifecycle manager: it lazily compiles and
//! caches pipeline objects keyed by a stable shader identity, assembles
//! resolved binding sets against a compiled pipeline's expected layout, and
//! coordinates the per-frame lifecycle (begin frame, draw or dispatch, end
//! frame) with a frame-cycle counter that never reads zero.
//!
//! The native graphics backend is modelled by [`backend::Context`], which
//! records exactly the state the contracts speak of: the pipeline cache, the
//! surface size, the current frame and the commands recorded for it.

pub mod assets;
pub mod attributes;
pub mod backend;
pub mod binding;
pub mod color;
pub mod error;
pub mod handles;
pub mod ids;
pub mod pipeline;
pub mod renderer;
pub mod shader;
pub mod terrain;
pub mod widget;

pub use color::Color;
pub use error::RenderError;
pub use ids::Id;
pub use renderer::Renderer;
