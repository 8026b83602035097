//! Shading core of a software 2D rasterizer.
//!
//! A [`shader::Shader`] is a closed set of paint sources: a flat color, a
//! linear gradient, a radial gradient, or an image pattern.  Each variant can
//! report whether it is guaranteed to produce fully opaque output, compile
//! itself into a sequence of per-pixel stages appended to a shared pipeline
//! builder, and absorb a geometric transform update.

pub mod color;
pub mod geom;
pub mod pipeline;
pub mod shader;

pub use color::Color;
pub use color::GradientStop;
pub use geom::Transform;
pub use pipeline::ContextStorage;
pub use pipeline::RasterPipelineBuilder;
pub use pipeline::Stage;
pub use pipeline::StageCtx;
pub use pipeline::StageRec;
pub use shader::FilterQuality;
pub use shader::Gradient;
pub use shader::LinearGradient;
pub use shader::Pattern;
pub use shader::RadialGradient;
pub use shader::Shader;
pub use shader::SpreadMode;
