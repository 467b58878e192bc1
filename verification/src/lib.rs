//! Instanced rendering of one indexed mesh: the renderer's buffers, its fixed
//! pipeline state and the draw commands it issues, as plain verified data.
//!
//! The renderer never touches a graphics device itself. It decides what the
//! device buffers hold, how the pipeline is configured and which commands a
//! frame consists of; whoever owns the device creates the resources from
//! these descriptions and replays the commands into a render pass.

pub mod buffer;
pub mod command;
pub mod geometry;
pub mod laws;
pub mod model_gpu;
pub mod pipeline;

pub use crate::buffer::{BufferUsage, DeviceBuffer};
pub use crate::command::{BufferBinding, BufferRole, RenderCommand};
pub use crate::geometry::{TriangleList, Vertex};
pub use crate::model_gpu::ModelGpu;
pub use crate::pipeline::{PipelineState, TextureFormat};
