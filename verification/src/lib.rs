pub mod atlas;
pub mod bytes;
pub mod frame;
pub mod geometry;
pub mod input;
pub mod pipeline;
pub mod renderer;
pub mod scalar;

pub use atlas::{AtlasSync, GpuTextureMirror, SyncKind, TextureAtlas, TextureUpload};
pub use frame::{DrawCall, FramePlan, PaintBatch, RenderTarget, ScaledClip, ScissorRect};
pub use geometry::{EngineVertex, GpuVertex, TexCoord, TexCoordConvention};
pub use input::{EventBridge, FrameInput};
pub use pipeline::{ColorFormat, Pipeline, PipelineHandle, PipelineSetup};
pub use renderer::{EguiRenderer, EguiRendererDescriptor, FrameError, FrameStage};
pub use scalar::Scalar;
