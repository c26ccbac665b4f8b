//! Verified planning logic of a 2D particle renderer built on radiance cascades.
//!
//! The library decides what the GPU is asked to do: which resources exist and with
//! which sizes, which compute passes a frame dispatches and with which immediate data,
//! and how the window reacts to its events. The program around it performs the
//! device calls that these plans describe.

pub mod buffer;
pub mod frame;
pub mod gpu;
pub mod options;
pub mod window;

pub use buffer::BufferLayout;
pub use frame::{
    ComputeDispatch, ComputeStage, IMMEDIATES_SIZE, Immediates, WORKGROUP_SIDE, encode_immediates,
    frame_dispatches,
};
pub use gpu::{
    BindGroupSlot, EntryPoint, GpuPlan, PARTICLE_CAPACITY, PipelineSpec, ShaderSource, StorageAccess,
    StorageBinding, TextureFormat, TextureSpec,
};
pub use options::AppOptions;
pub use window::{SurfaceSpec, WindowAction, WindowInput, WindowModel, window_event};
