//! A minimal real-time rendering engine core: a render context owning a
//! shader-program registry, a leak-free shader compile/link pipeline, a
//! window with a fixed-cadence render/event loop, and a reference cellular
//! automaton scene that plugs into the loop.

pub mod context;
pub mod gol;
pub mod pipeline;
pub mod registry;
pub mod renderer;
pub mod window;

pub use context::RenderCtx;
pub use gol::{Gol, BASE_PERIOD_FRAMES, GRID_SIZE};
pub use pipeline::{GlCommand, PipelineState, ShaderKind, ShaderPipeline, ShaderStage};
pub use registry::ProgramRegistry;
pub use renderer::Renderer;
pub use window::{
    ClearColor, DispatchOutcome, Drawable, InputAction, InputEvent, KeyCallback, LoopState,
    MouseButtonCallback, RenderBackend, ScrollCallback, Window, CANCEL_KEY, FRAME_STEP_NANOS,
};
