//! A live-coding shader sandbox core: renders a full-screen fragment shader,
//! feeds it a camera texture and a feedback texture holding the previous
//! frame's output, and hot-swaps the fragment stage in place when new source
//! text arrives, without stopping the render loop.
//!
//! The surrounding process supplies the window, the GPU device and queue, the
//! watched file's contents and the camera frames; everything from the device
//! onward — resource setup, shader validation, the atomic pipeline swap, the
//! per-frame feedback composition — lives here.

pub mod backbuffer;
pub mod frame;
pub mod gpu;
pub mod laws;
pub mod pipeline;
pub mod shader;
pub mod uniforms;
pub mod validation;
