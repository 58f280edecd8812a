//! Verified core of a small windowing and camera library: input state,
//! keyboard and mouse tables, surface bookkeeping and the
//! conversion of GPU read-back buffers into RGB images.

pub mod camera;
pub mod event;
pub mod keyboard;
pub mod input;
pub mod canvas;
pub mod format;
pub mod readback;
pub mod surface;
pub mod icon;
