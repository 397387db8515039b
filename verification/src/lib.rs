//! The verified core of a pannable, zoomable texture canvas: a CPU-side pixel
//! buffer with change tracking, the gesture state machine of the widget that
//! displays it, and the policy that decides what is sent to the GPU each frame.

pub mod bitmap;
pub mod pixels;
pub mod widget;
