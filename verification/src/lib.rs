//! Host side of a GPU-driven 2-D vector-graphics renderer.
//!
//! Shapes, fills and strokes are serialized into one flat stream of 32-bit
//! words plus a parallel table of per-draw metadata (bounding box and stream
//! offset); growable device buffers mirror both onto the graphics device and
//! report when a reallocation invalidates dependent binding state.
//!
//! Every word of the stream is carried as the 32-bit pattern of an IEEE 754
//! single-precision value. The host never interprets a word numerically: it
//! only lays words out, so a shape-kind tag placed in a word is recovered
//! bit-exactly by the device. Arithmetic on geometric values (the bounding-box
//! corners) is delegated to `glam` behind a narrow trusted boundary.

pub mod commands;
pub mod device;
pub mod fill;
pub mod gpu;
pub mod math;
pub mod prelude;
pub mod renderer;
pub mod screen;
pub mod shapes;
pub mod stroke;
pub mod vec_buffer;
