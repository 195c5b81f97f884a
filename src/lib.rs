//! A retained-mode rendering core: pipelines scheduled inside render passes,
//! hierarchical resource bindings, and per-shader vertex-layout caching.
//! Drawing records the graphics-API calls it would make as `GpuOp`s in a
//! `Command`, in order; a backend issues them.

pub mod bitset;
pub mod gpu;
pub mod pool;
pub mod vao;
pub mod descriptor;
pub mod pipeline;
pub mod order;
pub mod executer;
pub mod renderpass;
pub mod resources;
pub mod screen;
pub mod updater;
pub mod event;
