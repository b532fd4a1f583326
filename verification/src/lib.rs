//! A small rendering layer over a state-machine graphics API.
//!
//! The library owns the lifetime of GPU-side resources and decides every
//! request that is made of the graphics driver. It never talks to the driver
//! itself: each operation places [`command::Command`]s on a
//! [`context::Context`], the host performs them in order, and where the driver
//! answers (a compile report, an attribute slot, the contents of an image
//! file) the host hands the answer to the operation that continues the work.
//!
//! [`device`] models the graphics state that the commands act on, and
//! [`laws`] proves what the commands of each operation do to it.

pub mod command;
pub mod buffer;
pub mod context;
pub mod device;
pub mod geometry;
pub mod laws;
pub mod program;
pub mod renderer;
pub mod shader;
pub mod texture;
pub mod vertex_array;
