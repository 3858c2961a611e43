//! The names that a program using the harness needs.
pub use crate::config::{DrawMode, PhysicalSize, RunMode, WindowConfig};
pub use crate::error::ErrorKind;
pub use crate::phase::{
    WithDrawSettings, WithUniforms, WithVertices, WithoutDrawSettings, WithoutUniforms,
    WithoutVertices,
};
pub use crate::program::{Frame, Handle, Program, Workflow};
pub use crate::scheduler::{Action, Event, Scheduler};
pub use crate::utils;
