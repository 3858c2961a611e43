//! A harness that turns a pair of shaders and a few resource factories into
//! a paced render loop: a builder whose type keeps track of what has been
//! configured, and a scheduler that decides, step by step, what the loop
//! does next.
pub mod config;
pub mod error;
pub mod phase;
pub mod prelude;
pub mod program;
pub mod runs;
pub mod scheduler;
pub mod utils;

pub use crate::config::{DrawMode, RunMode, WindowConfig};
pub use crate::phase::{
    WithDrawSettings, WithUniforms, WithVertices, WithoutDrawSettings, WithoutUniforms,
    WithoutVertices,
};
pub use crate::program::{Handle, Program, Workflow};
