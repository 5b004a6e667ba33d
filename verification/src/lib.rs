//! Typed wrappers around the resources of an OpenGL driver: shader objects,
//! program objects and the window that owns the rendering context.
//!
//! The driver itself is never called from here. Every operation is a decision
//! over what the driver has answered so far; the caller performs the requests
//! that the decisions name and hands the answers back.

pub mod driver;
pub mod error;
pub mod program;
pub mod shader;
pub mod window;

pub use driver::{Answers, Request, Step, Target};
pub use error::GLError;
pub use program::Program;
pub use shader::{GLType, Shader, ShaderType};
pub use window::{Action, Key, Lifecycle, Renderer, WindowEvent};
