//! A small runtime for terminal programs built on the model, update and view
//! pattern.
pub mod laws;
pub mod machine;
pub mod message;
pub mod model;
pub mod program;
pub mod runtime;

pub use message::{quit, Command, Key, Message, Task};
pub use model::Model;
pub use program::{frame, FramerateRenderer, Program, Renderer};
pub use runtime::{Effect, Runtime};
