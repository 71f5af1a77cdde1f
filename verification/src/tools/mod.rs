//! Tools the model can call, and the registry that routes its calls.

pub mod fs;
pub mod manager;
pub mod output;
pub mod system;
pub mod terminal;

pub use manager::{ToolCallError, ToolDispatch, ToolManager};
pub use system::SystemTool;
