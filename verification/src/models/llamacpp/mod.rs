//! Model listing of a llama.cpp server.

pub mod model;

pub use model::{ListModelsResponse, Model, ModelArchitecture, ModelMeta, ModelStatus};
