//! Verified core of the `tars` terminal assistant and its OpenAI-compatible
//! chat-completion data model.

pub mod args;
pub mod chat;
pub mod cli;
pub mod completion_ex;
pub mod lines;
pub mod llama_server;
pub mod llamacpp_server;
pub mod models;
pub mod openai;
pub mod provider;
pub mod term;
pub mod text;
pub mod tools;
pub mod tui;
