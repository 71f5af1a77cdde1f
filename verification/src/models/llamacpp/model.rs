//! Entries of the llama.cpp `/models` listing.

use vstd::prelude::*;
use crate::text::str_eq;

verus! {

/// Model architecture details.
#[derive(Debug)]
pub struct ModelArchitecture {
    /// Supported input modalities (e.g. "text").
    pub input_modalities: Vec<String>,

    /// Supported output modalities (e.g. "text").
    pub output_modalities: Vec<String>,
}

/// Model loading status.
#[derive(Debug)]
pub struct ModelStatus {
    /// Current status value (e.g. "unloaded", "loaded").
    pub value: String,

    /// Server command-line arguments used to load the model.
    pub args: Vec<String>,

    /// Preset configuration string.
    pub preset: String,
}

/// Optional metadata for a model.
#[derive(Debug)]
pub struct ModelMeta {
    pub vocab_type: u64,
    pub n_vocab: u64,
    pub n_ctx: u64,
    pub n_ctx_train: u64,
    pub n_embd: u64,
    pub n_params: u64,
    pub size: u64,
}

/// A single model entry.
#[derive(Debug)]
pub struct Model {
    pub id: String,
    pub aliases: Vec<String>,
    pub tags: Vec<String>,
    pub object: String,
    pub owned_by: String,
    pub created: u64,
    pub status: ModelStatus,
    pub architecture: ModelArchitecture,
    pub need_download: bool,
    pub meta: Option<ModelMeta>,
}

impl Model {
    /// `true` when the server reports the model as loaded.
    pub fn is_loaded(&self) -> (res: bool)
        ensures
            res == (self.status.value@ == "loaded"@),
    {
        str_eq(self.status.value.as_str(), "loaded")
    }
}

/// Root JSON structure of the model list.
#[derive(Debug)]
pub struct ListModelsResponse {
    pub data: Vec<Model>,
    pub object: String,
}

} // verus!
