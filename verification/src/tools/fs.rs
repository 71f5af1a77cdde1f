//! A file-writing tool: `write_file_content` with an absolute path.
//!
//! Writing the file is outside work; here are its answers.

use vstd::prelude::*;
use vstd::string::*;
use crate::models::{ChatCompletion, ChatCompletionBuilder, ChatCompletionTool, FunctionDefinition};
use crate::models::tool::definition::{json_parsed, parsed_json};
use crate::text::{str_eq, text_of};
use super::system::{error_json, error_object};

verus! {

broadcast use vstd::string::group_string_axioms;

/// Why a file system tool call failed.
#[derive(Debug, Clone)]
pub enum FileSystemToolError<'a> {
    InvalidArguments(&'a str),
    FileWriteFailed(&'a str),
}

impl<'a> FileSystemToolError<'a> {
    /// The message carried in the JSON error.
    pub open spec fn spec_message(self) -> Seq<char> {
        match self {
            FileSystemToolError::InvalidArguments(s) => "InvalidArguments: "@ + s@,
            FileSystemToolError::FileWriteFailed(s) => "FileWriteFailed: "@ + s@,
        }
    }

    /// The error as the JSON object `{"error": <message>}`.
    pub fn as_json_string(&self) -> (res: String)
        ensures
            res@ == error_json(self.spec_message()),
    {
        let mut m = match self {
            FileSystemToolError::InvalidArguments(_) => String::from_str("InvalidArguments: "),
            FileSystemToolError::FileWriteFailed(_) => String::from_str("FileWriteFailed: "),
        };
        match self {
            FileSystemToolError::InvalidArguments(s) => m.append(s),
            FileSystemToolError::FileWriteFailed(s) => m.append(s),
        }
        error_object(m.as_str())
    }
}

/// Arguments of `write_file_content`.
#[derive(Debug)]
pub struct WriteFileContentArgs {
    pub path: String,
    pub content: String,
}

/// What the model is told `write_file_content` does.
pub const WRITE_FILE_CONTENT_DESCRIPTION: &'static str = "Write content to a file. 'path' and 'content' is REQUIRED and must always be provided. Path must begin with '/' or '~/'. Never use relative paths. Do not call this tool if a valid path is not known. The file is created if it does not exist and fully overwritten if it exists.";

/// The JSON Schema of the arguments of `write_file_content`.
pub const WRITE_FILE_CONTENT_PARAMETERS: &'static str = "{\n  \"type\": \"object\",\n  \"properties\": {\n    \"path\": {\n      \"type\": \"string\",\n      \"description\": \"REQUIRED. Absolute file path. Must start with '/' or '~/'.\"\n    },\n    \"content\": {\n      \"type\": \"string\",\n      \"description\": \"REQUIRED. Content to write into the file.\"\n    }\n  },\n  \"required\": [\"path\", \"content\"],\n  \"additionalProperties\": false\n}";

/// The file system tool; it holds no state.
#[derive(Debug)]
pub struct FileSystemTool;

impl FileSystemTool {
    pub fn new() -> (res: FileSystemTool) {
        FileSystemTool
    }

    pub fn name(&self) -> (res: &str)
        ensures
            res@ == "FileSystem"@,
    {
        "FileSystem"
    }

    /// The names the tool declares.
    pub fn function_names(&self) -> (res: Vec<&str>)
        ensures
            res@.len() == 1,
            res@[0]@ == "write_file_content"@,
    {
        let mut v: Vec<&str> = Vec::new();
        v.push("write_file_content");
        v
    }

    /// `true` when a call names this tool's function.
    pub fn answers(name: &str) -> (res: bool)
        ensures
            res == (name@ == "write_file_content"@),
    {
        str_eq(name, "write_file_content")
    }

    /// Offers `write_file_content` to the model; the rest of the request is
    /// left as it is.
    pub fn register(&self, builder: ChatCompletionBuilder) -> (res: ChatCompletionBuilder)
        ensures
            res.spec_build().tools@.len() == builder.spec_build().tools@.len() + 1,
            res.spec_build().tools@.drop_last() == builder.spec_build().tools@,
            res.spec_build().tools@.last() matches ChatCompletionTool::Function { function }
                && function.name@ == "write_file_content"@ && function.strict == Some(true)
                && text_of(function.description) == Some(WRITE_FILE_CONTENT_DESCRIPTION@)
                && function.parameters == json_parsed(WRITE_FILE_CONTENT_PARAMETERS@),
            res.spec_build() == (ChatCompletion {
                tools: res.spec_build().tools,
                ..builder.spec_build()
            }),
    {
        let write_file_content = FunctionDefinition {
            name: String::from_str("write_file_content"),
            description: Some(String::from_str(WRITE_FILE_CONTENT_DESCRIPTION)),
            parameters: parsed_json(WRITE_FILE_CONTENT_PARAMETERS),
            strict: Some(true),
        };
        let b = builder.tool(ChatCompletionTool::function(write_file_content));
        assert(b.spec_build().tools@.drop_last() =~= builder.spec_build().tools@);
        b
    }

    /// The answer once the arguments were parsed (or refused, with the
    /// parser's message) and, if they were, the write was tried (with the
    /// I/O error's message on failure): nothing on success, else the JSON
    /// error.
    pub fn answer(outcome: Result<Result<(), String>, String>) -> (res: String)
        ensures
            match outcome {
                Err(m) => res@ == error_json("InvalidArguments: "@ + m@),
                Ok(Err(m)) => res@ == error_json("FileWriteFailed: "@ + m@),
                Ok(Ok(())) => res@ == Seq::<char>::empty(),
            },
    {
        match outcome {
            Err(m) => FileSystemToolError::InvalidArguments(m.as_str()).as_json_string(),
            Ok(Err(m)) => FileSystemToolError::FileWriteFailed(m.as_str()).as_json_string(),
            Ok(Ok(())) => String::new(),
        }
    }
}

} // verus!
