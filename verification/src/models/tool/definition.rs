//! Definitions of the tools a request offers to the model.

use vstd::prelude::*;

verus! {

/// A JSON document, carried through unread.
#[verifier::external_type_specification]
#[verifier::external_body]
pub struct ExJsonValue(serde_json::Value);

/// `serde_json::Value` derives `Clone`: a clone is the same document.
pub assume_specification[ <serde_json::Value as Clone>::clone ](v: &serde_json::Value) -> (res:
    serde_json::Value)
    ensures
        res == *v,
;

/// The JSON document that `text` spells, when it is valid JSON.
pub uninterp spec fn json_parsed(text: Seq<char>) -> Option<serde_json::Value>;

/// `serde_json::from_str::<Value>`: the document `text` spells, `None` when
/// it is not valid JSON; the same text gives the same document.
#[verifier::external_body]
pub(crate) fn parsed_json(text: &str) -> (res: Option<serde_json::Value>)
    ensures
        res == json_parsed(text@),
{
    serde_json::from_str::<serde_json::Value>(text).ok()
}

/// JSON Schema definition for a callable function.
#[derive(Debug)]
pub struct FunctionDefinition {
    /// Name the model must use when invoking this function.
    pub name: String,

    /// Human-readable description that helps the model decide when to call
    /// this function.
    pub description: Option<String>,

    /// JSON Schema object describing the function's parameters.
    pub parameters: Option<serde_json::Value>,

    /// When `true`, the model must produce output that strictly conforms to
    /// `parameters`.
    pub strict: Option<bool>,
}

impl FunctionDefinition {
    /// A definition with only a name.
    pub fn new(name: String) -> (res: FunctionDefinition)
        ensures
            res.name == name,
            res.description is None,
            res.parameters is None,
            res.strict is None,
    {
        FunctionDefinition { name, description: None, parameters: None, strict: None }
    }

    /// Sets the description.
    pub fn description(self, desc: String) -> (res: FunctionDefinition)
        ensures
            res == (FunctionDefinition { description: Some(desc), ..self }),
    {
        FunctionDefinition { description: Some(desc), ..self }
    }

    /// Sets the JSON Schema of the parameters.
    pub fn parameters(self, params: serde_json::Value) -> (res: FunctionDefinition)
        ensures
            res == (FunctionDefinition { parameters: Some(params), ..self }),
    {
        FunctionDefinition { parameters: Some(params), ..self }
    }

    /// Enables strict output mode.
    pub fn strict(self) -> (res: FunctionDefinition)
        ensures
            res == (FunctionDefinition { strict: Some(true), ..self }),
    {
        FunctionDefinition { strict: Some(true), ..self }
    }
}

/// Definition of a non-function ("custom") tool.
#[derive(Debug)]
pub struct CustomToolDefinition {
    /// Unique name for this tool.
    pub name: String,

    /// Human-readable description.
    pub description: Option<String>,

    /// Output format specification for the tool's response.
    pub format: Option<CustomToolFormat>,
}

impl CustomToolDefinition {
    /// A definition with only a name.
    pub fn new(name: String) -> (res: CustomToolDefinition)
        ensures
            res.name == name,
            res.description is None,
            res.format is None,
    {
        CustomToolDefinition { name, description: None, format: None }
    }

    /// Sets the description.
    pub fn description(self, desc: String) -> (res: CustomToolDefinition)
        ensures
            res == (CustomToolDefinition { description: Some(desc), ..self }),
    {
        CustomToolDefinition { description: Some(desc), ..self }
    }

    /// Sets the output format.
    pub fn format(self, format: CustomToolFormat) -> (res: CustomToolDefinition)
        ensures
            res == (CustomToolDefinition { format: Some(format), ..self }),
    {
        CustomToolDefinition { format: Some(format), ..self }
    }
}

/// Output format of a [`CustomToolDefinition`].
#[derive(Debug)]
pub enum CustomToolFormat {
    /// Unstructured text output.
    Text,

    /// Output constrained by a formal grammar.
    Grammar { grammar: GrammarDefinition },
}

/// A formal grammar that constrains custom tool output.
#[derive(Debug)]
pub struct GrammarDefinition {
    /// The grammar source text.
    pub definition: String,

    /// The grammar formalism (e.g. `"EBNF"`, `"ABNF"`).
    pub syntax: String,
}

/// A tool that can be registered with a completion request.
#[derive(Debug)]
pub enum Tool {
    /// A callable function described by a JSON Schema.
    Function { function: FunctionDefinition },

    /// A provider-specific or application-defined custom tool.
    Custom { custom: CustomToolDefinition },
}

impl Tool {
    /// Wraps a function definition.
    pub fn function(fd: FunctionDefinition) -> (res: Tool)
        ensures
            res == (Tool::Function { function: fd }),
    {
        Tool::Function { function: fd }
    }

    /// Wraps a custom tool definition.
    pub fn custom(ctd: CustomToolDefinition) -> (res: Tool)
        ensures
            res == (Tool::Custom { custom: ctd }),
    {
        Tool::Custom { custom: ctd }
    }
}

/// Another name for [`Tool`].
pub type ChatCompletionTool = Tool;

} // verus!
