//! A chat completion request together with the tools that answer the
//! model's calls and the context text they describe.
//!
//! Each system tool keeps its paging state here; the terminal it runs
//! commands in is held by the caller, in the same order.

use vstd::prelude::*;
use vstd::string::*;
use crate::models::consts::role;
use crate::models::enums::ReasoningEffort;
use crate::cli::Args;
use crate::models::{ChatCompletion, ChatCompletionBuilder, MessageParam, ToolChoice, ToolChoiceMode};
use crate::text::{chars_of, parse_u32, parse_u32_text, str_eq, text_of};
use crate::tools::manager::function_names;
use crate::tools::{SystemTool, ToolManager};

verus! {

broadcast use vstd::string::group_string_axioms;

/// Builder for [`ChatCompletionEx`].
#[derive(Debug)]
pub struct ChatCompletionExBuilder {
    inner_builder: ChatCompletionBuilder,
    tool_manager: ToolManager,
    system_tools: Vec<SystemTool>,
}

impl ChatCompletionExBuilder {
    /// The request being built.
    pub closed spec fn spec_request(&self) -> ChatCompletion {
        self.inner_builder.spec_build()
    }

    /// The registered tools: each tool's name and function names.
    pub closed spec fn spec_tools(&self) -> Seq<(Seq<char>, Seq<Seq<char>>)> {
        self.tool_manager.entries()
    }

    /// The output chunk size of each system tool, in order.
    pub closed spec fn spec_chunk_sizes(&self) -> Seq<usize> {
        self.system_tools@.map_values(|t: SystemTool| t.chunk_size())
    }

    /// Adds a system tool whose output is paged in chunks of
    /// `max_output_chunk_size` characters; its terminal is the next one the
    /// caller holds.
    pub fn with_system_tool(self, max_output_chunk_size: usize) -> (res: ChatCompletionExBuilder)
        ensures
            res.spec_request() == self.spec_request(),
            res.spec_tools().len() == self.spec_tools().len() + 1,
            res.spec_tools().take(self.spec_tools().len() as int) == self.spec_tools(),
            res.spec_tools().last().0 == "System"@,
            res.spec_tools().last().1 == seq![
                "execute_terminal_command"@,
                "continue_terminal_output"@,
                "write_file_content"@,
            ],
            res.spec_chunk_sizes() == self.spec_chunk_sizes().push(max_output_chunk_size),
    {
        let mut s = self;
        let tool = SystemTool::new(max_output_chunk_size);
        let functions = tool.functions();
        let ghost before = s.tool_manager.entries();
        s.tool_manager.add(String::from_str(tool.name()), &functions);
        assert(function_names(functions@) =~= seq![
            functions@[0].name@,
            functions@[1].name@,
            functions@[2].name@,
        ]);
        assert(s.tool_manager.entries().take(before.len() as int) =~= before);
        let ghost sizes = s.system_tools@.map_values(|t: SystemTool| t.chunk_size());
        s.system_tools.push(tool);
        assert(s.system_tools@.map_values(|t: SystemTool| t.chunk_size()) =~= sizes.push(
            max_output_chunk_size,
        ));
        s
    }

    pub fn model(self, model: String) -> (res: ChatCompletionExBuilder)
        ensures
            res.spec_request() == (ChatCompletion { model, ..self.spec_request() }),
            res.spec_tools() == self.spec_tools(),
            res.spec_chunk_sizes() == self.spec_chunk_sizes(),
    {
        ChatCompletionExBuilder { inner_builder: self.inner_builder.model(model), ..self }
    }

    /// Appends a `system` message.
    pub fn system(self, system: String) -> (res: ChatCompletionExBuilder)
        ensures
            res.spec_request().messages@.len() == self.spec_request().messages@.len() + 1,
            res.spec_request().messages@.drop_last() == self.spec_request().messages@,
            res.spec_request().messages@.last().is_text_message(role::SYSTEM@, system@),
            res.spec_request() == (ChatCompletion {
                messages: res.spec_request().messages,
                ..self.spec_request()
            }),
            res.spec_tools() == self.spec_tools(),
            res.spec_chunk_sizes() == self.spec_chunk_sizes(),
    {
        let m = MessageParam::system(system);
        let res = ChatCompletionExBuilder { inner_builder: self.inner_builder.message(m), ..self };
        assert(res.spec_request().messages@.drop_last() =~= self.spec_request().messages@);
        res
    }

    /// Appends a `user` message.
    pub fn prompt(self, prompt: String) -> (res: ChatCompletionExBuilder)
        ensures
            res.spec_request().messages@.len() == self.spec_request().messages@.len() + 1,
            res.spec_request().messages@.drop_last() == self.spec_request().messages@,
            res.spec_request().messages@.last().is_text_message(role::USER@, prompt@),
            res.spec_request() == (ChatCompletion {
                messages: res.spec_request().messages,
                ..self.spec_request()
            }),
            res.spec_tools() == self.spec_tools(),
            res.spec_chunk_sizes() == self.spec_chunk_sizes(),
    {
        let m = MessageParam::user(prompt);
        let res = ChatCompletionExBuilder { inner_builder: self.inner_builder.message(m), ..self };
        assert(res.spec_request().messages@.drop_last() =~= self.spec_request().messages@);
        res
    }

    /// Enables streaming (SSE) output.
    pub fn stream(self) -> (res: ChatCompletionExBuilder)
        ensures
            res.spec_request() == (ChatCompletion { stream: Some(true), ..self.spec_request() }),
            res.spec_tools() == self.spec_tools(),
            res.spec_chunk_sizes() == self.spec_chunk_sizes(),
    {
        ChatCompletionExBuilder { inner_builder: self.inner_builder.stream(), ..self }
    }

    pub fn max_tokens(self, n: u32) -> (res: ChatCompletionExBuilder)
        ensures
            res.spec_request() == (ChatCompletion {
                max_completion_tokens: Some(n),
                ..self.spec_request()
            }),
            res.spec_tools() == self.spec_tools(),
            res.spec_chunk_sizes() == self.spec_chunk_sizes(),
    {
        ChatCompletionExBuilder { inner_builder: self.inner_builder.max_completion_tokens(n), ..self }
    }

    /// Sets the temperature, given as the bit pattern of an `f32`.
    pub fn temperature(self, temp_bits: u32) -> (res: ChatCompletionExBuilder)
        ensures
            res.spec_request() == (ChatCompletion {
                temperature: Some(temp_bits),
                ..self.spec_request()
            }),
            res.spec_tools() == self.spec_tools(),
            res.spec_chunk_sizes() == self.spec_chunk_sizes(),
    {
        ChatCompletionExBuilder { inner_builder: self.inner_builder.temperature(temp_bits), ..self }
    }

    /// Sets the reasoning effort by its wire name.
    pub fn reasoning_effort(self, effort: ReasoningEffort) -> (res: ChatCompletionExBuilder)
        ensures
            res.spec_request().reasoning_effort matches Some(e) && e@ == effort.name(),
            res.spec_request() == (ChatCompletion {
                reasoning_effort: res.spec_request().reasoning_effort,
                ..self.spec_request()
            }),
            res.spec_tools() == self.spec_tools(),
            res.spec_chunk_sizes() == self.spec_chunk_sizes(),
    {
        let name = String::from_str(effort.as_str());
        ChatCompletionExBuilder { inner_builder: self.inner_builder.reasoning_effort(name), ..self }
    }

    /// Governs whether and how the model calls tools.
    pub fn tool_choice(self, choice: ToolChoice) -> (res: ChatCompletionExBuilder)
        ensures
            res.spec_request() == (ChatCompletion {
                tool_choice: Some(choice),
                ..self.spec_request()
            }),
            res.spec_tools() == self.spec_tools(),
            res.spec_chunk_sizes() == self.spec_chunk_sizes(),
    {
        ChatCompletionExBuilder { inner_builder: self.inner_builder.tool_choice(choice), ..self }
    }

    /// The request with its tools; `contexts` holds the context text of
    /// each system tool, in order, and the system context is `# Context`
    /// followed by them.
    pub fn build(self, contexts: &Vec<String>) -> (res: ChatCompletionEx)
        ensures
            res.spec_request() == self.spec_request(),
            res.spec_tools() == self.spec_tools(),
            res.spec_chunk_sizes() == self.spec_chunk_sizes(),
            res.spec_system_context() == "# Context\n"@ + contexts.deep_view().flatten(),
    {
        let mut system_context = String::new();
        self.tool_manager.write_context(&mut system_context, contexts);
        assert(system_context@ =~= "# Context\n"@ + contexts.deep_view().flatten());
        ChatCompletionEx {
            inner: self.inner_builder.build(),
            tool_manager: self.tool_manager,
            system_context,
            system_tools: self.system_tools,
        }
    }
}

impl Default for ChatCompletionExBuilder {
    fn default() -> (res: ChatCompletionExBuilder)
        ensures
            res.spec_request().model@ == Seq::<char>::empty(),
            res.spec_request().messages@.len() == 0,
            res.spec_request().has_only_defaults(),
            res.spec_tools().len() == 0,
            res.spec_chunk_sizes().len() == 0,
    {
        ChatCompletionExBuilder {
            inner_builder: ChatCompletion::builder(),
            tool_manager: ToolManager::new(),
            system_tools: Vec::new(),
        }
    }
}

/// A chat completion request with the tools that answer its calls.
#[derive(Debug)]
pub struct ChatCompletionEx {
    inner: ChatCompletion,
    tool_manager: ToolManager,
    system_context: String,
    system_tools: Vec<SystemTool>,
}

impl ChatCompletionEx {
    pub closed spec fn spec_request(&self) -> ChatCompletion {
        self.inner
    }

    pub closed spec fn spec_tools(&self) -> Seq<(Seq<char>, Seq<Seq<char>>)> {
        self.tool_manager.entries()
    }

    pub closed spec fn spec_chunk_sizes(&self) -> Seq<usize> {
        self.system_tools@.map_values(|t: SystemTool| t.chunk_size())
    }

    pub closed spec fn spec_system_context(&self) -> Seq<char> {
        self.system_context@
    }

    pub fn builder() -> (res: ChatCompletionExBuilder)
        ensures
            res.spec_request().model@ == Seq::<char>::empty(),
            res.spec_request().messages@.len() == 0,
            res.spec_request().has_only_defaults(),
            res.spec_tools().len() == 0,
            res.spec_chunk_sizes().len() == 0,
    {
        ChatCompletionExBuilder::default()
    }

    /// The request.
    pub fn completion(&self) -> (res: &ChatCompletion)
        ensures
            *res == self.spec_request(),
    {
        &self.inner
    }

    /// The request, to change in place.
    pub fn completion_mut(&mut self) -> (res: &mut ChatCompletion)
        ensures
            *res == old(self).spec_request(),
            final(self).spec_request() == *final(res),
            final(self).spec_tools() == old(self).spec_tools(),
            final(self).spec_chunk_sizes() == old(self).spec_chunk_sizes(),
            final(self).spec_system_context() == old(self).spec_system_context(),
    {
        &mut self.inner
    }

    /// The registry that routes the model's calls.
    pub fn tool_manager(&self) -> (res: &ToolManager)
        ensures
            res.entries() == self.spec_tools(),
    {
        &self.tool_manager
    }

    /// `# Context` and what each tool wrote of its surroundings.
    pub fn system_context(&self) -> (res: &str)
        ensures
            res@ == self.spec_system_context(),
    {
        self.system_context.as_str()
    }

    /// The request, the registry, the system context and the system tools,
    /// taken apart.
    pub fn into_parts(self) -> (res: (ChatCompletion, ToolManager, String, Vec<SystemTool>))
        ensures
            res.0 == self.spec_request(),
            res.1.entries() == self.spec_tools(),
            res.2@ == self.spec_system_context(),
            res.3@.map_values(|t: SystemTool| t.chunk_size()) == self.spec_chunk_sizes(),
    {
        (self.inner, self.tool_manager, self.system_context, self.system_tools)
    }
}

/// `c` with an ASCII capital letter taken as its small letter.
pub open spec fn fold_ascii(c: char) -> u32 {
    let u = c as u32;
    if 65 <= u <= 90 {
        (u + 32) as u32
    } else {
        u
    }
}

fn fold_ascii_char(c: char) -> (res: u32)
    ensures
        res == fold_ascii(c),
{
    let u = c as u32;
    if 65 <= u && u <= 90 {
        u + 32
    } else {
        u
    }
}

/// The fuzzy rule: the characters of `p` appear in `s` in the same order,
/// not necessarily together, ASCII letters compared without case.
pub open spec fn fuzzy_matches(p: Seq<char>, s: Seq<char>) -> bool
    decreases s.len(),
{
    if p.len() == 0 {
        true
    } else if s.len() == 0 {
        false
    } else if fold_ascii(p[0]) == fold_ascii(s[0]) {
        fuzzy_matches(p.drop_first(), s.drop_first())
    } else {
        fuzzy_matches(p, s.drop_first())
    }
}

/// Whether `s` matches the pattern `p` by the fuzzy rule.
pub fn fuzzy_match(p: &str, s: &str) -> (res: bool)
    ensures
        res == fuzzy_matches(p@, s@),
{
    let pc = chars_of(p);
    let sc = chars_of(s);
    let mut i: usize = 0;
    let mut j: usize = 0;
    assert(p@.skip(0) =~= p@);
    assert(s@.skip(0) =~= s@);
    while i < pc.len() && j < sc.len()
        invariant
            pc@ == p@,
            sc@ == s@,
            i <= pc@.len(),
            j <= sc@.len(),
            fuzzy_matches(p@, s@) == fuzzy_matches(p@.skip(i as int), s@.skip(j as int)),
        decreases sc@.len() - j,
    {
        let ghost ps = p@.skip(i as int);
        let ghost ss = s@.skip(j as int);
        assert(ps[0] == pc@[i as int]);
        assert(ss[0] == sc@[j as int]);
        assert(ss.drop_first() =~= s@.skip(j + 1));
        assert(ps.drop_first() =~= p@.skip(i + 1));
        if fold_ascii_char(pc[i]) == fold_ascii_char(sc[j]) {
            i = i + 1;
        }
        j = j + 1;
    }
    if i == pc.len() {
        assert(p@.skip(i as int).len() == 0);
        true
    } else {
        assert(s@.skip(j as int).len() == 0);
        false
    }
}

/// `i` is the model a pattern selects among `ids`: the first id equal to
/// the pattern, or, when none is, the first that matches it by the fuzzy
/// rule.
pub open spec fn is_model_choice(p: Seq<char>, ids: Seq<Seq<char>>, i: int) -> bool {
    &&& 0 <= i < ids.len()
    &&& {
        ||| (ids[i] == p && forall|j: int| 0 <= j < i ==> ids[j] != p)
        ||| ((forall|j: int| 0 <= j < ids.len() ==> ids[j] != p) && fuzzy_matches(p, ids[i])
            && forall|j: int| 0 <= j < i ==> !fuzzy_matches(p, #[trigger] ids[j]))
    }
}

/// No id equals or fuzzily matches the pattern.
pub open spec fn no_model_matches(p: Seq<char>, ids: Seq<Seq<char>>) -> bool {
    forall|j: int| 0 <= j < ids.len() ==> ids[j] != p && !fuzzy_matches(p, #[trigger] ids[j])
}

/// The position of the model the pattern selects among the provider's
/// model ids: an exact match wins, else the first fuzzy match; `None`
/// only when no id matches.
pub fn select_model(pattern: &str, ids: &Vec<String>) -> (res: Option<usize>)
    ensures
        match res {
            Some(i) => is_model_choice(pattern@, ids.deep_view(), i as int),
            None => no_model_matches(pattern@, ids.deep_view()),
        },
{
    let ghost v = ids.deep_view();
    let mut i: usize = 0;
    while i < ids.len()
        invariant
            v == ids.deep_view(),
            i <= v.len(),
            forall|j: int| 0 <= j < i ==> v[j] != pattern@,
        decreases v.len() - i,
    {
        if str_eq(ids[i].as_str(), pattern) {
            return Some(i);
        }
        i = i + 1;
    }
    let mut k: usize = 0;
    while k < ids.len()
        invariant
            v == ids.deep_view(),
            k <= v.len(),
            forall|j: int| 0 <= j < v.len() ==> v[j] != pattern@,
            forall|j: int| 0 <= j < k ==> !fuzzy_matches(pattern@, #[trigger] v[j]),
        decreases v.len() - k,
    {
        if fuzzy_match(pattern, ids[k].as_str()) {
            return Some(k);
        }
        k = k + 1;
    }
    None
}

/// The segments joined, with `sep` between each two.
pub open spec fn joined_by(segs: Seq<Seq<char>>, sep: Seq<char>) -> Seq<char>
    decreases segs.len(),
{
    if segs.len() == 0 {
        Seq::empty()
    } else if segs.len() == 1 {
        segs[0]
    } else {
        joined_by(segs.drop_last(), sep) + sep + segs.last()
    }
}

/// The segments joined, with `sep` between each two.
pub fn join_segments(segs: &Vec<String>, sep: &str) -> (res: String)
    ensures
        res@ == joined_by(segs.deep_view(), sep@),
{
    let ghost v = segs.deep_view();
    if segs.len() == 0 {
        return String::new();
    }
    let mut out = segs[0].clone();
    assert(v.take(1) =~= seq![v[0]]);
    let mut i: usize = 1;
    while i < segs.len()
        invariant
            v == segs.deep_view(),
            1 <= i <= v.len(),
            out@ == joined_by(v.take(i as int), sep@),
        decreases v.len() - i,
    {
        assert(v.take(i + 1).drop_last() =~= v.take(i as int));
        assert(v.take(i + 1).last() == v[i as int]);
        out.append(sep);
        out.append(segs[i].as_str());
        i = i + 1;
    }
    assert(v.take(v.len() as int) =~= v);
    out
}

/// What separates the prompt segments in the one user message: nothing,
/// they are concatenated.
pub const PROMPT_SEPARATOR: &'static str = "";

/// Joined with nothing between them, the segments are their concatenation.
pub proof fn lemma_joined_by_nothing_is_concatenation(segs: Seq<Seq<char>>)
    ensures
        joined_by(segs, Seq::empty()) == segs.flatten(),
    decreases segs.len(),
{
    if segs.len() == 0 {
    } else if segs.len() == 1 {
        assert(segs.drop_last().flatten_alt() =~= Seq::<char>::empty());
        assert(Seq::<char>::empty() + segs.last() =~= segs[0]);
        segs.lemma_flatten_and_flatten_alt_are_equivalent();
    } else {
        lemma_joined_by_nothing_is_concatenation(segs.drop_last());
        segs.drop_last().lemma_flatten_and_flatten_alt_are_equivalent();
        segs.lemma_flatten_and_flatten_alt_are_equivalent();
        assert(joined_by(segs.drop_last(), Seq::empty()) + Seq::<char>::empty() =~= joined_by(
            segs.drop_last(),
            Seq::empty(),
        ));
    }
}

/// The model name the arguments select among `ids`: none (the empty
/// name) without a pattern or without a match.
pub open spec fn selected_model(pattern: Option<Seq<char>>, ids: Seq<Seq<char>>, model: Seq<char>) -> bool {
    match pattern {
        None => model.len() == 0,
        Some(p) => (exists|i: int| is_model_choice(p, ids, i) && model == ids[i]) || (
        no_model_matches(p, ids) && model.len() == 0),
    }
}

/// The requested maximum of tokens: the text of `--max-tokens` read as a
/// 32-bit number, when it reads as one.
pub open spec fn max_tokens_of(t: Option<Seq<char>>) -> Option<u32> {
    match t {
        Some(s) => match parse_u32(s) {
            Some(n) => Some(n as u32),
            None => None,
        },
        None => None,
    }
}

/// The request the arguments ask for. The outside work is done: `model_ids`
/// are the provider's models; `temperature_bits` the bit pattern of the
/// `--temperature` text read as an `f32`, when it reads as one;
/// `system_texts` and `prompt_texts` the system and prompt segments in
/// order, each a file's content when it names a file; `contexts` the
/// context text of the terminal. The system segments become system
/// messages in order; the prompt segments, concatenated, one user
/// message after them; streaming is on, the model may call tools as it
/// decides, and one system tool with chunks of `max_output_chunk_size`
/// characters answers its calls.
pub fn completion_ex_from_args(
    args: &Args,
    model_ids: &Vec<String>,
    temperature_bits: Option<u32>,
    system_texts: Vec<String>,
    prompt_texts: Vec<String>,
    contexts: &Vec<String>,
    max_output_chunk_size: usize,
) -> (res: ChatCompletionEx)
    requires
        max_output_chunk_size > 0,
    ensures
        selected_model(args@.model, model_ids.deep_view(), res.spec_request().model@),
        res.spec_request().messages@.len() == system_texts@.len() + if prompt_texts@.len() > 0 {
            1int
        } else {
            0int
        },
        forall|i: int|
            0 <= i < system_texts@.len() ==> (#[trigger] res.spec_request().messages@[i]).is_text_message(
                role::SYSTEM@,
                system_texts@[i]@,
            ),
        prompt_texts@.len() > 0 ==> res.spec_request().messages@.last().is_text_message(
            role::USER@,
            prompt_texts.deep_view().flatten(),
        ),
        res.spec_request().stream == Some(true),
        res.spec_request().max_completion_tokens == max_tokens_of(args@.max_tokens),
        res.spec_request().temperature == temperature_bits,
        text_of(res.spec_request().reasoning_effort) == match args@.reasoning_effort {
            Some(e) => Some(e.name()),
            None => None,
        },
        res.spec_request().tool_choice == Some(ToolChoice::Mode(ToolChoiceMode::Auto)),
        res.spec_request().metadata is None,
        res.spec_request().n is None,
        res.spec_request().frequency_penalty is None,
        res.spec_request().logprobs is None,
        res.spec_request().tools@.len() == 0,
        res.spec_tools() == seq![
            (
                "System"@,
                seq![
                    "execute_terminal_command"@,
                    "continue_terminal_output"@,
                    "write_file_content"@,
                ],
            ),
        ],
        res.spec_chunk_sizes() == seq![max_output_chunk_size],
        res.spec_system_context() == "# Context\n"@ + contexts.deep_view().flatten(),
{
    let mut b = ChatCompletionEx::builder();
    match &args.model {
        Some(pattern) => match select_model(pattern.as_str(), model_ids) {
            Some(i) => {
                b = b.model(model_ids[i].clone());
            },
            None => {},
        },
        None => {},
    }
    match temperature_bits {
        Some(t) => {
            b = b.temperature(t);
        },
        None => {},
    }
    match &args.max_tokens {
        Some(t) => match parse_u32_text(t.as_str()) {
            Some(n) => {
                b = b.max_tokens(n);
            },
            None => {},
        },
        None => {},
    }
    match args.reasoning_effort {
        Some(e) => {
            b = b.reasoning_effort(e);
        },
        None => {},
    }
    let ghost before = b.spec_request();
    let ghost sys = system_texts@;
    assert(sys.len() == system_texts.len());
    let mut rest = system_texts;
    let mut k: usize = 0;
    while rest.len() > 0
        invariant
            k <= sys.len() <= usize::MAX,
            rest@ == sys.skip(k as int),
            b.spec_request().messages@.len() == k,
            forall|i: int|
                0 <= i < k ==> (#[trigger] b.spec_request().messages@[i]).is_text_message(
                    role::SYSTEM@,
                    sys[i]@,
                ),
            b.spec_request() == (ChatCompletion { messages: b.spec_request().messages, ..before }),
            b.spec_tools().len() == 0,
            b.spec_chunk_sizes().len() == 0,
        decreases rest@.len(),
    {
        let t = rest.remove(0);
        assert(t == sys[k as int]);
        let ghost prev = b.spec_request().messages@;
        b = b.system(t);
        assert forall|i: int| 0 <= i < k + 1 implies (#[trigger] b.spec_request().messages@[i]).is_text_message(
            role::SYSTEM@,
            sys[i]@,
        ) by {
            if i < k {
                assert(b.spec_request().messages@.drop_last()[i] == prev[i]);
            }
        }
        assert(rest@ =~= sys.skip(k + 1));
        k = k + 1;
    }
    if prompt_texts.len() > 0 {
        let text = join_segments(&prompt_texts, PROMPT_SEPARATOR);
        proof {
            reveal_strlit("");
            assert(PROMPT_SEPARATOR@ =~= Seq::<char>::empty());
            lemma_joined_by_nothing_is_concatenation(prompt_texts.deep_view());
        }
        let ghost prev = b.spec_request().messages@;
        b = b.prompt(text);
        assert forall|i: int| 0 <= i < sys.len() implies (#[trigger] b.spec_request().messages@[i]).is_text_message(
            role::SYSTEM@,
            sys[i]@,
        ) by {
            assert(b.spec_request().messages@.drop_last()[i] == prev[i]);
        }
    }
    b = b.stream().with_system_tool(max_output_chunk_size).tool_choice(ToolChoice::auto());
    proof {
        reveal_strlit("System");
    }
    let res = b.build(contexts);
    assert(res.spec_tools() =~= seq![
        (
            "System"@,
            seq![
                "execute_terminal_command"@,
                "continue_terminal_output"@,
                "write_file_content"@,
            ],
        ),
    ]);
    assert(res.spec_chunk_sizes() =~= seq![max_output_chunk_size]);
    res
}

} // verus!
