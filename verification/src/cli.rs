//! Command-line arguments: what the tokens of the command line and the
//! `TARS_*` environment variables configure.
//!
//! Reading the environment, checking the file system and parsing floats are
//! outside work: each token comes with what those checks found.

use std::path::PathBuf;
use vstd::prelude::*;
use vstd::string::*;
use crate::models::enums::ReasoningEffort;
use crate::provider::{ClientBuilder, ProviderClient};
use crate::text::text_of;
use crate::text::{decimal, has_prefix, parse_u32, parse_u32_text, starts_with, str_eq, u32_text};

verus! {

broadcast use vstd::string::group_string_axioms;

/// A file system path, carried through unread.
#[verifier::external_type_specification]
#[verifier::external_body]
pub struct ExPathBuf(std::path::PathBuf);

/// The path that `PathBuf::from` makes of a text.
pub uninterp spec fn path_from(text: Seq<char>) -> PathBuf;

/// `PathBuf::from(String)`: the path spelled by the text; the same text
/// gives the same path.
#[verifier::external_body]
pub(crate) fn path_of(text: String) -> (res: PathBuf)
    ensures
        res == path_from(text@),
{
    PathBuf::from(text)
}

/// `PathBuf::clone`: the same path.
pub assume_specification[ <std::path::PathBuf as Clone>::clone ](p: &std::path::PathBuf) -> (res:
    std::path::PathBuf)
    ensures
        res == *p,
;

/// Printed for `--version`.
pub const VERSION: &'static str = "tars 0.1.0 [https://github.com/nlkli/tars]";

/// Printed for `--help`.
pub const HELP: &'static str = "Usage: tars [OPTIONS] [PROMPT...] [DIR]

Arguments:
  [PROMPT...]     One or more prompt strings (concatenated)
  [DIR]           Working directory for the terminal session

Options:
  -m, --model <MODEL>             Model name or fuzzy pattern  [env: TARS_MODEL]
  -p, --prompt <TEXT|PATH>        Append a prompt segment (repeatable)
  -s, --system <TEXT|PATH>        Append a system prompt segment (repeatable)
  -t, --temp, --temperature <F>   Sampling temperature (e.g. 0.7)
  -x, --max-tokens <N>            Maximum tokens to generate
  --re, --reasoning-effort <LEVEL>
                                  Reasoning effort: low | medium | high
  --wd, --working-dir <DIR>       Override the working directory
      --base-url, --bu <URL>      API base URL  [env: TARS_BASE_URL]
      --api-key, --ak <KEY>       API key       [env: TARS_API_KEY]
  -i, --interactive               Stay interactive after the first response
  -h, --help                      Print this help message
  -V, --version                   Print version information

Environment variables:
  TARS_BASE_URL   Default API base URL
  TARS_API_KEY    Default API key
  TARS_MODEL      Default model name
  SHELL           Shell used for the terminal session (default: bash)

Examples:
  tars 'Explain Rust lifetimes'
  tars -m gpt-4o -t 0.5 'Write a haiku about Ferris'
  tars --interactive ./my_project
";

/// CLI arguments parsed from environment variables and command-line input.
#[derive(Clone, Debug)]
pub struct Args {
    /// API base URL (overrides `TARS_BASE_URL`)
    pub base_url: Option<String>,
    /// API key (overrides `TARS_API_KEY`)
    pub api_key: Option<String>,
    /// Model name or fuzzy pattern (overrides `TARS_MODEL`)
    pub model: Option<String>,
    /// User prompt segments joined into a single message
    pub prompt: Vec<String>,
    /// Sampling temperature (0.0–2.0), as the float prints
    pub temperature: Option<String>,
    /// Maximum tokens to generate, as the number prints
    pub max_tokens: Option<String>,
    /// Reasoning effort level for supported models
    pub reasoning_effort: Option<ReasoningEffort>,
    /// System prompt segments
    pub system: Vec<String>,
    /// Working directory for the spawned terminal
    pub working_dir: Option<PathBuf>,
    /// Keep the session alive after the first response
    pub interactive: bool,
}

/// The arguments as values.
pub struct ArgsView {
    pub base_url: Option<Seq<char>>,
    pub api_key: Option<Seq<char>>,
    pub model: Option<Seq<char>>,
    pub prompt: Seq<Seq<char>>,
    pub temperature: Option<Seq<char>>,
    pub max_tokens: Option<Seq<char>>,
    pub reasoning_effort: Option<ReasoningEffort>,
    pub system: Seq<Seq<char>>,
    pub working_dir: Option<PathBuf>,
    pub interactive: bool,
}

impl View for Args {
    type V = ArgsView;

    open spec fn view(&self) -> ArgsView {
        ArgsView {
            base_url: text_of(self.base_url),
            api_key: text_of(self.api_key),
            model: text_of(self.model),
            prompt: self.prompt.deep_view(),
            temperature: text_of(self.temperature),
            max_tokens: text_of(self.max_tokens),
            reasoning_effort: self.reasoning_effort,
            system: self.system.deep_view(),
            working_dir: self.working_dir,
            interactive: self.interactive,
        }
    }
}

impl Default for Args {
    fn default() -> (res: Args)
        ensures
            res@ == (ArgsView {
                base_url: None,
                api_key: None,
                model: None,
                prompt: Seq::empty(),
                temperature: None,
                max_tokens: None,
                reasoning_effort: None,
                system: Seq::empty(),
                working_dir: None,
                interactive: false,
            }),
    {
        let res = Args {
            base_url: None,
            api_key: None,
            model: None,
            prompt: Vec::new(),
            temperature: None,
            max_tokens: None,
            reasoning_effort: None,
            system: Vec::new(),
            working_dir: None,
            interactive: false,
        };
        assert(res@.prompt =~= Seq::<Seq<char>>::empty());
        assert(res@.system =~= Seq::<Seq<char>>::empty());
        res
    }
}

/// A command-line token with what the outside checks found of it.
#[derive(Debug)]
pub struct Token {
    pub text: String,
    /// `text.parse::<f32>()` printed back with `to_string`, when it parses.
    pub float_text: Option<String>,
    /// `text` names a directory.
    pub is_dir: bool,
    /// The canonical form of the path `text`, when it names something that
    /// exists.
    pub canonical: Option<PathBuf>,
}

/// What a flag does.
pub enum FlagAction {
    /// The next token is the value of the option with this letter.
    Expect(char),
    Interactive,
    Help,
    Version,
    Ignore,
}

/// Why parsing stopped early.
#[derive(Debug, Clone, Copy, PartialEq, Eq, Structural)]
pub enum Stop {
    Help,
    Version,
}

/// What a long flag (the text after `--`) does.
pub open spec fn long_action(key: Seq<char>) -> FlagAction {
    if key == "base-url"@ || key == "bu"@ {
        FlagAction::Expect('u')
    } else if key == "api-key"@ || key == "ak"@ {
        FlagAction::Expect('k')
    } else if key == "model"@ {
        FlagAction::Expect('m')
    } else if key == "prompt"@ {
        FlagAction::Expect('p')
    } else if key == "temperature"@ || key == "temp"@ {
        FlagAction::Expect('t')
    } else if key == "max-tokens"@ {
        FlagAction::Expect('x')
    } else if key == "reasoning-effort"@ || key == "re"@ {
        FlagAction::Expect('r')
    } else if key == "system"@ {
        FlagAction::Expect('s')
    } else if key == "working-dir"@ || key == "wd"@ {
        FlagAction::Expect('d')
    } else if key == "interactive"@ {
        FlagAction::Interactive
    } else if key == "help"@ {
        FlagAction::Help
    } else if key == "version"@ {
        FlagAction::Version
    } else {
        FlagAction::Ignore
    }
}

/// What a short flag letter does.
pub open spec fn short_action(c: char) -> FlagAction {
    if c == 'm' || c == 'p' || c == 't' || c == 'x' || c == 's' {
        FlagAction::Expect(c)
    } else if c == 'i' {
        FlagAction::Interactive
    } else if c == 'h' {
        FlagAction::Help
    } else if c == 'V' {
        FlagAction::Version
    } else {
        FlagAction::Ignore
    }
}

/// Where parsing stands between tokens.
pub struct ParseView {
    pub args: ArgsView,
    /// The option whose value comes next.
    pub last: Option<char>,
    pub stop: Option<Stop>,
}

pub open spec fn apply_action(st: ParseView, a: FlagAction) -> ParseView {
    match a {
        FlagAction::Expect(c) => ParseView { last: Some(c), ..st },
        FlagAction::Interactive => ParseView { args: ArgsView { interactive: true, ..st.args }, ..st },
        FlagAction::Help => ParseView { stop: Some(Stop::Help), ..st },
        FlagAction::Version => ParseView { stop: Some(Stop::Version), ..st },
        FlagAction::Ignore => st,
    }
}

/// The letters of a short-flag token, one after another, up to a stop.
pub open spec fn apply_shorts(st: ParseView, flags: Seq<char>) -> ParseView
    decreases flags.len(),
{
    if flags.len() == 0 {
        st
    } else {
        let before = apply_shorts(st, flags.drop_last());
        if before.stop is Some {
            before
        } else {
            apply_action(before, short_action(flags.last()))
        }
    }
}

/// The value given to option `c`.
pub open spec fn apply_option(a: ArgsView, c: char, tok: Token) -> ArgsView {
    if c == 'u' {
        ArgsView { base_url: Some(tok.text@), ..a }
    } else if c == 'k' {
        ArgsView { api_key: Some(tok.text@), ..a }
    } else if c == 'm' {
        ArgsView { model: Some(tok.text@), ..a }
    } else if c == 'p' {
        ArgsView { prompt: a.prompt.push(tok.text@), ..a }
    } else if c == 's' {
        ArgsView { system: a.system.push(tok.text@), ..a }
    } else if c == 't' {
        ArgsView { temperature: text_of(tok.float_text), ..a }
    } else if c == 'x' {
        ArgsView {
            max_tokens: match parse_u32(tok.text@) {
                Some(v) => Some(decimal(v)),
                None => None,
            },
            ..a
        }
    } else if c == 'r' {
        match ReasoningEffort::from_name(tok.text@) {
            Some(e) => ArgsView { reasoning_effort: Some(e), ..a },
            None => a,
        }
    } else if c == 'd' {
        if tok.is_dir {
            ArgsView { working_dir: Some(path_from(tok.text@)), ..a }
        } else {
            a
        }
    } else {
        a
    }
}

/// A value token: the value of the pending option, or else the working
/// directory (in its canonical form) when it names a directory, or else a
/// piece of the prompt; a file name stays prompt text.
pub open spec fn apply_value(st: ParseView, tok: Token) -> ParseView {
    match st.last {
        Some(c) => ParseView { args: apply_option(st.args, c, tok), last: None, ..st },
        None => match tok.canonical {
            Some(p) if tok.is_dir => ParseView {
                args: ArgsView { working_dir: Some(p), ..st.args },
                ..st
            },
            _ => ParseView {
                args: ArgsView { prompt: st.args.prompt.push(tok.text@), ..st.args },
                ..st
            },
        },
    }
}

/// One token: `--key` is a long flag, `-abc` short flags, anything else a
/// value; after a stop nothing changes.
pub open spec fn parse_step(st: ParseView, tok: Token) -> ParseView {
    if st.stop is Some {
        st
    } else if has_prefix(tok.text@, "--"@) {
        apply_action(st, long_action(tok.text@.skip(2)))
    } else if has_prefix(tok.text@, "-"@) {
        apply_shorts(st, tok.text@.skip(1))
    } else {
        apply_value(st, tok)
    }
}

/// The tokens one after another.
pub open spec fn parse_steps(st: ParseView, toks: Seq<Token>) -> ParseView
    decreases toks.len(),
{
    if toks.len() == 0 {
        st
    } else {
        parse_step(parse_steps(st, toks.drop_last()), toks.last())
    }
}

/// The state before the first token: defaults, with the three settings
/// the environment gives.
pub open spec fn seeded(
    base_url: Option<Seq<char>>,
    api_key: Option<Seq<char>>,
    model: Option<Seq<char>>,
) -> ParseView {
    ParseView {
        args: ArgsView {
            base_url,
            api_key,
            model,
            prompt: Seq::empty(),
            temperature: None,
            max_tokens: None,
            reasoning_effort: None,
            system: Seq::empty(),
            working_dir: None,
            interactive: false,
        },
        last: None,
        stop: None,
    }
}

/// The setting of option `c` among those the environment gives: `u` the
/// base URL, `k` the API key.
pub open spec fn seeded_setting(a: ArgsView, c: char) -> Option<Seq<char>> {
    if c == 'u' {
        a.base_url
    } else {
        a.api_key
    }
}

/// The long flags that set option `c` (`u` or `k`).
pub open spec fn names_option(text: Seq<char>, c: char) -> bool {
    if c == 'u' {
        text == "--base-url"@ || text == "--bu"@
    } else {
        text == "--api-key"@ || text == "--ak"@
    }
}

proof fn lemma_shorts_keep(st: ParseView, flags: Seq<char>, c: char)
    requires
        c == 'u' || c == 'k',
        st.last != Some(c),
    ensures
        apply_shorts(st, flags).last != Some(c),
        seeded_setting(apply_shorts(st, flags).args, c) == seeded_setting(st.args, c),
    decreases flags.len(),
{
    if flags.len() > 0 {
        lemma_shorts_keep(st, flags.drop_last(), c);
    }
}

proof fn lemma_step_keeps(st: ParseView, tok: Token, c: char)
    requires
        c == 'u' || c == 'k',
        st.last != Some(c),
        !names_option(tok.text@, c),
    ensures
        parse_step(st, tok).last != Some(c),
        seeded_setting(parse_step(st, tok).args, c) == seeded_setting(st.args, c),
{
    reveal_strlit("--");
    reveal_strlit("-");
    reveal_strlit("--base-url");
    reveal_strlit("base-url");
    reveal_strlit("--bu");
    reveal_strlit("bu");
    reveal_strlit("--api-key");
    reveal_strlit("api-key");
    reveal_strlit("--ak");
    reveal_strlit("ak");
    let t = tok.text@;
    if st.stop is None {
        if has_prefix(t, "--"@) {
            let key = t.skip(2);
            assert(t =~= "--"@ + key);
            if c == 'u' {
                assert(key != "base-url"@) by {
                    if key == "base-url"@ {
                        assert(t =~= "--base-url"@);
                    }
                }
                assert(key != "bu"@) by {
                    if key == "bu"@ {
                        assert(t =~= "--bu"@);
                    }
                }
            } else {
                assert(key != "api-key"@) by {
                    if key == "api-key"@ {
                        assert(t =~= "--api-key"@);
                    }
                }
                assert(key != "ak"@) by {
                    if key == "ak"@ {
                        assert(t =~= "--ak"@);
                    }
                }
            }
        } else if has_prefix(t, "-"@) {
            lemma_shorts_keep(st, t.skip(1), c);
        }
    }
}

proof fn lemma_steps_keep(st: ParseView, toks: Seq<Token>, c: char)
    requires
        c == 'u' || c == 'k',
        st.last != Some(c),
        forall|i: int| 0 <= i < toks.len() ==> !names_option(#[trigger] toks[i].text@, c),
    ensures
        parse_steps(st, toks).last != Some(c),
        seeded_setting(parse_steps(st, toks).args, c) == seeded_setting(st.args, c),
    decreases toks.len(),
{
    if toks.len() > 0 {
        let init = toks.drop_last();
        assert forall|i: int| 0 <= i < init.len() implies !names_option(
            #[trigger] init[i].text@,
            c,
        ) by {
            assert(init[i] == toks[i]);
        }
        lemma_steps_keep(st, init, c);
        assert(!names_option(toks[toks.len() - 1].text@, c));
        lemma_step_keeps(parse_steps(st, init), toks.last(), c);
    }
}

/// The environment's base URL stands unless the command line gives one:
/// with no `--base-url` or `--bu` token, the parsed base URL is the
/// environment's.
pub proof fn lemma_env_base_url_kept(
    base_url: Option<Seq<char>>,
    api_key: Option<Seq<char>>,
    model: Option<Seq<char>>,
    toks: Seq<Token>,
)
    requires
        forall|i: int|
            0 <= i < toks.len() ==> #[trigger] toks[i].text@ != "--base-url"@ && toks[i].text@
                != "--bu"@,
    ensures
        parse_steps(seeded(base_url, api_key, model), toks).args.base_url == base_url,
{
    assert forall|i: int| 0 <= i < toks.len() implies !names_option(
        #[trigger] toks[i].text@,
        'u',
    ) by {
        assert(toks[i].text@ != "--base-url"@);
    }
    lemma_steps_keep(seeded(base_url, api_key, model), toks, 'u');
}

/// The environment's API key stands unless the command line gives one:
/// with no `--api-key` or `--ak` token, the parsed key is the
/// environment's.
pub proof fn lemma_env_api_key_kept(
    base_url: Option<Seq<char>>,
    api_key: Option<Seq<char>>,
    model: Option<Seq<char>>,
    toks: Seq<Token>,
)
    requires
        forall|i: int|
            0 <= i < toks.len() ==> #[trigger] toks[i].text@ != "--api-key"@ && toks[i].text@
                != "--ak"@,
    ensures
        parse_steps(seeded(base_url, api_key, model), toks).args.api_key == api_key,
{
    assert forall|i: int| 0 <= i < toks.len() implies !names_option(
        #[trigger] toks[i].text@,
        'k',
    ) by {
        assert(toks[i].text@ != "--api-key"@);
    }
    lemma_steps_keep(seeded(base_url, api_key, model), toks, 'k');
}

/// A later flag wins: the value after the last `--base-url` is the base
/// URL, whatever came before.
pub proof fn lemma_base_url_flag_overrides(st: ParseView, url: Token)
    requires
        st.stop is None,
        st.last == Some('u'),
        !has_prefix(url.text@, "-"@),
    ensures
        parse_step(st, url).args.base_url == Some(url.text@),
        parse_step(st, url).last is None,
{
    reveal_strlit("--");
    reveal_strlit("-");
    assert(!has_prefix(url.text@, "--"@)) by {
        if has_prefix(url.text@, "--"@) {
            assert(url.text@.subrange(0, 2)[0] == '-');
            assert(url.text@[0] == '-');
            assert(url.text@.subrange(0, 1) =~= "-"@);
        }
    }
}

/// What each long flag does, by its name.
proof fn lemma_long_actions()
    ensures
        long_action("base-url"@) == FlagAction::Expect('u'),
        long_action("bu"@) == FlagAction::Expect('u'),
        long_action("api-key"@) == FlagAction::Expect('k'),
        long_action("ak"@) == FlagAction::Expect('k'),
        long_action("model"@) == FlagAction::Expect('m'),
        long_action("prompt"@) == FlagAction::Expect('p'),
        long_action("temperature"@) == FlagAction::Expect('t'),
        long_action("temp"@) == FlagAction::Expect('t'),
        long_action("max-tokens"@) == FlagAction::Expect('x'),
        long_action("reasoning-effort"@) == FlagAction::Expect('r'),
        long_action("re"@) == FlagAction::Expect('r'),
        long_action("system"@) == FlagAction::Expect('s'),
        long_action("working-dir"@) == FlagAction::Expect('d'),
        long_action("wd"@) == FlagAction::Expect('d'),
        long_action("interactive"@) == FlagAction::Interactive,
        long_action("help"@) == FlagAction::Help,
        long_action("version"@) == FlagAction::Version,
{
    reveal_strlit("base-url");
    reveal_strlit("bu");
    reveal_strlit("api-key");
    reveal_strlit("ak");
    reveal_strlit("model");
    reveal_strlit("prompt");
    reveal_strlit("temperature");
    reveal_strlit("temp");
    reveal_strlit("max-tokens");
    reveal_strlit("reasoning-effort");
    reveal_strlit("re");
    reveal_strlit("system");
    reveal_strlit("working-dir");
    reveal_strlit("wd");
    reveal_strlit("interactive");
    reveal_strlit("help");
    reveal_strlit("version");
    assert("bu"@.len() != "base-url"@.len());
    assert("api-key"@.len() != "base-url"@.len());
    assert("api-key"@.len() != "bu"@.len());
    assert("ak"@.len() != "base-url"@.len());
    assert("ak"@[0] != "bu"@[0]);
    assert("ak"@.len() != "api-key"@.len());
    assert("model"@.len() != "base-url"@.len());
    assert("model"@.len() != "bu"@.len());
    assert("model"@.len() != "api-key"@.len());
    assert("model"@.len() != "ak"@.len());
    assert("prompt"@.len() != "base-url"@.len());
    assert("prompt"@.len() != "bu"@.len());
    assert("prompt"@.len() != "api-key"@.len());
    assert("prompt"@.len() != "ak"@.len());
    assert("prompt"@.len() != "model"@.len());
    assert("temperature"@.len() != "base-url"@.len());
    assert("temperature"@.len() != "bu"@.len());
    assert("temperature"@.len() != "api-key"@.len());
    assert("temperature"@.len() != "ak"@.len());
    assert("temperature"@.len() != "model"@.len());
    assert("temperature"@.len() != "prompt"@.len());
    assert("temp"@.len() != "base-url"@.len());
    assert("temp"@.len() != "bu"@.len());
    assert("temp"@.len() != "api-key"@.len());
    assert("temp"@.len() != "ak"@.len());
    assert("temp"@.len() != "model"@.len());
    assert("temp"@.len() != "prompt"@.len());
    assert("temp"@.len() != "temperature"@.len());
    assert("max-tokens"@.len() != "base-url"@.len());
    assert("max-tokens"@.len() != "bu"@.len());
    assert("max-tokens"@.len() != "api-key"@.len());
    assert("max-tokens"@.len() != "ak"@.len());
    assert("max-tokens"@.len() != "model"@.len());
    assert("max-tokens"@.len() != "prompt"@.len());
    assert("max-tokens"@.len() != "temperature"@.len());
    assert("max-tokens"@.len() != "temp"@.len());
    assert("reasoning-effort"@.len() != "base-url"@.len());
    assert("reasoning-effort"@.len() != "bu"@.len());
    assert("reasoning-effort"@.len() != "api-key"@.len());
    assert("reasoning-effort"@.len() != "ak"@.len());
    assert("reasoning-effort"@.len() != "model"@.len());
    assert("reasoning-effort"@.len() != "prompt"@.len());
    assert("reasoning-effort"@.len() != "temperature"@.len());
    assert("reasoning-effort"@.len() != "temp"@.len());
    assert("reasoning-effort"@.len() != "max-tokens"@.len());
    assert("re"@.len() != "base-url"@.len());
    assert("re"@[0] != "bu"@[0]);
    assert("re"@.len() != "api-key"@.len());
    assert("re"@[0] != "ak"@[0]);
    assert("re"@.len() != "model"@.len());
    assert("re"@.len() != "prompt"@.len());
    assert("re"@.len() != "temperature"@.len());
    assert("re"@.len() != "temp"@.len());
    assert("re"@.len() != "max-tokens"@.len());
    assert("re"@.len() != "reasoning-effort"@.len());
    assert("system"@.len() != "base-url"@.len());
    assert("system"@.len() != "bu"@.len());
    assert("system"@.len() != "api-key"@.len());
    assert("system"@.len() != "ak"@.len());
    assert("system"@.len() != "model"@.len());
    assert("system"@[0] != "prompt"@[0]);
    assert("system"@.len() != "temperature"@.len());
    assert("system"@.len() != "temp"@.len());
    assert("system"@.len() != "max-tokens"@.len());
    assert("system"@.len() != "reasoning-effort"@.len());
    assert("system"@.len() != "re"@.len());
    assert("working-dir"@.len() != "base-url"@.len());
    assert("working-dir"@.len() != "bu"@.len());
    assert("working-dir"@.len() != "api-key"@.len());
    assert("working-dir"@.len() != "ak"@.len());
    assert("working-dir"@.len() != "model"@.len());
    assert("working-dir"@.len() != "prompt"@.len());
    assert("working-dir"@[0] != "temperature"@[0]);
    assert("working-dir"@.len() != "temp"@.len());
    assert("working-dir"@.len() != "max-tokens"@.len());
    assert("working-dir"@.len() != "reasoning-effort"@.len());
    assert("working-dir"@.len() != "re"@.len());
    assert("working-dir"@.len() != "system"@.len());
    assert("wd"@.len() != "base-url"@.len());
    assert("wd"@[0] != "bu"@[0]);
    assert("wd"@.len() != "api-key"@.len());
    assert("wd"@[0] != "ak"@[0]);
    assert("wd"@.len() != "model"@.len());
    assert("wd"@.len() != "prompt"@.len());
    assert("wd"@.len() != "temperature"@.len());
    assert("wd"@.len() != "temp"@.len());
    assert("wd"@.len() != "max-tokens"@.len());
    assert("wd"@.len() != "reasoning-effort"@.len());
    assert("wd"@[0] != "re"@[0]);
    assert("wd"@.len() != "system"@.len());
    assert("wd"@.len() != "working-dir"@.len());
    assert("interactive"@.len() != "base-url"@.len());
    assert("interactive"@.len() != "bu"@.len());
    assert("interactive"@.len() != "api-key"@.len());
    assert("interactive"@.len() != "ak"@.len());
    assert("interactive"@.len() != "model"@.len());
    assert("interactive"@.len() != "prompt"@.len());
    assert("interactive"@[0] != "temperature"@[0]);
    assert("interactive"@.len() != "temp"@.len());
    assert("interactive"@.len() != "max-tokens"@.len());
    assert("interactive"@.len() != "reasoning-effort"@.len());
    assert("interactive"@.len() != "re"@.len());
    assert("interactive"@.len() != "system"@.len());
    assert("interactive"@[0] != "working-dir"@[0]);
    assert("interactive"@.len() != "wd"@.len());
    assert("help"@.len() != "base-url"@.len());
    assert("help"@.len() != "bu"@.len());
    assert("help"@.len() != "api-key"@.len());
    assert("help"@.len() != "ak"@.len());
    assert("help"@.len() != "model"@.len());
    assert("help"@.len() != "prompt"@.len());
    assert("help"@.len() != "temperature"@.len());
    assert("help"@[0] != "temp"@[0]);
    assert("help"@.len() != "max-tokens"@.len());
    assert("help"@.len() != "reasoning-effort"@.len());
    assert("help"@.len() != "re"@.len());
    assert("help"@.len() != "system"@.len());
    assert("help"@.len() != "working-dir"@.len());
    assert("help"@.len() != "wd"@.len());
    assert("help"@.len() != "interactive"@.len());
    assert("version"@.len() != "base-url"@.len());
    assert("version"@.len() != "bu"@.len());
    assert("version"@[0] != "api-key"@[0]);
    assert("version"@.len() != "ak"@.len());
    assert("version"@.len() != "model"@.len());
    assert("version"@.len() != "prompt"@.len());
    assert("version"@.len() != "temperature"@.len());
    assert("version"@.len() != "temp"@.len());
    assert("version"@.len() != "max-tokens"@.len());
    assert("version"@.len() != "reasoning-effort"@.len());
    assert("version"@.len() != "re"@.len());
    assert("version"@.len() != "system"@.len());
    assert("version"@.len() != "working-dir"@.len());
    assert("version"@.len() != "wd"@.len());
    assert("version"@.len() != "interactive"@.len());
    assert("version"@.len() != "help"@.len());
}

proof fn lemma_long_flag_key(text: Seq<char>, key: Seq<char>)
    requires
        text == "--"@ + key,
    ensures
        has_prefix(text, "--"@),
        text.skip(2) == key,
{
    reveal_strlit("--");
    assert(text.subrange(0, 2) =~= "--"@);
    assert(text.skip(2) =~= key);
}

proof fn lemma_value_token(v: Token)
    requires
        !has_prefix(v.text@, "-"@),
    ensures
        !has_prefix(v.text@, "--"@),
{
    reveal_strlit("--");
    reveal_strlit("-");
    if has_prefix(v.text@, "--"@) {
        assert(v.text@.subrange(0, 2)[0] == '-');
        assert(v.text@.subrange(0, 1) =~= "-"@);
    }
}

/// Each long option flag followed by a value (a token that does not start
/// with `-`) sets the option its help line names from that value and
/// changes nothing else: `--base-url`/`--bu` the base URL, `--api-key`/`--ak`
/// the API key, `--model` the model, `--prompt` and `--system` add a prompt
/// or system segment, `--temperature`/`--temp` the temperature (as the
/// number prints), `--max-tokens` the maximum of tokens (when a number),
/// `--reasoning-effort`/`--re` the effort (when a known level),
/// `--working-dir`/`--wd` the working directory (when a directory).
pub proof fn law_long_flag_sets_its_option(st: ParseView, flag: Token, v: Token)
    requires
        st.stop is None,
        !has_prefix(v.text@, "-"@),
    ensures
        flag.text@ == "--base-url"@ ==> parse_step(parse_step(st, flag), v) == (ParseView {
            args: ArgsView { base_url: Some(v.text@), ..st.args },
            last: None,
            stop: None,
        }),
        flag.text@ == "--bu"@ ==> parse_step(parse_step(st, flag), v) == (ParseView {
            args: ArgsView { base_url: Some(v.text@), ..st.args },
            last: None,
            stop: None,
        }),
        flag.text@ == "--api-key"@ ==> parse_step(parse_step(st, flag), v) == (ParseView {
            args: ArgsView { api_key: Some(v.text@), ..st.args },
            last: None,
            stop: None,
        }),
        flag.text@ == "--ak"@ ==> parse_step(parse_step(st, flag), v) == (ParseView {
            args: ArgsView { api_key: Some(v.text@), ..st.args },
            last: None,
            stop: None,
        }),
        flag.text@ == "--model"@ ==> parse_step(parse_step(st, flag), v) == (ParseView {
            args: ArgsView { model: Some(v.text@), ..st.args },
            last: None,
            stop: None,
        }),
        flag.text@ == "--prompt"@ ==> parse_step(parse_step(st, flag), v) == (ParseView {
            args: ArgsView { prompt: st.args.prompt.push(v.text@), ..st.args },
            last: None,
            stop: None,
        }),
        flag.text@ == "--temperature"@ ==> parse_step(parse_step(st, flag), v) == (ParseView {
            args: ArgsView { temperature: text_of(v.float_text), ..st.args },
            last: None,
            stop: None,
        }),
        flag.text@ == "--temp"@ ==> parse_step(parse_step(st, flag), v) == (ParseView {
            args: ArgsView { temperature: text_of(v.float_text), ..st.args },
            last: None,
            stop: None,
        }),
        flag.text@ == "--max-tokens"@ ==> parse_step(parse_step(st, flag), v) == (ParseView {
            args: ArgsView {
                max_tokens: match parse_u32(v.text@) {
                    Some(n) => Some(decimal(n)),
                    None => None,
                },
                ..st.args
            },
            last: None,
            stop: None,
        }),
        flag.text@ == "--reasoning-effort"@ ==> parse_step(parse_step(st, flag), v) == (ParseView {
            args: match ReasoningEffort::from_name(v.text@) {
                Some(e) => ArgsView { reasoning_effort: Some(e), ..st.args },
                None => st.args,
            },
            last: None,
            stop: None,
        }),
        flag.text@ == "--re"@ ==> parse_step(parse_step(st, flag), v) == (ParseView {
            args: match ReasoningEffort::from_name(v.text@) {
                Some(e) => ArgsView { reasoning_effort: Some(e), ..st.args },
                None => st.args,
            },
            last: None,
            stop: None,
        }),
        flag.text@ == "--system"@ ==> parse_step(parse_step(st, flag), v) == (ParseView {
            args: ArgsView { system: st.args.system.push(v.text@), ..st.args },
            last: None,
            stop: None,
        }),
        flag.text@ == "--working-dir"@ ==> parse_step(parse_step(st, flag), v) == (ParseView {
            args: if v.is_dir {
                ArgsView { working_dir: Some(path_from(v.text@)), ..st.args }
            } else {
                st.args
            },
            last: None,
            stop: None,
        }),
        flag.text@ == "--wd"@ ==> parse_step(parse_step(st, flag), v) == (ParseView {
            args: if v.is_dir {
                ArgsView { working_dir: Some(path_from(v.text@)), ..st.args }
            } else {
                st.args
            },
            last: None,
            stop: None,
        }),
{
    lemma_long_actions();
    lemma_value_token(v);
    if flag.text@ == "--base-url"@ {
        reveal_strlit("--base-url");
        reveal_strlit("--");
        reveal_strlit("base-url");
        assert(flag.text@ =~= "--"@ + "base-url"@);
        lemma_long_flag_key(flag.text@, "base-url"@);
    }
    if flag.text@ == "--bu"@ {
        reveal_strlit("--bu");
        reveal_strlit("--");
        reveal_strlit("bu");
        assert(flag.text@ =~= "--"@ + "bu"@);
        lemma_long_flag_key(flag.text@, "bu"@);
    }
    if flag.text@ == "--api-key"@ {
        reveal_strlit("--api-key");
        reveal_strlit("--");
        reveal_strlit("api-key");
        assert(flag.text@ =~= "--"@ + "api-key"@);
        lemma_long_flag_key(flag.text@, "api-key"@);
    }
    if flag.text@ == "--ak"@ {
        reveal_strlit("--ak");
        reveal_strlit("--");
        reveal_strlit("ak");
        assert(flag.text@ =~= "--"@ + "ak"@);
        lemma_long_flag_key(flag.text@, "ak"@);
    }
    if flag.text@ == "--model"@ {
        reveal_strlit("--model");
        reveal_strlit("--");
        reveal_strlit("model");
        assert(flag.text@ =~= "--"@ + "model"@);
        lemma_long_flag_key(flag.text@, "model"@);
    }
    if flag.text@ == "--prompt"@ {
        reveal_strlit("--prompt");
        reveal_strlit("--");
        reveal_strlit("prompt");
        assert(flag.text@ =~= "--"@ + "prompt"@);
        lemma_long_flag_key(flag.text@, "prompt"@);
    }
    if flag.text@ == "--temperature"@ {
        reveal_strlit("--temperature");
        reveal_strlit("--");
        reveal_strlit("temperature");
        assert(flag.text@ =~= "--"@ + "temperature"@);
        lemma_long_flag_key(flag.text@, "temperature"@);
    }
    if flag.text@ == "--temp"@ {
        reveal_strlit("--temp");
        reveal_strlit("--");
        reveal_strlit("temp");
        assert(flag.text@ =~= "--"@ + "temp"@);
        lemma_long_flag_key(flag.text@, "temp"@);
    }
    if flag.text@ == "--max-tokens"@ {
        reveal_strlit("--max-tokens");
        reveal_strlit("--");
        reveal_strlit("max-tokens");
        assert(flag.text@ =~= "--"@ + "max-tokens"@);
        lemma_long_flag_key(flag.text@, "max-tokens"@);
    }
    if flag.text@ == "--reasoning-effort"@ {
        reveal_strlit("--reasoning-effort");
        reveal_strlit("--");
        reveal_strlit("reasoning-effort");
        assert(flag.text@ =~= "--"@ + "reasoning-effort"@);
        lemma_long_flag_key(flag.text@, "reasoning-effort"@);
    }
    if flag.text@ == "--re"@ {
        reveal_strlit("--re");
        reveal_strlit("--");
        reveal_strlit("re");
        assert(flag.text@ =~= "--"@ + "re"@);
        lemma_long_flag_key(flag.text@, "re"@);
    }
    if flag.text@ == "--system"@ {
        reveal_strlit("--system");
        reveal_strlit("--");
        reveal_strlit("system");
        assert(flag.text@ =~= "--"@ + "system"@);
        lemma_long_flag_key(flag.text@, "system"@);
    }
    if flag.text@ == "--working-dir"@ {
        reveal_strlit("--working-dir");
        reveal_strlit("--");
        reveal_strlit("working-dir");
        assert(flag.text@ =~= "--"@ + "working-dir"@);
        lemma_long_flag_key(flag.text@, "working-dir"@);
    }
    if flag.text@ == "--wd"@ {
        reveal_strlit("--wd");
        reveal_strlit("--");
        reveal_strlit("wd");
        assert(flag.text@ =~= "--"@ + "wd"@);
        lemma_long_flag_key(flag.text@, "wd"@);
    }
    if flag.text@ == "--interactive"@ {
        reveal_strlit("--interactive");
        reveal_strlit("--");
        reveal_strlit("interactive");
        assert(flag.text@ =~= "--"@ + "interactive"@);
        lemma_long_flag_key(flag.text@, "interactive"@);
    }
    if flag.text@ == "--help"@ {
        reveal_strlit("--help");
        reveal_strlit("--");
        reveal_strlit("help");
        assert(flag.text@ =~= "--"@ + "help"@);
        lemma_long_flag_key(flag.text@, "help"@);
    }
    if flag.text@ == "--version"@ {
        reveal_strlit("--version");
        reveal_strlit("--");
        reveal_strlit("version");
        assert(flag.text@ =~= "--"@ + "version"@);
        lemma_long_flag_key(flag.text@, "version"@);
    }
}

/// `--interactive` asks for an interactive session, `--help` and
/// `--version` stop parsing with that request; nothing else changes.
pub proof fn law_long_switches(st: ParseView, flag: Token)
    requires
        st.stop is None,
    ensures
        flag.text@ == "--interactive"@ ==> parse_step(st, flag) == (ParseView {
            args: ArgsView { interactive: true, ..st.args },
            ..st
        }),
        flag.text@ == "--help"@ ==> parse_step(st, flag) == (ParseView { stop: Some(Stop::Help), ..st }),
        flag.text@ == "--version"@ ==> parse_step(st, flag) == (ParseView {
            stop: Some(Stop::Version),
            ..st
        }),
{
    lemma_long_actions();
    if flag.text@ == "--interactive"@ {
        reveal_strlit("--interactive");
        reveal_strlit("--");
        reveal_strlit("interactive");
        assert(flag.text@ =~= "--"@ + "interactive"@);
        lemma_long_flag_key(flag.text@, "interactive"@);
    }
    if flag.text@ == "--help"@ {
        reveal_strlit("--help");
        reveal_strlit("--");
        reveal_strlit("help");
        assert(flag.text@ =~= "--"@ + "help"@);
        lemma_long_flag_key(flag.text@, "help"@);
    }
    if flag.text@ == "--version"@ {
        reveal_strlit("--version");
        reveal_strlit("--");
        reveal_strlit("version");
        assert(flag.text@ =~= "--"@ + "version"@);
        lemma_long_flag_key(flag.text@, "version"@);
    }
}

/// After `--help` or `--version` nothing more is read.
pub proof fn lemma_stop_is_final(st: ParseView, toks: Seq<Token>)
    requires
        st.stop is Some,
    ensures
        parse_steps(st, toks) == st,
    decreases toks.len(),
{
    if toks.len() > 0 {
        lemma_stop_is_final(st, toks.drop_last());
    }
}

/// What the command line asks for.
#[derive(Debug)]
pub enum ParseOutcome {
    /// Run with these arguments.
    Run(Args),
    /// Print [`HELP`] and exit successfully.
    Help,
    /// Print [`VERSION`] and exit successfully.
    Version,
}

/// What is left of the token: the key of `--key`.
fn long_key(text: &str) -> (res: &str)
    requires
        has_prefix(text@, "--"@),
    ensures
        res@ == text@.skip(2),
{
    proof {
        reveal_strlit("--");
    }
    text.substring_char(2, text.unicode_len())
}

/// The action of a long flag.
fn long_flag(key: &str) -> (res: FlagAction)
    ensures
        res == long_action(key@),
{
    if str_eq(key, "base-url") || str_eq(key, "bu") {
        FlagAction::Expect('u')
    } else if str_eq(key, "api-key") || str_eq(key, "ak") {
        FlagAction::Expect('k')
    } else if str_eq(key, "model") {
        FlagAction::Expect('m')
    } else if str_eq(key, "prompt") {
        FlagAction::Expect('p')
    } else if str_eq(key, "temperature") || str_eq(key, "temp") {
        FlagAction::Expect('t')
    } else if str_eq(key, "max-tokens") {
        FlagAction::Expect('x')
    } else if str_eq(key, "reasoning-effort") || str_eq(key, "re") {
        FlagAction::Expect('r')
    } else if str_eq(key, "system") {
        FlagAction::Expect('s')
    } else if str_eq(key, "working-dir") || str_eq(key, "wd") {
        FlagAction::Expect('d')
    } else if str_eq(key, "interactive") {
        FlagAction::Interactive
    } else if str_eq(key, "help") {
        FlagAction::Help
    } else if str_eq(key, "version") {
        FlagAction::Version
    } else {
        FlagAction::Ignore
    }
}

/// The action of a short flag letter.
fn short_flag(c: char) -> (res: FlagAction)
    ensures
        res == short_action(c),
{
    if c == 'm' || c == 'p' || c == 't' || c == 'x' || c == 's' {
        FlagAction::Expect(c)
    } else if c == 'i' {
        FlagAction::Interactive
    } else if c == 'h' {
        FlagAction::Help
    } else if c == 'V' {
        FlagAction::Version
    } else {
        FlagAction::Ignore
    }
}

/// Parsing state between tokens.
struct Parser {
    args: Args,
    last: Option<char>,
    stop: Option<Stop>,
}

impl View for Parser {
    type V = ParseView;

    closed spec fn view(&self) -> ParseView {
        ParseView { args: self.args@, last: self.last, stop: self.stop }
    }
}

impl Parser {
    fn act(&mut self, a: FlagAction)
        ensures
            final(self)@ == apply_action(old(self)@, a),
    {
        match a {
            FlagAction::Expect(c) => {
                self.last = Some(c);
            },
            FlagAction::Interactive => {
                self.args.interactive = true;
            },
            FlagAction::Help => {
                self.stop = Some(Stop::Help);
            },
            FlagAction::Version => {
                self.stop = Some(Stop::Version);
            },
            FlagAction::Ignore => {},
        }
    }

    fn shorts(&mut self, flags: &str)
        ensures
            final(self)@ == apply_shorts(old(self)@, flags@),
    {
        let n = flags.unicode_len();
        let mut i: usize = 0;
        let ghost start = self@;
        while i < n
            invariant
                n == flags@.len(),
                i <= n,
                self@ == apply_shorts(start, flags@.take(i as int)),
            decreases n - i,
        {
            assert(flags@.take(i + 1).drop_last() =~= flags@.take(i as int));
            if self.stop.is_none() {
                let c = flags.get_char(i);
                self.act(short_flag(c));
            }
            i = i + 1;
        }
        assert(flags@.take(n as int) =~= flags@);
        assert(flags@.take(0) =~= Seq::<char>::empty());
    }

    fn option_value(&mut self, c: char, tok: Token)
        ensures
            final(self)@ == (ParseView { args: apply_option(old(self)@.args, c, tok), ..old(self)@ }),
    {
        let ghost t = tok;
        let Token { text, float_text, is_dir, canonical: _ } = tok;
        if c == 'u' {
            self.args.base_url = Some(text);
        } else if c == 'k' {
            self.args.api_key = Some(text);
        } else if c == 'm' {
            self.args.model = Some(text);
        } else if c == 'p' {
            self.args.prompt.push(text);
        } else if c == 's' {
            self.args.system.push(text);
        } else if c == 't' {
            self.args.temperature = float_text;
        } else if c == 'x' {
            self.args.max_tokens = match parse_u32_text(text.as_str()) {
                Some(v) => Some(u32_text(v)),
                None => None,
            };
        } else if c == 'r' {
            match ReasoningEffort::try_from_str(text.as_str()) {
                Ok(e) => {
                    self.args.reasoning_effort = Some(e);
                },
                Err(_) => {},
            }
        } else if c == 'd' {
            if is_dir {
                self.args.working_dir = Some(path_of(text));
            }
        }
        assert(self@.args.prompt =~= apply_option(old(self)@.args, c, t).prompt);
        assert(self@.args.system =~= apply_option(old(self)@.args, c, t).system);
    }

    fn value(&mut self, tok: Token)
        ensures
            final(self)@ == apply_value(old(self)@, tok),
    {
        let ghost t = tok;
        match self.last.take() {
            Some(c) => {
                self.option_value(c, tok);
            },
            None => {
                let Token { text, float_text: _, is_dir, canonical } = tok;
                match canonical {
                    Some(p) if is_dir => {
                        self.args.working_dir = Some(p);
                    },
                    _ => {
                        self.args.prompt.push(text);
                        assert(self@.args.prompt =~= old(self)@.args.prompt.push(t.text@));
                    },
                }
            },
        }
    }

    fn step(&mut self, tok: Token)
        ensures
            final(self)@ == parse_step(old(self)@, tok),
    {
        proof {
            reveal_strlit("--");
            reveal_strlit("-");
        }
        if self.stop.is_some() {
            return ;
        }
        if starts_with(tok.text.as_str(), "--") {
            let a = long_flag(long_key(tok.text.as_str()));
            self.act(a);
        } else if starts_with(tok.text.as_str(), "-") {
            let n = tok.text.as_str().unicode_len();
            let flags = tok.text.as_str().substring_char(1, n);
            assert(flags@ =~= tok.text@.skip(1));
            self.shorts(flags);
        } else {
            self.value(tok);
        }
    }
}

impl Args {
    /// The arguments of a command line: the environment's `TARS_BASE_URL`,
    /// `TARS_API_KEY` and `TARS_MODEL` first, then the tokens after the
    /// program name, which override them. `--help` and `--version` (or
    /// `-h`, `-V`) stop at once.
    pub fn parse_tokens(
        env_base_url: Option<String>,
        env_api_key: Option<String>,
        env_model: Option<String>,
        tokens: Vec<Token>,
    ) -> (res: ParseOutcome)
        ensures
            ({
                let end = parse_steps(
                    seeded(text_of(env_base_url), text_of(env_api_key), text_of(env_model)),
                    tokens@,
                );
                match res {
                    ParseOutcome::Run(a) => end.stop is None && a@ == end.args,
                    ParseOutcome::Help => end.stop == Some(Stop::Help),
                    ParseOutcome::Version => end.stop == Some(Stop::Version),
                }
            }),
    {
        let mut args = Args::default();
        args.base_url = env_base_url;
        args.api_key = env_api_key;
        args.model = env_model;
        let mut p = Parser { args, last: None, stop: None };
        let ghost start = p@;
        assert(start == seeded(text_of(env_base_url), text_of(env_api_key), text_of(env_model)));
        let ghost all = tokens@;
        let total = tokens.len();
        let mut rest = tokens;
        let mut i: usize = 0;
        while rest.len() > 0
            invariant
                i <= all.len(),
                all.len() == total,
                rest@ == all.skip(i as int),
                p@ == parse_steps(start, all.take(i as int)),
            decreases rest@.len(),
        {
            let tok = rest.remove(0);
            assert(all.take(i + 1).drop_last() =~= all.take(i as int));
            assert(all.take(i + 1).last() == tok);
            p.step(tok);
            assert(rest@ =~= all.skip(i + 1));
            i = i + 1;
        }
        assert(all.take(i as int) =~= all);
        match p.stop {
            Some(Stop::Help) => ParseOutcome::Help,
            Some(Stop::Version) => ParseOutcome::Version,
            None => ParseOutcome::Run(p.args),
        }
    }

    /// A client for the configured provider; the base URL is required and
    /// may not be empty.
    pub fn provider_client(&self) -> (res: Result<ProviderClient, String>)
        ensures
            match self@.base_url {
                Some(u) if u.len() > 0 => res matches Ok(c) && c.spec_base_url() == u
                    && c.spec_api_key() == self@.api_key,
                _ => res matches Err(e) && e@
                    == "--base-url <URL> is required (or set TARS_BASE_URL)"@,
            },
    {
        let base_url = match &self.base_url {
            Some(u) => u,
            None => {
                return Err(String::from_str("--base-url <URL> is required (or set TARS_BASE_URL)"));
            },
        };
        if base_url.as_str().unicode_len() == 0 {
            return Err(String::from_str("--base-url <URL> is required (or set TARS_BASE_URL)"));
        }
        let mut builder = ProviderClient::builder().base_url(base_url.clone());
        match &self.api_key {
            Some(key) => {
                builder = builder.api_key(key.clone());
            },
            None => {},
        }
        Ok(builder.build())
    }
}

} // verus!
