//! Command-line arguments without the provider settings: no environment is
//! read, a flag's leading dashes may repeat,
//! `-r` sets the reasoning effort, and a bare token that names a directory
//! is taken as it is written.

use std::path::PathBuf;
use vstd::prelude::*;
use vstd::string::*;
use crate::cli::{FlagAction, Stop, Token, path_from, path_of};
use crate::models::enums::ReasoningEffort;
use crate::text::text_of;
use crate::text::{
    decimal, has_prefix, parse_u32, parse_u32_text, starts_with, str_eq, trim_start_matches,
    trim_start_repeats, u32_text,
};

verus! {

broadcast use vstd::string::group_string_axioms;

/// Printed for `--version`.
pub const VERSION: &'static str = "tars 0.1.0 [https://github.com/nlkli/tars]";

/// Printed for `--help`: a single empty line.
pub const HELP: &'static str = "\n";

/// Command-line arguments.
#[derive(Clone, Debug)]
pub struct Args {
    pub model: Option<String>,
    pub prompt: Vec<String>,
    pub temperature: Option<String>,
    pub max_tokens: Option<String>,
    pub reasoning_effort: Option<ReasoningEffort>,
    pub system: Vec<String>,
    pub working_dir: Option<PathBuf>,
    pub interactive: bool,
}

/// The arguments as values.
pub struct ArgsView {
    pub model: Option<Seq<char>>,
    pub prompt: Seq<Seq<char>>,
    pub temperature: Option<Seq<char>>,
    pub max_tokens: Option<Seq<char>>,
    pub reasoning_effort: Option<ReasoningEffort>,
    pub system: Seq<Seq<char>>,
    pub working_dir: Option<PathBuf>,
    pub interactive: bool,
}

impl View for Args {
    type V = ArgsView;

    open spec fn view(&self) -> ArgsView {
        ArgsView {
            model: text_of(self.model),
            prompt: self.prompt.deep_view(),
            temperature: text_of(self.temperature),
            max_tokens: text_of(self.max_tokens),
            reasoning_effort: self.reasoning_effort,
            system: self.system.deep_view(),
            working_dir: self.working_dir,
            interactive: self.interactive,
        }
    }
}

/// Nothing set.
pub open spec fn empty_args() -> ArgsView {
    ArgsView {
        model: None,
        prompt: Seq::empty(),
        temperature: None,
        max_tokens: None,
        reasoning_effort: None,
        system: Seq::empty(),
        working_dir: None,
        interactive: false,
    }
}

impl Default for Args {
    fn default() -> (res: Args)
        ensures
            res@ == empty_args(),
    {
        let res = Args {
            model: None,
            prompt: Vec::new(),
            temperature: None,
            max_tokens: None,
            reasoning_effort: None,
            system: Vec::new(),
            working_dir: None,
            interactive: false,
        };
        assert(res@.prompt =~= Seq::<Seq<char>>::empty());
        assert(res@.system =~= Seq::<Seq<char>>::empty());
        res
    }
}

/// What a long flag (the text after its leading dashes) does.
pub open spec fn long_action(key: Seq<char>) -> FlagAction {
    if key == "model"@ {
        FlagAction::Expect('m')
    } else if key == "prompt"@ {
        FlagAction::Expect('p')
    } else if key == "temperature"@ || key == "temp"@ {
        FlagAction::Expect('t')
    } else if key == "max-tokens"@ {
        FlagAction::Expect('x')
    } else if key == "reasoning-effort"@ || key == "re"@ {
        FlagAction::Expect('r')
    } else if key == "system"@ {
        FlagAction::Expect('s')
    } else if key == "working-dir"@ || key == "wd"@ {
        FlagAction::Expect('d')
    } else if key == "interactive"@ {
        FlagAction::Interactive
    } else if key == "help"@ {
        FlagAction::Help
    } else if key == "version"@ {
        FlagAction::Version
    } else {
        FlagAction::Ignore
    }
}

/// What a short flag letter does.
pub open spec fn short_action(c: char) -> FlagAction {
    if c == 'm' || c == 'p' || c == 't' || c == 'x' || c == 'r' || c == 's' {
        FlagAction::Expect(c)
    } else if c == 'i' {
        FlagAction::Interactive
    } else if c == 'h' {
        FlagAction::Help
    } else if c == 'V' {
        FlagAction::Version
    } else {
        FlagAction::Ignore
    }
}

/// Where parsing stands between tokens.
pub struct ParseView {
    pub args: ArgsView,
    pub last: Option<char>,
    pub stop: Option<Stop>,
}

pub open spec fn act(st: ParseView, a: FlagAction) -> ParseView {
    match a {
        FlagAction::Expect(c) => ParseView { last: Some(c), ..st },
        FlagAction::Interactive => ParseView { args: ArgsView { interactive: true, ..st.args }, ..st },
        FlagAction::Help => ParseView { stop: Some(Stop::Help), ..st },
        FlagAction::Version => ParseView { stop: Some(Stop::Version), ..st },
        FlagAction::Ignore => st,
    }
}

/// The letters of a short-flag token, one after another, up to a stop.
pub open spec fn apply_shorts(st: ParseView, flags: Seq<char>) -> ParseView
    decreases flags.len(),
{
    if flags.len() == 0 {
        st
    } else {
        let before = apply_shorts(st, flags.drop_last());
        if before.stop is Some {
            before
        } else {
            act(before, short_action(flags.last()))
        }
    }
}

/// The value given to option `c`.
pub open spec fn apply_option(a: ArgsView, c: char, tok: Token) -> ArgsView {
    if c == 'm' {
        ArgsView { model: Some(tok.text@), ..a }
    } else if c == 'p' {
        ArgsView { prompt: a.prompt.push(tok.text@), ..a }
    } else if c == 't' {
        ArgsView { temperature: text_of(tok.float_text), ..a }
    } else if c == 'x' {
        ArgsView {
            max_tokens: match parse_u32(tok.text@) {
                Some(v) => Some(decimal(v)),
                None => None,
            },
            ..a
        }
    } else if c == 'r' {
        match ReasoningEffort::from_name(tok.text@) {
            Some(e) => ArgsView { reasoning_effort: Some(e), ..a },
            None => a,
        }
    } else if c == 's' {
        ArgsView { system: a.system.push(tok.text@), ..a }
    } else if c == 'd' {
        if tok.is_dir {
            ArgsView { working_dir: Some(path_from(tok.text@)), ..a }
        } else {
            a
        }
    } else {
        a
    }
}

/// A value token: the value of the pending option, or else a directory (it
/// names one) or a piece of the prompt.
pub open spec fn apply_value(st: ParseView, tok: Token) -> ParseView {
    match st.last {
        Some(c) => ParseView { args: apply_option(st.args, c, tok), last: None, ..st },
        None => if tok.is_dir {
            ParseView {
                args: ArgsView { working_dir: Some(path_from(tok.text@)), ..st.args },
                ..st
            }
        } else {
            ParseView { args: ArgsView { prompt: st.args.prompt.push(tok.text@), ..st.args }, ..st }
        },
    }
}

/// One token: a token beginning with `--` is a long flag (all its leading
/// `--` removed), one beginning with `-` short flags, anything else a
/// value; after a stop nothing changes.
pub open spec fn parse_step(st: ParseView, tok: Token) -> ParseView {
    if st.stop is Some {
        st
    } else if has_prefix(tok.text@, "--"@) {
        act(st, long_action(trim_start_matches(tok.text@, "--"@)))
    } else if has_prefix(tok.text@, "-"@) {
        apply_shorts(st, trim_start_matches(tok.text@, "-"@))
    } else {
        apply_value(st, tok)
    }
}

/// The tokens one after another.
pub open spec fn parse_steps(st: ParseView, toks: Seq<Token>) -> ParseView
    decreases toks.len(),
{
    if toks.len() == 0 {
        st
    } else {
        parse_step(parse_steps(st, toks.drop_last()), toks.last())
    }
}

/// What the command line asks for.
#[derive(Debug)]
pub enum ParseOutcome {
    Run(Args),
    /// Print [`HELP`] and exit successfully.
    Help,
    /// Print [`VERSION`] and exit successfully.
    Version,
}

fn long_flag(key: &str) -> (res: FlagAction)
    ensures
        res == long_action(key@),
{
    if str_eq(key, "model") {
        FlagAction::Expect('m')
    } else if str_eq(key, "prompt") {
        FlagAction::Expect('p')
    } else if str_eq(key, "temperature") || str_eq(key, "temp") {
        FlagAction::Expect('t')
    } else if str_eq(key, "max-tokens") {
        FlagAction::Expect('x')
    } else if str_eq(key, "reasoning-effort") || str_eq(key, "re") {
        FlagAction::Expect('r')
    } else if str_eq(key, "system") {
        FlagAction::Expect('s')
    } else if str_eq(key, "working-dir") || str_eq(key, "wd") {
        FlagAction::Expect('d')
    } else if str_eq(key, "interactive") {
        FlagAction::Interactive
    } else if str_eq(key, "help") {
        FlagAction::Help
    } else if str_eq(key, "version") {
        FlagAction::Version
    } else {
        FlagAction::Ignore
    }
}

fn short_flag(c: char) -> (res: FlagAction)
    ensures
        res == short_action(c),
{
    if c == 'm' || c == 'p' || c == 't' || c == 'x' || c == 'r' || c == 's' {
        FlagAction::Expect(c)
    } else if c == 'i' {
        FlagAction::Interactive
    } else if c == 'h' {
        FlagAction::Help
    } else if c == 'V' {
        FlagAction::Version
    } else {
        FlagAction::Ignore
    }
}

struct Parser {
    args: Args,
    last: Option<char>,
    stop: Option<Stop>,
}

impl View for Parser {
    type V = ParseView;

    closed spec fn view(&self) -> ParseView {
        ParseView { args: self.args@, last: self.last, stop: self.stop }
    }
}

impl Parser {
    fn act(&mut self, a: FlagAction)
        ensures
            final(self)@ == act(old(self)@, a),
    {
        match a {
            FlagAction::Expect(c) => {
                self.last = Some(c);
            },
            FlagAction::Interactive => {
                self.args.interactive = true;
            },
            FlagAction::Help => {
                self.stop = Some(Stop::Help);
            },
            FlagAction::Version => {
                self.stop = Some(Stop::Version);
            },
            FlagAction::Ignore => {},
        }
    }

    fn shorts(&mut self, flags: &str)
        ensures
            final(self)@ == apply_shorts(old(self)@, flags@),
    {
        let n = flags.unicode_len();
        let mut i: usize = 0;
        let ghost start = self@;
        while i < n
            invariant
                n == flags@.len(),
                i <= n,
                self@ == apply_shorts(start, flags@.take(i as int)),
            decreases n - i,
        {
            assert(flags@.take(i + 1).drop_last() =~= flags@.take(i as int));
            if self.stop.is_none() {
                let c = flags.get_char(i);
                self.act(short_flag(c));
            }
            i = i + 1;
        }
        assert(flags@.take(n as int) =~= flags@);
        assert(flags@.take(0) =~= Seq::<char>::empty());
    }

    fn option_value(&mut self, c: char, tok: Token)
        ensures
            final(self)@ == (ParseView { args: apply_option(old(self)@.args, c, tok), ..old(self)@ }),
    {
        let ghost t = tok;
        let Token { text, float_text, is_dir, canonical: _ } = tok;
        if c == 'm' {
            self.args.model = Some(text);
        } else if c == 'p' {
            self.args.prompt.push(text);
        } else if c == 't' {
            self.args.temperature = float_text;
        } else if c == 'x' {
            self.args.max_tokens = match parse_u32_text(text.as_str()) {
                Some(v) => Some(u32_text(v)),
                None => None,
            };
        } else if c == 'r' {
            match ReasoningEffort::try_from_str(text.as_str()) {
                Ok(e) => {
                    self.args.reasoning_effort = Some(e);
                },
                Err(_) => {},
            }
        } else if c == 's' {
            self.args.system.push(text);
        } else if c == 'd' {
            if is_dir {
                self.args.working_dir = Some(path_of(text));
            }
        }
        assert(self@.args.prompt =~= apply_option(old(self)@.args, c, t).prompt);
        assert(self@.args.system =~= apply_option(old(self)@.args, c, t).system);
    }

    fn value(&mut self, tok: Token)
        ensures
            final(self)@ == apply_value(old(self)@, tok),
    {
        let ghost t = tok;
        match self.last {
            Some(c) => {
                self.last = None;
                self.option_value(c, tok);
            },
            None => {
                let Token { text, float_text: _, is_dir, canonical: _ } = tok;
                if is_dir {
                    self.args.working_dir = Some(path_of(text));
                } else {
                    self.args.prompt.push(text);
                    assert(self@.args.prompt =~= old(self)@.args.prompt.push(t.text@));
                }
            },
        }
    }

    fn step(&mut self, tok: Token)
        ensures
            final(self)@ == parse_step(old(self)@, tok),
    {
        proof {
            reveal_strlit("--");
            reveal_strlit("-");
        }
        if self.stop.is_some() {
            return ;
        }
        if starts_with(tok.text.as_str(), "--") {
            let key = trim_start_repeats(tok.text.as_str(), "--");
            let a = long_flag(key.as_str());
            self.act(a);
        } else if starts_with(tok.text.as_str(), "-") {
            let flags = trim_start_repeats(tok.text.as_str(), "-");
            self.shorts(flags.as_str());
        } else {
            self.value(tok);
        }
    }
}

impl Args {
    /// The arguments of a command line, from the tokens after the program
    /// name. `--help` and `--version` (or `-h`, `-V`) stop at once.
    pub fn parse_tokens(tokens: Vec<Token>) -> (res: ParseOutcome)
        ensures
            ({
                let end = parse_steps(ParseView { args: empty_args(), last: None, stop: None }, tokens@);
                match res {
                    ParseOutcome::Run(a) => end.stop is None && a@ == end.args,
                    ParseOutcome::Help => end.stop == Some(Stop::Help),
                    ParseOutcome::Version => end.stop == Some(Stop::Version),
                }
            }),
    {
        let mut p = Parser { args: Args::default(), last: None, stop: None };
        let ghost start = p@;
        let ghost all = tokens@;
        let total = tokens.len();
        let mut rest = tokens;
        let mut i: usize = 0;
        while rest.len() > 0
            invariant
                i <= all.len(),
                all.len() == total,
                rest@ == all.skip(i as int),
                p@ == parse_steps(start, all.take(i as int)),
            decreases rest@.len(),
        {
            let tok = rest.remove(0);
            assert(all.take(i + 1).drop_last() =~= all.take(i as int));
            assert(all.take(i + 1).last() == tok);
            p.step(tok);
            assert(rest@ =~= all.skip(i + 1));
            i = i + 1;
        }
        assert(all.take(i as int) =~= all);
        match p.stop {
            Some(Stop::Help) => ParseOutcome::Help,
            Some(Stop::Version) => ParseOutcome::Version,
            None => ParseOutcome::Run(p.args),
        }
    }
}

} // verus!
