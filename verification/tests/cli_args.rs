use tars::cli::{Args, ParseOutcome, Token, HELP, VERSION};
use tars::models::enums::ReasoningEffort;
use std::path::PathBuf;
use tars::args::{Args as FirstArgs, ParseOutcome as FirstOutcome, HELP as FIRST_HELP};

fn tok(s: &str) -> Token {
    Token { text: s.to_string(), float_text: s.parse::<f32>().ok().map(|v| v.to_string()), is_dir: false, canonical: None }
}

fn run(env: (Option<&str>, Option<&str>, Option<&str>), toks: Vec<Token>) -> ParseOutcome {
    Args::parse_tokens(env.0.map(String::from), env.1.map(String::from), env.2.map(String::from), toks)
}

fn args(o: ParseOutcome) -> Args {
    match o {
        ParseOutcome::Run(a) => a,
        other => panic!("expected arguments, got {other:?}"),
    }
}

#[test]
fn environment_seeds_and_flags_override() {
    let a = args(run((Some("http://env"), Some("k-env"), Some("m-env")), vec![]));
    assert_eq!(a.base_url.as_deref(), Some("http://env"));
    assert_eq!(a.api_key.as_deref(), Some("k-env"));
    assert_eq!(a.model.as_deref(), Some("m-env"));
    let b = args(run(
        (Some("http://env"), Some("k-env"), Some("m-env")),
        vec![tok("--bu"), tok("http://flag"), tok("--ak"), tok("k2"), tok("-m"), tok("gpt")],
    ));
    assert_eq!(b.base_url.as_deref(), Some("http://flag"));
    assert_eq!(b.api_key.as_deref(), Some("k2"));
    assert_eq!(b.model.as_deref(), Some("gpt"));
}

#[test]
fn later_base_url_flag_wins() {
    let a = args(run((None, None, None), vec![tok("--base-url"), tok("a"), tok("--base-url"), tok("b")]));
    assert_eq!(a.base_url.as_deref(), Some("b"));
}

#[test]
fn numbers_and_effort_are_checked() {
    let a = args(run((None, None, None), vec![tok("-x"), tok("+012"), tok("-t"), tok("0.50"), tok("--re"), tok("high")]));
    assert_eq!(a.max_tokens.as_deref(), Some("12"));
    assert_eq!(a.temperature.as_deref(), Some("0.5"));
    assert_eq!(a.reasoning_effort, Some(ReasoningEffort::High));
    let b = args(run((None, None, None), vec![tok("-x"), tok("lots"), tok("--re"), tok("extreme"), tok("-t"), tok("warm")]));
    assert_eq!(b.max_tokens, None);
    assert_eq!(b.reasoning_effort, None);
    assert_eq!(b.temperature, None);
}

#[test]
fn combined_short_flags_and_positionals() {
    let a = args(run((None, None, None), vec![tok("-im"), tok("llama"), tok("hello"), tok("world")]));
    assert!(a.interactive);
    assert_eq!(a.model.as_deref(), Some("llama"));
    assert_eq!(a.prompt, vec!["hello".to_string(), "world".to_string()]);
    let mut dir = tok("./proj");
    dir.canonical = Some(PathBuf::from("/abs/proj"));
    dir.is_dir = true;
    let b = args(run((None, None, None), vec![tok("-p"), tok("./proj"), dir]));
    assert_eq!(b.prompt, vec!["./proj".to_string()]);
    assert_eq!(b.working_dir, Some(PathBuf::from("/abs/proj")));
}

#[test]
fn bare_file_stays_prompt_text() {
    let mut file = tok("notes.txt");
    file.canonical = Some(PathBuf::from("/abs/notes.txt"));
    let a = args(run((None, None, None), vec![file]));
    assert_eq!(a.prompt, vec!["notes.txt".to_string()]);
    assert_eq!(a.working_dir, None);
}

#[test]
fn working_dir_flag_needs_a_directory() {
    let mut d = tok("/tmp");
    d.is_dir = true;
    let a = args(run((None, None, None), vec![tok("--wd"), d]));
    assert_eq!(a.working_dir, Some(PathBuf::from("/tmp")));
    let b = args(run((None, None, None), vec![tok("--wd"), tok("/nope"), tok("rest")]));
    assert_eq!(b.working_dir, None);
    assert_eq!(b.prompt, vec!["rest".to_string()]);
}

#[test]
fn help_and_version_stop_parsing() {
    assert!(matches!(run((None, None, None), vec![tok("-p"), tok("x"), tok("--help"), tok("--version")]), ParseOutcome::Help));
    assert!(matches!(run((None, None, None), vec![tok("-Vh")]), ParseOutcome::Version));
    assert!(matches!(run((None, None, None), vec![tok("-ih")]), ParseOutcome::Help));
    assert!(HELP.starts_with("Usage: tars [OPTIONS] [PROMPT...] [DIR]\n"));
    assert_eq!(VERSION, "tars 0.1.0 [https://github.com/nlkli/tars]");
}

#[test]
fn unknown_flags_are_ignored() {
    let a = args(run((None, None, None), vec![tok("--nope"), tok("-z"), tok("text")]));
    assert_eq!(a.prompt, vec!["text".to_string()]);
}

#[test]
fn provider_client_needs_a_base_url() {
    let none = args(run((None, Some("k"), None), vec![]));
    assert_eq!(none.provider_client().unwrap_err(), "--base-url <URL> is required (or set TARS_BASE_URL)");
    let empty = args(run((Some(""), None, None), vec![]));
    assert!(empty.provider_client().is_err());
    let ok = args(run((Some("http://x"), Some("k"), None), vec![]));
    let c = ok.provider_client().unwrap();
    assert_eq!(c.models_url(), "http://x/models");
    assert_eq!(c.authorization(), Some("Bearer k".to_string()));
}

#[test]
fn first_form_arguments_parse() {
    let mut d = tok("/data");
    d.is_dir = true;
    let out = FirstArgs::parse_tokens(vec![tok("----model"), tok("m1"), tok("-r"), tok("low"), d, tok("say hi")]);
    let a = match out {
        FirstOutcome::Run(a) => a,
        _ => panic!("expected arguments"),
    };
    assert_eq!(a.model.as_deref(), Some("m1"));
    assert_eq!(a.reasoning_effort, Some(ReasoningEffort::Low));
    assert_eq!(a.working_dir, Some(PathBuf::from("/data")));
    assert_eq!(a.prompt, vec!["say hi".to_string()]);
    assert!(matches!(FirstArgs::parse_tokens(vec![tok("--version")]), FirstOutcome::Version));
    assert_eq!(FIRST_HELP, "\n");
}
