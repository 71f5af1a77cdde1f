//! The protocol spoken with the shell of a terminal session.
//!
//! A command is typed into the shell followed by `; echo __END_OF_COMMAND__`;
//! the shell first echoes what was typed, then prints the command's output,
//! then the marker. Reading the pseudo-terminal and writing to it is outside
//! work; here are the decisions: how bytes become lines, which lines are the
//! echo and which the output, and where the output ends.

use vstd::prelude::*;
use vstd::string::*;
use std::time::Duration;
use crate::lines::{LineBuffer, NEWLINE, byte_lines, joined_lines, split_lines};
use crate::text::{chars_of, decode_lossy, ends_with, has_suffix, push_char, str_eq, utf8_lossy};

verus! {

broadcast use vstd::string::group_string_axioms;

/// Rows of the pseudo-terminal.
pub const ROWS: u16 = 30;

/// Columns of the pseudo-terminal.
pub const COLS: u16 = 90;

/// Printed by the shell once a command has finished.
pub const EOC_MARKER: &'static str = "__END_OF_COMMAND__";

/// Typed after each command so that the shell prints [`EOC_MARKER`].
pub const EOC_PROMPT: &'static str = "; echo __END_OF_COMMAND__";

/// Printed by the shell after the working directory.
pub const PWD_END_MARKER: &'static str = "__PWD_END__";

/// Typed to learn the working directory.
pub const PWD_COMMAND: &'static str = "pwd; echo __PWD_END__\n";

/// What the terminal text of a command is with ANSI escape sequences
/// removed (`strip_ansi_escapes::strip_str`).
pub uninterp spec fn ansi_stripped(s: Seq<char>) -> Seq<char>;

/// `strip_ansi_escapes::strip_str`: the text with its ANSI escape sequences
/// removed. The result depends on the text alone.
#[verifier::external_body]
fn strip_ansi(s: &str) -> (res: String)
    ensures
        res@ == ansi_stripped(s@),
{
    strip_ansi_escapes::strip_str(s)
}

/// `Duration` is `Copy`: its clone is the same duration.
pub assume_specification[ <Duration as Clone>::clone ](d: &Duration) -> (res: Duration)
    ensures
        res == *d,
;

/// A zero-length duration (`Duration::ZERO`).
#[verifier::external_body]
fn zero_duration() -> Duration {
    Duration::ZERO
}

/// `s` with each tab replaced by two spaces.
pub open spec fn expand_tabs(s: Seq<char>) -> Seq<char>
    decreases s.len(),
{
    if s.len() == 0 {
        Seq::empty()
    } else {
        expand_tabs(s.drop_last()) + if s.last() == '\t' {
            seq![' ', ' ']
        } else {
            seq![s.last()]
        }
    }
}

/// `s` with each tab replaced by two spaces.
pub fn tabs_expanded(s: &str) -> (res: String)
    ensures
        res@ == expand_tabs(s@),
{
    let cs = chars_of(s);
    let mut out = String::new();
    let mut i: usize = 0;
    while i < cs.len()
        invariant
            cs@ == s@,
            i <= cs@.len(),
            out@ == expand_tabs(s@.take(i as int)),
        decreases cs@.len() - i,
    {
        assert(s@.take(i + 1).drop_last() =~= s@.take(i as int));
        if cs[i] == '\t' {
            push_char(&mut out, ' ');
            push_char(&mut out, ' ');
        } else {
            push_char(&mut out, cs[i]);
        }
        assert(out@ =~= expand_tabs(s@.take(i + 1)));
        i = i + 1;
    }
    assert(s@.take(cs@.len() as int) =~= s@);
    out
}

/// One command run in the terminal.
#[derive(Debug, Clone)]
pub struct Execution {
    pub command: String,
    /// The shell's echo of what was typed.
    pub raw_prompt: String,
    /// What the command printed, escape sequences included.
    pub raw_output: String,
    pub duration: Duration,
    plain_output: Option<String>,
}

impl Execution {
    pub closed spec fn command_text(&self) -> Seq<char> {
        self.command@
    }

    pub closed spec fn prompt_text(&self) -> Seq<char> {
        self.raw_prompt@
    }

    pub closed spec fn output_text(&self) -> Seq<char> {
        self.raw_output@
    }

    pub closed spec fn elapsed(&self) -> Duration {
        self.duration
    }

    /// The plain output computed so far, if any.
    pub closed spec fn cached_plain(&self) -> Option<Seq<char>> {
        match self.plain_output {
            Some(p) => Some(p@),
            None => None,
        }
    }

    /// The output with tabs widened to two spaces and escape sequences
    /// removed; computed once and kept.
    pub fn plain_output(&mut self) -> (res: &str)
        ensures
            match old(self).cached_plain() {
                Some(p) => res@ == p,
                None => res@ == ansi_stripped(expand_tabs(old(self).output_text())),
            },
            final(self).cached_plain() == Some(res@),
            final(self).command_text() == old(self).command_text(),
            final(self).prompt_text() == old(self).prompt_text(),
            final(self).output_text() == old(self).output_text(),
            final(self).elapsed() == old(self).elapsed(),
    {
        if self.plain_output.is_none() {
            let expanded = tabs_expanded(self.raw_output.as_str());
            self.plain_output = Some(strip_ansi(expanded.as_str()));
        }
        match &self.plain_output {
            Some(p) => p.as_str(),
            None => "",
        }
    }
}

impl Default for Execution {
    fn default() -> (res: Execution)
        ensures
            res.command_text().len() == 0,
            res.prompt_text().len() == 0,
            res.output_text().len() == 0,
            res.cached_plain() is None,
    {
        Execution {
            command: String::new(),
            raw_prompt: String::new(),
            raw_output: String::new(),
            duration: zero_duration(),
            plain_output: None,
        }
    }
}

/// A line printed by the terminal: its bytes without a final `\r`, decoded.
pub open spec fn terminal_line(l: Seq<u8>) -> Seq<char> {
    if l.len() > 0 && l.last() == 13 {
        utf8_lossy(l.drop_last())
    } else {
        utf8_lossy(l)
    }
}

/// Cuts what the terminal prints into lines.
#[derive(Debug)]
pub struct OutputLines {
    buffer: LineBuffer,
}

impl OutputLines {
    /// The bytes of the line not finished yet.
    pub closed spec fn pending(&self) -> Seq<u8> {
        self.buffer.pending()
    }

    pub fn new() -> (res: OutputLines)
        ensures
            res.pending() == Seq::<u8>::empty(),
    {
        OutputLines { buffer: LineBuffer::new() }
    }

    /// Takes bytes read from the terminal; returns the lines they finish,
    /// each without its `\n` and a `\r` before it, decoded with invalid
    /// UTF-8 replaced.
    pub fn push_bytes(&mut self, bytes: &[u8]) -> (res: Vec<String>)
        ensures
            res.deep_view() == split_lines(old(self).pending() + bytes@, NEWLINE).0.map_values(
                |l: Seq<u8>| terminal_line(l),
            ),
            final(self).pending() == split_lines(old(self).pending() + bytes@, NEWLINE).1,
    {
        let raw = self.buffer.push_chunk(bytes);
        let mut out: Vec<String> = Vec::new();
        let mut i: usize = 0;
        while i < raw.len()
            invariant
                i <= raw@.len(),
                out.deep_view() == byte_lines(raw@).take(i as int).map_values(
                    |l: Seq<u8>| terminal_line(l),
                ),
            decreases raw@.len() - i,
        {
            let line = &raw[i];
            let n = line.len();
            let text = if n > 0 && line[n - 1] == 13 {
                let mut trimmed: Vec<u8> = line.clone();
                trimmed.truncate(n - 1);
                assert(trimmed@ =~= line@.drop_last());
                decode_lossy(trimmed.as_slice())
            } else {
                decode_lossy(line.as_slice())
            };
            let ghost before = out.deep_view();
            out.push(text);
            assert(out.deep_view() =~= before.push(text@));
            assert(byte_lines(raw@).take(i + 1) =~= byte_lines(raw@).take(i as int).push(
                line@,
            ));
            i = i + 1;
        }
        assert(byte_lines(raw@).take(raw@.len() as int) =~= byte_lines(raw@));
        out
    }
}

/// A line without a final `\r`.
pub open spec fn without_cr(l: Seq<char>) -> Seq<char> {
    if l.len() > 0 && l.last() == '\r' {
        l.drop_last()
    } else {
        l
    }
}

/// The lines of `s` as `str::lines` gives them: cut at each `\n`, a `\r`
/// before the `\n` dropped, and no empty line after a final `\n`.
pub open spec fn str_lines(s: Seq<char>) -> Seq<Seq<char>> {
    let parts = split_lines(s, '\n');
    let done = parts.0.map_values(|l: Seq<char>| without_cr(l));
    if parts.1.len() > 0 {
        done.push(parts.1)
    } else {
        done
    }
}

/// The lines of a command, as they are typed into the shell.
pub fn command_lines(command: &str) -> (res: Vec<String>)
    ensures
        res.deep_view() == str_lines(command@),
{
    let cs = chars_of(command);
    let mut lines: Vec<String> = Vec::new();
    let mut cur = String::new();
    let mut i: usize = 0;
    while i < cs.len()
        invariant
            cs@ == command@,
            i <= cs@.len(),
            split_lines(command@.take(i as int), '\n').1 == cur@,
            lines.deep_view() == split_lines(command@.take(i as int), '\n').0.map_values(
                |l: Seq<char>| without_cr(l),
            ),
        decreases cs@.len() - i,
    {
        let c = cs[i];
        assert(command@.take(i + 1).drop_last() =~= command@.take(i as int));
        let ghost prev = split_lines(command@.take(i as int), '\n');
        if c == '\n' {
            let n = cur.as_str().unicode_len();
            let line = if n > 0 && cur.as_str().get_char(n - 1) == '\r' {
                String::from_str(cur.as_str().substring_char(0, n - 1))
            } else {
                cur
            };
            assert(line@ =~= without_cr(prev.1));
            let ghost before = lines.deep_view();
            lines.push(line);
            assert(lines.deep_view() =~= before.push(line@));
            assert(prev.0.push(prev.1).map_values(|l: Seq<char>| without_cr(l)) =~= prev.0.map_values(
                |l: Seq<char>| without_cr(l),
            ).push(without_cr(prev.1)));
            cur = String::new();
        } else {
            push_char(&mut cur, c);
        }
        i = i + 1;
    }
    assert(command@.take(cs@.len() as int) =~= command@);
    if cur.as_str().unicode_len() > 0 {
        let ghost before = lines.deep_view();
        lines.push(cur);
        assert(lines.deep_view() =~= before.push(cur@));
    }
    lines
}

/// `p` occurs in `s` at `i`.
pub open spec fn occurs_at(s: Seq<char>, p: Seq<char>, i: int) -> bool {
    0 <= i && i + p.len() <= s.len() && s.subrange(i, i + p.len()) == p
}

/// Where `p` occurs last in `s` (`str::rfind`, counted in characters).
pub open spec fn last_occurrence(s: Seq<char>, p: Seq<char>) -> Option<int> {
    if exists|i: int| occurs_at(s, p, i) {
        Some(
            choose|i: int| occurs_at(s, p, i) && forall|j: int| occurs_at(s, p, j) ==> j <= i,
        )
    } else {
        None
    }
}

/// `s` cut before the last occurrence of `p`, if there is one.
pub open spec fn cut_at_last(s: Seq<char>, p: Seq<char>) -> Seq<char> {
    match last_occurrence(s, p) {
        Some(i) => s.take(i),
        None => s,
    }
}

/// `s` with every trailing repetition of `m` removed (`str::trim_end_matches`).
pub open spec fn trim_end_matches(s: Seq<char>, m: Seq<char>) -> Seq<char>
    decreases s.len(),
{
    if m.len() > 0 && has_suffix(s, m) {
        trim_end_matches(s.take(s.len() - m.len()), m)
    } else {
        s
    }
}

/// `s` cut before the last occurrence of `p`, if there is one.
fn cut_before_last(s: &str, p: &str) -> (res: String)
    ensures
        res@ == cut_at_last(s@, p@),
{
    let n = s.unicode_len();
    let m = p.unicode_len();
    if m > n {
        assert(!exists|i: int| occurs_at(s@, p@, i));
        return String::from_str(s);
    }
    if m == 0 {
        proof {
            assert(s@.subrange(n as int, n as int) =~= p@);
            assert(occurs_at(s@, p@, n as int) && forall|j: int| occurs_at(s@, p@, j) ==> j <= n);
            let c = choose|c: int| occurs_at(s@, p@, c) && forall|j: int|
                occurs_at(s@, p@, j) ==> j <= c;
            assert(c == n);
            assert(s@.take(n as int) =~= s@);
        }
        return String::from_str(s);
    }
    let mut i: usize = n - m + 1;
    while i > 0
        invariant
            n == s@.len(),
            m == p@.len(),
            m <= n,
            i <= n - m + 1,
            forall|j: int| i <= j && occurs_at(s@, p@, j) ==> false,
        decreases i,
    {
        let k = i - 1;
        let cand = s.substring_char(k, k + m);
        if str_eq(cand, p) {
            proof {
                assert(occurs_at(s@, p@, k as int) && forall|j: int|
                    occurs_at(s@, p@, j) ==> j <= k);
                let c = choose|c: int| occurs_at(s@, p@, c) && forall|j: int|
                    occurs_at(s@, p@, j) ==> j <= c;
                assert(c <= k && k <= c);
            }
            return String::from_str(s.substring_char(0, k));
        }
        i = k;
    }
    String::from_str(s)
}

/// `s` with every trailing repetition of `m` removed.
fn trim_end_repeats(s: &str, m: &str) -> (res: String)
    requires
        m@.len() > 0,
    ensures
        res@ == trim_end_matches(s@, m@),
{
    let mut cur = String::from_str(s);
    let ml = m.unicode_len();
    while ends_with(cur.as_str(), m)
        invariant
            ml == m@.len(),
            ml > 0,
            trim_end_matches(cur@, m@) == trim_end_matches(s@, m@),
        decreases cur@.len(),
    {
        let n = cur.as_str().unicode_len();
        cur = String::from_str(cur.as_str().substring_char(0, n - ml));
    }
    cur
}

/// What has been gathered of one command's run.
pub struct CaptureView {
    pub raw_prompt: Seq<char>,
    pub raw_output: Seq<char>,
    pub skip: nat,
    pub seen: nat,
    pub done: bool,
}

/// How a line printed after a command changes what is gathered: once the
/// end marker has come nothing changes; a line ending with the marker ends
/// the run and brings what stands before the marker, if anything; the first
/// `skip` other lines are the echo of what was typed, each cut before the
/// typed marker command; the rest is output.
pub open spec fn capture_step(c: CaptureView, line: Seq<char>) -> CaptureView {
    if c.done {
        c
    } else if has_suffix(line, EOC_MARKER@) {
        CaptureView {
            raw_output: if line.len() > EOC_MARKER@.len() {
                c.raw_output + trim_end_matches(line, EOC_MARKER@) + seq!['\n']
            } else {
                c.raw_output
            },
            done: true,
            ..c
        }
    } else if c.seen < c.skip {
        CaptureView {
            raw_prompt: cut_at_last(c.raw_prompt + line, EOC_PROMPT@) + seq!['\n'],
            seen: c.seen + 1,
            ..c
        }
    } else {
        CaptureView { raw_output: c.raw_output + line + seq!['\n'], ..c }
    }
}

/// The lines taken one after another.
pub open spec fn capture_steps(c: CaptureView, lines: Seq<Seq<char>>) -> CaptureView
    decreases lines.len(),
{
    if lines.len() == 0 {
        c
    } else {
        capture_step(capture_steps(c, lines.drop_last()), lines.last())
    }
}

/// Once the echo has been read, every line up to the end marker is output,
/// each followed by a newline.
pub proof fn lemma_capture_keeps_output(c: CaptureView, lines: Seq<Seq<char>>)
    requires
        !c.done,
        c.seen >= c.skip,
        forall|i: int| 0 <= i < lines.len() ==> !has_suffix(#[trigger] lines[i], EOC_MARKER@),
    ensures
        capture_steps(c, lines).raw_output == c.raw_output + joined_lines(lines, '\n'),
        capture_steps(c, lines).raw_prompt == c.raw_prompt,
        !capture_steps(c, lines).done,
        capture_steps(c, lines).seen == c.seen,
        capture_steps(c, lines).skip == c.skip,
    decreases lines.len(),
{
    if lines.len() == 0 {
        assert(joined_lines(lines, '\n') =~= Seq::<char>::empty());
        assert(c.raw_output + Seq::<char>::empty() =~= c.raw_output);
    } else {
        let init = lines.drop_last();
        assert forall|i: int| 0 <= i < init.len() implies !has_suffix(
            #[trigger] init[i],
            EOC_MARKER@,
        ) by {
            assert(init[i] == lines[i]);
        }
        lemma_capture_keeps_output(c, init);
        assert(!has_suffix(lines[lines.len() - 1], EOC_MARKER@));
        let prev = capture_steps(c, init);
        assert(capture_steps(c, lines) == capture_step(prev, lines.last()));
        assert(capture_step(prev, lines.last()).raw_output == prev.raw_output + lines.last() + seq!['\n']);
        let f = |l: Seq<char>| l.push('\n');
        assert(lines.map_values(f) =~= init.map_values(f).push(lines.last().push('\n')));
        init.map_values(f).lemma_flatten_push(lines.last().push('\n'));
        assert(c.raw_output + joined_lines(init, '\n') + lines.last() + seq!['\n'] =~= c.raw_output
            + joined_lines(lines, '\n'));
    }
}

/// Lines taken in two parts change what is gathered as they do taken at
/// once.
proof fn lemma_capture_steps_concat(c: CaptureView, a: Seq<Seq<char>>, b: Seq<Seq<char>>)
    ensures
        capture_steps(c, a + b) == capture_steps(capture_steps(c, a), b),
    decreases b.len(),
{
    if b.len() == 0 {
        assert(a + b =~= a);
    } else {
        lemma_capture_steps_concat(c, a, b.drop_last());
        assert((a + b).drop_last() =~= a + b.drop_last());
        assert((a + b).last() == b.last());
    }
}

/// Once the end marker has come, no line changes what is gathered.
proof fn lemma_capture_done_stays(c: CaptureView, lines: Seq<Seq<char>>)
    requires
        c.done,
    ensures
        capture_steps(c, lines) == c,
    decreases lines.len(),
{
    if lines.len() > 0 {
        lemma_capture_done_stays(c, lines.drop_last());
    }
}

/// While echoed lines are still expected, lines without the end marker are
/// taken as echo and leave the output as it was.
proof fn lemma_capture_reads_echo(c: CaptureView, lines: Seq<Seq<char>>)
    requires
        !c.done,
        c.seen + lines.len() <= c.skip,
        forall|i: int| 0 <= i < lines.len() ==> !has_suffix(#[trigger] lines[i], EOC_MARKER@),
    ensures
        capture_steps(c, lines).raw_output == c.raw_output,
        !capture_steps(c, lines).done,
        capture_steps(c, lines).seen == c.seen + lines.len(),
        capture_steps(c, lines).skip == c.skip,
    decreases lines.len(),
{
    if lines.len() > 0 {
        let init = lines.drop_last();
        assert forall|i: int| 0 <= i < init.len() implies !has_suffix(
            #[trigger] init[i],
            EOC_MARKER@,
        ) by {
            assert(init[i] == lines[i]);
        }
        lemma_capture_reads_echo(c, init);
        assert(!has_suffix(lines[lines.len() - 1], EOC_MARKER@));
    }
}

/// A whole run, from the start of gathering: the echo of the typed lines,
/// then the output lines, then the line that ends with the end marker, then
/// anything. The run is over, and its output is the output lines, each
/// followed by a newline, then what stands before the marker on its line
/// with a newline, when anything does; the lines after it change nothing.
pub proof fn law_capture_whole_run(
    c: CaptureView,
    echo: Seq<Seq<char>>,
    out: Seq<Seq<char>>,
    end: Seq<char>,
    after: Seq<Seq<char>>,
)
    requires
        !c.done,
        c.seen == 0,
        c.skip == echo.len(),
        c.raw_output.len() == 0,
        forall|i: int| 0 <= i < echo.len() ==> !has_suffix(#[trigger] echo[i], EOC_MARKER@),
        forall|i: int| 0 <= i < out.len() ==> !has_suffix(#[trigger] out[i], EOC_MARKER@),
        has_suffix(end, EOC_MARKER@),
    ensures
        capture_steps(c, echo + out + seq![end] + after).done,
        capture_steps(c, echo + out + seq![end] + after).raw_output == joined_lines(out, '\n') + if end.len()
            > EOC_MARKER@.len() {
            trim_end_matches(end, EOC_MARKER@) + seq!['\n']
        } else {
            Seq::<char>::empty()
        },
{
    lemma_capture_steps_concat(c, echo + out + seq![end], after);
    lemma_capture_steps_concat(c, echo + out, seq![end]);
    lemma_capture_steps_concat(c, echo, out);
    lemma_capture_reads_echo(c, echo);
    let e = capture_steps(c, echo);
    lemma_capture_keeps_output(e, out);
    let o = capture_steps(e, out);
    assert(seq![end].drop_last() =~= Seq::<Seq<char>>::empty());
    assert(seq![end].last() == end);
    assert(capture_steps(o, Seq::<Seq<char>>::empty()) == o);
    let d = capture_steps(o, seq![end]);
    assert(d == capture_step(o, end));
    assert(c.raw_output + joined_lines(out, '\n') =~= joined_lines(out, '\n'));
    lemma_capture_done_stays(d, after);
}

/// Gathers one command's run from the lines the shell prints.
#[derive(Debug)]
pub struct ExecutionCapture {
    execution: Execution,
    skip: usize,
    seen: usize,
    done: bool,
}

impl View for ExecutionCapture {
    type V = CaptureView;

    closed spec fn view(&self) -> CaptureView {
        CaptureView {
            raw_prompt: self.execution.raw_prompt@,
            raw_output: self.execution.raw_output@,
            skip: self.skip as nat,
            seen: self.seen as nat,
            done: self.done,
        }
    }
}

impl ExecutionCapture {
    pub closed spec fn command(&self) -> Seq<char> {
        self.execution.command@
    }

    /// Starts gathering the run of `command`: as many echoed lines are
    /// expected as the command has lines, and at least one.
    pub fn new(command: String) -> (res: ExecutionCapture)
        ensures
            res.command() == command@,
            res@.raw_prompt.len() == 0,
            res@.raw_output.len() == 0,
            res@.skip == if str_lines(command@).len() == 0 {
                1
            } else {
                str_lines(command@).len()
            },
            res@.seen == 0,
            !res@.done,
    {
        let lines = command_lines(command.as_str());
        let skip = if lines.len() == 0 {
            1
        } else {
            lines.len()
        };
        let mut execution = Execution::default();
        execution.command = command;
        ExecutionCapture { execution, skip, seen: 0, done: false }
    }

    /// Takes the next line the shell printed; `true` once the end marker
    /// has come.
    pub fn on_line(&mut self, line: &str) -> (res: bool)
        ensures
            final(self)@ == capture_step(old(self)@, line@),
            final(self).command() == old(self).command(),
            res == final(self)@.done,
    {
        proof {
            reveal_strlit("\n");
            reveal_strlit("__END_OF_COMMAND__");
        }
        if self.done {
            return true;
        }
        if ends_with(line, EOC_MARKER) {
            if line.unicode_len() > EOC_MARKER.unicode_len() {
                let kept = trim_end_repeats(line, EOC_MARKER);
                let ghost before = self.execution.raw_output@;
                self.execution.raw_output.append(kept.as_str());
                self.execution.raw_output.append("\n");
                assert(self.execution.raw_output@ =~= before + trim_end_matches(line@, EOC_MARKER@)
                    + seq!['\n']);
            }
            self.done = true;
            return true;
        }
        if self.seen < self.skip {
            let mut p = String::from_str(self.execution.raw_prompt.as_str());
            p.append(line);
            let mut cut = cut_before_last(p.as_str(), EOC_PROMPT);
            let ghost before = cut@;
            cut.append("\n");
            assert(cut@ =~= before + seq!['\n']);
            self.execution.raw_prompt = cut;
            self.seen = self.seen + 1;
            return false;
        }
        let ghost before = self.execution.raw_output@;
        self.execution.raw_output.append(line);
        self.execution.raw_output.append("\n");
        assert(self.execution.raw_output@ =~= before + line@ + seq!['\n']);
        false
    }

    /// The run as gathered, with how long it took.
    pub fn finish(self, duration: Duration) -> (res: Execution)
        ensures
            res.command_text() == self.command(),
            res.prompt_text() == self@.raw_prompt,
            res.output_text() == self@.raw_output,
            res.elapsed() == duration,
            res.cached_plain() is None,
    {
        let mut e = self.execution;
        e.duration = duration;
        e.plain_output = None;
        e
    }
}

/// Finds the working directory in what the shell prints after
/// [`PWD_COMMAND`]: the last line before [`PWD_END_MARKER`].
#[derive(Debug)]
pub struct PwdScan {
    path: Option<String>,
}

impl PwdScan {
    pub closed spec fn last_line(&self) -> Option<Seq<char>> {
        match self.path {
            Some(p) => Some(p@),
            None => None,
        }
    }

    pub fn new() -> (res: PwdScan)
        ensures
            res.last_line() is None,
    {
        PwdScan { path: None }
    }

    /// Takes the next line; at the end marker, the directory, or an error
    /// when no line came before it.
    pub fn on_line(&mut self, line: String) -> (res: Option<Result<String, String>>)
        ensures
            line@ == PWD_END_MARKER@ ==> match old(self).last_line() {
                Some(p) => res matches Some(Ok(d)) && d@ == p,
                None => res matches Some(Err(e)) && e@ == "pwd output not found"@,
            },
            line@ != PWD_END_MARKER@ ==> res is None && final(self).last_line() == Some(line@),
    {
        if str_eq(line.as_str(), PWD_END_MARKER) {
            match self.path.take() {
                Some(p) => Some(Ok(p)),
                None => Some(Err(String::from_str("pwd output not found"))),
            }
        } else {
            self.path = Some(line);
            None
        }
    }
}

} // verus!
