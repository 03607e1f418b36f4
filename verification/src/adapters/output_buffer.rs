//! Capturing a command's output as it streams in, line by line, and the lines
//! to show for it when output is displayed.

use vstd::prelude::*;

use crate::text::concat2;

verus! {

/// A piece of a command's output, from its standard output or its error
/// output: a complete line, or the start of a line still being written.
#[derive(Debug, Clone, PartialEq)]
pub enum OutputChunk {
    Stdout(String),
    Stderr(String),
    StdoutPartial(String),
    StderrPartial(String),
}

/// What a piece of an output stream gives: complete lines, and the line
/// still being written as it stands.
#[derive(Debug, Clone, PartialEq)]
pub enum StreamLine {
    Complete(String),
    Partial(String),
}

/// The pieces of `s` between newlines, as splitting at each `\n` gives them.
pub open spec fn split_lines(s: Seq<char>) -> Seq<Seq<char>>
    decreases s.len(),
{
    if s.len() == 0 {
        seq![Seq::<char>::empty()]
    } else {
        let rest = split_lines(s.drop_last());
        if s.last() == '\n' {
            rest.push(Seq::empty())
        } else {
            rest.update(rest.len() - 1, rest.last().push(s.last()))
        }
    }
}

/// What the `i`th of `k` pieces of the data does to the line being written:
/// the first piece continues it (and ends it when a newline follows); each
/// later piece that is not the empty end starts and extends a new one, which
/// ends when another piece follows or the data ends with a newline.
pub open spec fn stream_step(i: int, chunk: Seq<char>, k: int, ends_nl: bool, partial: Seq<char>) -> (Seq<char>, Option<(bool, Seq<char>)>) {
    if i == 0 {
        if chunk.len() > 0 {
            let p = partial + chunk;
            if k > 1 {
                (Seq::empty(), Some((true, p)))
            } else {
                (p, Some((false, p)))
            }
        } else {
            (partial, None)
        }
    } else if chunk.len() > 0 || i < k - 1 {
        let p = partial + chunk;
        if i < k - 1 || ends_nl {
            (Seq::empty(), Some((true, p)))
        } else {
            (p, Some((false, p)))
        }
    } else {
        (partial, None)
    }
}

/// The line being written and the lines given after the first `n` pieces.
pub open spec fn stream_fold(parts: Seq<Seq<char>>, n: nat, ends_nl: bool, partial: Seq<char>) -> (Seq<char>, Seq<(bool, Seq<char>)>)
    decreases n,
{
    if n == 0 {
        (partial, Seq::empty())
    } else {
        let (p, evs) = stream_fold(parts, (n - 1) as nat, ends_nl, partial);
        let (p2, e) = stream_step(n - 1, parts[n - 1], parts.len() as int, ends_nl, p);
        (p2, match e {
            Some(x) => evs.push(x),
            None => evs,
        })
    }
}

/// A stream line as a flag (complete or not) and its text.
pub open spec fn stream_line_view(l: StreamLine) -> (bool, Seq<char>) {
    match l {
        StreamLine::Complete(t) => (true, t@),
        StreamLine::Partial(t) => (false, t@),
    }
}

/// The pieces of the data between newlines.
fn split_pieces(data: &str) -> (r: Vec<String>)
    ensures
        r@.map_values(|s: String| s@) == split_lines(data@),
{
    let n = data.unicode_len();
    let mut parts: Vec<String> = Vec::new();
    let mut current = String::new();
    let mut i: usize = 0;
    while i < n
        invariant
            i <= n,
            n == data@.len(),
            parts@.map_values(|s: String| s@).push(current@) == split_lines(data@.take(i as int)),
        decreases n - i,
    {
        let c = data.get_char(i);
        let ghost before = parts@.map_values(|s: String| s@).push(current@);
        assert(data@.take(i + 1).drop_last() =~= data@.take(i as int));
        if c == '\n' {
            let done = current;
            current = String::new();
            parts.push(done);
            assert(parts@.map_values(|s: String| s@).push(current@) =~= before.push(Seq::empty()));
        } else {
            let piece = data.substring_char(i, i + 1);
            let ghost old_current = current@;
            current.append(piece);
            assert(piece@ =~= seq![c]);
            assert(current@ =~= old_current.push(c));
            assert(before.last() == old_current);
            assert(parts@.map_values(|s: String| s@).push(current@) =~= before.update(before.len() - 1, before.last().push(c)));
        }
        i = i + 1;
    }
    assert(data@.take(n as int) =~= data@);
    parts.push(current);
    parts
}

/// Split a piece of an output stream into lines: `partial` is the line
/// being written before it, and after. The lines come in the order written.
pub fn split_stream_data(partial: &mut String, data: &str) -> (r: Vec<StreamLine>)
    ensures
        ({
            let (p, evs) = stream_fold(split_lines(data@), split_lines(data@).len(), data@.len() > 0 && data@.last() == '\n', old(partial)@);
            final(partial)@ == p && r@.map_values(|l: StreamLine| stream_line_view(l)) == evs
        }),
{
    let parts = split_pieces(data);
    let ghost pv = parts@.map_values(|s: String| s@);
    let n = data.unicode_len();
    let ends_nl = n > 0 && data.get_char(n - 1) == '\n';
    let k = parts.len();
    let mut out: Vec<StreamLine> = Vec::new();
    let mut i: usize = 0;
    while i < k
        invariant
            i <= k,
            k == pv.len(),
            pv == split_lines(data@),
            pv == parts@.map_values(|s: String| s@),
            ends_nl == (data@.len() > 0 && data@.last() == '\n'),
            ({
                let (p, evs) = stream_fold(pv, i as nat, ends_nl, old(partial)@);
                partial@ == p && out@.map_values(|l: StreamLine| stream_line_view(l)) == evs
            }),
        decreases k - i,
    {
        let chunk = parts[i].as_str();
        assert(chunk@ == pv[i as int]);
        let ghost before = out@.map_values(|l: StreamLine| stream_line_view(l));
        let nonempty = chunk.unicode_len() > 0;
        if i == 0 {
            if nonempty {
                partial.append(chunk);
                if k > 1 {
                    let line = partial.clone();
                    *partial = String::new();
                    out.push(StreamLine::Complete(line));
                } else {
                    out.push(StreamLine::Partial(partial.clone()));
                }
                assert(out@.map_values(|l: StreamLine| stream_line_view(l)) =~= before.push(stream_line_view(out@.last())));
            }
        } else if nonempty || i < k - 1 {
            partial.append(chunk);
            if i < k - 1 || ends_nl {
                let line = partial.clone();
                *partial = String::new();
                out.push(StreamLine::Complete(line));
            } else {
                out.push(StreamLine::Partial(partial.clone()));
            }
            assert(out@.map_values(|l: StreamLine| stream_line_view(l)) =~= before.push(stream_line_view(out@.last())));
        }
        i = i + 1;
    }
    out
}

/// A white-space character, as Unicode defines it.
pub open spec fn is_white(c: char) -> bool {
    ('\t' <= c && c <= '\r') || c == ' ' || c == '\u{85}' || c == '\u{a0}' || c == '\u{1680}'
        || ('\u{2000}' <= c && c <= '\u{200a}') || c == '\u{2028}' || c == '\u{2029}' || c == '\u{202f}'
        || c == '\u{205f}' || c == '\u{3000}'
}

/// The text without its trailing white space.
pub open spec fn trim_end(s: Seq<char>) -> Seq<char>
    decreases s.len(),
{
    if s.len() > 0 && is_white(s.last()) {
        trim_end(s.drop_last())
    } else {
        s
    }
}

/// `n` spaces.
pub open spec fn spaces(n: nat) -> Seq<char> {
    Seq::new(n, |i: int| ' ')
}

proof fn lemma_trim_end_prefix(s: Seq<char>, k: int)
    requires
        0 <= k <= s.len(),
        forall|j: int| k <= j < s.len() ==> is_white(#[trigger] s[j]),
    ensures
        trim_end(s) == trim_end(s.subrange(0, k)),
    decreases s.len() - k,
{
    if k < s.len() {
        assert(s.drop_last() =~= s.subrange(0, s.len() - 1));
        lemma_trim_end_prefix(s.drop_last(), k);
        assert(s.drop_last().subrange(0, k) =~= s.subrange(0, k));
    } else {
        assert(s.subrange(0, k) =~= s);
    }
}

/// Whether the character is white space.
fn is_white_char(c: char) -> (r: bool)
    ensures
        r == is_white(c),
{
    ('\t' <= c && c <= '\r') || c == ' ' || c == '\u{85}' || c == '\u{a0}' || c == '\u{1680}'
        || ('\u{2000}' <= c && c <= '\u{200a}') || c == '\u{2028}' || c == '\u{2029}' || c == '\u{202f}'
        || c == '\u{205f}' || c == '\u{3000}'
}

/// The text without its trailing white space.
pub fn trim_end_str(s: &str) -> (r: &str)
    ensures
        r@ == trim_end(s@),
{
    let n = s.unicode_len();
    let mut k: usize = n;
    while k > 0 && is_white_char(s.get_char(k - 1))
        invariant
            k <= n,
            n == s@.len(),
            forall|j: int| k <= j < n ==> is_white(#[trigger] s@[j]),
        decreases k,
    {
        k = k - 1;
    }
    proof {
        lemma_trim_end_prefix(s@, k as int);
        let t = s@.subrange(0, k as int);
        if k > 0 {
            assert(t.last() == s@[k - 1]);
        }
    }
    s.substring_char(0, k)
}

/// The text without its leading white space.
pub open spec fn trim_start(s: Seq<char>) -> Seq<char>
    decreases s.len(),
{
    if s.len() > 0 && is_white(s[0]) {
        trim_start(s.drop_first())
    } else {
        s
    }
}

/// The text without its leading and trailing white space.
pub open spec fn trim(s: Seq<char>) -> Seq<char> {
    trim_start(trim_end(s))
}

proof fn lemma_trim_start_suffix(s: Seq<char>, k: int)
    requires
        0 <= k <= s.len(),
        forall|j: int| 0 <= j < k ==> is_white(#[trigger] s[j]),
    ensures
        trim_start(s) == trim_start(s.subrange(k, s.len() as int)),
    decreases k,
{
    if k > 0 {
        assert(s.drop_first() =~= s.subrange(1, s.len() as int));
        lemma_trim_start_suffix(s.drop_first(), k - 1);
        assert(s.drop_first().subrange(k - 1, s.drop_first().len() as int) =~= s.subrange(k, s.len() as int));
    } else {
        assert(s.subrange(0, s.len() as int) =~= s);
    }
}

/// The text without its leading and trailing white space.
pub fn trim_str(s: &str) -> (r: String)
    ensures
        r@ == trim(s@),
{
    let e = trim_end_str(s);
    let n = e.unicode_len();
    let mut k: usize = 0;
    while k < n && is_white_char(e.get_char(k))
        invariant
            k <= n,
            n == e@.len(),
            forall|j: int| 0 <= j < k ==> is_white(#[trigger] e@[j]),
        decreases n - k,
    {
        k = k + 1;
    }
    proof {
        lemma_trim_start_suffix(e@, k as int);
        let t = e@.subrange(k as int, n as int);
        if k < n {
            assert(t[0] == e@[k as int]);
        }
    }
    crate::text::to_string(e.substring_char(k, n))
}

/// Captures a command's output, and gives the lines to display when it is
/// displayed, indented.
#[derive(Debug, Clone)]
pub struct CommandOutputBuffer {
    stdout_buffer: String,
    stderr_buffer: String,
    indent: String,
    display_output: bool,
}

impl CommandOutputBuffer {
    /// The standard output captured so far.
    pub closed spec fn captured_stdout(&self) -> Seq<char> {
        self.stdout_buffer@
    }

    /// The error output captured so far.
    pub closed spec fn captured_stderr(&self) -> Seq<char> {
        self.stderr_buffer@
    }

    /// The indentation of displayed lines.
    pub closed spec fn indentation(&self) -> Seq<char> {
        self.indent@
    }

    /// Whether output is displayed.
    pub closed spec fn displays(&self) -> bool {
        self.display_output
    }

    /// An empty buffer, whose displayed lines are indented by `indent_level` spaces.
    pub fn new(indent_level: usize, display_output: bool) -> (r: Self)
        ensures
            r.captured_stdout().len() == 0,
            r.captured_stderr().len() == 0,
            r.indentation() == spaces(indent_level as nat),
            r.displays() == display_output,
    {
        let mut indent = String::new();
        let mut i: usize = 0;
        while i < indent_level
            invariant
                i <= indent_level,
                indent@ == spaces(i as nat),
            decreases indent_level - i,
        {
            proof {
                reveal_strlit(" ");
            }
            indent.append(" ");
            i = i + 1;
            assert(indent@ =~= spaces(i as nat));
        }
        CommandOutputBuffer { stdout_buffer: String::new(), stderr_buffer: String::new(), indent, display_output }
    }

    /// Capture a line of output, without its trailing white space and with a
    /// newline; when output is displayed, the line to show for it. The start
    /// of a line still being written waits for the complete line.
    pub fn process_chunk(&mut self, chunk: OutputChunk) -> (r: Option<OutputChunk>)
        ensures
            final(self).indentation() == old(self).indentation(),
            final(self).displays() == old(self).displays(),
            (chunk is StdoutPartial || chunk is StderrPartial) ==> r is None
                && final(self).captured_stdout() == old(self).captured_stdout()
                && final(self).captured_stderr() == old(self).captured_stderr(),
            match chunk {
                OutputChunk::Stdout(line) => {
                    &&& final(self).captured_stdout() == old(self).captured_stdout() + trim_end(line@) + "\n"@
                    &&& final(self).captured_stderr() == old(self).captured_stderr()
                    &&& old(self).displays() ==> (r matches Some(OutputChunk::Stdout(t))
                        && t@ == old(self).indentation() + "stdout: "@ + trim_end(line@))
                    &&& !old(self).displays() ==> r is None
                },
                OutputChunk::Stderr(line) => {
                    &&& final(self).captured_stderr() == old(self).captured_stderr() + trim_end(line@) + "\n"@
                    &&& final(self).captured_stdout() == old(self).captured_stdout()
                    &&& old(self).displays() ==> (r matches Some(OutputChunk::Stderr(t))
                        && t@ == old(self).indentation() + "stderr: "@ + trim_end(line@))
                    &&& !old(self).displays() ==> r is None
                },
                _ => true,
            },
    {
        match chunk {
            OutputChunk::Stdout(line) => {
                let t = trim_end_str(line.as_str());
                self.stdout_buffer.append(t);
                self.stdout_buffer.append("\n");
                if self.display_output {
                    let mut shown = concat2(self.indent.as_str(), "stdout: ");
                    shown.append(t);
                    Some(OutputChunk::Stdout(shown))
                } else {
                    None
                }
            },
            OutputChunk::Stderr(line) => {
                let t = trim_end_str(line.as_str());
                self.stderr_buffer.append(t);
                self.stderr_buffer.append("\n");
                if self.display_output {
                    let mut shown = concat2(self.indent.as_str(), "stderr: ");
                    shown.append(t);
                    Some(OutputChunk::Stderr(shown))
                } else {
                    None
                }
            },
            OutputChunk::StdoutPartial(_) => None,
            OutputChunk::StderrPartial(_) => None,
        }
    }

    /// The captured standard output.
    pub fn stdout(&self) -> (r: &str)
        ensures
            r@ == self.captured_stdout(),
    {
        self.stdout_buffer.as_str()
    }

    /// The captured error output.
    pub fn stderr(&self) -> (r: &str)
        ensures
            r@ == self.captured_stderr(),
    {
        self.stderr_buffer.as_str()
    }
}

} // verus!
