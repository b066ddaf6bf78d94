//! Filtering of the sidecar's output stream into log events.
//!
//! The drain task receives raw lines from the child's stdout and stderr.
//! Each line is trimmed of leading and trailing blanks; a line that is empty
//! after trimming produces no log event, every other line is emitted behind
//! a channel prefix.

use vstd::prelude::*;

verus! {

/// A character the drain treats as blank: ASCII whitespace.
pub open spec fn is_blank_char(c: char) -> bool {
    c == ' ' || c == '\t' || c == '\n' || c == '\r' || c == '\u{000B}' || c == '\u{000C}'
}

fn blank_char(c: char) -> (r: bool)
    ensures
        r == is_blank_char(c),
{
    c == ' ' || c == '\t' || c == '\n' || c == '\r' || c == '\u{000B}' || c == '\u{000C}'
}

/// A sequence with its leading blanks removed.
pub open spec fn trim_front(s: Seq<char>) -> Seq<char>
    decreases s.len(),
{
    if s.len() > 0 && is_blank_char(s[0]) {
        trim_front(s.drop_first())
    } else {
        s
    }
}

/// A sequence with its trailing blanks removed.
pub open spec fn trim_back(s: Seq<char>) -> Seq<char>
    decreases s.len(),
{
    if s.len() > 0 && is_blank_char(s.last()) {
        trim_back(s.drop_last())
    } else {
        s
    }
}

/// A sequence with blanks removed at both ends.
pub open spec fn spec_trim(s: Seq<char>) -> Seq<char> {
    trim_back(trim_front(s))
}

proof fn lemma_trim_front_at(s: Seq<char>, i: int)
    requires
        0 <= i <= s.len(),
        forall|k: int| 0 <= k < i ==> is_blank_char(s[k]),
        i < s.len() ==> !is_blank_char(s[i]),
    ensures
        trim_front(s) == s.subrange(i, s.len() as int),
    decreases i,
{
    if i == 0 {
        assert(trim_front(s) =~= s.subrange(0, s.len() as int));
    } else {
        let t = s.drop_first();
        assert(forall|k: int| 0 <= k < i - 1 ==> is_blank_char(t[k]));
        lemma_trim_front_at(t, i - 1);
        assert(t.subrange(i - 1, t.len() as int) =~= s.subrange(i, s.len() as int));
    }
}

proof fn lemma_trim_back_at(s: Seq<char>, j: int)
    requires
        0 <= j <= s.len(),
        forall|k: int| j <= k < s.len() ==> is_blank_char(s[k]),
        j > 0 ==> !is_blank_char(s[j - 1]),
    ensures
        trim_back(s) == s.subrange(0, j),
    decreases s.len(),
{
    if j == s.len() {
        assert(trim_back(s) =~= s.subrange(0, j));
    } else {
        let t = s.drop_last();
        lemma_trim_back_at(t, j);
        assert(t.subrange(0, j) =~= s.subrange(0, j));
    }
}

/// Trims leading and trailing blanks from a line.
pub fn trim_blank(s: &str) -> (r: String)
    ensures
        r@ == spec_trim(s@),
{
    let n = s.unicode_len();
    let mut i: usize = 0;
    while i < n && blank_char(s.get_char(i))
        invariant
            0 <= i <= n,
            n == s@.len(),
            forall|k: int| 0 <= k < i ==> is_blank_char(s@[k]),
        decreases n - i,
    {
        i = i + 1;
    }
    let mut j: usize = n;
    while j > i && blank_char(s.get_char(j - 1))
        invariant
            i <= j <= n,
            n == s@.len(),
            forall|k: int| 0 <= k < i ==> is_blank_char(s@[k]),
            i < n ==> !is_blank_char(s@[i as int]),
            forall|k: int| j <= k < n ==> is_blank_char(s@[k]),
        decreases j,
    {
        j = j - 1;
    }
    let mid = s.substring_char(i, j);
    let r = String::from_str(mid);
    proof {
        lemma_trim_front_at(s@, i as int);
        let t = s@.subrange(i as int, n as int);
        assert(forall|k: int| j - i <= k < t.len() ==> is_blank_char(t[k]));
        lemma_trim_back_at(t, j - i);
        assert(t.subrange(0, j - i) =~= s@.subrange(i as int, j as int));
    }
    r
}

/// The stream a raw line arrived on.
#[derive(Clone, Copy, PartialEq, Eq, Structural, Debug)]
pub enum OutputChannel {
    Stdout,
    Stderr,
}

/// The prefix a log event carries for each channel.
pub open spec fn channel_prefix(ch: OutputChannel) -> Seq<char> {
    match ch {
        OutputChannel::Stdout => "[sidecar] "@,
        OutputChannel::Stderr => "[sidecar:err] "@,
    }
}

/// What the drain emits for one raw line: nothing when the line is blank
/// after trimming, otherwise the trimmed text behind the channel's prefix.
pub open spec fn spec_log_line(ch: OutputChannel, line: Seq<char>) -> Option<Seq<char>> {
    if spec_trim(line).len() == 0 {
        None
    } else {
        Some(channel_prefix(ch) + spec_trim(line))
    }
}

/// Turns one raw output line into the log event to append, if any.
pub fn render_output_line(channel: OutputChannel, line: &str) -> (r: Option<String>)
    ensures
        (match r {
            None => spec_log_line(channel, line@) is None,
            Some(t) => spec_log_line(channel, line@) == Some(t@),
        }),
{
    let t = trim_blank(line);
    if t.as_str().is_empty() {
        None
    } else {
        let prefix: &str = match channel {
            OutputChannel::Stdout => "[sidecar] ",
            OutputChannel::Stderr => "[sidecar:err] ",
        };
        let mut r = String::from_str(prefix);
        r.append(t.as_str());
        proof {
            assert(r@ =~= channel_prefix(channel) + spec_trim(line@));
        }
        Some(r)
    }
}

/// Law: a line that is blank after trimming produces no log event, and a
/// non-blank line produces exactly one, carrying its channel's prefix
/// followed by the trimmed text.
pub proof fn lemma_blank_lines_suppressed(ch: OutputChannel, line: Seq<char>)
    ensures
        spec_trim(line).len() == 0 <==> spec_log_line(ch, line) is None,
        spec_trim(line).len() > 0 ==> spec_log_line(ch, line) == Some(
            channel_prefix(ch) + spec_trim(line),
        ),
{
}

} // verus!
