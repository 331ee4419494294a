//! Newline-delimited framing of the messages exchanged between the host
//! and the viewer: one encoded message per line, surrounding white space
//! ignored, blank lines skipped.
use vstd::prelude::*;

verus! {

/// The Unicode `White_Space` property, the white space that `str::trim`
/// removes.
pub open spec fn is_white_space(c: char) -> bool {
    let n = c as u32;
    ||| 0x9 <= n <= 0xd
    ||| n == 0x20
    ||| n == 0x85
    ||| n == 0xa0
    ||| n == 0x1680
    ||| 0x2000 <= n <= 0x200a
    ||| n == 0x2028
    ||| n == 0x2029
    ||| n == 0x202f
    ||| n == 0x205f
    ||| n == 0x3000
}

/// `s` without its leading white space.
pub open spec fn trim_start_spec(s: Seq<char>) -> Seq<char>
    decreases s.len(),
{
    if s.len() > 0 && is_white_space(s[0]) {
        trim_start_spec(s.drop_first())
    } else {
        s
    }
}

/// `s` without its trailing white space.
pub open spec fn trim_end_spec(s: Seq<char>) -> Seq<char>
    decreases s.len(),
{
    if s.len() > 0 && is_white_space(s.last()) {
        trim_end_spec(s.drop_last())
    } else {
        s
    }
}

/// `s` without its leading and trailing white space.
pub open spec fn trim_spec(s: Seq<char>) -> Seq<char> {
    trim_end_spec(trim_start_spec(s))
}

/// What a received line carries: the trimmed line, or nothing when the
/// line is blank.
pub open spec fn line_payload_spec(line: Seq<char>) -> Option<Seq<char>> {
    if trim_spec(line).len() == 0 {
        None
    } else {
        Some(trim_spec(line))
    }
}

/// The bytes written for one message: the encoded message and a newline.
pub open spec fn framed_spec(payload: Seq<char>) -> Seq<char> {
    payload.push('\n')
}

/// Calls `str::trim`, which removes leading and trailing Unicode
/// `White_Space` characters.
#[verifier::external_body]
pub(crate) fn trim(s: &str) -> (t: &str)
    ensures
        t@ == trim_spec(s@),
{
    s.trim()
}

/// The message text that a received line carries: the line with its
/// surrounding white space removed, or `None` for a blank line, which the
/// reader skips.
pub fn line_payload(line: &str) -> (payload: Option<&str>)
    ensures
        payload matches Some(p) ==> line_payload_spec(line@) == Some(p@),
        payload is None <==> line_payload_spec(line@) is None,
{
    let trimmed = trim(line);
    if trimmed.is_empty() {
        None
    } else {
        Some(trimmed)
    }
}

/// One line of the wire: the encoded message followed by a newline.
pub fn frame_line(payload: &str) -> (line: String)
    ensures
        line@ == framed_spec(payload@),
{
    let mut line = String::from_str(payload);
    line.append("\n");
    proof {
        reveal_strlit("\n");
    }
    assert(line@ =~= framed_spec(payload@));
    line
}

/// Trimming leaves a sequence alone when its first and last characters are
/// not white space.
proof fn lemma_trim_keeps_tight(s: Seq<char>)
    requires
        s.len() > 0,
        !is_white_space(s[0]),
        !is_white_space(s.last()),
    ensures
        trim_spec(s) == s,
{
    assert(trim_start_spec(s) == s);
    assert(trim_end_spec(s) == s);
}

/// A sequence made only of white space trims to nothing.
proof fn lemma_trim_all_white(s: Seq<char>)
    requires
        forall|i: int| 0 <= i < s.len() ==> is_white_space(#[trigger] s[i]),
    ensures
        trim_start_spec(s).len() == 0,
        trim_spec(s).len() == 0,
    decreases s.len(),
{
    if s.len() > 0 {
        let rest = s.drop_first();
        assert forall|i: int| 0 <= i < rest.len() implies is_white_space(#[trigger] rest[i]) by {
            assert(rest[i] == s[i + 1]);
        }
        lemma_trim_all_white(rest);
    }
    assert(trim_end_spec(trim_start_spec(s)).len() == 0) by {
        reveal_with_fuel(trim_end_spec, 2);
    }
}

/// What the reader gets back of a write: a message framed as a line and
/// read back as that line (the line reader drops the newline) yields the
/// message itself, provided it is non-empty and neither starts nor ends
/// with white space (as an encoded JSON object never does).
pub proof fn law_framed_message_reads_back(payload: Seq<char>)
    requires
        payload.len() > 0,
        !is_white_space(payload[0]),
        !is_white_space(payload.last()),
    ensures
        line_payload_spec(framed_spec(payload).drop_last()) == Some(payload),
{
    assert(framed_spec(payload).drop_last() =~= payload);
    lemma_trim_keeps_tight(payload);
}

/// Blank lines carry nothing: a line made only of white space is skipped.
pub proof fn law_blank_lines_are_skipped(line: Seq<char>)
    requires
        forall|i: int| 0 <= i < line.len() ==> is_white_space(#[trigger] line[i]),
    ensures
        line_payload_spec(line) is None,
{
    lemma_trim_all_white(line);
}

} // verus!
