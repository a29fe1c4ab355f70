//! Rendering a [`LogRecord`] as one styled line of text.

use vstd::prelude::*;
use vstd::string::StringExecFns;
use crate::record::{LogLevel, LogRecord, TimeOfDay};
use crate::style::{
    blue_prefix, cyan_prefix, paint_blue, paint_cyan, paint_red_bold, paint_white,
    paint_white_dimmed, paint_yellow_bold, red_bold_prefix, spec_styled,
    white_dimmed_prefix, white_prefix, yellow_bold_prefix,
};

verus! {

/// The single character a decimal digit prints as.
pub open spec fn digit_text(d: int) -> Seq<char> {
    if d == 0 {
        "0"@
    } else if d == 1 {
        "1"@
    } else if d == 2 {
        "2"@
    } else if d == 3 {
        "3"@
    } else if d == 4 {
        "4"@
    } else if d == 5 {
        "5"@
    } else if d == 6 {
        "6"@
    } else if d == 7 {
        "7"@
    } else if d == 8 {
        "8"@
    } else {
        "9"@
    }
}

/// A number below one hundred, zero-padded to two digits.
pub open spec fn two_digit_text(x: int) -> Seq<char> {
    digit_text(x / 10) + digit_text(x % 10)
}

/// A clock time as `HH:MM:SS`, 24-hour, zero-padded.
pub open spec fn time_text(t: TimeOfDay) -> Seq<char> {
    two_digit_text(t.hour as int) + ":"@ + two_digit_text(t.minute as int) + ":"@
        + two_digit_text(t.second as int)
}

/// Every digit prints as exactly one character.
proof fn lemma_digit_text_len(d: int)
    requires
        0 <= d < 10,
    ensures
        digit_text(d).len() == 1,
{
    reveal_strlit("0");
    reveal_strlit("1");
    reveal_strlit("2");
    reveal_strlit("3");
    reveal_strlit("4");
    reveal_strlit("5");
    reveal_strlit("6");
    reveal_strlit("7");
    reveal_strlit("8");
    reveal_strlit("9");
}

/// The formatted time of a real clock reading is always exactly eight
/// characters: two digits, a colon, two digits, a colon, two digits.
pub proof fn lemma_time_text_len(t: TimeOfDay)
    requires
        t.wf(),
    ensures
        time_text(t).len() == 8,
{
    reveal_strlit(":");
    lemma_digit_text_len(t.hour as int / 10);
    lemma_digit_text_len(t.hour as int % 10);
    lemma_digit_text_len(t.minute as int / 10);
    lemma_digit_text_len(t.minute as int % 10);
    lemma_digit_text_len(t.second as int / 10);
    lemma_digit_text_len(t.second as int % 10);
}

/// Append one decimal digit to the text built so far.
fn push_digit(out: &mut String, d: u8)
    requires
        d < 10,
    ensures
        final(out)@ == old(out)@ + digit_text(d as int),
{
    match d {
        0 => out.append("0"),
        1 => out.append("1"),
        2 => out.append("2"),
        3 => out.append("3"),
        4 => out.append("4"),
        5 => out.append("5"),
        6 => out.append("6"),
        7 => out.append("7"),
        8 => out.append("8"),
        _ => out.append("9"),
    }
}

/// Append a number below one hundred, zero-padded to two digits.
fn push_two_digits(out: &mut String, x: u8)
    requires
        x < 100,
    ensures
        final(out)@ == old(out)@ + two_digit_text(x as int),
{
    push_digit(out, x / 10);
    push_digit(out, x % 10);
    assert(final(out)@ =~= old(out)@ + two_digit_text(x as int));
}

/// Format a clock time as `HH:MM:SS` (24-hour, zero-padded): always exactly
/// eight characters, independent of any locale.
pub fn format_time(t: &TimeOfDay) -> (r: String)
    requires
        t.wf(),
    ensures
        r@ == time_text(*t),
        r@.len() == 8,
{
    let mut out = String::new();
    push_two_digits(&mut out, t.hour);
    out.append(":");
    push_two_digits(&mut out, t.minute);
    out.append(":");
    push_two_digits(&mut out, t.second);
    proof {
        assert(out@ =~= time_text(*t));
        lemma_time_text_len(*t);
    }
    out
}

/// The style prefix each severity level selects.
pub open spec fn level_prefix(level: LogLevel) -> Seq<char> {
    match level {
        LogLevel::Debug => blue_prefix(),
        LogLevel::Info => white_prefix(),
        LogLevel::Warning => yellow_bold_prefix(),
        LogLevel::Error => red_bold_prefix(),
    }
}

/// A message styled according to its severity level.
pub open spec fn message_styled(level: LogLevel, message: Seq<char>) -> Seq<char> {
    spec_styled(level_prefix(level), message)
}

/// Style a message according to its severity level.
pub fn render_message(level: LogLevel, message: &str) -> (r: String)
    ensures
        r@ == message_styled(level, message@),
{
    match level {
        LogLevel::Debug => paint_blue(message),
        LogLevel::Info => paint_white(message),
        LogLevel::Warning => paint_yellow_bold(message),
        LogLevel::Error => paint_red_bold(message),
    }
}

/// Distinct severity levels always select distinct styles: on any one
/// message, the styled segments of two different levels differ.
pub proof fn lemma_level_styles_distinct(a: LogLevel, b: LogLevel, message: Seq<char>)
    requires
        a != b,
    ensures
        message_styled(a, message) != message_styled(b, message),
{
    reveal_strlit("\u{1b}[34m");
    reveal_strlit("\u{1b}[37m");
    reveal_strlit("\u{1b}[33;1m");
    reveal_strlit("\u{1b}[31;1m");
    let pa = level_prefix(a);
    let pb = level_prefix(b);
    if pa.len() == pb.len() {
        assert(pa[3] != pb[3]);
        assert(message_styled(a, message)[3] == pa[3]);
        assert(message_styled(b, message)[3] == pb[3]);
    } else {
        assert(message_styled(a, message).len() != message_styled(b, message).len());
    }
}

/// A whole rendered line: the cyan time, the level-styled message, and the
/// dimmed auxiliary JSON text, space-separated.
pub open spec fn rendered_line(rec: LogRecord) -> Seq<char> {
    spec_styled(cyan_prefix(), time_text(rec.time)) + " "@
        + message_styled(rec.level, rec.message@) + " "@
        + spec_styled(white_dimmed_prefix(), rec.extra_text@)
}

impl LogRecord {
    /// Render the record as one styled line (without a trailing newline).
    pub fn render(&self) -> (r: String)
        requires
            self.wf(),
        ensures
            r@ == rendered_line(*self),
    {
        let mut out = paint_cyan(format_time(&self.time).as_str());
        out.append(" ");
        out.append(render_message(self.level, self.message.as_str()).as_str());
        out.append(" ");
        out.append(paint_white_dimmed(self.extra_text.as_str()).as_str());
        proof {
            assert(out@ =~= rendered_line(*self));
        }
        out
    }
}

} // verus!
