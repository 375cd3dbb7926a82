//! Log lines: severity levels, display hues, emitted actions, and the
//! timestamped rendering of a line.
use vstd::prelude::*;
use crate::text::{decimal, is_dec_digit, lemma_decimal_all_digits, lemma_decimal_len_small,
    u64_to_decimal};

verus! {

/// Severity of an emitted log line.
#[derive(Clone, Copy, PartialEq, Eq, Structural, Debug)]
pub enum Level {
    Info,
    Warning,
    Error,
    Log,
}

/// The color a message is displayed in. The hue of a message need not match
/// the hue of its level tag.
#[derive(Clone, Copy, PartialEq, Eq, Structural, Debug)]
pub enum Hue {
    Green,
    Yellow,
    Red,
    White,
}

/// One log line: a level tag, the message text, and the message's hue.
/// The timestamp is attached when the line is rendered.
#[derive(Debug)]
pub struct Line {
    pub level: Level,
    pub message: String,
    pub hue: Hue,
}

/// One step of simulated activity: either emit a line or pause for a number
/// of seconds.
#[derive(Debug)]
pub enum Action {
    Emit(Line),
    Pause(u64),
}

/// `a` emits a line with exactly this level, message and hue.
pub open spec fn is_emit(a: Action, level: Level, message: Seq<char>, hue: Hue) -> bool {
    match a {
        Action::Emit(l) => l.level == level && l.message@ == message && l.hue == hue,
        Action::Pause(_) => false,
    }
}

/// `a` pauses for a duration within `[lo, hi]` seconds.
pub open spec fn is_pause_between(a: Action, lo: int, hi: int) -> bool {
    match a {
        Action::Emit(_) => false,
        Action::Pause(s) => lo <= s <= hi,
    }
}

/// The bracketed tag shown for each level.
pub open spec fn tag_chars(level: Level) -> Seq<char> {
    match level {
        Level::Info => "[INFO]"@,
        Level::Warning => "[WARNING]"@,
        Level::Error => "[ERROR]"@,
        Level::Log => "[LOG]"@,
    }
}

pub open spec fn valid_tag(s: Seq<char>) -> bool {
    s == "[INFO]"@ || s == "[WARNING]"@ || s == "[ERROR]"@ || s == "[LOG]"@
}

pub fn level_tag(level: Level) -> (r: String)
    ensures
        r@ == tag_chars(level),
        valid_tag(r@),
{
    let s: &str = match level {
        Level::Info => "[INFO]",
        Level::Warning => "[WARNING]",
        Level::Error => "[ERROR]",
        Level::Log => "[LOG]",
    };
    s.to_owned()
}

/// A wall-clock instant, held as plain calendar fields.
#[derive(Clone, Copy, PartialEq, Eq, Structural, Debug)]
pub struct Timestamp {
    pub year: u64,
    pub month: u64,
    pub day: u64,
    pub hour: u64,
    pub minute: u64,
    pub second: u64,
}

impl Timestamp {
    /// The fields fit the fixed `[YYYY-MM-DD HH:MM:SS]` rendering.
    pub open spec fn wf(self) -> bool {
        self.year < 10000 && 1 <= self.month <= 12 && 1 <= self.day <= 31 && self.hour < 24
            && self.minute < 60 && self.second < 60
    }

    /// Builds a timestamp from plain calendar fields; `Some` exactly when the
    /// fields fit the fixed rendering.
    pub fn from_parts(year: i64, month: u64, day: u64, hour: u64, minute: u64, second: u64) -> (r:
        Option<Timestamp>)
        ensures
            (r is Some) == (0 <= year < 10000 && 1 <= month <= 12 && 1 <= day <= 31 && hour < 24
                && minute < 60 && second < 60),
            r matches Some(t) ==> t == (Timestamp {
                year: year as u64,
                month,
                day,
                hour,
                minute,
                second,
            }) && t.wf(),
    {
        if 0 <= year && year < 10000 && 1 <= month && month <= 12 && 1 <= day && day <= 31 && hour
            < 24 && minute < 60 && second < 60 {
            Some(Timestamp { year: year as u64, month, day, hour, minute, second })
        } else {
            None
        }
    }
}

/// `n` rendered as exactly two digits, zero-padded.
pub open spec fn pad2(n: nat) -> Seq<char> {
    if n < 10 {
        seq!['0'] + decimal(n)
    } else {
        decimal(n)
    }
}

/// `n` rendered as exactly four digits, zero-padded.
pub open spec fn pad4(n: nat) -> Seq<char> {
    if n < 10 {
        seq!['0', '0', '0'] + decimal(n)
    } else if n < 100 {
        seq!['0', '0'] + decimal(n)
    } else if n < 1000 {
        seq!['0'] + decimal(n)
    } else {
        decimal(n)
    }
}

pub proof fn lemma_pad2_len(n: nat)
    requires
        n < 100,
    ensures
        pad2(n).len() == 2,
        forall|i: int| 0 <= i < 2 ==> is_dec_digit(#[trigger] pad2(n)[i]),
{
    lemma_decimal_len_small(n);
    lemma_decimal_all_digits(n);
}

pub proof fn lemma_pad4_len(n: nat)
    requires
        n < 10000,
    ensures
        pad4(n).len() == 4,
        forall|i: int| 0 <= i < 4 ==> is_dec_digit(#[trigger] pad4(n)[i]),
{
    lemma_decimal_len_small(n);
    lemma_decimal_all_digits(n);
}

fn u64_pad2(n: u64) -> (r: String)
    requires
        n < 100,
    ensures
        r@ == pad2(n as nat),
{
    proof {
        reveal_strlit("0");
    }
    if n < 10 {
        let mut s = "0".to_owned();
        let d = u64_to_decimal(n);
        s.append(d.as_str());
        proof {
            assert(s@ =~= pad2(n as nat));
        }
        s
    } else {
        u64_to_decimal(n)
    }
}

fn u64_pad4(n: u64) -> (r: String)
    requires
        n < 10000,
    ensures
        r@ == pad4(n as nat),
{
    proof {
        reveal_strlit("0");
        reveal_strlit("00");
        reveal_strlit("000");
    }
    let prefix: &str = if n < 10 {
        "000"
    } else if n < 100 {
        "00"
    } else if n < 1000 {
        "0"
    } else {
        ""
    };
    let mut s = prefix.to_owned();
    let d = u64_to_decimal(n);
    s.append(d.as_str());
    proof {
        reveal_strlit("");
        assert(s@ =~= pad4(n as nat));
    }
    s
}

/// The fixed `[YYYY-MM-DD HH:MM:SS]` rendering of a timestamp.
pub open spec fn timestamp_chars(ts: Timestamp) -> Seq<char> {
    seq!['['] + pad4(ts.year as nat) + seq!['-'] + pad2(ts.month as nat) + seq!['-'] + pad2(
        ts.day as nat,
    ) + seq![' '] + pad2(ts.hour as nat) + seq![':'] + pad2(ts.minute as nat) + seq![':'] + pad2(
        ts.second as nat,
    ) + seq![']']
}

/// A well-formed timestamp prefix: 21 characters, brackets and separators in
/// their fixed places, decimal digits everywhere else.
pub open spec fn is_timestamp_format(s: Seq<char>) -> bool {
    s.len() == 21 && s[0] == '[' && s[5] == '-' && s[8] == '-' && s[11] == ' ' && s[14] == ':'
        && s[17] == ':' && s[20] == ']' && forall|i: int|
        0 <= i < 21 && i != 0 && i != 5 && i != 8 && i != 11 && i != 14 && i != 17 && i != 20
            ==> is_dec_digit(#[trigger] s[i])
}

/// A well-formed timestamp renders as the fixed format.
pub proof fn lemma_timestamp_format(ts: Timestamp)
    requires
        ts.wf(),
    ensures
        is_timestamp_format(timestamp_chars(ts)),
{
    lemma_pad4_len(ts.year as nat);
    lemma_pad2_len(ts.month as nat);
    lemma_pad2_len(ts.day as nat);
    lemma_pad2_len(ts.hour as nat);
    lemma_pad2_len(ts.minute as nat);
    lemma_pad2_len(ts.second as nat);
}

pub fn format_timestamp(ts: &Timestamp) -> (r: String)
    requires
        ts.wf(),
    ensures
        r@ == timestamp_chars(*ts),
{
    proof {
        reveal_strlit("[");
        reveal_strlit("-");
        reveal_strlit(" ");
        reveal_strlit(":");
        reveal_strlit("]");
    }
    let mut s = "[".to_owned();
    let y = u64_pad4(ts.year);
    s.append(y.as_str());
    s.append("-");
    let mo = u64_pad2(ts.month);
    s.append(mo.as_str());
    s.append("-");
    let d = u64_pad2(ts.day);
    s.append(d.as_str());
    s.append(" ");
    let h = u64_pad2(ts.hour);
    s.append(h.as_str());
    s.append(":");
    let mi = u64_pad2(ts.minute);
    s.append(mi.as_str());
    s.append(":");
    let sec = u64_pad2(ts.second);
    s.append(sec.as_str());
    s.append("]");
    proof {
        assert(s@ =~= timestamp_chars(*ts));
    }
    s
}

/// The full plain-text rendering of a line: timestamp, level tag, message,
/// separated by single spaces.
pub open spec fn rendered_line(ts: Timestamp, l: Line) -> Seq<char> {
    timestamp_chars(ts) + seq![' '] + tag_chars(l.level) + seq![' '] + l.message@
}

pub fn render_line(ts: &Timestamp, l: &Line) -> (r: String)
    requires
        ts.wf(),
    ensures
        r@ == rendered_line(*ts, *l),
{
    proof {
        reveal_strlit(" ");
    }
    let mut s = format_timestamp(ts);
    s.append(" ");
    let tag = level_tag(l.level);
    s.append(tag.as_str());
    s.append(" ");
    s.append(l.message.as_str());
    proof {
        assert(s@ =~= rendered_line(*ts, *l));
    }
    s
}

/// Every rendered line begins with a well-formed timestamp of the fixed
/// format, followed by a space and one of the four valid level tags.
pub proof fn lemma_rendered_line_well_formed(ts: Timestamp, l: Line)
    requires
        ts.wf(),
    ensures
        rendered_line(ts, l).len() >= 22 + tag_chars(l.level).len(),
        is_timestamp_format(rendered_line(ts, l).subrange(0, 21)),
        rendered_line(ts, l)[21] == ' ',
        valid_tag(rendered_line(ts, l).subrange(22, 22 + tag_chars(l.level).len() as int)),
{
    lemma_timestamp_format(ts);
    assert(rendered_line(ts, l).subrange(0, 21) =~= timestamp_chars(ts));
    assert(rendered_line(ts, l).subrange(22, 22 + tag_chars(l.level).len() as int) =~= tag_chars(
        l.level,
    ));
}

} // verus!
