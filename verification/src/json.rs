//! JSON text for the one-line run reports.
use vstd::prelude::*;

use crate::metrics::Metrics;
use crate::text::{decimal_digits, digit, digit_char, push_char, push_decimal, push_str};

verus! {

/// What one character becomes inside a JSON string literal.
pub open spec fn escaped(c: char) -> Seq<char> {
    if c == '"' {
        seq!['\\', '"']
    } else if c == '\\' {
        seq!['\\', '\\']
    } else if c == '\n' {
        seq!['\\', 'n']
    } else if c == '\r' {
        seq!['\\', 'r']
    } else if c == '\t' {
        seq!['\\', 't']
    } else if (c as u32) < 0x20 {
        seq!['\\', 'u', '0', '0', digit_char(((c as u32) / 16) as nat), digit_char(((c as u32) % 16) as nat)]
    } else {
        seq![c]
    }
}

/// The escaped form of a whole sequence of characters.
pub open spec fn escape_all(s: Seq<char>) -> Seq<char>
    decreases s.len(),
{
    if s.len() == 0 {
        Seq::empty()
    } else {
        escape_all(s.drop_last()) + escaped(s.last())
    }
}

/// The JSON string literal that stands for `s`.
pub open spec fn quoted(s: Seq<char>) -> Seq<char> {
    seq!['"'] + escape_all(s) + seq!['"']
}

/// Text with no control character, so in particular no line break.
pub open spec fn printable(s: Seq<char>) -> bool {
    forall|i: int| 0 <= i < s.len() ==> (s[i] as u32) >= 0x20
}

proof fn lemma_printable_concat(a: Seq<char>, b: Seq<char>)
    requires
        printable(a),
        printable(b),
    ensures
        printable(a + b),
{
    assert forall|i: int| 0 <= i < (a + b).len() implies ((a + b)[i] as u32) >= 0x20 by {
        if i < a.len() {
            assert((a + b)[i] == a[i]);
        } else {
            assert((a + b)[i] == b[i - a.len()]);
        }
    }
}

proof fn lemma_escaped_printable(c: char)
    ensures
        printable(escaped(c)),
{
    if (c as u32) < 0x20 && c != '\n' && c != '\r' && c != '\t' {
        let hi = ((c as u32) / 16) as nat;
        let lo = ((c as u32) % 16) as nat;
        assert(hi < 16 && lo < 16);
        assert((digit_char(hi) as u32) >= 48);
        assert((digit_char(lo) as u32) >= 48);
    }
}

/// Escaping leaves no control character in the text.
pub proof fn lemma_escape_printable(s: Seq<char>)
    ensures
        printable(escape_all(s)),
    decreases s.len(),
{
    if s.len() > 0 {
        lemma_escape_printable(s.drop_last());
        lemma_escaped_printable(s.last());
        lemma_printable_concat(escape_all(s.drop_last()), escaped(s.last()));
    }
}

/// A JSON string literal has no control character, whatever text it stands
/// for.
pub proof fn lemma_quoted_printable(s: Seq<char>)
    ensures
        printable(quoted(s)),
{
    lemma_escape_printable(s);
    lemma_printable_concat(seq!['"'], escape_all(s));
    lemma_printable_concat(seq!['"'] + escape_all(s), seq!['"']);
}

/// Renders `s` as a JSON string literal.
pub fn json_str(s: &str) -> (out: String)
    ensures
        out@ == quoted(s@),
        printable(out@),
        unquote(out@) == s@,
{
    broadcast use vstd::string::group_string_axioms;
    let mut out = String::new();
    push_char(&mut out, '"');
    for c in it: s.chars()
        invariant
            it.seq() == s@,
            out@ == seq!['"'] + escape_all(s@.take(it.index() as int)),
    {
        let ghost before = out@;
        let ghost done = s@.take(it.index() as int);
        proof {
            assert(s@.take(it.index() + 1).drop_last() =~= done);
            assert(s@[it.index() as int] == c);
        }
        if c == '"' {
            push_char(&mut out, '\\');
            push_char(&mut out, '"');
        } else if c == '\\' {
            push_char(&mut out, '\\');
            push_char(&mut out, '\\');
        } else if c == '\n' {
            push_char(&mut out, '\\');
            push_char(&mut out, 'n');
        } else if c == '\r' {
            push_char(&mut out, '\\');
            push_char(&mut out, 'r');
        } else if c == '\t' {
            push_char(&mut out, '\\');
            push_char(&mut out, 't');
        } else if (c as u32) < 0x20 {
            push_char(&mut out, '\\');
            push_char(&mut out, 'u');
            push_char(&mut out, '0');
            push_char(&mut out, '0');
            push_char(&mut out, digit((c as u32 / 16) as u64));
            push_char(&mut out, digit((c as u32 % 16) as u64));
        } else {
            push_char(&mut out, c);
        }
        proof {
            assert(out@ =~= before + escaped(c));
            assert(escape_all(s@.take(it.index() + 1)) == escape_all(done) + escaped(c));
            assert(out@ =~= seq!['"'] + (escape_all(done) + escaped(c)));
        }
    }
    proof {
        assert(s@.take(s@.len() as int) =~= s@);
    }
    push_char(&mut out, '"');
    proof {
        lemma_quoted_printable(s@);
        quoted_reads_back(s@);
    }
    out
}

/// The value of a hexadecimal digit (either case).
pub open spec fn hex_value(c: char) -> int {
    if '0' <= c && c <= '9' {
        c as int - 48
    } else if 'a' <= c && c <= 'f' {
        c as int - 87
    } else if 'A' <= c && c <= 'F' {
        c as int - 55
    } else {
        0
    }
}

/// The character that a two-character JSON escape `\\x` stands for.
pub open spec fn short_escape(x: char) -> char {
    if x == 'n' {
        '\n'
    } else if x == 'r' {
        '\r'
    } else if x == 't' {
        '\t'
    } else if x == 'b' {
        8u32 as char
    } else if x == 'f' {
        12u32 as char
    } else {
        x
    }
}

/// What the body of a JSON string literal reads as: each escape sequence
/// is replaced by the character it stands for.
pub open spec fn unescape(t: Seq<char>) -> Seq<char>
    decreases t.len(),
{
    if t.len() == 0 {
        Seq::empty()
    } else if t[0] == '\\' && t.len() >= 2 {
        if t[1] == 'u' && t.len() >= 6 {
            seq![
                (hex_value(t[2]) * 4096 + hex_value(t[3]) * 256 + hex_value(t[4]) * 16 + hex_value(
                    t[5],
                )) as char,
            ] + unescape(t.skip(6))
        } else {
            seq![short_escape(t[1])] + unescape(t.skip(2))
        }
    } else {
        seq![t[0]] + unescape(t.skip(1))
    }
}

/// What a JSON string literal reads as: its body between the quotes,
/// unescaped.
pub open spec fn unquote(t: Seq<char>) -> Seq<char> {
    unescape(t.subrange(1, t.len() - 1))
}

proof fn lemma_hex_value_digit(n: nat)
    requires
        n < 16,
    ensures
        hex_value(digit_char(n)) == n,
{
}

proof fn lemma_escape_front(c: char, s: Seq<char>)
    ensures
        escape_all(seq![c] + s) == escaped(c) + escape_all(s),
    decreases s.len(),
{
    if s.len() == 0 {
        assert((seq![c] + s).drop_last() =~= Seq::<char>::empty());
        assert(escape_all(Seq::<char>::empty()) == Seq::<char>::empty());
        assert(escape_all(seq![c] + s) =~= escaped(c) + escape_all(s));
    } else {
        lemma_escape_front(c, s.drop_last());
        assert((seq![c] + s).drop_last() =~= seq![c] + s.drop_last());
        assert((seq![c] + s).last() == s.last());
        assert(escape_all(seq![c] + s) =~= escaped(c) + escape_all(s));
    }
}

proof fn lemma_unescape_one(c: char, r: Seq<char>)
    ensures
        unescape(escaped(c) + r) == seq![c] + unescape(r),
{
    let t = escaped(c) + r;
    if c == '"' || c == '\\' || c == '\n' || c == '\r' || c == '\t' {
        assert(t.skip(2) =~= r);
    } else if (c as u32) < 0x20 {
        let hi = ((c as u32) / 16) as nat;
        let lo = ((c as u32) % 16) as nat;
        lemma_hex_value_digit(hi);
        lemma_hex_value_digit(lo);
        assert(t.skip(6) =~= r);
        assert(t[2] == '0' && t[3] == '0' && t[4] == digit_char(hi) && t[5] == digit_char(lo));
        assert(hex_value(t[2]) * 4096 + hex_value(t[3]) * 256 + hex_value(t[4]) * 16 + hex_value(t[5])
            == c as int);
    } else {
        assert(t.skip(1) =~= r);
    }
}

/// Reading the escaped text gives the original text back.
pub proof fn lemma_unescape_escape(s: Seq<char>)
    ensures
        unescape(escape_all(s)) == s,
    decreases s.len(),
{
    if s.len() > 0 {
        let rest = s.skip(1);
        assert(s =~= seq![s[0]] + rest);
        lemma_escape_front(s[0], rest);
        lemma_unescape_one(s[0], escape_all(rest));
        lemma_unescape_escape(rest);
    } else {
        assert(escape_all(s) == Seq::<char>::empty());
    }
}

/// A JSON string literal written by [`json_str`] reads back as exactly the
/// text it was made from.
pub proof fn quoted_reads_back(s: Seq<char>)
    ensures
        unquote(quoted(s)) == s,
{
    lemma_unescape_escape(s);
    assert(quoted(s).subrange(1, quoted(s).len() - 1) =~= escape_all(s));
}

/// A JSON value that is a string literal, or `null` where there is no text.
pub open spec fn quoted_or_null(s: Option<Seq<char>>) -> Seq<char> {
    match s {
        Some(t) => quoted(t),
        None => "null"@,
    }
}

/// The text of an optional string.
pub open spec fn text_of(s: Option<&str>) -> Option<Seq<char>> {
    match s {
        Some(t) => Some(t@),
        None => None,
    }
}

/// The one-line JSON report of a run: its status, how many inputs it tried,
/// how long it took (in microseconds, as text with the unit `us`), the
/// counterexample and the error if there are any, and which tool checked
/// which property.
pub open spec fn report_line(
    tool: Seq<char>,
    property: Seq<char>,
    status: Seq<char>,
    metrics: Metrics,
    counterexample: Option<Seq<char>>,
    error: Option<Seq<char>>,
) -> Seq<char> {
    "{\"status\":"@ + quoted(status) + ",\"tests\":"@ + decimal_digits(metrics.inputs as nat)
        + ",\"discards\":0,\"time\":"@ + quoted(decimal_digits(metrics.elapsed_us as nat) + "us"@)
        + ",\"counterexample\":"@ + quoted_or_null(counterexample) + ",\"error\":"@
        + quoted_or_null(error) + ",\"tool\":"@ + quoted(tool) + ",\"property\":"@ + quoted(property)
        + "}"@
}

proof fn lemma_digits_printable(n: nat)
    ensures
        printable(decimal_digits(n)),
    decreases n,
{
    if n >= 10 {
        lemma_digits_printable(n / 10);
        assert((digit_char(n % 10) as u32) >= 48);
        lemma_printable_concat(decimal_digits(n / 10), seq![digit_char(n % 10)]);
        assert(decimal_digits(n) =~= decimal_digits(n / 10) + seq![digit_char(n % 10)]);
    } else {
        assert((digit_char(n) as u32) >= 48);
    }
}

/// A run's report is one line: it holds no line break, nor any other
/// control character, whatever texts go into it.
pub proof fn report_is_one_line(
    tool: Seq<char>,
    property: Seq<char>,
    status: Seq<char>,
    metrics: Metrics,
    counterexample: Option<Seq<char>>,
    error: Option<Seq<char>>,
)
    ensures
        printable(report_line(tool, property, status, metrics, counterexample, error)),
{
    reveal_strlit("{\"status\":");
    reveal_strlit(",\"tests\":");
    reveal_strlit(",\"discards\":0,\"time\":");
    reveal_strlit("us");
    reveal_strlit(",\"counterexample\":");
    reveal_strlit(",\"error\":");
    reveal_strlit(",\"tool\":");
    reveal_strlit(",\"property\":");
    reveal_strlit("}");
    reveal_strlit("null");
    assert(printable("null"@));
    let p1 = "{\"status\":"@;
    let p2 = quoted(status);
    let p3 = ",\"tests\":"@;
    let p4 = decimal_digits(metrics.inputs as nat);
    let p5 = ",\"discards\":0,\"time\":"@;
    let p6 = quoted(decimal_digits(metrics.elapsed_us as nat) + "us"@);
    let p7 = ",\"counterexample\":"@;
    let p8 = quoted_or_null(counterexample);
    let p9 = ",\"error\":"@;
    let p10 = quoted_or_null(error);
    let p11 = ",\"tool\":"@;
    let p12 = quoted(tool);
    let p13 = ",\"property\":"@;
    let p14 = quoted(property);
    let p15 = "}"@;
    lemma_quoted_printable(status);
    lemma_quoted_printable(tool);
    lemma_quoted_printable(property);
    lemma_quoted_printable(decimal_digits(metrics.elapsed_us as nat) + "us"@);
    lemma_digits_printable(metrics.inputs as nat);
    match counterexample {
        Some(t) => lemma_quoted_printable(t),
        None => {},
    }
    match error {
        Some(t) => lemma_quoted_printable(t),
        None => {},
    }
    assert(printable(p1) && printable(p3) && printable(p5) && printable(p7) && printable(p9));
    assert(printable(p11) && printable(p13) && printable(p15));
    lemma_printable_concat(p1, p2);
    lemma_printable_concat(p1 + p2, p3);
    lemma_printable_concat(p1 + p2 + p3, p4);
    lemma_printable_concat(p1 + p2 + p3 + p4, p5);
    lemma_printable_concat(p1 + p2 + p3 + p4 + p5, p6);
    lemma_printable_concat(p1 + p2 + p3 + p4 + p5 + p6, p7);
    lemma_printable_concat(p1 + p2 + p3 + p4 + p5 + p6 + p7, p8);
    lemma_printable_concat(p1 + p2 + p3 + p4 + p5 + p6 + p7 + p8, p9);
    lemma_printable_concat(p1 + p2 + p3 + p4 + p5 + p6 + p7 + p8 + p9, p10);
    lemma_printable_concat(p1 + p2 + p3 + p4 + p5 + p6 + p7 + p8 + p9 + p10, p11);
    lemma_printable_concat(p1 + p2 + p3 + p4 + p5 + p6 + p7 + p8 + p9 + p10 + p11, p12);
    lemma_printable_concat(p1 + p2 + p3 + p4 + p5 + p6 + p7 + p8 + p9 + p10 + p11 + p12, p13);
    lemma_printable_concat(p1 + p2 + p3 + p4 + p5 + p6 + p7 + p8 + p9 + p10 + p11 + p12 + p13, p14);
    lemma_printable_concat(
        p1 + p2 + p3 + p4 + p5 + p6 + p7 + p8 + p9 + p10 + p11 + p12 + p13 + p14,
        p15,
    );
}

/// The counterexample field of a report, or the error field: a string
/// literal, or `null` where there is no text.
pub open spec fn field_text(s: Option<Seq<char>>) -> Seq<char> {
    match s {
        Some(t) => quoted(t),
        None => "null"@,
    }
}

/// In a run's report the counterexample field holds the counterexample
/// alone (as a string literal, or `null` when there is none) and the error
/// field that follows holds the error alone: the rest of the report (`pre`
/// and `post`) stays the same whatever counterexample and error are given,
/// so neither field depends on the other.
pub proof fn report_fields_stand_alone(
    tool: Seq<char>,
    property: Seq<char>,
    status: Seq<char>,
    metrics: Metrics,
    counterexample: Option<Seq<char>>,
    error: Option<Seq<char>>,
    other_counterexample: Option<Seq<char>>,
    other_error: Option<Seq<char>>,
) -> (parts: (Seq<char>, Seq<char>))
    ensures
        report_line(tool, property, status, metrics, counterexample, error) == parts.0
            + ",\"counterexample\":"@ + field_text(counterexample) + ",\"error\":"@ + field_text(error)
            + parts.1,
        report_line(tool, property, status, metrics, other_counterexample, other_error) == parts.0
            + ",\"counterexample\":"@ + field_text(other_counterexample) + ",\"error\":"@
            + field_text(other_error) + parts.1,
        counterexample matches Some(t) ==> field_text(counterexample) == quoted(t),
        counterexample is None ==> field_text(counterexample) == "null"@,
        error matches Some(t) ==> field_text(error) == quoted(t),
        error is None ==> field_text(error) == "null"@,
{
    let pre = "{\"status\":"@ + quoted(status) + ",\"tests\":"@ + decimal_digits(metrics.inputs as nat)
        + ",\"discards\":0,\"time\":"@ + quoted(decimal_digits(metrics.elapsed_us as nat) + "us"@);
    let post = ",\"tool\":"@ + quoted(tool) + ",\"property\":"@ + quoted(property) + "}"@;
    assert(field_text(counterexample) == quoted_or_null(counterexample));
    assert(field_text(error) == quoted_or_null(error));
    assert(field_text(other_counterexample) == quoted_or_null(other_counterexample));
    assert(field_text(other_error) == quoted_or_null(other_error));
    assert(report_line(tool, property, status, metrics, counterexample, error) =~= pre
        + ",\"counterexample\":"@ + field_text(counterexample) + ",\"error\":"@ + field_text(error)
        + post);
    assert(report_line(tool, property, status, metrics, other_counterexample, other_error) =~= pre
        + ",\"counterexample\":"@ + field_text(other_counterexample) + ",\"error\":"@
        + field_text(other_error) + post);
    (pre, post)
}

fn push_quoted_or_null(out: &mut String, s: Option<&str>)
    ensures
        final(out)@ == old(out)@ + quoted_or_null(text_of(s)),
{
    match s {
        Some(t) => {
            let q = json_str(t);
            push_str(out, q.as_str());
        },
        None => push_str(out, "null"),
    }
}

/// The one-line JSON report of a run of `tool` on `property`.
pub fn json_line(
    tool: &str,
    property: &str,
    status: &str,
    metrics: Metrics,
    counterexample: Option<&str>,
    error: Option<&str>,
) -> (line: String)
    ensures
        line@ == report_line(tool@, property@, status@, metrics, text_of(counterexample), text_of(error)),
        printable(line@),
{
    let mut line = String::new();
    push_str(&mut line, "{\"status\":");
    push_str(&mut line, json_str(status).as_str());
    push_str(&mut line, ",\"tests\":");
    push_decimal(&mut line, metrics.inputs as u128);
    push_str(&mut line, ",\"discards\":0,\"time\":");
    let mut time = String::new();
    push_decimal(&mut time, metrics.elapsed_us);
    push_str(&mut time, "us");
    push_str(&mut line, json_str(time.as_str()).as_str());
    push_str(&mut line, ",\"counterexample\":");
    push_quoted_or_null(&mut line, counterexample);
    push_str(&mut line, ",\"error\":");
    push_quoted_or_null(&mut line, error);
    push_str(&mut line, ",\"tool\":");
    push_str(&mut line, json_str(tool).as_str());
    push_str(&mut line, ",\"property\":");
    push_str(&mut line, json_str(property).as_str());
    push_str(&mut line, "}");
    assert(time@ =~= decimal_digits(metrics.elapsed_us as nat) + "us"@);
    assert(line@ =~= report_line(tool@, property@, status@, metrics, text_of(counterexample), text_of(error)));
    proof {
        report_is_one_line(tool@, property@, status@, metrics, text_of(counterexample), text_of(error));
    }
    line
}

} // verus!
