//! The round-trip property on the bit patterns of `f32` and `f64` values.
//!
//! A finite value is formatted as decimal text and the text is parsed back;
//! the property holds when the parsed value has the same bit pattern, sign
//! included. The formatting and parsing are done by the caller, who hands
//! over the bits that came back (or the parser's complaint) together with
//! the display texts that go into a failure message.
use vstd::prelude::*;

use crate::property::PropertyResult;
use crate::text::{hex_digits, push_char, push_hex, push_str};

verus! {

/// An `f32` bit pattern stands for a finite value when its exponent field is
/// not all ones, that is when, sign cleared, it lies below infinity.
pub open spec fn finite32(bits: u32) -> bool {
    bits % 0x8000_0000 < 0x7f80_0000
}

/// An `f64` bit pattern stands for a finite value when, sign cleared, it lies
/// below infinity.
pub open spec fn finite64(bits: u64) -> bool {
    bits % 0x8000_0000_0000_0000 < 0x7ff0_0000_0000_0000
}

/// Whether the `f32` with these bits is finite (neither infinite nor NaN).
pub fn is_finite32(bits: u32) -> (r: bool)
    ensures
        r == finite32(bits),
{
    assert(bits & 0x7fff_ffff == bits % 0x8000_0000) by (bit_vector);
    (bits & 0x7fff_ffff) < 0x7f80_0000
}

/// Whether the `f64` with these bits is finite (neither infinite nor NaN).
pub fn is_finite64(bits: u64) -> (r: bool)
    ensures
        r == finite64(bits),
{
    assert(bits & 0x7fff_ffff_ffff_ffff == bits % 0x8000_0000_0000_0000) by (bit_vector);
    (bits & 0x7fff_ffff_ffff_ffff) < 0x7ff0_0000_0000_0000
}

/// What parsing the formatted text gave back.
pub enum Reparsed<B> {
    /// A value, by its bit pattern, with the text it displays as.
    Value { bits: B, shown: String },
    /// No value; the parser's complaint.
    Rejected { reason: String },
}

/// Whether parsing gave back a value with exactly the bits `bits`.
pub open spec fn gives_back<B>(back: Reparsed<B>, bits: B) -> bool {
    match back {
        Reparsed::Value { bits: b, .. } => b == bits,
        Reparsed::Rejected { .. } => false,
    }
}

/// A 32-bit pattern stands for a finite value exactly when its exponent
/// field (bits 23 to 30) is not all ones, whatever its sign and fraction.
pub proof fn finite32_is_exponent_not_all_ones(bits: u32)
    ensures
        finite32(bits) <==> (bits & 0x7f80_0000) != 0x7f80_0000,
{
    assert((bits % 0x8000_0000 < 0x7f80_0000) == ((bits & 0x7f80_0000) != 0x7f80_0000)) by (bit_vector);
}

/// A 64-bit pattern stands for a finite value exactly when its exponent
/// field (bits 52 to 62) is not all ones, whatever its sign and fraction.
pub proof fn finite64_is_exponent_not_all_ones(bits: u64)
    ensures
        finite64(bits) <==> (bits & 0x7ff0_0000_0000_0000) != 0x7ff0_0000_0000_0000,
{
    assert((bits % 0x8000_0000_0000_0000 < 0x7ff0_0000_0000_0000) == ((bits & 0x7ff0_0000_0000_0000)
        != 0x7ff0_0000_0000_0000)) by (bit_vector);
}

/// Parsing gives the bits back exactly when it produced a value with those
/// same bits; a rejected text never does.
pub proof fn gives_back_exactly_the_same_bits<B>(bits: B, other: B, shown: String, reason: String)
    ensures
        gives_back(Reparsed::Value { bits: bits, shown: shown }, bits),
        other != bits ==> !gives_back(Reparsed::Value { bits: other, shown: shown }, bits),
        !gives_back(Reparsed::<B>::Rejected { reason: reason }, bits),
{
}

/// A finite `f32` (exponent field not all ones) whose text parses back to
/// the same bits meets both conditions of a pass; an infinite or NaN one
/// (exponent field all ones) is never finite, so it is discarded.
pub proof fn finite32_value_coming_back_passes(bits: u32, shown: String)
    ensures
        (bits & 0x7f80_0000) != 0x7f80_0000 ==> finite32(bits) && gives_back(
            Reparsed::Value { bits: bits, shown: shown },
            bits,
        ),
        (bits & 0x7f80_0000) == 0x7f80_0000 ==> !finite32(bits),
{
    finite32_is_exponent_not_all_ones(bits);
}

/// A finite `f64` (exponent field not all ones) whose text parses back to
/// the same bits meets both conditions of a pass; an infinite or NaN one
/// (exponent field all ones) is never finite, so it is discarded.
pub proof fn finite64_value_coming_back_passes(bits: u64, shown: String)
    ensures
        (bits & 0x7ff0_0000_0000_0000) != 0x7ff0_0000_0000_0000 ==> finite64(bits) && gives_back(
            Reparsed::Value { bits: bits, shown: shown },
            bits,
        ),
        (bits & 0x7ff0_0000_0000_0000) == 0x7ff0_0000_0000_0000 ==> !finite64(bits),
{
    finite64_is_exponent_not_all_ones(bits);
}

/// `0x` and the lowercase hexadecimal digits of `n`, as `{:#x}` renders it.
pub open spec fn hex_text(n: nat) -> Seq<char> {
    seq!['0', 'x'] + hex_digits(n)
}

/// The message for a value that came back with other bits.
pub open spec fn mismatch_text(
    head: Seq<char>,
    shown: Seq<char>,
    bits: nat,
    formatted: Seq<char>,
    back: Seq<char>,
    back_bits: nat,
) -> Seq<char> {
    head + shown + " (bits="@ + hex_text(bits) + ") -> "@ + formatted + " -> "@ + back + " (bits="@
        + hex_text(back_bits) + ")"@
}

/// The message for a text that did not parse back.
pub open spec fn rejected_text(head: Seq<char>, formatted: Seq<char>, reason: Seq<char>) -> Seq<char> {
    head + formatted + " failed to parse back: "@ + reason
}

/// The failure message of the `f32` round trip, for a finite value whose
/// text did not give its bits back.
pub open spec fn failure_text32(bits: u32, shown: Seq<char>, formatted: Seq<char>, back: Reparsed<u32>) -> Seq<char> {
    match back {
        Reparsed::Value { bits: b, shown: s } => mismatch_text(
            "f32 roundtrip mismatch: "@,
            shown,
            bits as nat,
            formatted,
            s@,
            b as nat,
        ),
        Reparsed::Rejected { reason } => rejected_text("f32 format "@, formatted, reason@),
    }
}

/// The failure message of the `f64` round trip, for a finite value whose
/// text did not give its bits back.
pub open spec fn failure_text64(bits: u64, shown: Seq<char>, formatted: Seq<char>, back: Reparsed<u64>) -> Seq<char> {
    match back {
        Reparsed::Value { bits: b, shown: s } => mismatch_text(
            "f64 roundtrip mismatch: "@,
            shown,
            bits as nat,
            formatted,
            s@,
            b as nat,
        ),
        Reparsed::Rejected { reason } => rejected_text("f64 format "@, formatted, reason@),
    }
}

fn push_hex_text(out: &mut String, n: u64)
    ensures
        final(out)@ == old(out)@ + hex_text(n as nat),
{
    let ghost start = out@;
    push_char(out, '0');
    push_char(out, 'x');
    push_hex(out, n);
    assert(out@ =~= start + hex_text(n as nat));
}

fn mismatch_message(head: &str, shown: &str, bits: u64, formatted: &str, back: &str, back_bits: u64) -> (m: String)
    ensures
        m@ == mismatch_text(head@, shown@, bits as nat, formatted@, back@, back_bits as nat),
{
    let mut m = String::new();
    push_str(&mut m, head);
    push_str(&mut m, shown);
    push_str(&mut m, " (bits=");
    push_hex_text(&mut m, bits);
    push_str(&mut m, ") -> ");
    push_str(&mut m, formatted);
    push_str(&mut m, " -> ");
    push_str(&mut m, back);
    push_str(&mut m, " (bits=");
    push_hex_text(&mut m, back_bits);
    push_str(&mut m, ")");
    assert(m@ =~= mismatch_text(head@, shown@, bits as nat, formatted@, back@, back_bits as nat));
    m
}

fn rejected_message(head: &str, formatted: &str, reason: &str) -> (m: String)
    ensures
        m@ == rejected_text(head@, formatted@, reason@),
{
    let mut m = String::new();
    push_str(&mut m, head);
    push_str(&mut m, formatted);
    push_str(&mut m, " failed to parse back: ");
    push_str(&mut m, reason);
    assert(m@ =~= rejected_text(head@, formatted@, reason@));
    m
}

/// The verdict of the `f32` round trip for the value with bits `bits`.
///
/// `shown` is the value as `{}` displays it, `formatted` the formatted text
/// as `{:?}` displays it, `back` what parsing that text gave. A non-finite
/// value is discarded; a finite one passes exactly when the parsed value has
/// the same bits, and fails otherwise with a message that gives both bit
/// patterns (or the parser's complaint).
pub fn roundtrip_verdict32(bits: u32, shown: &str, formatted: &str, back: Reparsed<u32>) -> (r: PropertyResult)
    ensures
        (r is Discard) <==> !finite32(bits),
        (r is Pass) <==> (finite32(bits) && gives_back(back, bits)),
        r matches PropertyResult::Fail(m) ==> m@ == failure_text32(bits, shown@, formatted@, back),
{
    if !is_finite32(bits) {
        return PropertyResult::Discard;
    }
    match back {
        Reparsed::Value { bits: b, shown: s } => {
            if b == bits {
                PropertyResult::Pass
            } else {
                PropertyResult::Fail(
                    mismatch_message("f32 roundtrip mismatch: ", shown, bits as u64, formatted, s.as_str(), b as u64),
                )
            }
        },
        Reparsed::Rejected { reason } => {
            PropertyResult::Fail(rejected_message("f32 format ", formatted, reason.as_str()))
        },
    }
}

/// The verdict of the `f64` round trip for the value with bits `bits`; as
/// [`roundtrip_verdict32`], for 64-bit patterns.
pub fn roundtrip_verdict64(bits: u64, shown: &str, formatted: &str, back: Reparsed<u64>) -> (r: PropertyResult)
    ensures
        (r is Discard) <==> !finite64(bits),
        (r is Pass) <==> (finite64(bits) && gives_back(back, bits)),
        r matches PropertyResult::Fail(m) ==> m@ == failure_text64(bits, shown@, formatted@, back),
{
    if !is_finite64(bits) {
        return PropertyResult::Discard;
    }
    match back {
        Reparsed::Value { bits: b, shown: s } => {
            if b == bits {
                PropertyResult::Pass
            } else {
                PropertyResult::Fail(
                    mismatch_message("f64 roundtrip mismatch: ", shown, bits, formatted, s.as_str(), b),
                )
            }
        },
        Reparsed::Rejected { reason } => {
            PropertyResult::Fail(rejected_message("f64 format ", formatted, reason.as_str()))
        },
    }
}

} // verus!
