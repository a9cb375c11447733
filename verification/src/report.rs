//! What a run tells its caller: the message for each way a randomized
//! runner can end.
use vstd::prelude::*;

use crate::metrics::{Metrics, Outcome};
use crate::text::{decimal_digits, push_char, push_decimal, push_str};

verus! {

/// How a randomized runner ended.
pub enum RunStatus {
    /// Every generated input passed.
    Finished,
    /// An input failed; the rendered arguments of the counterexample.
    Failed { arguments: Vec<String> },
    /// The runner stopped on an error of its own, rendered as text.
    Aborted { error: String },
    /// The runner ran out of time.
    TimedOut,
    /// Too many inputs were discarded.
    GaveUp { passed: u64, discarded: u64 },
}

/// The arguments of a counterexample separated by single spaces.
pub open spec fn joined(args: Seq<Seq<char>>) -> Seq<char>
    decreases args.len(),
{
    if args.len() == 0 {
        Seq::empty()
    } else if args.len() == 1 {
        args[0]
    } else {
        joined(args.drop_last()) + seq![' '] + args.last()
    }
}

/// The texts of a list of strings.
pub open spec fn texts(v: Seq<String>) -> Seq<Seq<char>> {
    v.map_values(|a: String| a@)
}

/// What a run of `tool` reports for each way it can end: nothing for a
/// finished run, otherwise a message that names the tool.
pub open spec fn status_message(tool: Seq<char>, status: RunStatus) -> Option<Seq<char>> {
    match status {
        RunStatus::Finished => None,
        RunStatus::Failed { arguments } => Some(
            tool + " failed with counterexample: ("@ + joined(texts(arguments@)) + ")"@,
        ),
        RunStatus::Aborted { error } => Some(tool + " aborted: "@ + error@),
        RunStatus::TimedOut => Some(tool + " timed out"@),
        RunStatus::GaveUp { passed, discarded } => Some(
            tool + " gave up: passed="@ + decimal_digits(passed as nat) + ", discarded="@
                + decimal_digits(discarded as nat),
        ),
    }
}

/// Only a finished run is reported as fine: every other ending, whatever
/// its details (any argument list, any error text, any counts), gives a
/// message, and that message opens with the tool's name.
pub proof fn only_finished_is_ok(tool: Seq<char>, status: RunStatus)
    ensures
        (status_message(tool, status) is None) <==> (status is Finished),
        status_message(tool, status) matches Some(m) ==> m.len() >= tool.len() && m.subrange(
            0,
            tool.len() as int,
        ) == tool,
{
    match status_message(tool, status) {
        Some(m) => {
            assert(m.subrange(0, tool.len() as int) =~= tool);
        },
        None => {},
    }
}

/// The arguments of a counterexample are written one after the other,
/// separated by single spaces: a single argument stands alone, and one more
/// argument adds a space and its text.
pub proof fn joined_separates_by_spaces(args: Seq<Seq<char>>, a: Seq<char>)
    ensures
        joined(seq![a]) == a,
        args.len() > 0 ==> joined(args.push(a)) == joined(args) + seq![' '] + a,
{
    assert(seq![a].len() == 1);
    if args.len() > 0 {
        assert(args.push(a).drop_last() =~= args);
    }
}

fn push_joined(out: &mut String, args: &Vec<String>)
    ensures
        final(out)@ == old(out)@ + joined(texts(args@)),
{
    let ghost start = out@;
    let n = args.len();
    let mut i: usize = 0;
    while i < n
        invariant
            n == args.len(),
            0 <= i <= n,
            out@ == start + joined(texts(args@.take(i as int))),
        decreases n - i,
    {
        let ghost before = out@;
        if i > 0 {
            push_char(out, ' ');
        }
        push_str(out, args[i].as_str());
        proof {
            let t = texts(args@.take(i + 1));
            assert(texts(args@.take(i + 1)).drop_last() =~= texts(args@.take(i as int)));
            assert(t.last() == args@[i as int]@);
            if i == 0 {
                assert(t.len() == 1);
                assert(joined(texts(args@.take(i as int))) =~= Seq::<char>::empty());
                assert(out@ =~= start + joined(t));
            } else {
                assert(out@ =~= start + joined(texts(args@.take(i + 1))));
            }
        }
        i = i + 1;
    }
    assert(args@.take(n as int) =~= args@);
}

/// The verdict of a run of `tool` that ended with `status`: `Ok` when it
/// finished, otherwise the message of [`status_message`].
pub fn status_report(tool: &str, status: RunStatus) -> (r: Result<(), String>)
    ensures
        match status_message(tool@, status) {
            None => r is Ok,
            Some(m) => r matches Err(e) && e@ == m,
        },
{
    let mut m = String::new();
    push_str(&mut m, tool);
    match status {
        RunStatus::Finished => {
            return Ok(());
        },
        RunStatus::Failed { arguments } => {
            push_str(&mut m, " failed with counterexample: (");
            push_joined(&mut m, &arguments);
            push_str(&mut m, ")");
        },
        RunStatus::Aborted { error } => {
            push_str(&mut m, " aborted: ");
            push_str(&mut m, error.as_str());
        },
        RunStatus::TimedOut => {
            push_str(&mut m, " timed out");
        },
        RunStatus::GaveUp { passed, discarded } => {
            push_str(&mut m, " gave up: passed=");
            push_decimal(&mut m, passed as u128);
            push_str(&mut m, ", discarded=");
            push_decimal(&mut m, discarded as u128);
        },
    }
    assert(Some(m@) =~~= status_message(tool@, status));
    Err(m)
}

/// The marker that opens the message of a run asked for a property that
/// the runner does not know.
pub open spec fn unknown_marker() -> Seq<char> {
    "__unknown_property:"@
}

/// Whether `p` is a prefix of `s`.
pub open spec fn starts_with(s: Seq<char>, p: Seq<char>) -> bool {
    p.len() <= s.len() && s.subrange(0, p.len() as int) == p
}

fn has_prefix(s: &str, p: &str) -> (r: bool)
    ensures
        r == starts_with(s@, p@),
{
    let n = p.unicode_len();
    let m = s.unicode_len();
    if n > m {
        return false;
    }
    let mut i: usize = 0;
    while i < n
        invariant
            n == p@.len(),
            m == s@.len(),
            n <= m,
            0 <= i <= n,
            s@.subrange(0, i as int) == p@.subrange(0, i as int),
        decreases n - i,
    {
        if s.get_char(i) != p.get_char(i) {
            assert(s@.subrange(0, n as int)[i as int] != p@[i as int]);
            return false;
        }
        assert(s@.subrange(0, i + 1) =~= p@.subrange(0, i + 1));
        i = i + 1;
    }
    assert(p@.subrange(0, n as int) =~= p@);
    true
}

/// What a hegel run that stopped with the panic message `message` reports.
/// A message that opens with the unknown-property marker reports the
/// property named after it, with counters at zero; any other message is a
/// counterexample, reported with the counters of the run.
pub fn hegel_outcome(message: &str, metrics: Metrics) -> (out: Outcome)
    ensures
        starts_with(message@, unknown_marker()) ==> {
            &&& out.0 matches Err(e) && e@ == "Unknown property for hegel: "@ + message@.skip(
                unknown_marker().len() as int,
            )
            &&& out.1.inputs == 0
            &&& out.1.elapsed_us == 0
        },
        !starts_with(message@, unknown_marker()) ==> {
            &&& out.0 matches Err(e) && e@ == "hegel found counterexample: "@ + message@
            &&& out.1 == metrics
        },
{
    let marker = "__unknown_property:";
    let mut e = String::new();
    if has_prefix(message, marker) {
        let rest = message.substring_char(marker.unicode_len(), message.unicode_len());
        push_str(&mut e, "Unknown property for hegel: ");
        push_str(&mut e, rest);
        assert(rest@ =~= message@.skip(unknown_marker().len() as int));
        (Err(e), Metrics::default())
    } else {
        push_str(&mut e, "hegel found counterexample: ");
        push_str(&mut e, message);
        (Err(e), metrics)
    }
}

} // verus!
