//! Counters of a run, and the loop that runs every property in turn.
use vstd::prelude::*;

verus! {

/// How many inputs a run tried and how long it took.
#[derive(Clone, Copy)]
pub struct Metrics {
    /// Inputs tried.
    pub inputs: u64,
    /// Time taken, in microseconds.
    pub elapsed_us: u128,
}

/// What running one property reports: its verdict and its counters.
pub type Outcome = (Result<(), String>, Metrics);

/// The counters of two runs taken together.
pub open spec fn sum(a: Metrics, b: Metrics) -> Metrics {
    Metrics { inputs: (a.inputs + b.inputs) as u64, elapsed_us: (a.elapsed_us + b.elapsed_us) as u128 }
}

/// Whether the counters of two runs can be added without overflow.
pub open spec fn summable(a: Metrics, b: Metrics) -> bool {
    &&& a.inputs + b.inputs <= u64::MAX
    &&& a.elapsed_us + b.elapsed_us <= u128::MAX
}

impl Default for Metrics {
    /// No inputs, no time.
    fn default() -> (m: Metrics)
        ensures
            m.inputs == 0,
            m.elapsed_us == 0,
    {
        Metrics { inputs: 0, elapsed_us: 0 }
    }
}

impl Metrics {
    /// Adds the counters of `other` to those of `self`.
    pub fn combine(self, other: Metrics) -> (m: Metrics)
        requires
            summable(self, other),
        ensures
            m == sum(self, other),
            m.inputs == self.inputs + other.inputs,
            m.elapsed_us == self.elapsed_us + other.elapsed_us,
    {
        Metrics { inputs: self.inputs + other.inputs, elapsed_us: self.elapsed_us + other.elapsed_us }
    }
}

/// Runs `f` on every property in turn (`Format32Roundtrip`, then
/// `Format64Roundtrip`), adding up the counters, and stops at the first
/// property that fails: its error is the result, with the counters of the
/// runs made so far.
pub fn run_all<F: Fn(&str) -> Outcome>(f: F) -> (out: Outcome)
    requires
        call_requires(f, ("Format32Roundtrip",)),
        call_requires(f, ("Format64Roundtrip",)),
        forall|o1: Outcome, o2: Outcome|
            call_ensures(f, ("Format32Roundtrip",), o1) && call_ensures(
                f,
                ("Format64Roundtrip",),
                o2,
            ) ==> summable(o1.1, o2.1),
    ensures
        exists|o1: Outcome|
            {
                &&& #[trigger] call_ensures(f, ("Format32Roundtrip",), o1)
                &&& o1.0 is Err ==> out == o1
                &&& o1.0 is Ok ==> exists|o2: Outcome|
                    {
                        &&& #[trigger] call_ensures(f, ("Format64Roundtrip",), o2)
                        &&& out.0 == o2.0
                        &&& out.1 == sum(o1.1, o2.1)
                    }
            },
{
    let mut total = Metrics::default();
    let first = f("Format32Roundtrip");
    let (r1, m1) = first;
    total = total.combine(m1);
    assert(call_ensures(f, ("Format32Roundtrip",), first));
    if r1.is_err() {
        assert(total == m1);
        return (r1, total);
    }
    let second = f("Format64Roundtrip");
    let (r2, m2) = second;
    assert(summable(m1, m2));
    total = total.combine(m2);
    assert(call_ensures(f, ("Format64Roundtrip",), second));
    (r2, total)
}

} // verus!
