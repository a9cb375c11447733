//! The verdict of one property evaluation, and how the runners read it.
use vstd::prelude::*;

verus! {

/// Outcome of one evaluation of a property.
pub enum PropertyResult {
    /// The property held.
    Pass,
    /// The property failed; the text says how.
    Fail(String),
    /// The input was outside the property's domain.
    Discard,
}

/// A verdict read as `Ok` or an error message: a pass and a discarded
/// input are both fine, a failure keeps its message.
pub open spec fn as_report(r: PropertyResult) -> Result<(), String> {
    match r {
        PropertyResult::Fail(m) => Err(m),
        _ => Ok(()),
    }
}

/// A verdict read as `Some(true)` for a pass, `Some(false)` for a failure
/// and `None` for a discarded input.
pub open spec fn as_check(r: PropertyResult) -> Option<bool> {
    match r {
        PropertyResult::Pass => Some(true),
        PropertyResult::Fail(_) => Some(false),
        PropertyResult::Discard => None,
    }
}

/// Turns a verdict into `Ok(())` (pass or discard) or the failure message.
pub fn to_err(r: PropertyResult) -> (out: Result<(), String>)
    ensures
        out == as_report(r),
{
    match r {
        PropertyResult::Pass | PropertyResult::Discard => Ok(()),
        PropertyResult::Fail(m) => Err(m),
    }
}

/// Turns a verdict into `Some(true)` (pass), `Some(false)` (fail) or `None`
/// (discard).
pub fn to_opt(r: PropertyResult) -> (out: Option<bool>)
    ensures
        out == as_check(r),
{
    match r {
        PropertyResult::Pass => Some(true),
        PropertyResult::Fail(_) => Some(false),
        PropertyResult::Discard => None,
    }
}

/// A failure is always read as a failure, with its message kept; a pass is
/// read as a pass and a discarded input as neither.
pub proof fn failures_read_as_failures(m: String)
    ensures
        as_report(PropertyResult::Fail(m)) == Err::<(), String>(m),
        as_check(PropertyResult::Fail(m)) == Some(false),
        as_report(PropertyResult::Pass) == Ok::<(), String>(()),
        as_check(PropertyResult::Pass) == Some(true),
        as_report(PropertyResult::Discard) == Ok::<(), String>(()),
        as_check(PropertyResult::Discard) == None::<bool>,
{
}

/// Both readings agree on what a failure is: a verdict is reported as an
/// error exactly when it is checked as `Some(false)`, and a discarded input
/// counts as a failure in neither.
pub proof fn readings_agree(r: PropertyResult)
    ensures
        (as_report(r) is Err) <==> (as_check(r) == Some(false)),
        (as_check(r) is None) ==> (as_report(r) is Ok),
        (as_check(r) == Some(true)) ==> (as_report(r) is Ok),
{
}

} // verus!
