//! Round-trip checks for the decimal text of floating-point numbers, with
//! the pieces of the runners that drive them: verdicts, counters, one-line
//! JSON reports and the bit flips that perturb an input.
pub mod json;
pub mod metrics;
pub mod mutation;
pub mod property;
pub mod report;
pub mod roundtrip;
pub mod text;
