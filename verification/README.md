# ryu_etna

Round-trip checks for the decimal text of `f32` and `f64` values, and the
runners that drive them under several property-testing tools.

- `src/` is the verified library (Verus): the round-trip verdict on bit
  patterns (`roundtrip`), verdict readings (`property`), run counters and
  the loop over all properties (`metrics`), one-line JSON reports (`json`),
  the runners' end-of-run messages (`report`), single-bit mutations
  (`mutation`) and integer-to-text helpers (`text`).
- `app/` is the runner program: it formats and parses floating-point values,
  calls the property-testing tools, and prints the report line.
- `tests/` exercises the library on concrete values.
