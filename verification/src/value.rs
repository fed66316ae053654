//! The closed tagged-union datum type that flows through every pipeline
//! stage, together with its source-location span and error representation.

use vstd::prelude::*;

verus! {

/// Largest magnitude, in seconds relative to the Unix epoch, of a timestamp
/// the calendar backend is known to represent and format safely.
pub const EPOCH_BOUND: i64 = 8_000_000_000_000;

/// Source-location provenance attached to a value for diagnostics.
#[derive(Debug, Clone, Copy, PartialEq, Eq, Structural)]
pub struct Span {
    pub start: usize,
    pub end: usize,
}

impl Span {
    /// The span used where no source location is known.
    pub fn unknown() -> (s: Span)
        ensures
            s == (Span { start: 0, end: 0 }),
    {
        Span { start: 0, end: 0 }
    }
}

/// A timestamp with a fixed offset from UTC, held as plain values: the
/// instant as whole seconds since the Unix epoch, and the offset from UTC
/// in seconds.
#[derive(Debug, Clone, Copy, PartialEq, Eq, Structural)]
pub struct Date {
    /// Seconds since the Unix epoch, ignoring leap seconds.
    pub epoch: i64,
    /// Local offset from UTC in seconds; east is positive.
    pub offset: i32,
}

impl Date {
    /// A date is well formed when its instant is within the range the
    /// calendar backend represents and its offset is less than a day.
    pub open spec fn wf(self) -> bool {
        &&& -EPOCH_BOUND <= self.epoch <= EPOCH_BOUND
        &&& -86400 < self.offset < 86400
    }

}

/// The one failure kind this core produces: an input variant with no
/// defined conversion or humanization rule.  Failures are data, never
/// control flow.
#[derive(Debug, Clone, PartialEq)]
pub enum ShellError {
    UnsupportedInput(String, Span),
}

/// The discriminated-union runtime datum.  Exactly one variant is active;
/// each carries a span for diagnostics, except `Error`, which carries its
/// own.  Structured variants (`List`) are not handled by the transforms
/// here and fall through to the catch-all unsupported path.
#[derive(Debug, PartialEq)]
pub enum Value {
    Bool { val: bool, span: Span },
    Int { val: i64, span: Span },
    /// A 64-bit IEEE-754 double, held by its bit pattern so that the
    /// byte-level encoding rules stay within integer arithmetic.
    Float { bits: u64, span: Span },
    Filesize { val: i64, span: Span },
    String { val: String, span: Span },
    Binary { val: Vec<u8>, span: Span },
    Date { val: Date, span: Span },
    Nothing { span: Span },
    List { vals: Vec<Value>, span: Span },
    Error { error: ShellError },
}

/// Well-formedness of a single value: any date it carries directly is
/// representable.  The transforms only read dates at the top level, so the
/// predicate is shallow.
pub open spec fn value_wf(v: Value) -> bool {
    match v {
        Value::Date { val, .. } => val.wf(),
        _ => true,
    }
}

} // verus!
