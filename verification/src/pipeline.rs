//! The streaming operator: a single-threaded, order-preserving,
//! element-wise map over a single value or a batch of values, polling a
//! cooperative cancellation flag between elements.

use vstd::prelude::*;
use crate::value::{Value, value_wf};

verus! {

/// What flows between pipeline stages: either one value or an ordered
/// batch of values.  The arity of a stage's output mirrors the arity of
/// its input.
#[derive(Debug)]
pub enum PipelineData {
    Value(Value),
    Stream(Vec<Value>),
}

/// Well-formedness of a stage's input: every value it holds is well
/// formed.
pub open spec fn pipeline_wf(p: PipelineData) -> bool {
    match p {
        PipelineData::Value(v) => value_wf(v),
        PipelineData::Stream(vs) => forall|i: int| 0 <= i < vs@.len() ==> value_wf(#[trigger] vs@[i]),
    }
}

/// A cancellation poll that never requests a stop; with it the operator
/// always runs a batch to completion.
pub fn no_cancel() -> (b: bool)
    ensures
        b == false,
{
    false
}

/// Apply `transform` independently to each element of `input`, in strict
/// input order, polling `cancel` before each element (never mid
/// transform).  On cancellation the operator stops advancing and yields
/// exactly the elements already produced, so the output is always a
/// transformed prefix of the input; a shortened output is only possible
/// when a poll can return true.
pub fn map_values<F: Fn(Value) -> Value, C: Fn() -> bool>(input: Vec<Value>, transform: F,
    cancel: C) -> (out: Vec<Value>)
    requires
        forall|i: int| 0 <= i < input@.len() ==> call_requires(transform, (input@[i],)),
        call_requires(cancel, ()),
    ensures
        out@.len() <= input@.len(),
        forall|i: int|
            0 <= i < out@.len() ==> call_ensures(transform, (input@[i],), #[trigger] out@[i]),
        out@.len() < input@.len() ==> call_ensures(cancel, (), true),
{
    let ghost orig = input@;
    let mut rest = input;
    let mut out: Vec<Value> = Vec::new();
    while rest.len() > 0
        invariant
            orig == input@,
            out@.len() + rest@.len() == orig.len(),
            rest@ == orig.subrange(out@.len() as int, orig.len() as int),
            forall|i: int| 0 <= i < orig.len() ==> call_requires(transform, (orig[i],)),
            call_requires(cancel, ()),
            forall|i: int|
                0 <= i < out@.len() ==> call_ensures(transform, (orig[i],), #[trigger] out@[i]),
        decreases rest@.len(),
    {
        if cancel() {
            return out;
        }
        let v = rest.remove(0);
        proof {
            assert(v == orig[out@.len() as int]);
        }
        let r = transform(v);
        out.push(r);
        proof {
            assert(rest@ =~= orig.subrange(out@.len() as int, orig.len() as int));
        }
    }
    out
}

/// Apply `transform` across a stage's input, mirroring its arity: a single
/// value is transformed unconditionally, with no cancellation poll; a
/// batch goes through [`map_values`].
pub fn map_pipeline<F: Fn(Value) -> Value, C: Fn() -> bool>(input: PipelineData, transform: F,
    cancel: C) -> (out: PipelineData)
    requires
        input matches PipelineData::Value(v) ==> call_requires(transform, (v,)),
        input matches PipelineData::Stream(vs) ==> forall|i: int|
            0 <= i < vs@.len() ==> call_requires(transform, (vs@[i],)),
        call_requires(cancel, ()),
    ensures
        input matches PipelineData::Value(v) ==> out matches PipelineData::Value(o)
            && call_ensures(transform, (v,), o),
        input matches PipelineData::Stream(vs) ==> out matches PipelineData::Stream(os) && {
            &&& os@.len() <= vs@.len()
            &&& forall|i: int|
                0 <= i < os@.len() ==> call_ensures(transform, (vs@[i],), #[trigger] os@[i])
            &&& os@.len() < vs@.len() ==> call_ensures(cancel, (), true)
        },
    {
    match input {
        PipelineData::Value(v) => PipelineData::Value(transform(v)),
        PipelineData::Stream(vs) => PipelineData::Stream(map_values(vs, transform, cancel)),
    }
}

} // verus!
