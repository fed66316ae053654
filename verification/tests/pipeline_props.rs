use std::cell::Cell;

use value_pipeline::binary::action;
use value_pipeline::pipeline::{map_pipeline, map_values, no_cancel, PipelineData};
use value_pipeline::value::{Span, Value};

fn sp() -> Span {
    Span { start: 0, end: 0 }
}

fn int_val(val: i64) -> Value {
    Value::Int { val, span: sp() }
}

/// A cancellation poll that starts answering "stop" once it has been
/// polled `after` times.
fn cancel_after(after: u32) -> impl Fn() -> bool {
    let polls = Cell::new(0u32);
    move || {
        let seen = polls.get();
        polls.set(seen + 1);
        seen >= after
    }
}

#[test]
fn a_batch_maps_in_order_to_completion() {
    let input = vec![int_val(1), int_val(2), int_val(3)];
    let out = map_values(input, |v| action(v, sp()), no_cancel);
    assert_eq!(out.len(), 3);
    for (i, v) in out.into_iter().enumerate() {
        assert_eq!(v, action(int_val(i as i64 + 1), sp()));
    }
}

#[test]
fn cancelling_after_k_elements_yields_exactly_k() {
    let input = vec![int_val(1), int_val(2), int_val(3), int_val(4), int_val(5)];
    let out = map_values(input, |v| action(v, sp()), cancel_after(3));
    assert_eq!(out.len(), 3);
    assert_eq!(out[0], action(int_val(1), sp()));
    assert_eq!(out[2], action(int_val(3), sp()));
}

#[test]
fn cancelling_before_the_first_element_yields_nothing() {
    let input = vec![int_val(1), int_val(2)];
    let out = map_values(input, |v| action(v, sp()), cancel_after(0));
    assert_eq!(out.len(), 0);
}

#[test]
fn an_empty_batch_stays_empty() {
    let out = map_values(Vec::new(), |v| action(v, sp()), no_cancel);
    assert!(out.is_empty());
}

#[test]
fn a_single_value_ignores_cancellation() {
    let out = map_pipeline(PipelineData::Value(int_val(7)), |v| action(v, sp()), || true);
    match out {
        PipelineData::Value(v) => assert_eq!(v, action(int_val(7), sp())),
        other => panic!("expected a single value, got {:?}", other),
    }
}

#[test]
fn a_stream_stays_a_stream() {
    let out = map_pipeline(PipelineData::Stream(vec![int_val(1)]), |v| action(v, sp()), no_cancel);
    match out {
        PipelineData::Stream(vals) => assert_eq!(vals.len(), 1),
        other => panic!("expected a stream, got {:?}", other),
    }
}
