//! The conversion engine: `action` turns a value into its canonical byte
//! encoding, degrading to an `Error` value on an unsupported variant
//! rather than aborting.

use vstd::prelude::*;
use vstd::bytes::spec_u64_to_le_bytes;
use vstd::string::{StringExecFns, StrSliceExecFns};
use vstd::utf8::encode_utf8;
use crate::command::{Category, Command, Example, Signature, SyntaxShape};
use crate::dates::{ctime_text, format_date_ctime};
use crate::encode::{int_bytes, int_to_endian, float_to_endian, lemma_int_bytes_round_trip};
use crate::pipeline::{PipelineData, map_pipeline, pipeline_wf};
use crate::value::{ShellError, Span, Value, value_wf};

verus! {

/// The diagnostic carried by the error value an unsupported variant turns
/// into.
pub open spec fn unsupported_binary_msg() -> Seq<char> {
    "'into binary' for unsupported type"@
}

/// The bytes a supported variant encodes to, per the conversion table:
/// identity for binary data, the 8-byte little-endian form for the
/// fixed-width variants, UTF-8 for text, the formatted calendar text's
/// UTF-8 for dates; `None` for every other variant.
pub open spec fn conv_bytes(v: Value) -> Option<Seq<u8>> {
    match v {
        Value::Binary { val, .. } => Some(val@),
        Value::Int { val, .. } => Some(int_bytes(val)),
        Value::Float { bits, .. } => Some(spec_u64_to_le_bytes(bits)),
        Value::Filesize { val, .. } => Some(int_bytes(val)),
        Value::Bool { val, .. } => Some(int_bytes(if val { 1i64 } else { 0i64 })),
        Value::String { val, .. } => Some(encode_utf8(val@)),
        Value::Date { val, .. } => Some(encode_utf8(ctime_text(val.epoch, val.offset))),
        _ => None,
    }
}

/// Exactly what `action` returns for a given input and head span: an
/// already-binary input is handed back unchanged; any other supported
/// variant becomes a binary value holding `conv_bytes` under the head
/// span; everything else becomes the unsupported-input error value.
pub open spec fn is_action_of(out: Value, input: Value, head: Span) -> bool {
    match input {
        Value::Binary { .. } => out == input,
        _ => match conv_bytes(input) {
            Some(bytes) => out matches Value::Binary { val, span } && val@ == bytes
                && span == head,
            None => out matches Value::Error { error }
                && error matches ShellError::UnsupportedInput(msg, span)
                && msg@ == unsupported_binary_msg() && span == head,
        },
    }
}

/// Convert a value to its canonical byte encoding.  Total on well-formed
/// values and pure; an unsupported variant yields an error value that
/// behaves as ordinary data downstream.
pub fn action(input: Value, span: Span) -> (out: Value)
    requires
        value_wf(input),
    ensures
        is_action_of(out, input, span),
{
    match input {
        Value::Binary { .. } => input,
        Value::Int { val, .. } => Value::Binary { val: int_to_endian(val), span },
        Value::Float { bits, .. } => Value::Binary { val: float_to_endian(bits), span },
        Value::Filesize { val, .. } => Value::Binary { val: int_to_endian(val), span },
        Value::String { val, .. } => Value::Binary { val: val.as_str().as_bytes_vec(), span },
        Value::Bool { val, .. } => Value::Binary {
            val: int_to_endian(if val { 1i64 } else { 0i64 }),
            span,
        },
        Value::Date { val, .. } => Value::Binary {
            val: format_date_ctime(val).as_str().as_bytes_vec(),
            span,
        },
        _ => Value::Error {
            error: ShellError::UnsupportedInput(
                String::from_str("'into binary' for unsupported type"),
                span,
            ),
        },
    }
}

/// Convert a stage's input to binary values element-wise.  The command's
/// declared column-path rest parameter is a reserved extension point with
/// no behaviour yet, so every element is converted whole.
pub fn into_binary<C: Fn() -> bool>(head: Span, input: PipelineData, cancel: C) -> (r: Result<
    PipelineData,
    ShellError,
>)
    requires
        pipeline_wf(input),
        call_requires(cancel, ()),
    ensures
        r matches Ok(out) && {
            &&& input matches PipelineData::Value(v) ==> out matches PipelineData::Value(o)
                && is_action_of(o, v, head)
            &&& input matches PipelineData::Stream(vs) ==> out matches PipelineData::Stream(os)
                && {
                &&& os@.len() <= vs@.len()
                &&& forall|i: int|
                    0 <= i < os@.len() ==> is_action_of(#[trigger] os@[i], vs@[i], head)
                &&& os@.len() < vs@.len() ==> call_ensures(cancel, (), true)
            }
        },
{
    let f = |v: Value| -> (out: Value)
        requires
            value_wf(v),
        ensures
            is_action_of(out, v, head),
        { action(v, head) };
    Ok(map_pipeline(input, f, cancel))
}

/// The bit pattern of the 64-bit IEEE-754 double closest to 1.234, used by
/// an example fixture.
pub const FLOAT_BITS_1_234: u64 = 4608236261112822104;

/// The value-to-binary conversion command.
pub struct SubCommand;

impl Command for SubCommand {
    open spec fn transform_ok(&self, input: Value, head: Span, out: Value) -> bool {
        is_action_of(out, input, head)
    }

    open spec fn name_spec(&self) -> Seq<char> {
        "into binary"@
    }

    open spec fn usage_spec(&self) -> Seq<char> {
        "Convert value to a binary primitive"@
    }

    open spec fn signature_ok(&self, s: Signature) -> bool {
        &&& s.name@ == "into binary"@
        &&& s.category == Category::Default
        &&& s.rest matches Some(r) && r.name@ == "rest"@ && r.shape == SyntaxShape::CellPath
            && r.desc@ == "column paths to convert to binary (for table input)"@
    }

    open spec fn examples_ok(&self, es: Seq<Example>) -> bool {
        &&& es.len() == 6
        &&& es[0].result matches Some(Value::Binary { val, span }) && val@ == encode_utf8(
            "This is a string that is exactly 52 characters long."@,
        ) && span == (Span { start: 0, end: 0 })
        &&& es[1].result matches Some(Value::Binary { val, span }) && val@ == int_bytes(1)
            && span == (Span { start: 0, end: 0 })
        &&& es[2].result matches Some(Value::Binary { val, span }) && val@ == int_bytes(1)
            && span == (Span { start: 0, end: 0 })
        &&& es[3].result is None
        &&& es[4].result is None
        &&& es[5].result matches Some(Value::Binary { val, span }) && val@ == spec_u64_to_le_bytes(
            FLOAT_BITS_1_234,
        ) && span == (Span { start: 0, end: 0 })
    }

    fn name(&self) -> (r: &'static str) {
        "into binary"
    }

    fn usage(&self) -> (r: &'static str) {
        "Convert value to a binary primitive"
    }

    fn signature(&self) -> (r: Signature) {
        Signature::build("into binary").rest(
            "rest",
            SyntaxShape::CellPath,
            "column paths to convert to binary (for table input)",
        )
    }

    fn examples(&self) -> (r: Vec<Example>) {
        let mut v: Vec<Example> = Vec::new();
        v.push(Example {
            description: String::from_str("convert string to a nushell binary primitive"),
            example: String::from_str(
                "'This is a string that is exactly 52 characters long.' | into binary",
            ),
            result: Some(Value::Binary {
                val: "This is a string that is exactly 52 characters long.".as_bytes_vec(),
                span: Span::unknown(),
            }),
        });
        v.push(Example {
            description: String::from_str("convert a number to a nushell binary primitive"),
            example: String::from_str("1 | into binary"),
            result: Some(Value::Binary { val: int_to_endian(1), span: Span::unknown() }),
        });
        v.push(Example {
            description: String::from_str("convert a boolean to a nushell binary primitive"),
            example: String::from_str("$true | into binary"),
            result: Some(Value::Binary { val: int_to_endian(1), span: Span::unknown() }),
        });
        v.push(Example {
            description: String::from_str("convert a filesize to a nushell binary primitive"),
            example: String::from_str("ls | where name == LICENSE | get size | into binary"),
            result: None,
        });
        v.push(Example {
            description: String::from_str("convert a filepath to a nushell binary primitive"),
            example: String::from_str(
                "ls | where name == LICENSE | get name | path expand | into binary",
            ),
            result: None,
        });
        v.push(Example {
            description: String::from_str("convert a decimal to a nushell binary primitive"),
            example: String::from_str("1.234 | into binary"),
            result: Some(Value::Binary {
                val: float_to_endian(FLOAT_BITS_1_234),
                span: Span::unknown(),
            }),
        });
        v
    }

    fn run<C: Fn() -> bool>(&self, head: Span, input: PipelineData, cancel: C) -> (r: Result<
        PipelineData,
        ShellError,
    >) {
        into_binary(head, input, cancel)
    }
}

/// For every supported variant the byte length of the conversion follows
/// the table: 8 for the fixed-width variants, the UTF-8 length of the text
/// for strings and dates, and the source length for binary data.
pub proof fn lemma_action_length(out: Value, input: Value, head: Span)
    requires
        is_action_of(out, input, head),
        conv_bytes(input) is Some,
    ensures
        out matches Value::Binary { val, .. } && val@.len() == match input {
            Value::Binary { val: b, .. } => b@.len(),
            Value::Int { .. } | Value::Float { .. } | Value::Filesize { .. }
                | Value::Bool { .. } => 8,
            Value::String { val: s, .. } => encode_utf8(s@).len(),
            Value::Date { val: d, .. } => encode_utf8(ctime_text(d.epoch, d.offset)).len(),
            _ => 0,
        },
{
    vstd::bytes::lemma_auto_spec_u64_to_from_le_bytes();
    match input {
        Value::Int { val, .. } => {
            assert(int_bytes(val).len() == 8);
        },
        Value::Filesize { val, .. } => {
            assert(int_bytes(val).len() == 8);
        },
        Value::Bool { val, .. } => {
            assert(int_bytes(if val { 1i64 } else { 0i64 }).len() == 8);
        },
        _ => {},
    }
}

/// In a fully converted batch an element of the output is an error value
/// exactly where the matching element of the input had no conversion
/// rule: a failing element never disturbs its siblings.
pub proof fn lemma_errors_stay_isolated(vs: Seq<Value>, os: Seq<Value>, head: Span)
    requires
        os.len() == vs.len(),
        forall|i: int| 0 <= i < os.len() ==> is_action_of(#[trigger] os[i], vs[i], head),
    ensures
        forall|i: int|
            0 <= i < os.len() ==> ((#[trigger] os[i] matches Value::Error { .. }) <==> conv_bytes(
                vs[i],
            ) is None),
{
}

/// The conversion is idempotent on an already-binary input: converting
/// once hands the value back, so converting the result again hands back
/// the same value.
pub proof fn lemma_action_idempotent_on_binary(v: Value, once: Value, twice: Value, head: Span)
    requires
        v matches Value::Binary { .. },
        is_action_of(once, v, head),
        is_action_of(twice, once, head),
    ensures
        once == v,
        twice == once,
{
}

/// Decoding the 8 little-endian bytes of a converted integer recovers the
/// integer exactly.
pub proof fn lemma_int_round_trip(n: i64, out: Value, head: Span, span: Span)
    requires
        is_action_of(out, Value::Int { val: n, span }, head),
    ensures
        out matches Value::Binary { val, .. }
            && vstd::bytes::spec_u64_from_le_bytes(val@) as i64 == n,
{
    lemma_int_bytes_round_trip(n);
}

/// A boolean converts bit-for-bit as the integers one and zero do.
pub proof fn lemma_bool_converts_as_int(b: bool, bool_out: Value, int_out: Value, head: Span,
    span_b: Span, span_i: Span)
    requires
        is_action_of(bool_out, Value::Bool { val: b, span: span_b }, head),
        is_action_of(int_out, Value::Int { val: if b { 1i64 } else { 0i64 }, span: span_i }, head),
    ensures
        bool_out matches Value::Binary { val: bv, span: bs }
            && int_out matches Value::Binary { val: iv, span: is_ }
            && bv@ == iv@ && bs == is_,
{
}

} // verus!
