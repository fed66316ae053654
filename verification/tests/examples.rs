use value_pipeline::binary;
use value_pipeline::command::Category;
use value_pipeline::command::Command;
use value_pipeline::humanize;
use value_pipeline::value::Span;
use value_pipeline::value::Value;

fn unknown() -> Span {
    Span { start: 0, end: 0 }
}

#[test]
fn binary_test_examples() {
    let cmd = binary::SubCommand;
    assert_eq!(cmd.name(), "into binary");
    assert_eq!(cmd.usage(), "Convert value to a binary primitive");
    let sig = cmd.signature();
    assert_eq!(sig.name, "into binary");
    assert_eq!(sig.category, Category::Default);
    let rest = sig.rest.expect("the conversion command declares a rest parameter");
    assert_eq!(rest.name, "rest");
    assert_eq!(rest.shape, value_pipeline::command::SyntaxShape::CellPath);
    assert_eq!(rest.desc, "column paths to convert to binary (for table input)");

    let examples = cmd.examples();
    assert_eq!(examples.len(), 6);

    // Each example with a fixed expected result is run against the
    // conversion it describes.
    let inputs: Vec<Option<Value>> = vec![
        Some(Value::String {
            val: "This is a string that is exactly 52 characters long.".to_string(),
            span: unknown(),
        }),
        Some(Value::Int { val: 1, span: unknown() }),
        Some(Value::Bool { val: true, span: unknown() }),
        None,
        None,
        Some(Value::Float { bits: 1.234f64.to_bits(), span: unknown() }),
    ];
    for (example, input) in examples.into_iter().zip(inputs.into_iter()) {
        match (example.result, input) {
            (Some(expected), Some(value)) => {
                assert_eq!(binary::action(value, unknown()), expected);
            }
            (None, None) => {}
            _ => panic!("example fixtures and inputs out of step"),
        }
    }
}

#[test]
fn humanize_test_examples() {
    let cmd = humanize::SubCommand;
    assert_eq!(cmd.name(), "date humanize");
    assert_eq!(cmd.usage(), "Print a 'humanized' format for the date, relative to now.");
    let sig = cmd.signature();
    assert_eq!(sig.name, "date humanize");
    assert_eq!(sig.category, Category::Date);
    assert!(sig.rest.is_none());

    let examples = cmd.examples();
    assert_eq!(examples.len(), 2);

    // The first example fixes a result: an absent input humanizes to the
    // sentinel phrase.
    let expected = examples[0].result.as_ref().expect("first example has a fixed result");
    let got = humanize::helper(Value::Nothing { span: unknown() }, unknown());
    assert_eq!(&got, expected);
    assert_eq!(got, Value::String { val: "now".to_string(), span: unknown() });

    assert!(examples[1].result.is_none());
}
