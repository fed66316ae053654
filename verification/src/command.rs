//! The uniform capability interface every command satisfies: a name, a
//! usage line, a declared parameter shape, example invocations doubling as
//! regression fixtures, and a `run` entry that an external engine can
//! invoke generically to compose commands into pipelines.

use vstd::prelude::*;
use vstd::string::StringExecFns;
use crate::pipeline::{PipelineData, pipeline_wf};
use crate::value::{ShellError, Span, Value};

verus! {

/// The group a command is listed under.
#[derive(Debug, Clone, Copy, PartialEq, Eq, Structural)]
pub enum Category {
    Default,
    Date,
}

/// The declared shape of a command argument.  `CellPath` addresses a
/// nested field or column inside a structured value.
#[derive(Debug, Clone, Copy, PartialEq, Eq, Structural)]
pub enum SyntaxShape {
    CellPath,
}

/// A declared rest parameter.  For the conversion command it names the
/// column paths a transform would be applied at inside a structured value:
/// a reserved extension point, declared here but not wired to any
/// behaviour yet.
#[derive(Debug, PartialEq)]
pub struct RestParam {
    pub name: String,
    pub shape: SyntaxShape,
    pub desc: String,
}

/// The declared parameter shape of a command.
#[derive(Debug, PartialEq)]
pub struct Signature {
    pub name: String,
    pub rest: Option<RestParam>,
    pub category: Category,
}

impl Signature {
    pub fn build(name: &str) -> (s: Signature)
        ensures
            s.name@ == name@,
            s.rest is None,
            s.category == Category::Default,
    {
        Signature { name: String::from_str(name), rest: None, category: Category::Default }
    }

    pub fn rest(self, name: &str, shape: SyntaxShape, desc: &str) -> (s: Signature)
        ensures
            s.name == self.name,
            s.category == self.category,
            s.rest matches Some(r) && r.name@ == name@ && r.shape == shape && r.desc@ == desc@,
    {
        Signature {
            rest: Some(
                RestParam {
                    name: String::from_str(name),
                    shape,
                    desc: String::from_str(desc),
                },
            ),
            ..self
        }
    }

    pub fn category(self, category: Category) -> (s: Signature)
        ensures
            s.name == self.name,
            s.rest == self.rest,
            s.category == category,
    {
        Signature { category, ..self }
    }
}

/// A described example invocation with its expected result, if one is
/// fixed; examples double as executable regression fixtures.
#[derive(Debug, PartialEq)]
pub struct Example {
    pub description: String,
    pub example: String,
    pub result: Option<Value>,
}

/// The capability set every command satisfies.  `transform_ok` is the
/// command's per-element input-output relation; `run` applies it across a
/// single value or a batch, in order, honouring cooperative cancellation
/// and mirroring the arity of its input.
pub trait Command {
    /// The relation `run` establishes between one input element and the
    /// element it produces.
    spec fn transform_ok(&self, input: Value, head: Span, out: Value) -> bool;

    /// The command's name.
    spec fn name_spec(&self) -> Seq<char>;

    /// The command's usage line.
    spec fn usage_spec(&self) -> Seq<char>;

    /// The parameter shape the command declares: `signature` returns
    /// exactly a shape satisfying this.
    spec fn signature_ok(&self, s: Signature) -> bool;

    /// The example fixtures the command declares: `examples` returns
    /// exactly a sequence satisfying this, pinning each fixed expected
    /// result.
    spec fn examples_ok(&self, es: Seq<Example>) -> bool;

    fn name(&self) -> (r: &'static str)
        ensures
            r@ == self.name_spec(),
    ;

    fn usage(&self) -> (r: &'static str)
        ensures
            r@ == self.usage_spec(),
    ;

    fn signature(&self) -> (r: Signature)
        ensures
            self.signature_ok(r),
    ;

    fn examples(&self) -> (r: Vec<Example>)
        ensures
            self.examples_ok(r@),
    ;

    fn run<C: Fn() -> bool>(&self, head: Span, input: PipelineData, cancel: C) -> (r: Result<
        PipelineData,
        ShellError,
    >)
        requires
            pipeline_wf(input),
            call_requires(cancel, ()),
        ensures
            r matches Ok(out) && {
                &&& input matches PipelineData::Value(v) ==> out matches PipelineData::Value(o)
                    && self.transform_ok(v, head, o)
                &&& input matches PipelineData::Stream(vs) ==> out matches PipelineData::Stream(os)
                    && {
                    &&& os@.len() <= vs@.len()
                    &&& forall|i: int|
                        0 <= i < os@.len() ==> self.transform_ok(vs@[i], head, #[trigger] os@[i])
                    &&& os@.len() < vs@.len() ==> call_ensures(cancel, (), true)
                }
            },
    ;
}

} // verus!
