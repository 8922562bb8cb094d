//! The evaluator: runs a list of statements against a fresh environment,
//! dispatching calls to the builtin functions.
//!
//! Nothing is written anywhere: what a program prints is handed back as a
//! list of lines, each the printable form of one printed value.
use crate::eval::{eval, Environment, Failure, FailureView, Fragment, FragmentView};
use crate::ir::{parsed_program, parsing, IRView, SyntaxError, IR};
use crate::text::same_text;
use crate::tree::Node;
use crate::value::{Data, DataView};
use vstd::prelude::*;

verus! {

/// Why a run stopped before its end.
#[derive(Debug, PartialEq, Eq)]
pub enum RuntimeError {
    /// A call of a function of this name, which is no builtin.
    UnknownFunction(String),
    /// An argument of a builtin had no printable form.
    InvalidArgument(Failure),
}

/// What a [`RuntimeError`] stands for.
pub enum RuntimeErrorView {
    UnknownFunction(Seq<char>),
    InvalidArgument(FailureView),
}

impl DeepView for RuntimeError {
    type V = RuntimeErrorView;

    open spec fn deep_view(&self) -> RuntimeErrorView {
        match self {
            RuntimeError::UnknownFunction(name) => RuntimeErrorView::UnknownFunction(name@),
            RuntimeError::InvalidArgument(failure) => RuntimeErrorView::InvalidArgument(
                failure.deep_view(),
            ),
        }
    }
}

/// The message that reports a runtime error.
pub open spec fn runtime_message(error: RuntimeErrorView) -> Seq<char> {
    match error {
        RuntimeErrorView::UnknownFunction(_) => "NO FUNCTION FOUND WITH THIS NAME"@,
        RuntimeErrorView::InvalidArgument(FailureView::Mismatch) => "INVALID ARGUMENT"@,
        RuntimeErrorView::InvalidArgument(FailureView::Unresolved(name)) =>
            "INVALID ARGUMENT: unresolved variable "@ + name,
        RuntimeErrorView::InvalidArgument(FailureView::Circular(name)) =>
            "INVALID ARGUMENT: circular variable "@ + name,
    }
}

impl RuntimeError {
    /// The message that reports the error.
    pub fn message(&self) -> (r: String)
        ensures
            r@ == runtime_message(self.deep_view()),
    {
        let mut out = String::new();
        match self {
            RuntimeError::UnknownFunction(_) => {
                out.append("NO FUNCTION FOUND WITH THIS NAME");
            },
            RuntimeError::InvalidArgument(Failure::Mismatch) => {
                out.append("INVALID ARGUMENT");
            },
            RuntimeError::InvalidArgument(Failure::Unresolved(name)) => {
                out.append("INVALID ARGUMENT: unresolved variable ");
                out.append(name.as_str());
            },
            RuntimeError::InvalidArgument(Failure::Circular(name)) => {
                out.append("INVALID ARGUMENT: circular variable ");
                out.append(name.as_str());
            },
        }
        assert(out@ =~= runtime_message(self.deep_view()));
        out
    }
}

/// What running something has printed, and how it ended.
pub struct Effect {
    pub output: Seq<Seq<FragmentView>>,
    pub result: Result<(), RuntimeErrorView>,
}

/// Whether `name` names a builtin function. There is one: `print`.
pub open spec fn is_builtin(name: Seq<char>) -> bool {
    name == "print"@
}

/// What `print` does with the first `upto` of its arguments: it prints the
/// printable form of each as a line, in order, and stops at the first that
/// has none. The lines printed before that stay printed.
pub open spec fn printed(args: Seq<DataView>, env: Map<Seq<char>, DataView>, upto: int) -> Effect
    decreases upto,
{
    if upto <= 0 {
        Effect { output: Seq::empty(), result: Ok(()) }
    } else {
        let before = printed(args, env, upto - 1);
        if before.result is Err {
            before
        } else {
            match eval(args[upto - 1], env, env.len()) {
                Ok(line) => Effect { output: before.output.push(line), result: Ok(()) },
                Err(failure) => Effect {
                    output: before.output,
                    result: Err(RuntimeErrorView::InvalidArgument(failure)),
                },
            }
        }
    }
}

/// What a call of the function `name` with `args` does under `env`: a
/// builtin does its work, any other name is an error and prints nothing.
pub open spec fn called(name: Seq<char>, args: Seq<DataView>, env: Map<Seq<char>, DataView>)
    -> Effect {
    if is_builtin(name) {
        printed(args, env, args.len() as int)
    } else {
        Effect { output: Seq::empty(), result: Err(RuntimeErrorView::UnknownFunction(name)) }
    }
}

/// A run in progress: the bindings made, the lines printed, and whether it
/// is still going.
pub struct State {
    pub env: Map<Seq<char>, DataView>,
    pub output: Seq<Seq<FragmentView>>,
    pub result: Result<(), RuntimeErrorView>,
}

/// The run after the first `upto` statements.
///
/// It starts without bindings and without output. An assignment binds its
/// variable to its value as it stands, in place of any earlier binding. A
/// call adds what it prints under the bindings made so far. After the first
/// error nothing changes any more.
pub open spec fn ran_upto(statements: Seq<IRView>, upto: int) -> State
    decreases upto,
{
    if upto <= 0 {
        State { env: Map::empty(), output: Seq::empty(), result: Ok(()) }
    } else {
        let before = ran_upto(statements, upto - 1);
        if before.result is Err {
            before
        } else {
            match statements[upto - 1] {
                IRView::Assignment(name, value) => State {
                    env: before.env.insert(name, value),
                    output: before.output,
                    result: Ok(()),
                },
                IRView::Function(name, args) => {
                    let effect = called(name, args, before.env);
                    State {
                        env: before.env,
                        output: before.output + effect.output,
                        result: effect.result,
                    }
                },
            }
        }
    }
}

/// The whole run of `statements`.
pub open spec fn ran(statements: Seq<IRView>) -> State {
    ran_upto(statements, statements.len() as int)
}

/// What an error stands for, or that there is none.
pub open spec fn result_view(r: Result<(), RuntimeError>) -> Result<(), RuntimeErrorView> {
    match r {
        Ok(()) => Ok(()),
        Err(error) => Err(error.deep_view()),
    }
}

/// Once `print` has failed, further arguments change nothing.
proof fn lemma_printed_stays_failed(
    args: Seq<DataView>,
    env: Map<Seq<char>, DataView>,
    at: int,
    upto: int,
)
    requires
        0 <= at <= upto,
        printed(args, env, at).result is Err,
    ensures
        printed(args, env, upto) == printed(args, env, at),
    decreases upto,
{
    if upto > at {
        lemma_printed_stays_failed(args, env, at, upto - 1);
    }
}

/// Once a run has stopped on an error, the statements that follow neither
/// print nor bind anything.
pub proof fn lemma_error_ends_run(statements: Seq<IRView>, at: int, upto: int)
    requires
        0 <= at <= upto,
        ran_upto(statements, at).result is Err,
    ensures
        ran_upto(statements, upto) == ran_upto(statements, at),
    decreases upto,
{
    if upto > at {
        lemma_error_ends_run(statements, at, upto - 1);
    }
}

/// The builtin `print`: adds the printable form of each argument to
/// `output` as a line of its own, and stops at the first that has none.
fn print(args: &Vec<Data>, variables: &Environment, output: &mut Vec<Vec<Fragment>>) -> (r: Result<
    (),
    RuntimeError,
>)
    ensures
        final(output).deep_view() == old(output).deep_view() + printed(
            args.deep_view(),
            variables@,
            args@.len() as int,
        ).output,
        result_view(r) == printed(args.deep_view(), variables@, args@.len() as int).result,
{
    let ghost start = output.deep_view();
    let ghost values = args.deep_view();
    let mut i: usize = 0;
    assert(output.deep_view() =~= start + Seq::<Seq<FragmentView>>::empty());
    while i < args.len()
        invariant
            i <= args@.len(),
            values == args.deep_view(),
            start == old(output).deep_view(),
            printed(values, variables@, i as int).result is Ok,
            output.deep_view() == start + printed(values, variables@, i as int).output,
        decreases args@.len() - i,
    {
        assert(values[i as int] == args@[i as int].deep_view());
        match args[i].evaluate(variables) {
            Err(failure) => {
                proof {
                    lemma_printed_stays_failed(values, variables@, i + 1, args@.len() as int);
                }
                return Err(RuntimeError::InvalidArgument(failure));
            },
            Ok(line) => {
                let ghost before = output.deep_view();
                output.push(line);
                assert(output.deep_view() =~= before.push(line.deep_view()));
                assert(output.deep_view() =~= start + printed(
                    values,
                    variables@,
                    i + 1,
                ).output);
            },
        }
        i = i + 1;
    }
    Ok(())
}

/// Calls the function `name` with `args` under `variables`, adding what it
/// prints to `output`.
pub fn call_builtin(
    name: &str,
    args: &Vec<Data>,
    variables: &Environment,
    output: &mut Vec<Vec<Fragment>>,
) -> (r: Result<(), RuntimeError>)
    ensures
        final(output).deep_view() == old(output).deep_view() + called(
            name@,
            args.deep_view(),
            variables@,
        ).output,
        result_view(r) == called(name@, args.deep_view(), variables@).result,
{
    if same_text(name, "print") {
        print(args, variables, output)
    } else {
        assert(output.deep_view() =~= old(output).deep_view() + Seq::<
            Seq<FragmentView>,
        >::empty());
        Err(RuntimeError::UnknownFunction(name.to_owned()))
    }
}

/// What a run of a program has printed, and the error that stopped it, if
/// one did.
#[derive(Debug, PartialEq, Eq)]
pub struct Execution {
    pub output: Vec<Vec<Fragment>>,
    pub result: Result<(), RuntimeError>,
}

/// Runs the statements in order against an environment that starts empty.
///
/// The run stops at the first error. What was printed before it stays in the
/// output; nothing after it is run.
pub fn run_ir(tokens: Vec<IR>) -> (r: Execution)
    ensures
        r.output.deep_view() == ran(tokens.deep_view()).output,
        result_view(r.result) == ran(tokens.deep_view()).result,
{
    let ghost statements = tokens.deep_view();
    let mut variables = Environment::new();
    let mut output: Vec<Vec<Fragment>> = Vec::new();
    let mut i: usize = 0;
    assert(output.deep_view() =~= Seq::<Seq<FragmentView>>::empty());
    while i < tokens.len()
        invariant
            i <= tokens@.len(),
            statements == tokens.deep_view(),
            ran_upto(statements, i as int).result is Ok,
            ran_upto(statements, i as int).env == variables@,
            ran_upto(statements, i as int).output == output.deep_view(),
        decreases tokens@.len() - i,
    {
        assert(statements[i as int] == tokens@[i as int].deep_view());
        match &tokens[i] {
            IR::Function(name, args) => {
                let result = call_builtin(name.as_str(), args, &variables, &mut output);
                if result.is_err() {
                    proof {
                        lemma_error_ends_run(statements, i + 1, tokens@.len() as int);
                    }
                    return Execution { output, result };
                }
            },
            IR::Assignment(name, value) => {
                variables.insert(name.clone(), value.clone());
            },
        }
        i = i + 1;
    }
    Execution { output, result: Ok(()) }
}

/// What one use of the engine leaves behind: the lines printed, and the
/// line that reports the error, if there was one.
#[derive(Debug, PartialEq, Eq)]
pub struct Report {
    pub output: Vec<Vec<Fragment>>,
    pub error: Option<String>,
}

/// What interpreting the grammar parser's answer gives.
///
/// A program that cannot be built prints nothing, and its error is reported
/// behind the word `Error`. A program that was built is run, and a runtime
/// error is reported by its message alone.
pub open spec fn interpreted(parsed: Result<Node, SyntaxError>) -> (
    Seq<Seq<FragmentView>>,
    Option<Seq<char>>,
) {
    match parsed_program(parsed) {
        Err(message) => (Seq::empty(), Some("Error: "@ + message)),
        Ok(statements) => (
            ran(statements).output,
            match ran(statements).result {
                Ok(()) => None,
                Err(error) => Some(runtime_message(error)),
            },
        ),
    }
}

/// Builds the program from the grammar parser's answer and runs it.
pub fn interpret(parsed: Result<Node, SyntaxError>) -> (r: Report)
    ensures
        r.output.deep_view() == interpreted(parsed).0,
        r.error.deep_view() == interpreted(parsed).1,
{
    match parsing(parsed) {
        Err(message) => {
            let mut line = String::new();
            line.append("Error: ");
            line.append(message.as_str());
            let output: Vec<Vec<Fragment>> = Vec::new();
            assert(output.deep_view() =~= Seq::<Seq<FragmentView>>::empty());
            assert(line@ =~= "Error: "@ + message@);
            Report { output, error: Some(line) }
        },
        Ok(tokens) => {
            let execution = run_ir(tokens);
            let error = match &execution.result {
                Ok(()) => None,
                Err(error) => Some(error.message()),
            };
            Report { output: execution.output, error }
        },
    }
}

} // verus!
