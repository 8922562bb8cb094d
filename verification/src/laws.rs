//! Laws of the engine, stated over the models of evaluation and of a run.
use crate::eval::{apply, eval, FailureView, FragmentView};
use crate::ir::{argument_value, arguments, built_upto, diagnostic, IRView, SyntaxError};
use crate::run::{
    interpreted, lemma_error_ends_run, printed, ran, ran_upto, RuntimeErrorView,
};
use crate::tree::Node;
use crate::value::{DataView, Operation};
use vstd::prelude::*;

verus! {

/// Two numbers can be added in either order, and each order gives the sum of
/// the operands as they stand. A number and a text can be added in either
/// order too, but the two orders differ: the number comes first in one and
/// the text in the other.
pub proof fn lemma_add_of_number_and_text(
    a: u64,
    b: u64,
    s: Seq<char>,
    env: Map<Seq<char>, DataView>,
    depth: nat,
)
    ensures
        apply(Operation::Add, DataView::Number(a), DataView::Number(b), env, depth) == Ok::<
            Seq<FragmentView>,
            FailureView,
        >(seq![FragmentView::Arithmetic(Operation::Add, a, b)]),
        apply(Operation::Add, DataView::Number(b), DataView::Number(a), env, depth) == Ok::<
            Seq<FragmentView>,
            FailureView,
        >(seq![FragmentView::Arithmetic(Operation::Add, b, a)]),
        apply(Operation::Add, DataView::Number(a), DataView::String(s), env, depth) == Ok::<
            Seq<FragmentView>,
            FailureView,
        >(seq![FragmentView::Number(a), FragmentView::Text(s)]),
        apply(Operation::Add, DataView::String(s), DataView::Number(a), env, depth) == Ok::<
            Seq<FragmentView>,
            FailureView,
        >(seq![FragmentView::Text(s), FragmentView::Number(a)]),
        apply(Operation::Add, DataView::Number(a), DataView::String(s), env, depth) != apply(
            Operation::Add,
            DataView::String(s),
            DataView::Number(a),
            env,
            depth,
        ),
{
    let number_first = seq![FragmentView::Number(a), FragmentView::Text(s)];
    let text_first = seq![FragmentView::Text(s), FragmentView::Number(a)];
    assert(number_first[0] != text_first[0]);
    assert(seq![FragmentView::Text(s)] + seq![FragmentView::Number(a)] =~= text_first);
}

/// A text on the left of an addition is followed by the printable form of
/// whatever stands on the right, and fails as the right operand fails.
pub proof fn lemma_add_to_text(
    s: Seq<char>,
    right: DataView,
    env: Map<Seq<char>, DataView>,
    depth: nat,
)
    ensures
        apply(Operation::Add, DataView::String(s), right, env, depth) == match eval(
            right,
            env,
            depth,
        ) {
            Ok(rest) => Ok::<Seq<FragmentView>, FailureView>(seq![FragmentView::Text(s)] + rest),
            Err(failure) => Err(failure),
        },
{
}

/// An addition whose left operand is neither a number nor a text is not
/// defined, whatever the operand would evaluate to. So is the addition of
/// anything but a number or a text to a number.
pub proof fn lemma_add_rejects_other_operands(
    left: DataView,
    right: DataView,
    env: Map<Seq<char>, DataView>,
    depth: nat,
)
    requires
        !(left is String),
        !(left is Number && (right is Number || right is String)),
    ensures
        apply(Operation::Add, left, right, env, depth) == Err::<Seq<FragmentView>, FailureView>(
            FailureView::Mismatch,
        ),
{
}

/// Subtraction, multiplication and division are defined on two numbers as
/// they stand and on nothing else: not on a variable, even one bound to a
/// number, and not on an expression.
pub proof fn lemma_arithmetic_needs_numbers(
    operation: Operation,
    left: DataView,
    right: DataView,
    env: Map<Seq<char>, DataView>,
    depth: nat,
)
    requires
        operation != Operation::Add,
    ensures
        left is Number && right is Number ==> apply(operation, left, right, env, depth) == Ok::<
            Seq<FragmentView>,
            FailureView,
        >(seq![FragmentView::Arithmetic(operation, left->Number_0, right->Number_0)]),
        !(left is Number && right is Number) ==> apply(operation, left, right, env, depth) == Err::<
            Seq<FragmentView>,
            FailureView,
        >(FailureView::Mismatch),
{
}

/// The division of a number by a number never fails, whatever the divisor:
/// what a division by zero yields is left to the arithmetic of doubles.
pub proof fn lemma_division_never_fails(
    a: u64,
    b: u64,
    env: Map<Seq<char>, DataView>,
    depth: nat,
)
    ensures
        apply(Operation::Divide, DataView::Number(a), DataView::Number(b), env, depth) == Ok::<
            Seq<FragmentView>,
            FailureView,
        >(seq![FragmentView::Arithmetic(Operation::Divide, a, b)]),
{
}

/// A variable that nothing is bound to has no printable form, and the
/// failure names it.
pub proof fn lemma_unbound_variable_fails(
    name: Seq<char>,
    env: Map<Seq<char>, DataView>,
    depth: nat,
)
    requires
        !env.contains_key(name),
    ensures
        eval(DataView::Variable(name), env, depth) == Err::<Seq<FragmentView>, FailureView>(
            FailureView::Unresolved(name),
        ),
{
}

/// The environment of a run binds finitely many variables at every step.
pub proof fn lemma_run_binds_finitely(statements: Seq<IRView>, upto: int)
    ensures
        ran_upto(statements, upto).env.dom().finite(),
    decreases upto,
{
    if upto > 0 {
        lemma_run_binds_finitely(statements, upto - 1);
    }
}

/// Assigning a number to a variable and then printing the variable prints
/// that number, on one line, wherever in a program the two statements stand,
/// as long as the run got there.
pub proof fn lemma_assigned_number_is_printed(
    statements: Seq<IRView>,
    at: int,
    name: Seq<char>,
    bits: u64,
)
    requires
        0 <= at,
        at + 2 <= statements.len(),
        ran_upto(statements, at).result is Ok,
        statements[at] == IRView::Assignment(name, DataView::Number(bits)),
        statements[at + 1] == IRView::Function("print"@, seq![DataView::Variable(name)]),
    ensures
        ran_upto(statements, at + 2).result is Ok,
        ran_upto(statements, at + 2).output == ran_upto(statements, at).output.push(
            seq![FragmentView::Number(bits)],
        ),
{
    let before = ran_upto(statements, at);
    let bound = ran_upto(statements, at + 1);
    lemma_run_binds_finitely(statements, at);
    assert(bound.env == before.env.insert(name, DataView::Number(bits)));
    assert(bound.env.dom().finite());
    assert(bound.env.dom().contains(name));
    assert(bound.env.len() >= 1) by {
        if bound.env.dom().len() == 0 {
            assert(bound.env.dom() =~= Set::empty());
        }
    }
    let args = seq![DataView::Variable(name)];
    let line = seq![FragmentView::Number(bits)];
    assert(eval(DataView::Number(bits), bound.env, (bound.env.len() - 1) as nat) == Ok::<
        Seq<FragmentView>,
        FailureView,
    >(line));
    assert(eval(args[0], bound.env, bound.env.len()) == Ok::<Seq<FragmentView>, FailureView>(
        line,
    ));
    assert(printed(args, bound.env, 0).output =~= Seq::<Seq<FragmentView>>::empty());
    assert(printed(args, bound.env, 1).output =~= seq![line]);
    assert(before.output + seq![line] =~= before.output.push(line));
}

/// Printing a variable that no earlier statement has assigned stops the run
/// with an error that names the variable, and prints nothing.
pub proof fn lemma_unassigned_variable_stops_run(statements: Seq<IRView>, at: int, name: Seq<char>)
    requires
        0 <= at < statements.len(),
        ran_upto(statements, at).result is Ok,
        !ran_upto(statements, at).env.contains_key(name),
        statements[at] == IRView::Function("print"@, seq![DataView::Variable(name)]),
    ensures
        ran(statements).output == ran_upto(statements, at).output,
        ran(statements).result == Err::<(), RuntimeErrorView>(
            RuntimeErrorView::InvalidArgument(FailureView::Unresolved(name)),
        ),
{
    let before = ran_upto(statements, at);
    let args = seq![DataView::Variable(name)];
    assert(printed(args, before.env, 0).output =~= Seq::<Seq<FragmentView>>::empty());
    assert(printed(args, before.env, 1).result is Err);
    assert(before.output + Seq::<Seq<FragmentView>>::empty() =~= before.output);
    lemma_error_ends_run(statements, at + 1, statements.len() as int);
}

/// A call of a name that is no builtin stops the run with an error that
/// names it: neither that statement nor any after it prints anything.
pub proof fn lemma_unknown_function_stops_run(
    statements: Seq<IRView>,
    at: int,
    name: Seq<char>,
    args: Seq<DataView>,
)
    requires
        0 <= at < statements.len(),
        ran_upto(statements, at).result is Ok,
        statements[at] == IRView::Function(name, args),
        name != "print"@,
    ensures
        ran(statements).output == ran_upto(statements, at).output,
        ran(statements).result == Err::<(), RuntimeErrorView>(
            RuntimeErrorView::UnknownFunction(name),
        ),
{
    let before = ran_upto(statements, at);
    assert(before.output + Seq::<Seq<FragmentView>>::empty() =~= before.output);
    lemma_error_ends_run(statements, at + 1, statements.len() as int);
}

/// A source text that the grammar parser refuses prints nothing; all it
/// leaves is the diagnostic, which gives the line and column of the refusal.
pub proof fn lemma_syntax_error_prints_nothing(error: SyntaxError)
    ensures
        interpreted(Err::<Node, SyntaxError>(error)).0 == Seq::<Seq<FragmentView>>::empty(),
        interpreted(Err::<Node, SyntaxError>(error)).1 == Some("Error: "@ + diagnostic(error)),
{
}

/// The arguments of a call are built all or none: either each wrapper
/// denotes a value, and the values stand in the order of the wrappers, or
/// the build fails at the first wrapper that denotes none.
pub proof fn lemma_arguments_all_or_first_failure(nodes: Seq<Node>, upto: int)
    requires
        1 <= upto <= nodes.len(),
    ensures
        match arguments(nodes, upto) {
            Ok(values) => {
                &&& values.len() == upto - 1
                &&& forall|i: int|
                    1 <= i < upto ==> argument_value(#[trigger] nodes[i]) == Some(values[i - 1])
            },
            Err(at) => {
                &&& 1 <= at < upto
                &&& argument_value(nodes[at]) is None
                &&& forall|i: int| 1 <= i < at ==> argument_value(#[trigger] nodes[i]) is Some
            },
        },
    decreases upto,
{
    if upto > 1 {
        lemma_arguments_all_or_first_failure(nodes, upto - 1);
    }
}

/// `print` writes one line for each argument, in order, up to the first
/// argument that has no printable form, whose failure it reports.
pub proof fn lemma_print_stops_at_first_failure(
    args: Seq<DataView>,
    env: Map<Seq<char>, DataView>,
    upto: int,
)
    requires
        0 <= upto <= args.len(),
    ensures
        match printed(args, env, upto).result {
            Ok(()) => {
                &&& printed(args, env, upto).output.len() == upto
                &&& forall|i: int|
                    0 <= i < upto ==> eval(#[trigger] args[i], env, env.len()) == Ok::<
                        Seq<FragmentView>,
                        FailureView,
                    >(printed(args, env, upto).output[i])
            },
            Err(error) => {
                let at = printed(args, env, upto).output.len() as int;
                &&& at < upto
                &&& eval(args[at], env, env.len()) is Err
                &&& error == RuntimeErrorView::InvalidArgument(
                    eval(args[at], env, env.len())->Err_0,
                )
                &&& forall|i: int|
                    0 <= i < at ==> eval(#[trigger] args[i], env, env.len()) == Ok::<
                        Seq<FragmentView>,
                        FailureView,
                    >(printed(args, env, upto).output[i])
            },
        },
    decreases upto,
{
    if upto > 0 {
        lemma_print_stops_at_first_failure(args, env, upto - 1);
    }
}

/// Statements are built in source order and never changed afterwards: what
/// a shorter part of the program gives is the beginning of what a longer
/// part gives.
pub proof fn lemma_statements_keep_source_order(program: Node, shorter: int, longer: int)
    requires
        0 <= shorter <= longer,
        built_upto(program, longer) is Ok,
    ensures
        built_upto(program, shorter) is Ok,
        built_upto(program, shorter)->Ok_0.is_prefix_of(built_upto(program, longer)->Ok_0),
    decreases longer,
{
    if shorter < longer {
        lemma_statements_keep_source_order(program, shorter, longer - 1);
    }
}

} // verus!
