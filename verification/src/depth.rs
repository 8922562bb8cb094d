//! How deep the resolution of variables can go, and why the number of
//! bindings is depth enough.
use crate::eval::{apply, eval, FailureView};
use crate::value::{DataView, Operation};
use vstd::prelude::*;

verus! {

/// Whether `value` needs no more than `depth` to be evaluated.
pub open spec fn settles(value: DataView, env: Map<Seq<char>, DataView>, depth: nat) -> bool {
    !(eval(value, env, depth) matches Err(FailureView::Circular(_)))
}

/// More depth changes nothing: a value that has a printable form, or fails
/// for another reason than a lack of depth, does the same at any greater
/// depth.
pub proof fn lemma_depth_is_monotonic(
    value: DataView,
    env: Map<Seq<char>, DataView>,
    depth: nat,
    more: nat,
)
    requires
        depth <= more,
        settles(value, env, depth),
    ensures
        eval(value, env, more) == eval(value, env, depth),
    decreases depth, value,
{
    match value {
        DataView::Variable(name) => {
            if env.contains_key(name) {
                assert(depth > 0);
                assert(eval(value, env, depth) == eval(env[name], env, (depth - 1) as nat));
                assert(eval(value, env, more) == eval(env[name], env, (more - 1) as nat));
                lemma_depth_is_monotonic(env[name], env, (depth - 1) as nat, (more - 1) as nat);
            }
        },
        DataView::MathExpression(left, operation, right) => {
            assert(eval(value, env, depth) == apply(operation, *left, *right, env, depth));
            assert(eval(value, env, more) == apply(operation, *left, *right, env, more));
            if operation == Operation::Add && *left is String {
                lemma_depth_is_monotonic(*right, env, depth, more);
            }
        },
        _ => {},
    }
}

/// The number of variables that the evaluation of `value` resolves one
/// inside the other.
spec fn cost(value: DataView, env: Map<Seq<char>, DataView>, depth: nat) -> nat
    decreases depth, value,
{
    match value {
        DataView::Variable(name) => {
            if env.contains_key(name) && depth > 0 {
                1 + cost(env[name], env, (depth - 1) as nat)
            } else {
                0
            }
        },
        DataView::MathExpression(left, operation, right) => {
            if operation == Operation::Add && *left is String {
                cost(*right, env, depth)
            } else {
                0
            }
        },
        _ => 0,
    }
}

/// The variables that the evaluation of `value` resolves.
spec fn resolved(value: DataView, env: Map<Seq<char>, DataView>, depth: nat) -> Set<Seq<char>>
    decreases depth, value,
{
    match value {
        DataView::Variable(name) => {
            if env.contains_key(name) && depth > 0 {
                resolved(env[name], env, (depth - 1) as nat).insert(name)
            } else {
                Set::empty()
            }
        },
        DataView::MathExpression(left, operation, right) => {
            if operation == Operation::Add && *left is String {
                resolved(*right, env, depth)
            } else {
                Set::empty()
            }
        },
        _ => Set::empty(),
    }
}

/// What `value` costs does not depend on the depth it is given, as long as
/// the depth is enough.
proof fn lemma_cost_is_stable(
    value: DataView,
    env: Map<Seq<char>, DataView>,
    depth: nat,
    other: nat,
)
    requires
        settles(value, env, depth),
        settles(value, env, other),
    ensures
        cost(value, env, depth) == cost(value, env, other),
    decreases depth, value,
{
    match value {
        DataView::Variable(name) => {
            if env.contains_key(name) {
                assert(depth > 0 && other > 0);
                assert(eval(value, env, depth) == eval(env[name], env, (depth - 1) as nat));
                assert(eval(value, env, other) == eval(env[name], env, (other - 1) as nat));
                lemma_cost_is_stable(env[name], env, (depth - 1) as nat, (other - 1) as nat);
            }
        },
        DataView::MathExpression(left, operation, right) => {
            assert(eval(value, env, depth) == apply(operation, *left, *right, env, depth));
            assert(eval(value, env, other) == apply(operation, *left, *right, env, other));
            if operation == Operation::Add && *left is String {
                lemma_cost_is_stable(*right, env, depth, other);
            }
        },
        _ => {},
    }
}

/// A value evaluates at the depth it costs as at any depth that is enough.
proof fn lemma_settles_at_cost(value: DataView, env: Map<Seq<char>, DataView>, depth: nat)
    requires
        settles(value, env, depth),
    ensures
        cost(value, env, depth) <= depth,
        eval(value, env, cost(value, env, depth)) == eval(value, env, depth),
    decreases depth, value,
{
    let least = cost(value, env, depth);
    match value {
        DataView::Variable(name) => {
            if env.contains_key(name) {
                assert(depth > 0);
                assert(eval(value, env, depth) == eval(env[name], env, (depth - 1) as nat));
                lemma_settles_at_cost(env[name], env, (depth - 1) as nat);
                assert(eval(value, env, least) == eval(env[name], env, (least - 1) as nat));
            }
        },
        DataView::MathExpression(left, operation, right) => {
            assert(eval(value, env, depth) == apply(operation, *left, *right, env, depth));
            assert(eval(value, env, least) == apply(operation, *left, *right, env, least));
            if operation == Operation::Add && *left is String {
                lemma_settles_at_cost(*right, env, depth);
            }
        },
        _ => {},
    }
}

/// The variables that an evaluation resolves are bound, are all different,
/// and each costs no more than the whole.
proof fn lemma_resolved_are_distinct(
    value: DataView,
    env: Map<Seq<char>, DataView>,
    depth: nat,
)
    requires
        settles(value, env, depth),
    ensures
        resolved(value, env, depth).finite(),
        resolved(value, env, depth).len() == cost(value, env, depth),
        forall|name: Seq<char>| #[trigger]
            resolved(value, env, depth).contains(name) ==> {
                &&& env.contains_key(name)
                &&& settles(DataView::Variable(name), env, depth)
                &&& cost(DataView::Variable(name), env, depth) <= cost(value, env, depth)
            },
    decreases depth, value,
{
    match value {
        DataView::Variable(name) => {
            if env.contains_key(name) {
                assert(depth > 0);
                let inner = env[name];
                let less = (depth - 1) as nat;
                assert(eval(value, env, depth) == eval(inner, env, less));
                lemma_resolved_are_distinct(inner, env, less);
                let below = resolved(inner, env, less);
                assert forall|other: Seq<char>| #[trigger] below.contains(other) implies {
                    &&& settles(DataView::Variable(other), env, depth)
                    &&& cost(DataView::Variable(other), env, depth) <= cost(inner, env, less)
                } by {
                    lemma_depth_is_monotonic(DataView::Variable(other), env, less, depth);
                    lemma_cost_is_stable(DataView::Variable(other), env, less, depth);
                }
                if below.contains(name) {
                    assert(cost(value, env, depth) <= cost(inner, env, less));
                    assert(false);
                }
                assert(resolved(value, env, depth) == below.insert(name));
            }
        },
        DataView::MathExpression(left, operation, right) => {
            assert(eval(value, env, depth) == apply(operation, *left, *right, env, depth));
            if operation == Operation::Add && *left is String {
                lemma_resolved_are_distinct(*right, env, depth);
            }
        },
        _ => {},
    }
}

/// No evaluation needs to resolve more variables one inside the other than
/// the environment binds: a value that can be evaluated at some depth is
/// evaluated alike at the depth that is the number of bindings.
pub proof fn lemma_bindings_bound_depth(
    value: DataView,
    env: Map<Seq<char>, DataView>,
    depth: nat,
)
    requires
        env.dom().finite(),
        settles(value, env, depth),
    ensures
        eval(value, env, env.len()) == eval(value, env, depth),
{
    let least = cost(value, env, depth);
    lemma_resolved_are_distinct(value, env, depth);
    assert(resolved(value, env, depth).subset_of(env.dom()));
    vstd::set_lib::lemma_len_subset(resolved(value, env, depth), env.dom());
    lemma_settles_at_cost(value, env, depth);
    lemma_depth_is_monotonic(value, env, least, env.len());
}

/// A value reported as circular at the depth of the number of bindings is
/// circular at every depth: its evaluation would never end.
pub proof fn lemma_circular_at_every_depth(
    value: DataView,
    env: Map<Seq<char>, DataView>,
    depth: nat,
)
    requires
        env.dom().finite(),
        !settles(value, env, env.len()),
    ensures
        !settles(value, env, depth),
{
    if settles(value, env, depth) {
        lemma_bindings_bound_depth(value, env, depth);
    }
}

} // verus!
