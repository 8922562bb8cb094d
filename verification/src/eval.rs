//! Evaluation of values against a variable environment.
//!
//! Numbers are IEEE-754 doubles, which this crate carries as bit patterns and
//! never computes with. Evaluation therefore yields the printable form of a
//! value as a sequence of fragments: texts, which stand for themselves, and
//! numbers still to be computed and written out in decimal by the caller.
use crate::depth::{lemma_bindings_bound_depth, settles};
use crate::value::{Data, DataView, Operation};
use vstd::hash_map::StringHashMap;
use vstd::prelude::*;

verus! {

/// One piece of the printable form of a value.
#[derive(Debug, PartialEq, Eq)]
pub enum Fragment {
    /// The text itself.
    Text(String),
    /// The decimal form of the double with this bit pattern.
    Number(u64),
    /// The decimal form of what the operator yields on the two doubles with
    /// these bit patterns, left operand first.
    Arithmetic(Operation, u64, u64),
}

/// What a [`Fragment`] stands for.
pub enum FragmentView {
    Text(Seq<char>),
    Number(u64),
    Arithmetic(Operation, u64, u64),
}

impl DeepView for Fragment {
    type V = FragmentView;

    open spec fn deep_view(&self) -> FragmentView {
        match self {
            Fragment::Text(s) => FragmentView::Text(s@),
            Fragment::Number(bits) => FragmentView::Number(*bits),
            Fragment::Arithmetic(operation, left, right) => FragmentView::Arithmetic(
                *operation,
                *left,
                *right,
            ),
        }
    }
}

/// Why a value has no printable form.
#[derive(Debug, PartialEq, Eq)]
pub enum Failure {
    /// The variable of this name is bound to nothing.
    Unresolved(String),
    /// An operator met operands it is not defined on.
    Mismatch,
    /// Resolving the variable of this name leads back to a variable already
    /// being resolved, so that it would never end.
    Circular(String),
}

/// What a [`Failure`] stands for.
pub enum FailureView {
    Unresolved(Seq<char>),
    Mismatch,
    Circular(Seq<char>),
}

impl DeepView for Failure {
    type V = FailureView;

    open spec fn deep_view(&self) -> FailureView {
        match self {
            Failure::Unresolved(name) => FailureView::Unresolved(name@),
            Failure::Mismatch => FailureView::Mismatch,
            Failure::Circular(name) => FailureView::Circular(name@),
        }
    }
}

/// The variables of one run, each bound to the value last assigned to it.
pub struct Environment {
    map: StringHashMap<Data>,
}

impl View for Environment {
    type V = Map<Seq<char>, DataView>;

    closed spec fn view(&self) -> Map<Seq<char>, DataView> {
        self.map@.map_values(|d: Data| d.deep_view())
    }
}

impl Environment {
    #[verifier::type_invariant]
    spec fn inv(self) -> bool {
        self.map@.dom().finite()
    }

    /// An environment without bindings.
    pub fn new() -> (r: Environment)
        ensures
            r@ == Map::<Seq<char>, DataView>::empty(),
    {
        let r = Environment { map: StringHashMap::new() };
        assert(r@ =~= Map::<Seq<char>, DataView>::empty());
        r
    }

    /// Binds `name` to `value`, in place of what it was bound to before.
    pub fn insert(&mut self, name: String, value: Data)
        ensures
            final(self)@ == old(self)@.insert(name@, value.deep_view()),
    {
        proof {
            use_type_invariant(&*self);
        }
        let ghost before = self@;
        let ghost key = name@;
        let ghost bound = value.deep_view();
        // The map is taken out while it changes and put back afterwards.
        let mut map = StringHashMap::new();
        std::mem::swap(&mut self.map, &mut map);
        map.insert(name, value);
        std::mem::swap(&mut self.map, &mut map);
        assert(self@ =~= before.insert(key, bound));
    }

    /// The value bound to `name`, if there is one.
    pub fn get(&self, name: &str) -> (r: Option<&Data>)
        ensures
            match r {
                Some(value) => self@.contains_key(name@) && self@[name@] == value.deep_view(),
                None => !self@.contains_key(name@),
            },
    {
        self.map.get(name)
    }

    /// The number of variables bound, which is always finite.
    pub fn len(&self) -> (r: usize)
        ensures
            self@.dom().finite(),
            r == self@.len(),
    {
        proof {
            use_type_invariant(self);
        }
        assert(self@.dom() =~= self.map@.dom());
        self.map.len()
    }
}

/// What evaluation yields, as its model.
pub open spec fn outcome(r: Result<Vec<Fragment>, Failure>) -> Result<
    Seq<FragmentView>,
    FailureView,
> {
    match r {
        Ok(fragments) => Ok(fragments.deep_view()),
        Err(failure) => Err(failure.deep_view()),
    }
}

/// The printable form of `value` under the bindings `env`, or the reason why
/// it has none, where at most `depth` variables may be resolved one inside
/// the other.
///
/// A number and a text stand for themselves. A variable stands for what the
/// value bound to it stands for; it fails where nothing is bound to it, and
/// where `depth` is used up. An expression is what [`apply`] makes of its
/// operator and operands.
pub open spec fn eval(value: DataView, env: Map<Seq<char>, DataView>, depth: nat) -> Result<
    Seq<FragmentView>,
    FailureView,
>
    decreases depth, value, 0nat,
{
    match value {
        DataView::Number(bits) => Ok(seq![FragmentView::Number(bits)]),
        DataView::String(s) => Ok(seq![FragmentView::Text(s)]),
        DataView::MathExpression(left, operation, right) => apply(
            operation,
            *left,
            *right,
            env,
            depth,
        ),
        DataView::Variable(name) => {
            if !env.contains_key(name) {
                Err(FailureView::Unresolved(name))
            } else if depth == 0 {
                Err(FailureView::Circular(name))
            } else {
                eval(env[name], env, (depth - 1) as nat)
            }
        },
    }
}

/// What an operator makes of its two operands.
///
/// The operands are taken as they stand: only the right operand of an
/// addition whose left operand is a text is evaluated. Two numbers give the
/// number the operator yields on them. Added to a number, a text follows the
/// number. Added to a text, the printable form of anything follows the text.
/// On all other operands the operator is not defined.
pub open spec fn apply(
    operation: Operation,
    left: DataView,
    right: DataView,
    env: Map<Seq<char>, DataView>,
    depth: nat,
) -> Result<Seq<FragmentView>, FailureView>
    decreases depth, right, 1nat,
{
    match (operation, left, right) {
        (_, DataView::Number(a), DataView::Number(b)) => Ok(
            seq![FragmentView::Arithmetic(operation, a, b)],
        ),
        (Operation::Add, DataView::Number(a), DataView::String(s)) => Ok(
            seq![FragmentView::Number(a), FragmentView::Text(s)],
        ),
        (Operation::Add, DataView::String(s), _) => match eval(right, env, depth) {
            Ok(rest) => Ok(seq![FragmentView::Text(s)] + rest),
            Err(failure) => Err(failure),
        },
        _ => Err(FailureView::Mismatch),
    }
}

impl Data {
    /// Reduces the value to its printable form under `variables`.
    ///
    /// Variables bound to variables are followed to any depth. A chain that
    /// resolves more variables than there are must pass one of them twice and
    /// would go on for ever: it is reported as [`Failure::Circular`]. So the
    /// result is that of any depth that is enough for the value.
    pub fn evaluate(&self, variables: &Environment) -> (r: Result<Vec<Fragment>, Failure>)
        ensures
            outcome(r) == eval(self.deep_view(), variables@, variables@.len()),
            forall|depth: nat| #[trigger]
                settles(self.deep_view(), variables@, depth) ==> outcome(r) == eval(
                    self.deep_view(),
                    variables@,
                    depth,
                ),
    {
        let depth = variables.len();
        proof {
            assert forall|enough: nat| #[trigger]
                settles(self.deep_view(), variables@, enough) implies eval(
                self.deep_view(),
                variables@,
                enough,
            ) == eval(self.deep_view(), variables@, variables@.len()) by {
                lemma_bindings_bound_depth(self.deep_view(), variables@, enough);
            }
        }
        self.evaluate_within(variables, depth)
    }

    /// Reduces the value to its printable form under `variables`, resolving
    /// at most `depth` variables one inside the other.
    pub fn evaluate_within(&self, variables: &Environment, depth: usize) -> (r: Result<
        Vec<Fragment>,
        Failure,
    >)
        ensures
            outcome(r) == eval(self.deep_view(), variables@, depth as nat),
        decreases depth, self, 0nat,
    {
        match self {
            Data::Number(bits) => {
                let fragments = vec![Fragment::Number(*bits)];
                assert(fragments.deep_view() =~= seq![FragmentView::Number(*bits)]);
                Ok(fragments)
            },
            Data::String(s) => {
                let fragments = vec![Fragment::Text(s.clone())];
                assert(fragments.deep_view() =~= seq![FragmentView::Text(s@)]);
                Ok(fragments)
            },
            Data::MathExpression(left, operation, right) => operation.run_within(
                left,
                right,
                variables,
                depth,
            ),
            Data::Variable(name) => {
                match variables.get(name.as_str()) {
                    None => Err(Failure::Unresolved(name.clone())),
                    Some(bound) => {
                        if depth == 0 {
                            Err(Failure::Circular(name.clone()))
                        } else {
                            bound.evaluate_within(variables, depth - 1)
                        }
                    },
                }
            },
        }
    }
}

impl Operation {
    /// Applies the operator to two operands under `variables`.
    pub fn run(&self, left: &Box<Data>, right: &Box<Data>, variables: &Environment) -> (r: Result<
        Vec<Fragment>,
        Failure,
    >)
        ensures
            outcome(r) == apply(
                *self,
                (**left).deep_view(),
                (**right).deep_view(),
                variables@,
                variables@.len(),
            ),
    {
        self.run_within(left, right, variables, variables.len())
    }

    /// Applies the operator to two operands under `variables`, resolving at
    /// most `depth` variables one inside the other.
    pub fn run_within(
        &self,
        left: &Box<Data>,
        right: &Box<Data>,
        variables: &Environment,
        depth: usize,
    ) -> (r: Result<Vec<Fragment>, Failure>)
        ensures
            outcome(r) == apply(
                *self,
                (**left).deep_view(),
                (**right).deep_view(),
                variables@,
                depth as nat,
            ),
        decreases depth, **right, 1nat,
    {
        match (&**left, &**right) {
            (Data::Number(a), Data::Number(b)) => {
                let fragments = vec![Fragment::Arithmetic(*self, *a, *b)];
                assert(fragments.deep_view() =~= seq![FragmentView::Arithmetic(*self, *a, *b)]);
                Ok(fragments)
            },
            (Data::Number(a), Data::String(s)) => {
                match self {
                    Operation::Add => {
                        let fragments = vec![Fragment::Number(*a), Fragment::Text(s.clone())];
                        assert(fragments.deep_view() =~= seq![
                            FragmentView::Number(*a),
                            FragmentView::Text(s@),
                        ]);
                        Ok(fragments)
                    },
                    _ => Err(Failure::Mismatch),
                }
            },
            (Data::String(s), other) => {
                match self {
                    Operation::Add => {
                        match other.evaluate_within(variables, depth) {
                            Ok(mut rest) => {
                                let ghost tail = rest.deep_view();
                                let mut fragments = vec![Fragment::Text(s.clone())];
                                fragments.append(&mut rest);
                                assert(fragments.deep_view() =~= seq![FragmentView::Text(s@)]
                                    + tail);
                                Ok(fragments)
                            },
                            Err(failure) => Err(failure),
                        }
                    },
                    _ => Err(Failure::Mismatch),
                }
            },
            _ => Err(Failure::Mismatch),
        }
    }
}

} // verus!
