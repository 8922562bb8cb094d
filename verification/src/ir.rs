//! The builder: from a parse tree to the flat list of statements.
use crate::text::{decimal, push_decimal};
use crate::tree::{Node, Rule};
use crate::value::{parse_value, Data, DataView};
use vstd::prelude::*;

verus! {

/// One statement of a program, ready to run.
#[derive(Debug, PartialEq, Eq)]
pub enum IR {
    /// A call of the function of this name with these arguments.
    Function(String, Vec<Data>),
    /// The binding of the variable of this name to this value.
    Assignment(String, Data),
}

/// What an [`IR`] stands for.
pub enum IRView {
    Function(Seq<char>, Seq<DataView>),
    Assignment(Seq<char>, DataView),
}

impl DeepView for IR {
    type V = IRView;

    open spec fn deep_view(&self) -> IRView {
        match self {
            IR::Function(name, args) => IRView::Function(name@, args.deep_view()),
            IR::Assignment(name, value) => IRView::Assignment(name@, value.deep_view()),
        }
    }
}

/// Where in the source the grammar parser gave up: at one position, or over
/// a span from one position to another. Each position is a line and a
/// column, both counted from one.
#[derive(Clone, Copy, Debug, PartialEq, Eq)]
pub enum Location {
    Pos((usize, usize)),
    Span((usize, usize), (usize, usize)),
}

/// The grammar parser's refusal of a source text.
#[derive(Debug, PartialEq, Eq)]
pub struct SyntaxError {
    pub location: Location,
    /// What the parser expected or did not expect, in words.
    pub message: String,
    /// The source line on which it gave up.
    pub line: String,
}

/// A statement whose argument or assigned value denotes no value.
#[derive(Debug, PartialEq, Eq)]
pub struct SemanticError {
    /// The text of the offending argument, or the name of the variable.
    pub text: String,
    /// The line of the statement, counted from one.
    pub line: usize,
}

/// What a [`SemanticError`] stands for.
pub struct SemanticErrorView {
    pub text: Seq<char>,
    pub line: usize,
}

impl DeepView for SemanticError {
    type V = SemanticErrorView;

    open spec fn deep_view(&self) -> SemanticErrorView {
        SemanticErrorView { text: self.text@, line: self.line }
    }
}

/// A line and a column as a pair in round brackets.
pub open spec fn position_text(position: (usize, usize)) -> Seq<char> {
    "("@ + decimal(position.0 as nat) + ", "@ + decimal(position.1 as nat) + ")"@
}

/// A location written out: `Pos((3, 7))`, `Span((1, 2), (1, 9))`.
pub open spec fn location_text(location: Location) -> Seq<char> {
    match location {
        Location::Pos(at) => "Pos("@ + position_text(at) + ")"@,
        Location::Span(from, to) => "Span("@ + position_text(from) + ", "@ + position_text(to)
            + ")"@,
    }
}

/// The diagnostic line for a syntax error.
pub open spec fn diagnostic(error: SyntaxError) -> Seq<char> {
    "on Line: "@ + location_text(error.location) + " -> Syntax Error: "@ + error.message@
        + " -> "@ + error.line@
}

/// The message for a semantic error.
pub open spec fn semantic_message(error: SemanticErrorView) -> Seq<char> {
    "Invalid argument: "@ + error.text + " On line: "@ + decimal(error.line as nat)
}

fn push_position(out: &mut String, position: (usize, usize))
    ensures
        final(out)@ == old(out)@ + position_text(position),
{
    out.append("(");
    push_decimal(out, position.0);
    out.append(", ");
    push_decimal(out, position.1);
    out.append(")");
    assert(out@ =~= old(out)@ + position_text(position));
}

fn push_location(out: &mut String, location: Location)
    ensures
        final(out)@ == old(out)@ + location_text(location),
{
    match location {
        Location::Pos(at) => {
            out.append("Pos(");
            push_position(out, at);
            out.append(")");
        },
        Location::Span(from, to) => {
            out.append("Span(");
            push_position(out, from);
            out.append(", ");
            push_position(out, to);
            out.append(")");
        },
    }
    assert(out@ =~= old(out)@ + location_text(location));
}

impl SyntaxError {
    /// The diagnostic line: where, what, and the offending source line.
    pub fn diagnostic(&self) -> (r: String)
        ensures
            r@ == diagnostic(*self),
    {
        let mut out = String::new();
        out.append("on Line: ");
        push_location(&mut out, self.location);
        out.append(" -> Syntax Error: ");
        out.append(self.message.as_str());
        out.append(" -> ");
        out.append(self.line.as_str());
        assert(out@ =~= diagnostic(*self));
        out
    }
}

impl SemanticError {
    /// The message: the offending text and the line of its statement.
    pub fn message(&self) -> (r: String)
        ensures
            r@ == semantic_message(self.deep_view()),
    {
        let mut out = String::new();
        out.append("Invalid argument: ");
        out.append(self.text.as_str());
        out.append(" On line: ");
        push_decimal(&mut out, self.line);
        assert(out@ =~= semantic_message(self.deep_view()));
        out
    }
}

/// The values of the arguments of a call, or the place of the first
/// argument that denotes none.
///
/// `nodes` are the children of the call: the name, then one wrapper for each
/// argument, which denotes what its first child denotes. Only the wrappers
/// before `upto` are looked at.
pub open spec fn arguments(nodes: Seq<Node>, upto: int) -> Result<Seq<DataView>, int>
    decreases upto,
{
    if upto <= 1 {
        Ok(Seq::empty())
    } else {
        match arguments(nodes, upto - 1) {
            Err(at) => Err(at),
            Ok(values) => match argument_value(nodes[upto - 1]) {
                Some(value) => Ok(values.push(value)),
                None => Err(upto - 1),
            },
        }
    }
}

/// What an argument wrapper denotes: the value of its first child.
pub open spec fn argument_value(wrapper: Node) -> Option<DataView> {
    if wrapper.children@.len() == 0 {
        None
    } else {
        parse_value(wrapper.children@[0])
    }
}

/// The statement that the node `kind` stands for; `Ok(None)` where it stands
/// for none.
///
/// A call gives its name and its arguments; a call without any child gives an
/// empty name and no arguments. An assignment gives the variable named by its
/// first child and the value of its second; a name that is missing is empty,
/// and a value that is missing denotes nothing. An argument or an assigned
/// value that denotes nothing is an error, which names the argument's text
/// or the variable, and the line of `kind`. A bare expression, and any other
/// node, stands for no statement.
pub open spec fn statement_of(kind: Node) -> Result<Option<IRView>, SemanticErrorView> {
    let nodes = kind.children@;
    match kind.rule {
        Rule::FunctionCall => {
            if nodes.len() == 0 {
                Ok(Some(IRView::Function(Seq::empty(), Seq::empty())))
            } else {
                match arguments(nodes, nodes.len() as int) {
                    Ok(values) => Ok(Some(IRView::Function(nodes[0].text@, values))),
                    Err(at) => Err(SemanticErrorView { text: nodes[at].text@, line: kind.line }),
                }
            }
        },
        Rule::Assignment => {
            let name = if nodes.len() >= 1 {
                nodes[0].text@
            } else {
                Seq::empty()
            };
            let value = if nodes.len() >= 2 {
                parse_value(nodes[1])
            } else {
                None
            };
            match value {
                Some(v) => Ok(Some(IRView::Assignment(name, v))),
                None => Err(SemanticErrorView { text: name, line: kind.line }),
            }
        },
        _ => Ok(None),
    }
}

/// The statement that a child of the program stands for: that of the first
/// child of a `statement` node, and none for any other node.
pub open spec fn statement_at(child: Node) -> Result<Option<IRView>, SemanticErrorView> {
    if child.rule == Rule::Statement && child.children@.len() > 0 {
        statement_of(child.children@[0])
    } else {
        Ok(None)
    }
}

/// The statements of the first `upto` children of the program, in source
/// order, or the first error among them.
pub open spec fn built_upto(program: Node, upto: int) -> Result<Seq<IRView>, SemanticErrorView>
    decreases upto,
{
    if upto <= 0 {
        Ok(Seq::empty())
    } else {
        match built_upto(program, upto - 1) {
            Err(error) => Err(error),
            Ok(statements) => match statement_at(program.children@[upto - 1]) {
                Err(error) => Err(error),
                Ok(None) => Ok(statements),
                Ok(Some(statement)) => Ok(statements.push(statement)),
            },
        }
    }
}

/// The statements of the whole program, or its first error.
pub open spec fn built(program: Node) -> Result<Seq<IRView>, SemanticErrorView> {
    built_upto(program, program.children@.len() as int)
}

/// What the builder makes of the grammar parser's answer: the statements of
/// the tree, or the message of the first error.
pub open spec fn parsed_program(parsed: Result<Node, SyntaxError>) -> Result<
    Seq<IRView>,
    Seq<char>,
> {
    match parsed {
        Err(error) => Err(diagnostic(error)),
        Ok(program) => match built(program) {
            Ok(statements) => Ok(statements),
            Err(error) => Err(semantic_message(error)),
        },
    }
}

fn call_arguments(call: &Node) -> (r: Result<Vec<Data>, usize>)
    requires
        call.children@.len() >= 1,
    ensures
        match r {
            Ok(values) => arguments(call.children@, call.children@.len() as int) == Ok::<
                Seq<DataView>,
                int,
            >(values.deep_view()),
            Err(at) => arguments(call.children@, call.children@.len() as int) == Err::<
                Seq<DataView>,
                int,
            >(at as int) && 1 <= at < call.children@.len(),
        },
{
    let mut values: Vec<Data> = Vec::new();
    let mut i: usize = 1;
    assert(values.deep_view() =~= Seq::<DataView>::empty());
    while i < call.children.len()
        invariant
            1 <= i <= call.children@.len(),
            arguments(call.children@, i as int) == Ok::<Seq<DataView>, int>(values.deep_view()),
        decreases call.children@.len() - i,
    {
        let wrapper = &call.children[i];
        if wrapper.children.len() == 0 {
            proof {
                lemma_arguments_stay_failed(call.children@, i as int, call.children@.len() as int);
            }
            return Err(i);
        }
        match Data::parse(&wrapper.children[0]) {
            None => {
                proof {
                    lemma_arguments_stay_failed(
                        call.children@,
                        i as int,
                        call.children@.len() as int,
                    );
                }
                return Err(i);
            },
            Some(value) => {
                let ghost before = values.deep_view();
                values.push(value);
                assert(values.deep_view() =~= before.push(value.deep_view()));
            },
        }
        i = i + 1;
    }
    Ok(values)
}

/// Once the argument at `at` denotes nothing while those before it do, the
/// arguments fail at `at` however many more are looked at.
proof fn lemma_arguments_stay_failed(nodes: Seq<Node>, at: int, upto: int)
    requires
        1 <= at < upto,
        arguments(nodes, at) is Ok,
        argument_value(nodes[at]) is None,
    ensures
        arguments(nodes, upto) == Err::<Seq<DataView>, int>(at),
    decreases upto,
{
    if upto > at + 1 {
        lemma_arguments_stay_failed(nodes, at, upto - 1);
    }
}

/// Once the first `at` children give an error, so does any longer prefix.
proof fn lemma_built_stays_failed(program: Node, at: int, upto: int)
    requires
        0 <= at <= upto,
        built_upto(program, at) is Err,
    ensures
        built_upto(program, upto) == built_upto(program, at),
    decreases upto,
{
    if upto > at {
        lemma_built_stays_failed(program, at, upto - 1);
    }
}

fn statement(kind: &Node) -> (r: Result<Option<IR>, SemanticError>)
    ensures
        match r {
            Ok(found) => statement_of(*kind) == Ok::<Option<IRView>, SemanticErrorView>(
                found.deep_view(),
            ),
            Err(error) => statement_of(*kind) == Err::<Option<IRView>, SemanticErrorView>(
                error.deep_view(),
            ),
        },
{
    match kind.rule {
        Rule::FunctionCall => {
            if kind.children.len() == 0 {
                let args: Vec<Data> = Vec::new();
                assert(args.deep_view() =~= Seq::<DataView>::empty());
                return Ok(Some(IR::Function(String::new(), args)));
            }
            match call_arguments(kind) {
                Ok(values) => Ok(Some(IR::Function(kind.children[0].text.clone(), values))),
                Err(at) => Err(
                    SemanticError { text: kind.children[at].text.clone(), line: kind.line },
                ),
            }
        },
        Rule::Assignment => {
            let name = if kind.children.len() >= 1 {
                kind.children[0].text.clone()
            } else {
                String::new()
            };
            let value = if kind.children.len() >= 2 {
                Data::parse(&kind.children[1])
            } else {
                None
            };
            match value {
                Some(v) => Ok(Some(IR::Assignment(name, v))),
                None => Err(SemanticError { text: name, line: kind.line }),
            }
        },
        _ => Ok(None),
    }
}

/// Builds the statements of a program from its parse tree, in source order.
///
/// Children of `program` that are no `statement` nodes are passed over, and
/// so are statements that are bare expressions or of no known kind. The
/// build stops at the first argument or assigned value that denotes no
/// value.
pub fn build(program: &Node) -> (r: Result<Vec<IR>, SemanticError>)
    ensures
        match r {
            Ok(statements) => built(*program) == Ok::<Seq<IRView>, SemanticErrorView>(
                statements.deep_view(),
            ),
            Err(error) => built(*program) == Err::<Seq<IRView>, SemanticErrorView>(
                error.deep_view(),
            ),
        },
{
    let mut tokens: Vec<IR> = Vec::new();
    let mut i: usize = 0;
    assert(tokens.deep_view() =~= Seq::<IRView>::empty());
    while i < program.children.len()
        invariant
            i <= program.children@.len(),
            built_upto(*program, i as int) == Ok::<Seq<IRView>, SemanticErrorView>(
                tokens.deep_view(),
            ),
        decreases program.children@.len() - i,
    {
        let child = &program.children[i];
        if child.rule == Rule::Statement && child.children.len() > 0 {
            match statement(&child.children[0]) {
                Err(error) => {
                    proof {
                        lemma_built_stays_failed(
                            *program,
                            i + 1,
                            program.children@.len() as int,
                        );
                    }
                    return Err(error);
                },
                Ok(None) => {},
                Ok(Some(found)) => {
                    let ghost before = tokens.deep_view();
                    tokens.push(found);
                    assert(tokens.deep_view() =~= before.push(found.deep_view()));
                },
            }
        }
        i = i + 1;
    }
    Ok(tokens)
}

/// Turns the grammar parser's answer into the statements to run, or into the
/// message that reports why there are none: the diagnostic of a syntax
/// error, or the message of the first semantic error.
pub fn parsing(parsed: Result<Node, SyntaxError>) -> (r: Result<Vec<IR>, String>)
    ensures
        match r {
            Ok(statements) => parsed_program(parsed) == Ok::<Seq<IRView>, Seq<char>>(
                statements.deep_view(),
            ),
            Err(message) => parsed_program(parsed) == Err::<Seq<IRView>, Seq<char>>(message@),
        },
{
    match parsed {
        Err(error) => Err(error.diagnostic()),
        Ok(program) => match build(&program) {
            Ok(statements) => Ok(statements),
            Err(error) => Err(error.message()),
        },
    }
}

} // verus!
