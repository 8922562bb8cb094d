//! The value model: operators, and the values a program text denotes.
use crate::text::{same_text, strip_quotes, without_quotes};
use crate::tree::{finite, is_finite, Node, Rule};
use vstd::prelude::*;

verus! {

/// The four binary operators of the language.
#[derive(Clone, Copy, Debug, PartialEq, Eq, Structural)]
pub enum Operation {
    Add,
    Subtract,
    Multiply,
    Divide,
}

/// The operator that the text `s` spells, if it spells one.
pub open spec fn parse_operator(s: Seq<char>) -> Option<Operation> {
    if s == "+"@ {
        Some(Operation::Add)
    } else if s == "-"@ {
        Some(Operation::Subtract)
    } else if s == "*"@ {
        Some(Operation::Multiply)
    } else if s == "/"@ {
        Some(Operation::Divide)
    } else {
        None
    }
}

impl Operation {
    /// Reads an operator from its one-character spelling; any other text is
    /// no operator.
    pub fn parse(input: &str) -> (r: Option<Operation>)
        ensures
            r == parse_operator(input@),
    {
        if same_text(input, "+") {
            Some(Operation::Add)
        } else if same_text(input, "-") {
            Some(Operation::Subtract)
        } else if same_text(input, "*") {
            Some(Operation::Multiply)
        } else if same_text(input, "/") {
            Some(Operation::Divide)
        } else {
            None
        }
    }
}

/// A value of the language, as the engine holds it.
///
/// A number is held as the bit pattern of its IEEE-754 double.
#[derive(Debug, PartialEq, Eq)]
pub enum Data {
    String(String),
    Number(u64),
    MathExpression(Box<Data>, Operation, Box<Data>),
    Variable(String),
}

/// What a [`Data`] stands for: the same tree, with texts as sequences of
/// characters.
pub enum DataView {
    String(Seq<char>),
    Number(u64),
    MathExpression(Box<DataView>, Operation, Box<DataView>),
    Variable(Seq<char>),
}

impl DeepView for Data {
    type V = DataView;

    open spec fn deep_view(&self) -> DataView
        decreases self,
    {
        match self {
            Data::String(s) => DataView::String(s@),
            Data::Number(bits) => DataView::Number(*bits),
            Data::MathExpression(left, operation, right) => DataView::MathExpression(
                Box::new((**left).deep_view()),
                *operation,
                Box::new((**right).deep_view()),
            ),
            Data::Variable(name) => DataView::Variable(name@),
        }
    }
}

impl Clone for Data {
    fn clone(&self) -> (r: Data)
        ensures
            r.deep_view() == self.deep_view(),
        decreases self,
    {
        match self {
            Data::String(s) => Data::String(s.clone()),
            Data::Number(bits) => Data::Number(*bits),
            Data::MathExpression(left, operation, right) => {
                let l = (**left).clone();
                let r = (**right).clone();
                Data::MathExpression(Box::new(l), *operation, Box::new(r))
            },
            Data::Variable(name) => Data::Variable(name.clone()),
        }
    }
}

/// The value that a parse-tree node denotes, if it denotes one.
///
/// A `number` node denotes the finite number its first child spells; a
/// `string` node the text of its first child without quote characters; an
/// `identifier` node a variable of its own text; a `math_expression` node the
/// expression of its first three children, taken as left operand, operator
/// and right operand. A node of any other rule, a `number` or `string` node
/// without a child, and a `math_expression` node that lacks a child or whose
/// operands or operator denote nothing, denote no value.
pub open spec fn parse_value(node: Node) -> Option<DataView>
    decreases node,
{
    match node.rule {
        Rule::Number => {
            if node.children@.len() == 0 {
                None
            } else {
                match node.children@[0].numeral {
                    Some(bits) => if finite(bits) {
                        Some(DataView::Number(bits))
                    } else {
                        None
                    },
                    None => None,
                }
            }
        },
        Rule::String => {
            if node.children@.len() == 0 {
                None
            } else {
                Some(DataView::String(without_quotes(node.children@[0].text@)))
            }
        },
        Rule::MathExpression => {
            if node.children@.len() < 3 {
                None
            } else {
                match (
                    parse_value(node.children@[0]),
                    parse_operator(node.children@[1].text@),
                    parse_value(node.children@[2]),
                ) {
                    (Some(left), Some(operation), Some(right)) => Some(
                        DataView::MathExpression(Box::new(left), operation, Box::new(right)),
                    ),
                    _ => None,
                }
            }
        },
        Rule::Identifier => Some(DataView::Variable(node.text@)),
        _ => None,
    }
}

impl Data {
    /// Builds the value that `input` denotes; `None` where it denotes none.
    pub fn parse(input: &Node) -> (r: Option<Data>)
        ensures
            r.deep_view() == parse_value(*input),
        decreases input,
    {
        match input.rule {
            Rule::Number => {
                if input.children.len() == 0 {
                    return None;
                }
                match input.children[0].numeral {
                    Some(bits) => if is_finite(bits) {
                        Some(Data::Number(bits))
                    } else {
                        None
                    },
                    None => None,
                }
            },
            Rule::String => {
                if input.children.len() == 0 {
                    return None;
                }
                Some(Data::String(strip_quotes(input.children[0].text.as_str())))
            },
            Rule::MathExpression => {
                if input.children.len() < 3 {
                    return None;
                }
                let left = Data::parse(&input.children[0]);
                let operation = Operation::parse(input.children[1].text.as_str());
                let right = Data::parse(&input.children[2]);
                match (left, operation, right) {
                    (Some(l), Some(op), Some(r)) => Some(
                        Data::MathExpression(Box::new(l), op, Box::new(r)),
                    ),
                    _ => None,
                }
            },
            Rule::Identifier => Some(Data::Variable(input.text.clone())),
            _ => None,
        }
    }
}

} // verus!
