//! The parse tree that a grammar-driven parser hands to the engine.
use vstd::prelude::*;

verus! {

/// The grammar rule that produced a node.
#[derive(Clone, Copy, Debug, PartialEq, Eq, Structural)]
pub enum Rule {
    Program,
    Statement,
    Assignment,
    FunctionCall,
    MathExpression,
    Identifier,
    Number,
    String,
    /// Any rule the engine gives no meaning to: operators, argument
    /// wrappers, inner tokens, the end of input.
    Other,
}

/// One node of the parse tree: the rule it matched, the source text it
/// spans, the line on which that text starts (counted from one), and its
/// children in source order.
///
/// `numeral` is the number that `text` spells as a decimal numeral, as the
/// bit pattern of an IEEE-754 double, and `None` where `text` spells none.
#[derive(Debug, PartialEq, Eq)]
pub struct Node {
    pub rule: Rule,
    pub text: String,
    pub line: usize,
    pub numeral: Option<u64>,
    pub children: Vec<Node>,
}

/// Whether `bits` is the bit pattern of a finite double: neither an infinity
/// nor a NaN, which are the patterns whose eleven exponent bits are all set.
pub open spec fn finite(bits: u64) -> bool {
    (bits >> 52u64) & 0x7ffu64 != 0x7ffu64
}

/// Decides [`finite`].
pub fn is_finite(bits: u64) -> (r: bool)
    ensures
        r == finite(bits),
{
    (bits >> 52u64) & 0x7ffu64 != 0x7ffu64
}

impl Node {
    /// A node without children.
    pub fn leaf(rule: Rule, text: String, line: usize, numeral: Option<u64>) -> (r: Node)
        ensures
            r.rule == rule,
            r.text == text,
            r.line == line,
            r.numeral == numeral,
            r.children@.len() == 0,
    {
        Node { rule, text, line, numeral, children: Vec::new() }
    }

    /// A node with the given children.
    pub fn branch(rule: Rule, text: String, line: usize, children: Vec<Node>) -> (r: Node)
        ensures
            r.rule == rule,
            r.text == text,
            r.line == line,
            r.numeral is None,
            r.children == children,
    {
        Node { rule, text, line, numeral: None, children }
    }
}

} // verus!
