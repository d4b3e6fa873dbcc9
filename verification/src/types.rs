//! The data model: evaluation results (`Value`), operator tags (`Operator`),
//! and the formula tree (`Formula`), together with their ghost mirrors.

use vstd::prelude::*;

verus! {

/// The result of evaluating any subexpression.
///
/// `Number` carries the raw bit pattern of an IEEE 754 binary32 value;
/// `Text` a literal string; `Error` the message of a failed evaluation
/// (either `"Error"` or `"#DIV/0!"`).
#[derive(Debug, PartialEq)]
pub enum Value {
    Number(u32),
    Text(String),
    Error(String),
}

/// The ghost mirror of `Value`, with strings as character sequences.
pub enum ValueV {
    Number(u32),
    Text(Seq<char>),
    Error(Seq<char>),
}

impl View for Value {
    type V = ValueV;

    open spec fn view(&self) -> ValueV {
        match self {
            Value::Number(bits) => ValueV::Number(*bits),
            Value::Text(s) => ValueV::Text(s@),
            Value::Error(s) => ValueV::Error(s@),
        }
    }
}

/// The binary operator of an `Expression` node.
///
/// `Null` stands for "no operator supplied": the parser never produces it,
/// and it always evaluates to an error.
#[derive(Debug, Clone, Copy, PartialEq, Eq, Structural)]
pub enum Operator {
    Plus,
    Minus,
    Multiply,
    Divide,
    Power,
    Concat,
    Null,
}

/// A binary operation node: an operator applied to exactly two owned
/// operand subtrees.
#[derive(Debug, PartialEq)]
pub struct Expression {
    pub op: Operator,
    pub lhs: Box<Formula>,
    pub rhs: Box<Formula>,
}

/// A parsed formula: either a literal value or a binary operation whose
/// operands are themselves formulas. A strict tree: every node owns its
/// children.
#[derive(Debug, PartialEq)]
pub enum Formula {
    Value(Value),
    Operation(Expression),
}

/// The ghost mirror of `Formula`.
pub enum FormulaV {
    Value(ValueV),
    Operation(Operator, Box<FormulaV>, Box<FormulaV>),
}

impl View for Formula {
    type V = FormulaV;

    open spec fn view(&self) -> FormulaV
        decreases self,
    {
        match self {
            Formula::Value(v) => FormulaV::Value(v@),
            Formula::Operation(e) => FormulaV::Operation(
                e.op,
                Box::new((*e.lhs)@),
                Box::new((*e.rhs)@),
            ),
        }
    }
}

} // verus!
