//! The evaluator: reduces a formula tree to a single `Value`, never
//! panicking — every failure is itself a first-class `Error` value that
//! propagates outward through every enclosing operation.

use vstd::prelude::*;

use crate::numeric::{
    add_bits, bits_add, bits_div, bits_mul, bits_render, bits_sub, div_bits, is_zero_bits,
    is_zero_exec, mul_bits, power_bits, power_exec, rendered, sub_bits,
};
use crate::types::{Formula, FormulaV, Operator, Value, ValueV};

verus! {

/// The numeric content of a value: a number's bit pattern, nothing for a
/// text or an error.
pub open spec fn spec_number(v: ValueV) -> Option<u32> {
    match v {
        ValueV::Number(bits) => Some(bits),
        _ => None,
    }
}

/// The generic evaluation-error value.
pub open spec fn error_value() -> ValueV {
    ValueV::Error("Error"@)
}

/// The division-by-zero error value.
pub open spec fn div_by_zero_value() -> ValueV {
    ValueV::Error("#DIV/0!"@)
}

/// What a numeric operator computes on two bit patterns.
pub open spec fn apply_numeric(op: Operator, a: u32, b: u32) -> u32
    recommends
        is_numeric_op(op),
{
    match op {
        Operator::Plus => add_bits(a, b),
        Operator::Minus => sub_bits(a, b),
        Operator::Multiply => mul_bits(a, b),
        Operator::Divide => div_bits(a, b),
        Operator::Power => power_bits(a, b),
        _ => arbitrary(),
    }
}

/// The operators that compute on numbers.
pub open spec fn is_numeric_op(op: Operator) -> bool {
    match op {
        Operator::Plus | Operator::Minus | Operator::Multiply | Operator::Divide
            | Operator::Power => true,
        _ => false,
    }
}

/// A numeric operator applied to two values: both operands must be numbers,
/// anything else — a text or an error — yields the generic error.
pub open spec fn numeric_result(op: Operator, v1: ValueV, v2: ValueV) -> ValueV {
    match (spec_number(v1), spec_number(v2)) {
        (Some(a), Some(b)) => ValueV::Number(apply_numeric(op, a, b)),
        _ => error_value(),
    }
}

/// The rendering of a value as user-facing text: a number in decimal, a
/// text or an error message verbatim.
pub open spec fn render_value(v: ValueV) -> Seq<char> {
    match v {
        ValueV::Number(bits) => rendered(bits),
        ValueV::Text(s) => s,
        ValueV::Error(s) => s,
    }
}

/// One operator applied to two evaluated operands.
///
/// Division checks the divisor for zero before anything else, so a zero
/// divisor reports `"#DIV/0!"` whatever the dividend is. Concatenation is
/// defined here as joining the rendered text of the two operands (no
/// evaluation rule for it is forced by the rest of the design; this is the
/// documented choice); an error operand still propagates through it. `Null`
/// is the defensive "no operator" tag and always yields the generic error.
pub open spec fn eval_op(op: Operator, v1: ValueV, v2: ValueV) -> ValueV {
    match op {
        Operator::Divide => {
            if v2 matches ValueV::Number(b) && is_zero_bits(b) {
                div_by_zero_value()
            } else {
                numeric_result(op, v1, v2)
            }
        },
        Operator::Concat => {
            if v1 matches ValueV::Error(_) || v2 matches ValueV::Error(_) {
                error_value()
            } else {
                ValueV::Text(render_value(v1) + render_value(v2))
            }
        },
        Operator::Null => error_value(),
        _ => numeric_result(op, v1, v2),
    }
}

/// The meaning of a formula tree: its evaluation, node by node.
pub open spec fn eval(f: FormulaV) -> ValueV
    decreases f,
{
    match f {
        FormulaV::Value(v) => v,
        FormulaV::Operation(op, lhs, rhs) => eval_op(op, eval(*lhs), eval(*rhs)),
    }
}

/// Combines two optional operands with `f`: `Some` exactly when both are.
pub fn option_map2<T, U, V, F: Fn(T, U) -> V>(a: Option<T>, b: Option<U>, f: F) -> (r: Option<V>)
    requires
        a is Some && b is Some ==> call_requires(f, (a->0, b->0)),
    ensures
        match r {
            Some(v) => a is Some && b is Some && call_ensures(f, (a->0, b->0), v),
            None => a is None || b is None,
        },
{
    if let (Some(value_a), Some(value_b)) = (a, b) {
        Some(f(value_a, value_b))
    } else {
        None
    }
}

/// The numeric content of a value, as the evaluator inspects it.
pub fn cast_value_to_number(value: Value) -> (r: Option<u32>)
    ensures
        r == spec_number(value@),
{
    match value {
        Value::Number(number) => Some(number),
        Value::Text(_) => None,
        Value::Error(_) => None,
    }
}

/// Applies the binary32 operation `f` to two operands that must both be
/// numbers; a text or error operand yields the generic error value.
fn calculate_numeric_operator<F: Fn(u32, u32) -> u32>(lhs: Value, rhs: Value, f: F) -> (v: Value)
    requires
        forall|a: u32, b: u32| call_requires(f, (a, b)),
    ensures
        match (spec_number(lhs@), spec_number(rhs@)) {
            (Some(a), Some(b)) => v@ matches ValueV::Number(n) && call_ensures(f, (a, b), n),
            _ => v@ == error_value(),
        },
{
    let l = cast_value_to_number(lhs);
    let r = cast_value_to_number(rhs);
    match option_map2(l, r, f) {
        Some(result) => Value::Number(result),
        None => Value::Error("Error".to_owned()),
    }
}

/// Reduces a formula tree to a single value.
///
/// Total: every type mismatch or zero divisor becomes an `Error` value, and
/// an error operand makes every enclosing operation an error as well.
pub fn calculate_formula(formula: Formula) -> (v: Value)
    ensures
        v@ == eval(formula@),
    decreases formula,
{
    match formula {
        Formula::Operation(exp) => {
            let value1 = calculate_formula(*exp.lhs);
            let value2 = calculate_formula(*exp.rhs);
            match exp.op {
                Operator::Plus => calculate_numeric_operator(value1, value2, bits_add),
                Operator::Minus => calculate_numeric_operator(value1, value2, bits_sub),
                Operator::Multiply => calculate_numeric_operator(value1, value2, bits_mul),
                Operator::Divide => {
                    let divide_by_zero = match &value2 {
                        Value::Number(x) => is_zero_exec(*x),
                        _ => false,
                    };
                    if divide_by_zero {
                        Value::Error("#DIV/0!".to_owned())
                    } else {
                        calculate_numeric_operator(value1, value2, bits_div)
                    }
                },
                Operator::Power => calculate_numeric_operator(value1, value2, power_exec),
                Operator::Concat => {
                    let is_error = match (&value1, &value2) {
                        (Value::Error(_), _) => true,
                        (_, Value::Error(_)) => true,
                        _ => false,
                    };
                    if is_error {
                        Value::Error("Error".to_owned())
                    } else {
                        let text1 = result_to_string(value1);
                        let text2 = result_to_string(value2);
                        Value::Text(text1.concat(text2.as_str()))
                    }
                },
                Operator::Null => Value::Error("Error".to_owned()),
            }
        },
        Formula::Value(val) => val,
    }
}

/// Whether a formula is built of numeric literals combined only by
/// addition, subtraction, multiplication and exponentiation.
pub open spec fn closed_numeric_tree(f: FormulaV) -> bool
    decreases f,
{
    match f {
        FormulaV::Value(v) => v is Number,
        FormulaV::Operation(op, lhs, rhs) => (op == Operator::Plus || op == Operator::Minus || op
            == Operator::Multiply || op == Operator::Power) && closed_numeric_tree(*lhs)
            && closed_numeric_tree(*rhs),
    }
}

/// A formula of numeric literals under addition, subtraction,
/// multiplication and exponentiation always evaluates to a number, never to
/// an error: evaluation is total on such trees. (What that number is, the
/// binary32 operation names say, one node at a time.)
pub proof fn lemma_numeric_tree_evaluates_to_number(f: FormulaV)
    requires
        closed_numeric_tree(f),
    ensures
        eval(f) is Number,
    decreases f,
{
    match f {
        FormulaV::Value(_) => {},
        FormulaV::Operation(op, lhs, rhs) => {
            lemma_numeric_tree_evaluates_to_number(*lhs);
            lemma_numeric_tree_evaluates_to_number(*rhs);
        },
    }
}

/// Division by a zero divisor reports `"#DIV/0!"`, whatever the dividend
/// evaluates to — a number, a text, or even an error.
pub proof fn lemma_divide_by_zero(lhs: FormulaV, rhs: FormulaV, b: u32)
    requires
        eval(rhs) == ValueV::Number(b),
        is_zero_bits(b),
    ensures
        eval(FormulaV::Operation(Operator::Divide, Box::new(lhs), Box::new(rhs)))
            == div_by_zero_value(),
{
}

/// An arithmetic operator with at least one text operand yields the generic
/// error — except that a zero divisor takes precedence and reports
/// `"#DIV/0!"` instead.
pub proof fn lemma_text_operand_is_error(op: Operator, lhs: FormulaV, rhs: FormulaV)
    requires
        is_numeric_op(op),
        eval(lhs) matches ValueV::Text(_) || eval(rhs) matches ValueV::Text(_),
        !(op == Operator::Divide && (eval(rhs) matches ValueV::Number(b) && is_zero_bits(b))),
    ensures
        eval(FormulaV::Operation(op, Box::new(lhs), Box::new(rhs))) == error_value(),
{
}

/// Errors are sticky: once an operand evaluates to an error, every
/// enclosing operation evaluates to an error as well — the generic one,
/// except that division by a zero divisor still reports `"#DIV/0!"`.
pub proof fn lemma_error_is_sticky(op: Operator, lhs: FormulaV, rhs: FormulaV)
    requires
        eval(lhs) matches ValueV::Error(_) || eval(rhs) matches ValueV::Error(_),
    ensures
        eval(FormulaV::Operation(op, Box::new(lhs), Box::new(rhs))) == (if op
            == Operator::Divide && (eval(rhs) matches ValueV::Number(b) && is_zero_bits(b)) {
            div_by_zero_value()
        } else {
            error_value()
        }),
{
}

/// With an integral, non-negative exponent the power operator follows the
/// integer-exponent path: repeated binary32 multiplication, never the
/// general real-valued routine.
pub proof fn lemma_power_integer_path(a: u32, b: u32)
    requires
        crate::numeric::is_int_bits(b),
        !crate::numeric::sign_bit(b),
    ensures
        eval_op(Operator::Power, ValueV::Number(a), ValueV::Number(b)) == ValueV::Number(
            crate::numeric::pow_count_bits(a, crate::numeric::exponent_count(b) as nat),
        ),
{
}

/// Renders a final value as user-facing text: a number in decimal, a text
/// or an error message verbatim — no quoting, no escaping.
pub fn result_to_string(value: Value) -> (r: String)
    ensures
        r@ == render_value(value@),
{
    match value {
        Value::Number(number) => bits_render(number),
        Value::Text(text) => text,
        Value::Error(error) => error,
    }
}

} // verus!
