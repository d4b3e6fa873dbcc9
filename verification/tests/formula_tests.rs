use calculator::calculate::{calculate_formula, option_map2, result_to_string};
use calculator::parse_formula::{parse_string_to_formula, GrammarParser, Token};
use calculator::types::{Expression, Formula, Operator, Value};

fn parse_eval(text: &str) -> Value {
    let formula = parse_string_to_formula(text).expect("the formula should parse");
    calculate_formula(formula)
}

fn number(x: f32) -> Value {
    Value::Number(x.to_bits())
}

fn operation(op: Operator, lhs: Formula, rhs: Formula) -> Formula {
    Formula::Operation(Expression {
        op,
        lhs: Box::new(lhs),
        rhs: Box::new(rhs),
    })
}

#[test]
fn addition_of_two_literals() {
    assert_eq!(parse_eval("= 1773 + 1362"), number(3135.0));
}

#[test]
fn subtraction_below_zero() {
    assert_eq!(parse_eval("= 123 - 456"), number(-333.0));
}

#[test]
fn multiplication_of_two_literals() {
    assert_eq!(parse_eval("= 1 * 2"), number(2.0));
}

#[test]
fn division_of_two_literals() {
    assert_eq!(parse_eval("= 5 / 2"), number(2.5));
}

#[test]
fn fractional_literals() {
    assert_eq!(parse_eval("= 1.5 + 0.25"), number(1.75));
}

#[test]
fn multiplication_binds_before_addition() {
    assert_eq!(parse_eval("= 1 + 2 * 3"), number(7.0));
}

#[test]
fn power_binds_before_multiplication() {
    assert_eq!(parse_eval("= 2 * 3 ^ 2"), number(18.0));
}

#[test]
fn power_is_right_associative() {
    assert_eq!(parse_eval("= 2 ^ 3 ^ 2"), number(512.0));
}

#[test]
fn division_is_left_associative() {
    assert_eq!(parse_eval("= 8 / 4 / 2"), number(1.0));
}

#[test]
fn subtraction_is_left_associative() {
    assert_eq!(parse_eval("= 10 - 4 - 3"), number(3.0));
}

#[test]
fn parentheses_override_precedence() {
    assert_eq!(parse_eval("= (1 + 2) * 3"), number(9.0));
}

#[test]
fn division_by_zero_reports_div0() {
    assert_eq!(parse_eval("= 5 / 0"), Value::Error(String::from("#DIV/0!")));
}

#[test]
fn division_of_text_by_zero_still_reports_div0() {
    let tree = operation(
        Operator::Divide,
        Formula::Value(Value::Text(String::from("abc"))),
        Formula::Value(number(0.0)),
    );
    assert_eq!(calculate_formula(tree), Value::Error(String::from("#DIV/0!")));
}

#[test]
fn division_by_negative_zero_reports_div0() {
    let tree = operation(
        Operator::Divide,
        Formula::Value(number(5.0)),
        Formula::Value(number(-0.0)),
    );
    assert_eq!(calculate_formula(tree), Value::Error(String::from("#DIV/0!")));
}

#[test]
fn division_of_text_by_nonzero_is_generic_error() {
    let tree = operation(
        Operator::Divide,
        Formula::Value(Value::Text(String::from("abc"))),
        Formula::Value(number(2.0)),
    );
    assert_eq!(calculate_formula(tree), Value::Error(String::from("Error")));
}

#[test]
fn text_operand_of_addition_is_error() {
    assert_eq!(
        parse_eval("= \"abc\" + 1"),
        Value::Error(String::from("Error"))
    );
}

#[test]
fn text_operand_of_power_is_error() {
    let tree = operation(
        Operator::Power,
        Formula::Value(number(2.0)),
        Formula::Value(Value::Text(String::from("xyz"))),
    );
    assert_eq!(calculate_formula(tree), Value::Error(String::from("Error")));
}

#[test]
fn error_does_not_heal_when_combined_with_a_number() {
    let error_subtree = operation(
        Operator::Plus,
        Formula::Value(Value::Text(String::from("abc"))),
        Formula::Value(number(1.0)),
    );
    let tree = operation(Operator::Plus, error_subtree, Formula::Value(number(1.0)));
    assert_eq!(calculate_formula(tree), Value::Error(String::from("Error")));
}

#[test]
fn div0_error_keeps_its_message_when_nested() {
    let div0 = operation(
        Operator::Divide,
        Formula::Value(number(5.0)),
        Formula::Value(number(0.0)),
    );
    let tree = operation(Operator::Multiply, div0, Formula::Value(number(3.0)));
    assert_eq!(calculate_formula(tree), Value::Error(String::from("Error")));
}

#[test]
fn null_operator_is_error() {
    let tree = operation(
        Operator::Null,
        Formula::Value(number(1.0)),
        Formula::Value(number(2.0)),
    );
    assert_eq!(calculate_formula(tree), Value::Error(String::from("Error")));
}

#[test]
fn integer_power_matches_integer_exponentiation() {
    let result = parse_eval("= 2 ^ 3");
    assert_eq!(result, number(8.0));
    assert_eq!(result, Value::Number(2.0f32.powi(3).to_bits()));
}

#[test]
fn negative_integer_exponent_takes_reciprocal() {
    let tree = operation(
        Operator::Power,
        Formula::Value(number(2.0)),
        Formula::Value(number(-2.0)),
    );
    assert_eq!(calculate_formula(tree), number(0.25));
}

#[test]
fn zero_exponent_yields_one() {
    assert_eq!(parse_eval("= 7 ^ 0"), number(1.0));
}

#[test]
fn fractional_exponent_takes_the_general_path() {
    let result = parse_eval("= 2 ^ 2.5");
    assert_eq!(result, Value::Number(libm::powf(2.0, 2.5).to_bits()));
}

#[test]
fn parsing_twice_yields_identical_trees() {
    let first = parse_string_to_formula("= 1 + 2 * (3 - 4) ^ 2").expect("should parse");
    let second = parse_string_to_formula("= 1 + 2 * (3 - 4) ^ 2").expect("should parse");
    assert_eq!(first, second);
}

#[test]
fn evaluating_equal_trees_yields_identical_values() {
    let first = parse_string_to_formula("= 6 / 4 + 1").expect("should parse");
    let second = parse_string_to_formula("= 6 / 4 + 1").expect("should parse");
    assert_eq!(calculate_formula(first), calculate_formula(second));
}

#[test]
fn render_integral_number() {
    assert_eq!(result_to_string(number(5.0)), "5");
}

#[test]
fn render_fractional_number() {
    assert_eq!(result_to_string(number(2.5)), "2.5");
}

#[test]
fn render_text_verbatim() {
    assert_eq!(
        result_to_string(Value::Text(String::from("abc"))),
        "abc"
    );
}

#[test]
fn render_error_verbatim() {
    assert_eq!(
        result_to_string(Value::Error(String::from("#DIV/0!"))),
        "#DIV/0!"
    );
}

#[test]
fn concat_joins_rendered_operands() {
    assert_eq!(
        parse_eval("= \"ab\" & \"cd\""),
        Value::Text(String::from("abcd"))
    );
}

#[test]
fn concat_renders_numbers_in_decimal() {
    assert_eq!(
        parse_eval("= \"total \" & 12"),
        Value::Text(String::from("total 12"))
    );
}

#[test]
fn concat_with_error_operand_is_error() {
    let error_subtree = operation(
        Operator::Plus,
        Formula::Value(Value::Text(String::from("abc"))),
        Formula::Value(number(1.0)),
    );
    let tree = operation(
        Operator::Concat,
        Formula::Value(Value::Text(String::from("x"))),
        error_subtree,
    );
    assert_eq!(calculate_formula(tree), Value::Error(String::from("Error")));
}

#[test]
fn concat_binds_like_addition() {
    // "a" & 1 + 2 folds left to right within one tier: ("a" & 1) + 2.
    let tree = parse_string_to_formula("= \"a\" & 1 + 2").expect("should parse");
    let expected = operation(
        Operator::Plus,
        operation(
            Operator::Concat,
            Formula::Value(Value::Text(String::from("a"))),
            Formula::Value(number(1.0)),
        ),
        Formula::Value(number(2.0)),
    );
    assert_eq!(tree, expected);
}

#[test]
fn missing_leading_equals_fails_to_parse() {
    assert!(parse_string_to_formula("1 + 2").is_none());
}

#[test]
fn trailing_operator_fails_to_parse() {
    assert!(parse_string_to_formula("= 1 +").is_none());
}

#[test]
fn unbalanced_parenthesis_fails_to_parse() {
    assert!(parse_string_to_formula("= (1 + 2").is_none());
}

#[test]
fn unclosed_string_fails_to_parse() {
    assert!(parse_string_to_formula("= \"abc").is_none());
}

#[test]
fn unknown_symbol_fails_to_parse() {
    assert!(parse_string_to_formula("= 1 % 2").is_none());
}

#[test]
fn lone_point_fails_to_parse() {
    assert!(parse_string_to_formula("= 1 + .").is_none());
}

#[test]
fn spaces_around_everything_are_ignored() {
    assert_eq!(parse_eval("  =  1  +  2  "), number(3.0));
}

#[test]
fn no_space_between_tokens_is_accepted() {
    assert_eq!(parse_eval("=123-456"), number(-333.0));
}

#[test]
fn option_map2_combines_only_two_somes() {
    let add = |a: u32, b: u32| a + b;
    assert_eq!(option_map2(Some(2u32), Some(3u32), add), Some(5u32));
    assert_eq!(option_map2(None, Some(3u32), add), None);
    assert_eq!(option_map2(Some(2u32), None, add), None);
}

#[test]
fn tokenizer_splits_a_formula() {
    let tokens = GrammarParser::parse("= 12 + \"ab\"").expect("should tokenize");
    assert_eq!(
        tokens,
        vec![
            Token::Equals,
            Token::Number(12.0f32.to_bits()),
            Token::Op(Operator::Plus),
            Token::Text(String::from("ab")),
        ]
    );
}

#[test]
fn tokenizer_rejects_an_unknown_symbol() {
    assert!(GrammarParser::parse("= 1 ? 2").is_none());
}
