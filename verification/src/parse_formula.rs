//! The grammar and the parser.
//!
//! `GrammarParser` tokenizes a formula string: a leading `=`, decimal number
//! literals, quoted string literals, the six infix operator symbols and
//! parentheses, separated by optional spaces. The precedence parser then
//! climbs the token sequence into a `Formula` tree honoring three tiers —
//! `+`, `-`, `&` below `*`, `/` below `^` — with `^` associating to the
//! right and everything else to the left.
//!
//! A malformed string (no leading `=`, a trailing operator, an unclosed
//! quote, an unbalanced parenthesis) yields `None`: a fatal parse failure,
//! never an `Error` value.

use vstd::prelude::*;
use vstd::string::*;

use crate::numeric::{bits_from_literal, is_digit_char, number_bits};
use crate::types::{Expression, Formula, FormulaV, Operator, Value, ValueV};

verus! {

/// One token of a formula: the leading `=`, a number literal (already
/// converted to its binary32 bit pattern), a string literal's content, an
/// infix operator symbol, or a parenthesis.
#[derive(Debug, PartialEq)]
pub enum Token {
    Equals,
    Number(u32),
    Text(String),
    Op(Operator),
    LParen,
    RParen,
}

/// The ghost mirror of `Token`.
pub enum TokenV {
    Equals,
    Number(u32),
    Text(Seq<char>),
    Op(Operator),
    LParen,
    RParen,
}

impl View for Token {
    type V = TokenV;

    open spec fn view(&self) -> TokenV {
        match self {
            Token::Equals => TokenV::Equals,
            Token::Number(bits) => TokenV::Number(*bits),
            Token::Text(s) => TokenV::Text(s@),
            Token::Op(op) => TokenV::Op(*op),
            Token::LParen => TokenV::LParen,
            Token::RParen => TokenV::RParen,
        }
    }
}

/// The views of a token sequence.
pub open spec fn toks_view(ts: Seq<Token>) -> Seq<TokenV> {
    ts.map_values(|t: Token| t@)
}

// ---------------------------------------------------------------------------
// The tokenizer, specified character by character.
// ---------------------------------------------------------------------------

/// The length of the run of decimal digits starting at `i`.
pub open spec fn digit_run(s: Seq<char>, i: int) -> nat
    decreases s.len() - i,
{
    if 0 <= i < s.len() && is_digit_char(s[i]) {
        (1 + digit_run(s, i + 1)) as nat
    } else {
        0
    }
}

/// Where the number literal starting at `i` ends: a run of digits,
/// optionally followed by a point and a further non-empty run of digits.
pub open spec fn number_end(s: Seq<char>, i: int) -> int {
    let j = i + digit_run(s, i);
    if j + 1 < s.len() && s[j] == '.' && is_digit_char(s[j + 1]) {
        j + 1 + digit_run(s, j + 1)
    } else {
        j
    }
}

/// The position of the closing quote at or after `i`, or the text's length
/// when there is none.
pub open spec fn string_close(s: Seq<char>, i: int) -> int
    decreases s.len() - i,
{
    if i < 0 || i >= s.len() {
        s.len() as int
    } else if s[i] == '"' {
        i
    } else {
        string_close(s, i + 1)
    }
}

/// The token starting at position `i` (not a space), with the position
/// just after it; `None` when no token starts there.
pub open spec fn next_token(s: Seq<char>, i: int) -> Option<(TokenV, int)> {
    let c = s[i];
    if c == '=' {
        Some((TokenV::Equals, i + 1))
    } else if c == '+' {
        Some((TokenV::Op(Operator::Plus), i + 1))
    } else if c == '-' {
        Some((TokenV::Op(Operator::Minus), i + 1))
    } else if c == '*' {
        Some((TokenV::Op(Operator::Multiply), i + 1))
    } else if c == '/' {
        Some((TokenV::Op(Operator::Divide), i + 1))
    } else if c == '^' {
        Some((TokenV::Op(Operator::Power), i + 1))
    } else if c == '&' {
        Some((TokenV::Op(Operator::Concat), i + 1))
    } else if c == '(' {
        Some((TokenV::LParen, i + 1))
    } else if c == ')' {
        Some((TokenV::RParen, i + 1))
    } else if is_digit_char(c) {
        let j = number_end(s, i);
        match number_bits(s.subrange(i, j)) {
            Some(bits) => Some((TokenV::Number(bits), j)),
            None => None,
        }
    } else if c == '"' {
        let j = string_close(s, i + 1);
        if j < s.len() {
            Some((TokenV::Text(s.subrange(i + 1, j)), j + 1))
        } else {
            None
        }
    } else {
        None
    }
}

/// The token sequence of the text from position `i` on, skipping spaces;
/// `None` when some character starts no token.
pub open spec fn lex_from(s: Seq<char>, i: int) -> Option<Seq<TokenV>>
    decreases s.len() - i,
{
    if i < 0 || i > s.len() {
        None
    } else if i == s.len() {
        Some(Seq::empty())
    } else if s[i] == ' ' {
        lex_from(s, i + 1)
    } else {
        match next_token(s, i) {
            None => None,
            Some((t, j)) => {
                if j <= i || j > s.len() {
                    None
                } else {
                    match lex_from(s, j) {
                        None => None,
                        Some(ts) => Some(seq![t] + ts),
                    }
                }
            },
        }
    }
}

// ---------------------------------------------------------------------------
// The precedence parser, specified by the climbing algorithm itself.
// ---------------------------------------------------------------------------

/// The binding strength of an operator. `Null` is never produced by the
/// tokenizer; its strength sits below every threshold.
pub open spec fn prec(op: Operator) -> int {
    match op {
        Operator::Plus | Operator::Minus | Operator::Concat => 1,
        Operator::Multiply | Operator::Divide => 2,
        Operator::Power => 3,
        Operator::Null => 0,
    }
}

/// Exponentiation associates to the right; every other operator to the
/// left.
pub open spec fn right_assoc(op: Operator) -> bool {
    op == Operator::Power
}

/// A primary term at position `i`: a number literal, a string literal, or
/// a parenthesized subexpression; with the position just after it.
pub open spec fn parse_primary(toks: Seq<TokenV>, i: int) -> Option<(FormulaV, int)>
    decreases toks.len() - i, 0int,
{
    if i < 0 || i >= toks.len() {
        None
    } else {
        match toks[i] {
            TokenV::Number(bits) => Some((FormulaV::Value(ValueV::Number(bits)), i + 1)),
            TokenV::Text(s) => Some((FormulaV::Value(ValueV::Text(s)), i + 1)),
            TokenV::LParen => match parse_expr(toks, i + 1, 1) {
                Some((f, j)) => {
                    if 0 <= j < toks.len() && toks[j] == TokenV::RParen {
                        Some((f, j + 1))
                    } else {
                        None
                    }
                },
                None => None,
            },
            _ => None,
        }
    }
}

/// An expression at position `i`: a primary term followed by every infix
/// operator binding at least as strongly as `min_prec`.
pub open spec fn parse_expr(toks: Seq<TokenV>, i: int, min_prec: int) -> Option<(FormulaV, int)>
    decreases toks.len() - i, 2int,
{
    if i < 0 {
        None
    } else {
        match parse_primary(toks, i) {
            None => None,
            Some((lhs, j)) => {
                if j <= i || j > toks.len() {
                    None
                } else {
                    parse_climb(toks, j, min_prec, lhs)
                }
            },
        }
    }
}

/// Folds infix operators into `lhs` while the next operator binds at least
/// as strongly as `min_prec`: the right operand is parsed with the
/// operator's own strength (raised by one for a left-associative operator),
/// and the fold continues on the accumulated tree.
pub open spec fn parse_climb(toks: Seq<TokenV>, i: int, min_prec: int, lhs: FormulaV) -> Option<
    (FormulaV, int),
>
    decreases toks.len() - i, 1int,
{
    if 0 <= i < toks.len() {
        match toks[i] {
            TokenV::Op(op) => {
                if prec(op) >= min_prec {
                    let next_min = if right_assoc(op) {
                        prec(op)
                    } else {
                        prec(op) + 1
                    };
                    match parse_expr(toks, i + 1, next_min) {
                        None => None,
                        Some((rhs, j)) => {
                            if j <= i + 1 || j > toks.len() {
                                None
                            } else {
                                parse_climb(
                                    toks,
                                    j,
                                    min_prec,
                                    FormulaV::Operation(op, Box::new(lhs), Box::new(rhs)),
                                )
                            }
                        },
                    }
                } else {
                    Some((lhs, i))
                }
            },
            _ => Some((lhs, i)),
        }
    } else {
        Some((lhs, i))
    }
}

/// A whole token sequence as one formula: the leading `=`, then one
/// expression covering everything up to the end.
pub open spec fn parse_tokens(toks: Seq<TokenV>) -> Option<FormulaV> {
    if toks.len() > 0 && toks[0] == TokenV::Equals {
        match parse_expr(toks, 1, 1) {
            Some((f, j)) => {
                if j == toks.len() {
                    Some(f)
                } else {
                    None
                }
            },
            None => None,
        }
    } else {
        None
    }
}

/// A whole formula string as one formula tree.
pub open spec fn parse_text(s: Seq<char>) -> Option<FormulaV> {
    match lex_from(s, 0) {
        Some(ts) => parse_tokens(ts),
        None => None,
    }
}

// ---------------------------------------------------------------------------
// The executable tokenizer.
// ---------------------------------------------------------------------------

/// The tokenizer of the formula grammar.
pub struct GrammarParser;

fn digit_run_exec(s: &str, i: usize) -> (n: usize)
    requires
        i <= s@.len(),
    ensures
        n as nat == digit_run(s@, i as int),
        i + n <= s@.len(),
    decreases s@.len() - i,
{
    if i < s.unicode_len() {
        let c = s.get_char(i);
        if c >= '0' && c <= '9' {
            1 + digit_run_exec(s, i + 1)
        } else {
            0
        }
    } else {
        0
    }
}

fn string_close_exec(s: &str, i: usize) -> (r: usize)
    requires
        i <= s@.len(),
    ensures
        r as int == string_close(s@, i as int),
        i <= r <= s@.len(),
    decreases s@.len() - i,
{
    if i >= s.unicode_len() {
        s.unicode_len()
    } else if s.get_char(i) == '"' {
        i
    } else {
        string_close_exec(s, i + 1)
    }
}

fn next_token_exec(s: &str, i: usize) -> (r: Option<(Token, usize)>)
    requires
        i < s@.len(),
    ensures
        match (r, next_token(s@, i as int)) {
            (Some((t, j)), Some((tv, jv))) => t@ == tv && j as int == jv && i < j <= s@.len(),
            (None, None) => true,
            _ => false,
        },
{
    let n = s.unicode_len();
    let c = s.get_char(i);
    if c == '=' {
        Some((Token::Equals, i + 1))
    } else if c == '+' {
        Some((Token::Op(Operator::Plus), i + 1))
    } else if c == '-' {
        Some((Token::Op(Operator::Minus), i + 1))
    } else if c == '*' {
        Some((Token::Op(Operator::Multiply), i + 1))
    } else if c == '/' {
        Some((Token::Op(Operator::Divide), i + 1))
    } else if c == '^' {
        Some((Token::Op(Operator::Power), i + 1))
    } else if c == '&' {
        Some((Token::Op(Operator::Concat), i + 1))
    } else if c == '(' {
        Some((Token::LParen, i + 1))
    } else if c == ')' {
        Some((Token::RParen, i + 1))
    } else if c >= '0' && c <= '9' {
        let run = digit_run_exec(s, i);
        let mut end = i + run;
        if end < n && end + 1 < n && s.get_char(end) == '.' {
            let after = s.get_char(end + 1);
            if after >= '0' && after <= '9' {
                let run2 = digit_run_exec(s, end + 1);
                end = end + 1 + run2;
            }
        }
        let lit = s.substring_char(i, end);
        match bits_from_literal(lit) {
            Some(bits) => Some((Token::Number(bits), end)),
            None => None,
        }
    } else if c == '"' {
        let close = string_close_exec(s, i + 1);
        if close < n {
            let content = s.substring_char(i + 1, close).to_owned();
            Some((Token::Text(content), close + 1))
        } else {
            None
        }
    } else {
        None
    }
}

fn lex_rec(s: &str, i: usize) -> (r: Option<Vec<Token>>)
    requires
        i <= s@.len(),
    ensures
        match (r, lex_from(s@, i as int)) {
            (Some(v), Some(ts)) => toks_view(v@) == ts,
            (None, None) => true,
            _ => false,
        },
    decreases s@.len() - i,
{
    if i == s.unicode_len() {
        let out: Vec<Token> = Vec::new();
        assert(toks_view(out@) =~= Seq::<TokenV>::empty());
        return Some(out);
    }
    let c = s.get_char(i);
    if c == ' ' {
        return lex_rec(s, i + 1);
    }
    match next_token_exec(s, i) {
        None => None,
        Some((t, j)) => match lex_rec(s, j) {
            None => None,
            Some(mut rest) => {
                let ghost before = rest@;
                let ghost tail_spec = lex_from(s@, j as int)->Some_0;
                rest.insert(0, t);
                assert(toks_view(rest@) =~= seq![t@] + tail_spec) by {
                    assert(toks_view(before) == tail_spec);
                }
                Some(rest)
            },
        },
    }
}

impl GrammarParser {
    /// Tokenizes a formula string; `None` when some character starts no
    /// token or a string literal is never closed.
    pub fn parse(s: &str) -> (r: Option<Vec<Token>>)
        ensures
            match (r, lex_from(s@, 0)) {
                (Some(v), Some(ts)) => toks_view(v@) == ts,
                (None, None) => true,
                _ => false,
            },
    {
        lex_rec(s, 0)
    }
}

// ---------------------------------------------------------------------------
// The executable precedence parser.
// ---------------------------------------------------------------------------

fn prec_exec(op: Operator) -> (r: u32)
    ensures
        r as int == prec(op),
        r <= 3,
{
    match op {
        Operator::Plus | Operator::Minus | Operator::Concat => 1,
        Operator::Multiply | Operator::Divide => 2,
        Operator::Power => 3,
        Operator::Null => 0,
    }
}

fn parse_primary_exec(toks: &Vec<Token>, i: usize) -> (r: Option<(Formula, usize)>)
    ensures
        match (r, parse_primary(toks_view(toks@), i as int)) {
            (Some((f, j)), Some((fv, jv))) => f@ == fv && j as int == jv && i < j <= toks@.len(),
            (None, None) => true,
            _ => false,
        },
    decreases toks@.len() - i, 0int,
{
    if i >= toks.len() {
        return None;
    }
    match &toks[i] {
        Token::Number(bits) => Some((Formula::Value(Value::Number(*bits)), i + 1)),
        Token::Text(text) => Some((Formula::Value(Value::Text(text.clone())), i + 1)),
        Token::LParen => match parse_expr_exec(toks, i + 1, 1) {
            Some((f, j)) => {
                if j < toks.len() {
                    let closes = match &toks[j] {
                        Token::RParen => true,
                        _ => false,
                    };
                    if closes {
                        Some((f, j + 1))
                    } else {
                        None
                    }
                } else {
                    None
                }
            },
            None => None,
        },
        _ => None,
    }
}

fn parse_expr_exec(toks: &Vec<Token>, i: usize, min_prec: u32) -> (r: Option<(Formula, usize)>)
    ensures
        match (r, parse_expr(toks_view(toks@), i as int, min_prec as int)) {
            (Some((f, j)), Some((fv, jv))) => f@ == fv && j as int == jv && i < j <= toks@.len(),
            (None, None) => true,
            _ => false,
        },
    decreases toks@.len() - i, 2int,
{
    match parse_primary_exec(toks, i) {
        None => None,
        Some((lhs, j)) => parse_climb_exec(toks, j, min_prec, lhs),
    }
}

fn parse_climb_exec(toks: &Vec<Token>, i: usize, min_prec: u32, lhs: Formula) -> (r: Option<
    (Formula, usize),
>)
    requires
        i <= toks@.len(),
    ensures
        match (r, parse_climb(toks_view(toks@), i as int, min_prec as int, lhs@)) {
            (Some((f, j)), Some((fv, jv))) => f@ == fv && j as int == jv && i <= j <= toks@.len(),
            (None, None) => true,
            _ => false,
        },
    decreases toks@.len() - i, 1int,
{
    if i >= toks.len() {
        return Some((lhs, i));
    }
    let op = match &toks[i] {
        Token::Op(op) => Some(*op),
        _ => None,
    };
    match op {
        None => Some((lhs, i)),
        Some(op) => {
            let strength = prec_exec(op);
            if strength >= min_prec {
                let next_min = if op == Operator::Power {
                    strength
                } else {
                    strength + 1
                };
                match parse_expr_exec(toks, i + 1, next_min) {
                    None => None,
                    Some((rhs, j)) => {
                        let node = Formula::Operation(
                            Expression { op, lhs: Box::new(lhs), rhs: Box::new(rhs) },
                        );
                        parse_climb_exec(toks, j, min_prec, node)
                    },
                }
            } else {
                Some((lhs, i))
            }
        },
    }
}

/// Parses a whole token sequence as one formula: the leading `=`, then one
/// expression covering everything up to the end.
pub fn parse_token_sequence(toks: &Vec<Token>) -> (r: Option<Formula>)
    ensures
        match (r, parse_tokens(toks_view(toks@))) {
            (Some(f), Some(fv)) => f@ == fv,
            (None, None) => true,
            _ => false,
        },
{
    if toks.len() == 0 {
        return None;
    }
    let starts = match &toks[0] {
        Token::Equals => true,
        _ => false,
    };
    if !starts {
        return None;
    }
    match parse_expr_exec(toks, 1, 1) {
        Some((f, j)) => {
            if j == toks.len() {
                Some(f)
            } else {
                None
            }
        },
        None => None,
    }
}

// ---------------------------------------------------------------------------
// The parser never produces the defensive `Null` operator.
// ---------------------------------------------------------------------------

/// Whether a token is anything but the `Null` operator tag.
pub open spec fn token_not_null(t: TokenV) -> bool {
    !(t matches TokenV::Op(Operator::Null))
}

/// Whether a formula tree is free of the `Null` operator.
pub open spec fn no_null(f: FormulaV) -> bool
    decreases f,
{
    match f {
        FormulaV::Value(_) => true,
        FormulaV::Operation(op, lhs, rhs) => op != Operator::Null && no_null(*lhs) && no_null(
            *rhs,
        ),
    }
}

/// The tokenizer never produces the `Null` operator tag.
pub proof fn lemma_lex_no_null(s: Seq<char>, i: int)
    requires
        lex_from(s, i) is Some,
    ensures
        forall|k: int|
            0 <= k < lex_from(s, i)->Some_0.len() ==> token_not_null(
                #[trigger] lex_from(s, i)->Some_0[k],
            ),
    decreases s.len() - i,
{
    if i < 0 || i > s.len() || i == s.len() {
    } else if s[i] == ' ' {
        lemma_lex_no_null(s, i + 1);
    } else {
        match next_token(s, i) {
            None => {},
            Some((t, j)) => {
                if i < j <= s.len() && lex_from(s, j) is Some {
                    lemma_lex_no_null(s, j);
                }
            },
        }
    }
}

proof fn lemma_primary_no_null(toks: Seq<TokenV>, i: int)
    requires
        forall|k: int| 0 <= k < toks.len() ==> token_not_null(#[trigger] toks[k]),
        parse_primary(toks, i) is Some,
    ensures
        no_null(parse_primary(toks, i)->Some_0.0),
    decreases toks.len() - i, 0int,
{
    if 0 <= i < toks.len() {
        match toks[i] {
            TokenV::LParen => {
                if parse_expr(toks, i + 1, 1) is Some {
                    lemma_expr_no_null(toks, i + 1, 1);
                }
            },
            _ => {},
        }
    }
}

proof fn lemma_expr_no_null(toks: Seq<TokenV>, i: int, min_prec: int)
    requires
        forall|k: int| 0 <= k < toks.len() ==> token_not_null(#[trigger] toks[k]),
        parse_expr(toks, i, min_prec) is Some,
    ensures
        no_null(parse_expr(toks, i, min_prec)->Some_0.0),
    decreases toks.len() - i, 2int,
{
    if i >= 0 {
        match parse_primary(toks, i) {
            None => {},
            Some((lhs, j)) => {
                if i < j <= toks.len() {
                    lemma_primary_no_null(toks, i);
                    lemma_climb_no_null(toks, j, min_prec, lhs);
                }
            },
        }
    }
}

proof fn lemma_climb_no_null(toks: Seq<TokenV>, i: int, min_prec: int, lhs: FormulaV)
    requires
        forall|k: int| 0 <= k < toks.len() ==> token_not_null(#[trigger] toks[k]),
        parse_climb(toks, i, min_prec, lhs) is Some,
        no_null(lhs),
    ensures
        no_null(parse_climb(toks, i, min_prec, lhs)->Some_0.0),
    decreases toks.len() - i, 1int,
{
    if 0 <= i < toks.len() {
        match toks[i] {
            TokenV::Op(op) => {
                if prec(op) >= min_prec {
                    let next_min = if right_assoc(op) {
                        prec(op)
                    } else {
                        prec(op) + 1
                    };
                    match parse_expr(toks, i + 1, next_min) {
                        None => {},
                        Some((rhs, j)) => {
                            if i + 1 < j <= toks.len() {
                                lemma_expr_no_null(toks, i + 1, next_min);
                                lemma_climb_no_null(
                                    toks,
                                    j,
                                    min_prec,
                                    FormulaV::Operation(op, Box::new(lhs), Box::new(rhs)),
                                );
                            }
                        },
                    }
                }
            },
            _ => {},
        }
    }
}

/// A parsed formula tree never holds the `Null` operator: it exists only as
/// a defensive tag, and every operator node of a tree that the parser
/// produced carries one of the six real operators.
pub proof fn lemma_parse_text_no_null(s: Seq<char>)
    requires
        parse_text(s) is Some,
    ensures
        no_null(parse_text(s)->Some_0),
{
    match lex_from(s, 0) {
        None => {},
        Some(ts) => {
            if ts.len() > 0 && ts[0] == TokenV::Equals && parse_expr(ts, 1, 1) is Some {
                lemma_lex_no_null(s, 0);
                lemma_expr_no_null(ts, 1, 1);
            }
        },
    }
}

/// Parses a formula string into its tree.
///
/// Returns `Some` exactly when the string is a well-formed formula — a
/// leading `=` and a complete alternation of terms and operators — and the
/// tree then reflects the grammar's precedence and associativity exactly;
/// `None` on any malformed string.
pub fn parse_string_to_formula(s: &str) -> (r: Option<Formula>)
    ensures
        match (r, parse_text(s@)) {
            (Some(f), Some(fv)) => f@ == fv,
            (None, None) => true,
            _ => false,
        },
{
    match GrammarParser::parse(s) {
        None => None,
        Some(toks) => parse_token_sequence(&toks),
    }
}

} // verus!
