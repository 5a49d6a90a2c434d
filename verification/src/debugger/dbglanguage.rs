//! The debugger's command language: a lexer and a parser for commands
//! such as `step`, `watch 0xC000` or `set\tbreakpoint 0x150`, and for
//! integer expressions with `+ - * / %` and parentheses, which are echoed.
//!
//! Whitespace between tokens is skipped; a space token therefore never
//! reaches the parser, and the spacing that `set breakpoint` demands is the
//! two-character token `\t`.
#![allow(non_snake_case)]
#![allow(non_camel_case_types)]
use vstd::prelude::*;

use super::language::DebuggerAction;
use vstd::string::StrSliceExecFns;
use vstd::string::StringExecFns;

verus! {

/// The kinds of token, numbered as the grammar's terminals
#[derive(Debug, Clone, Copy, PartialEq, Eq, Structural)]
pub enum Tok {
    Space,
    Percent,
    LParen,
    RParen,
    Star,
    Plus,
    Minus,
    Slash,
    /// the two characters `\t`
    Tab,
    KwBreakpoint,
    KwReset,
    KwRun,
    KwSet,
    KwStep,
    KwUnset,
    KwUnwatch,
    KwWatch,
    /// `-?[0-9]+`
    Decimal,
    /// `0(x|X)[0-9a-fA-F]+`
    Hex,
}

/// A token: its kind and its extent, in characters and in bytes
#[derive(Debug, Clone, Copy, PartialEq, Eq, Structural)]
pub struct Token {
    pub kind: Tok,
    pub start: usize,
    pub end: usize,
    pub byte_start: usize,
    pub byte_end: usize,
}

/// Where a token is, in bytes, and the number of its terminal
#[derive(Debug, Clone, Copy, PartialEq, Eq, Structural)]
pub struct TokenSpan {
    pub start: usize,
    pub terminal: usize,
    pub end: usize,
}

/// Why a command does not parse; locations are byte offsets
#[derive(Debug, Clone, Copy, PartialEq, Eq, Structural)]
pub enum DbgParseError {
    /// No token starts here
    InvalidToken { location: usize },
    /// This token, or the end of the input (`None`), cannot come next
    UnrecognizedToken { token: Option<TokenSpan> },
}

/// A character that `str::trim_start` removes: the Unicode White_Space set
pub open spec fn is_ws(c: char) -> bool {
    let u = c as u32;
    (0x9 <= u <= 0xD) || u == 0x20 || u == 0x85 || u == 0xA0 || u == 0x1680 || (0x2000 <= u
        <= 0x200A) || u == 0x2028 || u == 0x2029 || u == 0x202F || u == 0x205F || u == 0x3000
}

pub open spec fn is_digit(c: char) -> bool {
    '0' <= c <= '9'
}

pub open spec fn is_hex_digit(c: char) -> bool {
    ('0' <= c <= '9') || ('a' <= c <= 'f') || ('A' <= c <= 'F')
}

/// The bytes of a character in UTF-8
pub open spec fn utf8_len(c: char) -> nat {
    let u = c as u32;
    if u < 0x80 {
        1
    } else if u < 0x800 {
        2
    } else if u < 0x10000 {
        3
    } else {
        4
    }
}

/// The byte offset of character `i`
pub open spec fn byte_offset(s: Seq<char>, i: int) -> nat
    decreases i,
{
    if i <= 0 || s.len() == 0 {
        0
    } else if i > s.len() {
        byte_offset(s, s.len() as int)
    } else {
        byte_offset(s, i - 1) + utf8_len(s[i - 1])
    }
}

/// The first position at or after `i` that is not whitespace
pub open spec fn ws_end(s: Seq<char>, i: int) -> int
    decreases s.len() - i,
{
    if i < 0 || i >= s.len() {
        i
    } else if is_ws(s[i]) {
        ws_end(s, i + 1)
    } else {
        i
    }
}

/// The end of the run of decimal digits at `i`
pub open spec fn digits_end(s: Seq<char>, i: int) -> int
    decreases s.len() - i,
{
    if i < 0 || i >= s.len() {
        i
    } else if is_digit(s[i]) {
        digits_end(s, i + 1)
    } else {
        i
    }
}

/// The end of the run of hexadecimal digits at `i`
pub open spec fn hex_end(s: Seq<char>, i: int) -> int
    decreases s.len() - i,
{
    if i < 0 || i >= s.len() {
        i
    } else if is_hex_digit(s[i]) {
        hex_end(s, i + 1)
    } else {
        i
    }
}

/// Whether the word `w` is at position `i`
pub open spec fn word_at(s: Seq<char>, i: int, w: Seq<char>) -> bool {
    0 <= i && i + w.len() <= s.len() && s.subrange(i, i + w.len()) == w
}

/// The keywords, with their tokens
pub open spec fn keywords() -> Seq<(Seq<char>, Tok)> {
    seq![
        (seq!['b', 'r', 'e', 'a', 'k', 'p', 'o', 'i', 'n', 't'], Tok::KwBreakpoint),
        (seq!['r', 'e', 's', 'e', 't'], Tok::KwReset),
        (seq!['r', 'u', 'n'], Tok::KwRun),
        (seq!['s', 'e', 't'], Tok::KwSet),
        (seq!['s', 't', 'e', 'p'], Tok::KwStep),
        (seq!['u', 'n', 's', 'e', 't'], Tok::KwUnset),
        (seq!['u', 'n', 'w', 'a', 't', 'c', 'h'], Tok::KwUnwatch),
        (seq!['w', 'a', 't', 'c', 'h'], Tok::KwWatch),
    ]
}

/// The keyword at position `i`, searching the table from entry `k`
pub open spec fn keyword_from(s: Seq<char>, i: int, k: int) -> Option<(Tok, int)>
    decreases keywords().len() - k,
{
    if k < 0 || k >= keywords().len() {
        None
    } else if word_at(s, i, keywords()[k].0) {
        Some((keywords()[k].1, i + keywords()[k].0.len()))
    } else {
        keyword_from(s, i, k + 1)
    }
}

/// The longest token at position `i` (which is in the text), and its end
pub open spec fn token_at(s: Seq<char>, i: int) -> Option<(Tok, int)> {
    let c = s[i];
    let n = s.len();
    if c == ' ' {
        Some((Tok::Space, i + 1))
    } else if c == '%' {
        Some((Tok::Percent, i + 1))
    } else if c == '(' {
        Some((Tok::LParen, i + 1))
    } else if c == ')' {
        Some((Tok::RParen, i + 1))
    } else if c == '*' {
        Some((Tok::Star, i + 1))
    } else if c == '+' {
        Some((Tok::Plus, i + 1))
    } else if c == '/' {
        Some((Tok::Slash, i + 1))
    } else if c == '-' {
        if i + 1 < n && is_digit(s[i + 1]) {
            Some((Tok::Decimal, digits_end(s, i + 1)))
        } else {
            Some((Tok::Minus, i + 1))
        }
    } else if c == '0' {
        if n - i > 2 && (s[i + 1] == 'x' || s[i + 1] == 'X') && is_hex_digit(s[i + 2]) {
            Some((Tok::Hex, hex_end(s, i + 2)))
        } else {
            Some((Tok::Decimal, digits_end(s, i + 1)))
        }
    } else if is_digit(c) {
        Some((Tok::Decimal, digits_end(s, i + 1)))
    } else if c == '\\' {
        if i + 1 < n && s[i + 1] == 't' {
            Some((Tok::Tab, i + 2))
        } else {
            None
        }
    } else {
        keyword_from(s, i, 0)
    }
}

/// The tokens from position `i` on, up to the first place where no token
/// starts, whose character position is then given
pub open spec fn lex_from(s: Seq<char>, i: int) -> (Seq<Token>, Option<int>)
    decreases s.len() - i,
{
    let j = ws_end(s, i);
    if i < 0 || j < i || j >= s.len() {
        (Seq::empty(), None)
    } else {
        match token_at(s, j) {
            None => (Seq::empty(), Some(j)),
            Some((k, e)) => if e <= j || e > s.len() {
                (Seq::empty(), Some(j))
            } else {
                let rest = lex_from(s, e);
                (
                    seq![
                        Token {
                            kind: k,
                            start: j as usize,
                            end: e as usize,
                            byte_start: byte_offset(s, j) as usize,
                            byte_end: byte_offset(s, e) as usize,
                        },
                    ] + rest.0,
                    rest.1,
                )
            },
        }
    }
}

/// The state of the parser between tokens
#[derive(Debug, Clone, Copy, PartialEq, Eq, Structural)]
pub enum PState {
    Start,
    /// after `step`, `run` or `reset`
    Done,
    /// after `watch` or `unwatch`
    AfterWatch,
    /// after `watch` and a space
    WatchSpace,
    /// after `set` or `unset`
    AfterSet,
    /// after `set` and spaces
    SetSpace,
    /// after `breakpoint`
    AfterBreakpoint,
    /// after `breakpoint` and a space
    BreakpointSpace,
    /// inside an expression: `operand` when an operand comes next, with
    /// `depth` open parentheses
    Expr { operand: bool, depth: u64 },
}

pub open spec fn is_space(k: Tok) -> bool {
    k == Tok::Space || k == Tok::Tab
}

pub open spec fn is_binop(k: Tok) -> bool {
    k == Tok::Plus || k == Tok::Minus || k == Tok::Star || k == Tok::Slash || k == Tok::Percent
}

/// The state after an operand or an opening parenthesis starts an
/// expression, if `k` does
pub open spec fn expr_start(k: Tok) -> Option<PState> {
    if k == Tok::Decimal || k == Tok::Hex {
        Some(PState::Expr { operand: false, depth: 0 })
    } else if k == Tok::LParen {
        Some(PState::Expr { operand: true, depth: 1 })
    } else {
        None
    }
}

/// The parser's step on a token of a command; `None` when the token
/// cannot come next
pub open spec fn input_step(st: PState, k: Tok) -> Option<PState> {
    match st {
        PState::Start => if k == Tok::KwStep || k == Tok::KwRun || k == Tok::KwReset {
            Some(PState::Done)
        } else if k == Tok::KwWatch || k == Tok::KwUnwatch {
            Some(PState::AfterWatch)
        } else if k == Tok::KwSet || k == Tok::KwUnset {
            Some(PState::AfterSet)
        } else {
            expr_start(k)
        },
        PState::Done => None,
        PState::AfterWatch => if is_space(k) {
            Some(PState::WatchSpace)
        } else {
            expr_start(k)
        },
        PState::WatchSpace => expr_start(k),
        PState::AfterSet => if is_space(k) {
            Some(PState::SetSpace)
        } else {
            None
        },
        PState::SetSpace => if is_space(k) {
            Some(PState::SetSpace)
        } else if k == Tok::KwBreakpoint {
            Some(PState::AfterBreakpoint)
        } else {
            None
        },
        PState::AfterBreakpoint => if is_space(k) {
            Some(PState::BreakpointSpace)
        } else {
            expr_start(k)
        },
        PState::BreakpointSpace => expr_start(k),
        PState::Expr { operand, depth } => if operand {
            if k == Tok::Decimal || k == Tok::Hex {
                Some(PState::Expr { operand: false, depth })
            } else if k == Tok::LParen && depth < u64::MAX {
                Some(PState::Expr { operand: true, depth: (depth + 1) as u64 })
            } else {
                None
            }
        } else {
            if is_binop(k) {
                Some(PState::Expr { operand: true, depth })
            } else if k == Tok::RParen && depth > 0 {
                Some(PState::Expr { operand: false, depth: (depth - 1) as u64 })
            } else {
                None
            }
        },
    }
}

/// Whether a command may end in this state
pub open spec fn input_accepts(st: PState) -> bool {
    st == PState::Done || st == (PState::Expr { operand: false, depth: 0 })
}

/// The parser's step on a token of a lone number
pub open spec fn number_step(st: PState, k: Tok) -> Option<PState> {
    if st == PState::Start && (k == Tok::Decimal || k == Tok::Hex) {
        Some(PState::Done)
    } else {
        None
    }
}

pub open spec fn number_accepts(st: PState) -> bool {
    st == PState::Done
}

/// Runs a parser step function over the tokens from `i`: the index of
/// the first token it refuses (or the number of tokens), and the state it
/// reached
pub open spec fn run_from(
    t: Seq<Token>,
    i: int,
    st: PState,
    number: bool,
) -> (int, PState)
    decreases t.len() - i,
{
    if i < 0 || i >= t.len() {
        (i, st)
    } else {
        match (if number {
            number_step(st, t[i].kind)
        } else {
            input_step(st, t[i].kind)
        }) {
            None => (i, st),
            Some(st2) => run_from(t, i + 1, st2, number),
        }
    }
}

/// The syntax verdict on a text: `Ok(())` for a whole command (or number),
/// else the error that the parser reports first
pub open spec fn syntax(s: Seq<char>, number: bool) -> Result<(), DbgParseError> {
    let (t, lex_err) = lex_from(s, 0);
    let (i, st) = run_from(t, 0, PState::Start, number);
    if i < t.len() {
        Err(
            DbgParseError::UnrecognizedToken {
                token: Some(
                    TokenSpan {
                        start: t[i].byte_start,
                        terminal: tok_index(t[i].kind),
                        end: t[i].byte_end,
                    },
                ),
            },
        )
    } else if lex_err is Some {
        Err(DbgParseError::InvalidToken { location: byte_offset(s, lex_err->0) as usize })
    } else if (if number {
        number_accepts(st)
    } else {
        input_accepts(st)
    }) {
        Ok(())
    } else {
        Err(DbgParseError::UnrecognizedToken { token: None })
    }
}

/// The number of a terminal in the grammar
pub open spec fn tok_index(k: Tok) -> usize {
    match k {
        Tok::Space => 0,
        Tok::Percent => 1,
        Tok::LParen => 2,
        Tok::RParen => 3,
        Tok::Star => 4,
        Tok::Plus => 5,
        Tok::Minus => 6,
        Tok::Slash => 7,
        Tok::Tab => 8,
        Tok::KwBreakpoint => 9,
        Tok::KwReset => 10,
        Tok::KwRun => 11,
        Tok::KwSet => 12,
        Tok::KwStep => 13,
        Tok::KwUnset => 14,
        Tok::KwUnwatch => 15,
        Tok::KwWatch => 16,
        Tok::Decimal => 17,
        Tok::Hex => 18,
    }
}


/// The value of a decimal digit (0 for any other character)
pub open spec fn digit_value(c: char) -> nat {
    if is_digit(c) {
        ((c as u32) - ('0' as u32)) as nat
    } else {
        0
    }
}

/// The value of a hexadecimal digit (0 for any other character)
pub open spec fn hex_digit_value(c: char) -> nat {
    if '0' <= c <= '9' {
        ((c as u32) - ('0' as u32)) as nat
    } else if 'a' <= c <= 'f' {
        ((c as u32) - ('a' as u32) + 10) as nat
    } else if 'A' <= c <= 'F' {
        ((c as u32) - ('A' as u32) + 10) as nat
    } else {
        0
    }
}

/// The decimal number written in `s[a..b]`
pub open spec fn dec_value(s: Seq<char>, a: int, b: int) -> nat
    decreases b - a,
{
    if b <= a {
        0
    } else {
        dec_value(s, a, b - 1) * 10 + digit_value(s[b - 1])
    }
}

/// The hexadecimal number written in `s[a..b]`
pub open spec fn hex_value(s: Seq<char>, a: int, b: int) -> nat
    decreases b - a,
{
    if b <= a {
        0
    } else {
        hex_value(s, a, b - 1) * 16 + hex_digit_value(s[b - 1])
    }
}

/// The value of a number token, if it fits in an `i32`
pub open spec fn num_value(s: Seq<char>, t: Token) -> Option<i32> {
    let a = t.start as int;
    let b = t.end as int;
    if t.kind == Tok::Hex {
        let m = hex_value(s, a + 2, b);
        if m <= i32::MAX {
            Some(m as i32)
        } else {
            None
        }
    } else if s[a] == '-' {
        let m = dec_value(s, a + 1, b);
        if m <= 0x8000_0000 {
            Some((-m) as i32)
        } else {
            None
        }
    } else {
        let m = dec_value(s, a, b);
        if m <= i32::MAX {
            Some(m as i32)
        } else {
            None
        }
    }
}

/// A binary operation on `i32`, `None` where Rust's operator panics
pub open spec fn apply_op(k: Tok, a: Option<i32>, b: Option<i32>) -> Option<i32> {
    match (a, b) {
        (Some(x), Some(y)) => if k == Tok::Plus {
            x.checked_add(y)
        } else if k == Tok::Minus {
            x.checked_sub(y)
        } else if k == Tok::Star {
            x.checked_mul(y)
        } else if k == Tok::Slash {
            x.checked_div(y)
        } else {
            x.checked_rem(y)
        },
        _ => None,
    }
}

/// `l % r` and `l / r` in an expression divide `l` by `r`: for `l >= 0`
/// and `r > 0` the remainder lies below `r`, and `l` is the quotient times
/// `r` plus the remainder.
pub proof fn lemma_division(l: i32, r: i32)
    requires
        l >= 0,
        r > 0,
    ensures
        ({
            let q = apply_op(Tok::Slash, Some(l), Some(r));
            let m = apply_op(Tok::Percent, Some(l), Some(r));
            &&& q is Some && m is Some
            &&& 0 <= m->0 < r
            &&& 0 <= q->0 <= l
            &&& l == q->0 * r + m->0
        }),
{
    vstd::arithmetic::div_mod::lemma_fundamental_div_mod(l as int, r as int);
    assert(0 <= (l as int) / (r as int) <= l) by (nonlinear_arith)
        requires
            l >= 0,
            r > 0,
    ;
    assert((l as int) / (r as int) * r == r * ((l as int) / (r as int))) by (nonlinear_arith);
}

/// `l + r`, `l - r` and `l * r` in an expression are the sum, difference
/// and product of `l` and `r`, defined exactly when they fit in an `i32`.
pub proof fn lemma_sum_difference_product(l: i32, r: i32)
    ensures
        apply_op(Tok::Plus, Some(l), Some(r)) == (if i32::MIN <= l + r <= i32::MAX {
            Some((l + r) as i32)
        } else {
            None
        }),
        apply_op(Tok::Minus, Some(l), Some(r)) == (if i32::MIN <= l - r <= i32::MAX {
            Some((l - r) as i32)
        } else {
            None
        }),
        apply_op(Tok::Star, Some(l), Some(r)) == (if i32::MIN <= l * r <= i32::MAX {
            Some((l * r) as i32)
        } else {
            None
        }),
{
}

pub open spec fn is_mulop(k: Tok) -> bool {
    k == Tok::Star || k == Tok::Slash || k == Tok::Percent
}

pub open spec fn is_addop(k: Tok) -> bool {
    k == Tok::Plus || k == Tok::Minus
}

/// A term from token `i`: a number or a parenthesized expression; its
/// value (`None` where evaluating it panics) and the token after it
pub open spec fn eval_term(s: Seq<char>, t: Seq<Token>, i: int) -> (Option<i32>, int)
    decreases t.len() - i, 1int,
{
    if i < 0 || i >= t.len() {
        (None, i)
    } else if t[i].kind == Tok::LParen {
        let (v, j) = eval_expr(s, t, i + 1);
        (v, j + 1)
    } else {
        (num_value(s, t[i]), i + 1)
    }
}

/// The rest of a product after the value `acc`, from token `i`
pub open spec fn eval_factor_tail(s: Seq<char>, t: Seq<Token>, i: int, acc: Option<i32>) -> (
    Option<i32>,
    int,
)
    decreases t.len() - i, 2int,
{
    if 0 <= i < t.len() && is_mulop(t[i].kind) {
        let (v, j) = eval_term(s, t, i + 1);
        if j <= i || j > t.len() {
            (None, j)
        } else {
            eval_factor_tail(s, t, j, apply_op(t[i].kind, acc, v))
        }
    } else {
        (acc, i)
    }
}

/// A product of terms from token `i`, evaluated left to right
pub open spec fn eval_factor(s: Seq<char>, t: Seq<Token>, i: int) -> (Option<i32>, int)
    decreases t.len() - i, 3int,
{
    let (v, j) = eval_term(s, t, i);
    if j <= i || j > t.len() {
        (None, j)
    } else {
        eval_factor_tail(s, t, j, v)
    }
}

/// The rest of a sum after the value `acc`, from token `i`
pub open spec fn eval_expr_tail(s: Seq<char>, t: Seq<Token>, i: int, acc: Option<i32>) -> (
    Option<i32>,
    int,
)
    decreases t.len() - i, 4int,
{
    if 0 <= i < t.len() && is_addop(t[i].kind) {
        let (v, j) = eval_factor(s, t, i + 1);
        if j <= i || j > t.len() {
            (None, j)
        } else {
            eval_expr_tail(s, t, j, apply_op(t[i].kind, acc, v))
        }
    } else {
        (acc, i)
    }
}

/// A sum of products from token `i`, evaluated left to right
pub open spec fn eval_expr(s: Seq<char>, t: Seq<Token>, i: int) -> (Option<i32>, int)
    decreases t.len() - i, 5int,
{
    let (v, j) = eval_factor(s, t, i);
    if j <= i || j > t.len() {
        (None, j)
    } else {
        eval_expr_tail(s, t, j, v)
    }
}

/// Where the expression of a command starts, past its keywords and spaces
pub open spec fn expr_index(t: Seq<Token>) -> int {
    let k = t[0].kind;
    if k == Tok::KwWatch || k == Tok::KwUnwatch {
        if t.len() > 1 && is_space(t[1].kind) {
            2
        } else {
            1
        }
    } else if k == Tok::KwSet || k == Tok::KwUnset {
        let b = bp_index(t, 1);
        if b + 1 < t.len() && is_space(t[b + 1].kind) {
            b + 2
        } else {
            b + 1
        }
    } else {
        0
    }
}

/// The index of the first token from `i` that is not a space
pub open spec fn bp_index(t: Seq<Token>, i: int) -> int
    decreases t.len() - i,
{
    if 0 <= i < t.len() && is_space(t[i].kind) {
        bp_index(t, i + 1)
    } else {
        i
    }
}

/// The value of the expression in a well-formed command (`None` where
/// evaluating it panics)
pub open spec fn command_value(s: Seq<char>) -> Option<i32> {
    let t = lex_from(s, 0).0;
    eval_expr(s, t, expr_index(t)).0
}

/// The character of a decimal digit
pub open spec fn digit_char(d: nat) -> char {
    if d == 0 {
        '0'
    } else if d == 1 {
        '1'
    } else if d == 2 {
        '2'
    } else if d == 3 {
        '3'
    } else if d == 4 {
        '4'
    } else if d == 5 {
        '5'
    } else if d == 6 {
        '6'
    } else if d == 7 {
        '7'
    } else if d == 8 {
        '8'
    } else {
        '9'
    }
}

/// The decimal digits of a natural number
pub open spec fn nat_digits(n: nat) -> Seq<char>
    decreases n,
{
    if n < 10 {
        seq![digit_char(n)]
    } else {
        nat_digits(n / 10).push(digit_char(n % 10))
    }
}

/// An integer in decimal, with a minus sign when negative
pub open spec fn decimal_chars(v: int) -> Seq<char> {
    if v < 0 {
        seq!['-'] + nat_digits((-v) as nat)
    } else {
        nat_digits(v as nat)
    }
}

/// Whether the text is a well-formed command whose evaluation panics
pub open spec fn input_panics(s: Seq<char>) -> bool {
    let t = lex_from(s, 0).0;
    &&& syntax(s, false) is Ok
    &&& !(t[0].kind == Tok::KwStep || t[0].kind == Tok::KwRun || t[0].kind == Tok::KwReset)
    &&& command_value(s) is None
}

/// The command that a well-formed, non-panicking text denotes
pub open spec fn input_action(s: Seq<char>, a: DebuggerAction) -> bool {
    let t = lex_from(s, 0).0;
    let k = t[0].kind;
    let v = command_value(s)->0;
    if k == Tok::KwStep {
        a == DebuggerAction::Step
    } else if k == Tok::KwRun {
        a == DebuggerAction::Run
    } else if k == Tok::KwReset {
        a == DebuggerAction::Reset
    } else if k == Tok::KwWatch {
        a == DebuggerAction::WatchPoint { addr: v as u16 }
    } else if k == Tok::KwUnwatch {
        a == DebuggerAction::UnwatchPoint { addr: v as u16 }
    } else if k == Tok::KwSet {
        a == DebuggerAction::SetBreakPoint { addr: v as u16 }
    } else if k == Tok::KwUnset {
        a == DebuggerAction::UnsetBreakPoint { addr: v as u16 }
    } else {
        a matches DebuggerAction::Echo { str } && str@ == decimal_chars(v as int)
    }
}


/// Tokens lie within the text, a hexadecimal number has a digit after
/// its `0x`, and a negative number a digit after its sign
pub open spec fn tokens_wf(s: Seq<char>, t: Seq<Token>) -> bool {
    forall|i: int|
        0 <= i < t.len() ==> #[trigger] t[i].start < t[i].end <= s.len() && (t[i].kind == Tok::Hex
            ==> t[i].start + 2 < t[i].end)
}

fn is_ws_exec(c: char) -> (r: bool)
    ensures
        r == is_ws(c),
{
    let u = c as u32;
    (0x9 <= u && u <= 0xD) || u == 0x20 || u == 0x85 || u == 0xA0 || u == 0x1680 || (0x2000 <= u
        && u <= 0x200A) || u == 0x2028 || u == 0x2029 || u == 0x202F || u == 0x205F || u == 0x3000
}

fn is_digit_exec(c: char) -> (r: bool)
    ensures
        r == is_digit(c),
{
    '0' <= c && c <= '9'
}

fn is_hex_exec(c: char) -> (r: bool)
    ensures
        r == is_hex_digit(c),
{
    ('0' <= c && c <= '9') || ('a' <= c && c <= 'f') || ('A' <= c && c <= 'F')
}

/// The characters of a text
fn text_chars(input: &str) -> (r: Vec<char>)
    ensures
        r@ == input@,
{
    let n = input.unicode_len();
    let mut v: Vec<char> = Vec::new();
    let mut i: usize = 0;
    while i < n
        invariant
            i <= n,
            n == input@.len(),
            v@ == input@.subrange(0, i as int),
        decreases n - i,
    {
        v.push(input.get_char(i));
        i = i + 1;
        assert(v@ =~= input@.subrange(0, i as int));
    }
    assert(v@ =~= input@);
    v
}

/// The byte offset of every character position, the end included
fn byte_offsets(s: &Vec<char>) -> (r: Vec<usize>)
    requires
        s@.len() <= usize::MAX / 4,
    ensures
        r@.len() == s@.len() + 1,
        forall|i: int| 0 <= i <= s@.len() ==> #[trigger] r@[i] == byte_offset(s@, i),
{
    let mut r: Vec<usize> = Vec::new();
    r.push(0);
    let mut acc: usize = 0;
    let mut i: usize = 0;
    while i < s.len()
        invariant
            i <= s@.len(),
            s@.len() <= usize::MAX / 4,
            r@.len() == i + 1,
            acc == byte_offset(s@, i as int),
            acc <= 4 * i,
            forall|k: int| 0 <= k <= i ==> #[trigger] r@[k] == byte_offset(s@, k),
        decreases s@.len() - i,
    {
        let u = s[i] as u32;
        let l: usize = if u < 0x80 {
            1
        } else if u < 0x800 {
            2
        } else if u < 0x10000 {
            3
        } else {
            4
        };
        acc = acc + l;
        i = i + 1;
        r.push(acc);
    }
    r
}

fn ws_end_exec(s: &Vec<char>, i: usize) -> (r: usize)
    requires
        i <= s@.len(),
    ensures
        r == ws_end(s@, i as int),
        i <= r <= s@.len(),
{
    let mut j = i;
    while j < s.len() && is_ws_exec(s[j])
        invariant
            i <= j <= s@.len(),
            ws_end(s@, j as int) == ws_end(s@, i as int),
        decreases s@.len() - j,
    {
        j = j + 1;
    }
    j
}

fn digits_end_exec(s: &Vec<char>, i: usize) -> (r: usize)
    requires
        i <= s@.len(),
    ensures
        r == digits_end(s@, i as int),
        i <= r <= s@.len(),
{
    let mut j = i;
    while j < s.len() && is_digit_exec(s[j])
        invariant
            i <= j <= s@.len(),
            digits_end(s@, j as int) == digits_end(s@, i as int),
        decreases s@.len() - j,
    {
        j = j + 1;
    }
    j
}

fn hex_end_exec(s: &Vec<char>, i: usize) -> (r: usize)
    requires
        i <= s@.len(),
    ensures
        r == hex_end(s@, i as int),
        i <= r <= s@.len(),
{
    let mut j = i;
    while j < s.len() && is_hex_exec(s[j])
        invariant
            i <= j <= s@.len(),
            hex_end(s@, j as int) == hex_end(s@, i as int),
        decreases s@.len() - j,
    {
        j = j + 1;
    }
    j
}

/// Whether the word `w` is at position `i`
fn word_at_exec(s: &Vec<char>, i: usize, w: &[char]) -> (r: bool)
    requires
        i <= s@.len(),
    ensures
        r == word_at(s@, i as int, w@),
{
    let n = s.len();
    if w.len() > n - i {
        return false;
    }
    let mut k: usize = 0;
    while k < w.len()
        invariant
            n == s@.len(),
            k <= w@.len(),
            i + w@.len() <= s@.len(),
            forall|m: int| 0 <= m < k ==> s@[i + m] == w@[m],
        decreases w@.len() - k,
    {
        if s[i + k] != w[k] {
            assert(s@.subrange(i as int, i + w@.len())[k as int] != w@[k as int]);
            return false;
        }
        k = k + 1;
    }
    assert(s@.subrange(i as int, i + w@.len()) =~= w@);
    true
}

/// The keyword at position `i`, if any
fn keyword_at(s: &Vec<char>, i: usize) -> (r: Option<(Tok, usize)>)
    requires
        i <= s@.len(),
    ensures
        match r {
            Some((k, e)) => keyword_from(s@, i as int, 0) == Some((k, e as int)) && i < e <= s@.len()
                && k != Tok::Hex,
            None => keyword_from(s@, i as int, 0) is None,
        },
{
    let ghost kws = keywords();
    let n = s.len();
    assert(n == s@.len());
    let w0 = ['b', 'r', 'e', 'a', 'k', 'p', 'o', 'i', 'n', 't'];
    let w1 = ['r', 'e', 's', 'e', 't'];
    let w2 = ['r', 'u', 'n'];
    let w3 = ['s', 'e', 't'];
    let w4 = ['s', 't', 'e', 'p'];
    let w5 = ['u', 'n', 's', 'e', 't'];
    let w6 = ['u', 'n', 'w', 'a', 't', 'c', 'h'];
    let w7 = ['w', 'a', 't', 'c', 'h'];
    assert(w0@ =~= kws[0].0);
    assert(w1@ =~= kws[1].0);
    assert(w2@ =~= kws[2].0);
    assert(w3@ =~= kws[3].0);
    assert(w4@ =~= kws[4].0);
    assert(w5@ =~= kws[5].0);
    assert(w6@ =~= kws[6].0);
    assert(w7@ =~= kws[7].0);
    reveal_with_fuel(keyword_from, 9);
    if word_at_exec(s, i, &w0) {
        Some((Tok::KwBreakpoint, i + 10))
    } else if word_at_exec(s, i, &w1) {
        Some((Tok::KwReset, i + 5))
    } else if word_at_exec(s, i, &w2) {
        Some((Tok::KwRun, i + 3))
    } else if word_at_exec(s, i, &w3) {
        Some((Tok::KwSet, i + 3))
    } else if word_at_exec(s, i, &w4) {
        Some((Tok::KwStep, i + 4))
    } else if word_at_exec(s, i, &w5) {
        Some((Tok::KwUnset, i + 5))
    } else if word_at_exec(s, i, &w6) {
        Some((Tok::KwUnwatch, i + 7))
    } else if word_at_exec(s, i, &w7) {
        Some((Tok::KwWatch, i + 5))
    } else {
        None
    }
}

/// The longest token at position `i`, and its end
fn token_at_exec(s: &Vec<char>, i: usize) -> (r: Option<(Tok, usize)>)
    requires
        i < s@.len(),
    ensures
        match r {
            Some((k, e)) => token_at(s@, i as int) == Some((k, e as int)) && i < e <= s@.len() && (k
                == Tok::Hex ==> i + 2 < e),
            None => token_at(s@, i as int) is None,
        },
{
    let c = s[i];
    let n = s.len();
    if c == ' ' {
        Some((Tok::Space, i + 1))
    } else if c == '%' {
        Some((Tok::Percent, i + 1))
    } else if c == '(' {
        Some((Tok::LParen, i + 1))
    } else if c == ')' {
        Some((Tok::RParen, i + 1))
    } else if c == '*' {
        Some((Tok::Star, i + 1))
    } else if c == '+' {
        Some((Tok::Plus, i + 1))
    } else if c == '/' {
        Some((Tok::Slash, i + 1))
    } else if c == '-' {
        if i + 1 < n && is_digit_exec(s[i + 1]) {
            Some((Tok::Decimal, digits_end_exec(s, i + 1)))
        } else {
            Some((Tok::Minus, i + 1))
        }
    } else if c == '0' {
        if n - i > 2 && (s[i + 1] == 'x' || s[i + 1] == 'X') && is_hex_exec(s[i + 2]) {
            let e = hex_end_exec(s, i + 3);
            assert(hex_end(s@, i + 2) == hex_end(s@, i + 3));
            Some((Tok::Hex, e))
        } else {
            Some((Tok::Decimal, digits_end_exec(s, i + 1)))
        }
    } else if is_digit_exec(c) {
        Some((Tok::Decimal, digits_end_exec(s, i + 1)))
    } else if c == '\\' {
        if i + 1 < n && s[i + 1] == 't' {
            Some((Tok::Tab, i + 2))
        } else {
            None
        }
    } else {
        keyword_at(s, i)
    }
}

/// The lexer: the text as characters, their byte offsets, and how far it
/// has read
pub struct __Matcher {
    chars: Vec<char>,
    offsets: Vec<usize>,
    pos: usize,
}

impl __Matcher {
    /// The characters of the text
    pub closed spec fn text(&self) -> Seq<char> {
        self.chars@
    }

    /// How far the lexer has read, in characters
    pub closed spec fn position(&self) -> int {
        self.pos as int
    }

    pub closed spec fn wf(&self) -> bool {
        &&& self.pos <= self.chars@.len()
        &&& self.chars@.len() <= usize::MAX / 4
        &&& self.offsets@.len() == self.chars@.len() + 1
        &&& forall|i: int|
            0 <= i <= self.chars@.len() ==> #[trigger] self.offsets@[i] == byte_offset(
                self.chars@,
                i,
            )
    }

    /// A lexer at the start of `s`
    pub fn new(s: &str) -> (m: __Matcher)
        requires
            s@.len() <= usize::MAX / 4,
        ensures
            m.wf(),
            m.text() == s@,
            m.position() == 0,
    {
        let chars = text_chars(s);
        let offsets = byte_offsets(&chars);
        __Matcher { chars, offsets, pos: 0 }
    }

    /// The next token, after skipping whitespace; `None` at the end of the
    /// text, and the byte offset where no token starts as an error
    pub fn next_token(&mut self) -> (r: Option<Result<Token, usize>>)
        requires
            old(self).wf(),
        ensures
            final(self).wf(),
            final(self).text() == old(self).text(),
            r matches Some(Ok(_)) ==> old(self).position() < final(self).position(),
            ({
                let s = old(self).text();
                let j = ws_end(s, old(self).position());
                match r {
                    None => j >= s.len() && lex_from(s, old(self).position()) == (
                        Seq::<Token>::empty(),
                        None::<int>,
                    ),
                    Some(Err(loc)) => j < s.len() && lex_from(s, old(self).position()) == (
                        Seq::<Token>::empty(),
                        Some(j),
                    ) && loc == byte_offset(s, j),
                    Some(Ok(tok)) => lex_from(s, old(self).position()) == (
                        seq![tok] + lex_from(s, final(self).position()).0,
                        lex_from(s, final(self).position()).1,
                    ) && tok.end as int == final(self).position() && tok.start < tok.end
                        <= s.len() && (tok.kind == Tok::Hex ==> tok.start + 2 < tok.end),
                }
            }),
    {
        let j = ws_end_exec(&self.chars, self.pos);
        if j >= self.chars.len() {
            return None;
        }
        match token_at_exec(&self.chars, j) {
            None => Some(Err(self.offsets[j])),
            Some((k, e)) => {
                let tok = Token {
                    kind: k,
                    start: j,
                    end: e,
                    byte_start: self.offsets[j],
                    byte_end: self.offsets[e],
                };
                self.pos = e;
                Some(Ok(tok))
            },
        }
    }
}

/// Lexes a whole text: the tokens up to the first place where none starts,
/// and the byte offset of that place
fn lex(m: &mut __Matcher) -> (r: (Vec<Token>, Option<usize>))
    requires
        old(m).wf(),
        old(m).position() == 0,
    ensures
        r.0@ == lex_from(old(m).text(), 0).0,
        r.1 == match lex_from(old(m).text(), 0).1 {
            Some(j) => Some(byte_offset(old(m).text(), j) as usize),
            None => None::<usize>,
        },
        tokens_wf(old(m).text(), r.0@),
        r.0@.len() <= old(m).text().len(),
        final(m).text() == old(m).text(),
{
    let ghost s = m.text();
    assert(s == old(m).text());
    let mut toks: Vec<Token> = Vec::new();
    loop
        invariant
            m.wf(),
            m.text() == s,
            s == old(m).text(),
            lex_from(s, 0) == (toks@ + lex_from(s, m.position()).0, lex_from(s, m.position()).1),
            tokens_wf(s, toks@),
            toks@.len() <= m.position(),
        decreases s.len() - m.position(),
    {
        let ghost before = m.position();
        match m.next_token() {
            None => {
                assert(toks@ + Seq::<Token>::empty() =~= toks@);
                assert(lex_from(s, 0).1 == None::<int>);
                assert(lex_from(s, 0).0 == toks@);
                return (toks, None);
            },
            Some(Err(loc)) => {
                assert(toks@ + Seq::<Token>::empty() =~= toks@);
                return (toks, Some(loc));
            },
            Some(Ok(tok)) => {
                let ghost old_toks = toks@;
                toks.push(tok);
                assert(old_toks + (seq![tok] + lex_from(s, m.position()).0) =~= toks@ + lex_from(
                    s,
                    m.position(),
                ).0);
                assert(tokens_wf(s, toks@)) by {
                    assert forall|i: int| 0 <= i < toks@.len() implies #[trigger] toks@[i].start
                        < toks@[i].end <= s.len() && (toks@[i].kind == Tok::Hex ==> toks@[i].start
                        + 2 < toks@[i].end) by {
                        if i < old_toks.len() {
                            assert(toks@[i] == old_toks[i]);
                            assert(old_toks[i].start < old_toks[i].end);
                        } else {
                            assert(toks@[i] == tok);
                        }
                    }
                }
            },
        }
    }
}

fn input_step_exec(st: PState, k: Tok) -> (r: Option<PState>)
    ensures
        r == input_step(st, k),
{
    let space = k == Tok::Space || k == Tok::Tab;
    let start = if k == Tok::Decimal || k == Tok::Hex {
        Some(PState::Expr { operand: false, depth: 0 })
    } else if k == Tok::LParen {
        Some(PState::Expr { operand: true, depth: 1 })
    } else {
        None
    };
    match st {
        PState::Start => if k == Tok::KwStep || k == Tok::KwRun || k == Tok::KwReset {
            Some(PState::Done)
        } else if k == Tok::KwWatch || k == Tok::KwUnwatch {
            Some(PState::AfterWatch)
        } else if k == Tok::KwSet || k == Tok::KwUnset {
            Some(PState::AfterSet)
        } else {
            start
        },
        PState::Done => None,
        PState::AfterWatch => if space {
            Some(PState::WatchSpace)
        } else {
            start
        },
        PState::WatchSpace => start,
        PState::AfterSet => if space {
            Some(PState::SetSpace)
        } else {
            None
        },
        PState::SetSpace => if space {
            Some(PState::SetSpace)
        } else if k == Tok::KwBreakpoint {
            Some(PState::AfterBreakpoint)
        } else {
            None
        },
        PState::AfterBreakpoint => if space {
            Some(PState::BreakpointSpace)
        } else {
            start
        },
        PState::BreakpointSpace => start,
        PState::Expr { operand, depth } => if operand {
            if k == Tok::Decimal || k == Tok::Hex {
                Some(PState::Expr { operand: false, depth })
            } else if k == Tok::LParen && depth < u64::MAX {
                Some(PState::Expr { operand: true, depth: depth + 1 })
            } else {
                None
            }
        } else {
            if k == Tok::Plus || k == Tok::Minus || k == Tok::Star || k == Tok::Slash || k
                == Tok::Percent {
                Some(PState::Expr { operand: true, depth })
            } else if k == Tok::RParen && depth > 0 {
                Some(PState::Expr { operand: false, depth: depth - 1 })
            } else {
                None
            }
        },
    }
}

fn number_step_exec(st: PState, k: Tok) -> (r: Option<PState>)
    ensures
        r == number_step(st, k),
{
    if st == PState::Start && (k == Tok::Decimal || k == Tok::Hex) {
        Some(PState::Done)
    } else {
        None
    }
}

/// Runs the parser over the tokens: where it stopped, and its state there
fn run_parser(t: &Vec<Token>, number: bool) -> (r: (usize, PState))
    ensures
        r.0 <= t@.len(),
        (r.0 as int, r.1) == run_from(t@, 0, PState::Start, number),
{
    let mut i: usize = 0;
    let mut st = PState::Start;
    while i < t.len()
        invariant
            i <= t@.len(),
            run_from(t@, 0, PState::Start, number) == run_from(t@, i as int, st, number),
        decreases t@.len() - i,
    {
        let next = if number {
            number_step_exec(st, t[i].kind)
        } else {
            input_step_exec(st, t[i].kind)
        };
        match next {
            None => {
                return (i, st);
            },
            Some(st2) => {
                st = st2;
                i = i + 1;
            },
        }
    }
    (i, st)
}

fn tok_index_exec(k: Tok) -> (r: usize)
    ensures
        r == tok_index(k),
{
    match k {
        Tok::Space => 0,
        Tok::Percent => 1,
        Tok::LParen => 2,
        Tok::RParen => 3,
        Tok::Star => 4,
        Tok::Plus => 5,
        Tok::Minus => 6,
        Tok::Slash => 7,
        Tok::Tab => 8,
        Tok::KwBreakpoint => 9,
        Tok::KwReset => 10,
        Tok::KwRun => 11,
        Tok::KwSet => 12,
        Tok::KwStep => 13,
        Tok::KwUnset => 14,
        Tok::KwUnwatch => 15,
        Tok::KwWatch => 16,
        Tok::Decimal => 17,
        Tok::Hex => 18,
    }
}

/// The syntax verdict, from the lexer's output
fn check_syntax(s: &Vec<char>, t: &Vec<Token>, lex_err: Option<usize>, number: bool) -> (r: Result<
    (),
    DbgParseError,
>)
    requires
        t@ == lex_from(s@, 0).0,
        lex_err == match lex_from(s@, 0).1 {
            Some(j) => Some(byte_offset(s@, j) as usize),
            None => None::<usize>,
        },
    ensures
        r == syntax(s@, number),
{
    let (i, st) = run_parser(t, number);
    if i < t.len() {
        let tok = t[i];
        Err(
            DbgParseError::UnrecognizedToken {
                token: Some(
                    TokenSpan {
                        start: tok.byte_start,
                        terminal: tok_index_exec(tok.kind),
                        end: tok.byte_end,
                    },
                ),
            },
        )
    } else {
        match lex_err {
            Some(loc) => Err(DbgParseError::InvalidToken { location: loc }),
            None => {
                let accepts = if number {
                    st == PState::Done
                } else {
                    st == PState::Done || st == (PState::Expr { operand: false, depth: 0 })
                };
                if accepts {
                    Ok(())
                } else {
                    Err(DbgParseError::UnrecognizedToken { token: None })
                }
            },
        }
    }
}

proof fn lemma_dec_mono(s: Seq<char>, a: int, k: int, b: int)
    requires
        k <= b,
    ensures
        dec_value(s, a, k) <= dec_value(s, a, b),
    decreases b - k,
{
    if k < b {
        lemma_dec_mono(s, a, k, b - 1);
    }
}

proof fn lemma_hex_mono(s: Seq<char>, a: int, k: int, b: int)
    requires
        k <= b,
    ensures
        hex_value(s, a, k) <= hex_value(s, a, b),
    decreases b - k,
{
    if k < b {
        lemma_hex_mono(s, a, k, b - 1);
    }
}

fn digit_exec(c: char) -> (r: u64)
    ensures
        r == digit_value(c),
        r < 10,
{
    if '0' <= c && c <= '9' {
        (c as u32 - '0' as u32) as u64
    } else {
        0
    }
}

fn hex_digit_exec(c: char) -> (r: u64)
    ensures
        r == hex_digit_value(c),
        r < 16,
{
    if '0' <= c && c <= '9' {
        (c as u32 - '0' as u32) as u64
    } else if 'a' <= c && c <= 'f' {
        (c as u32 - 'a' as u32 + 10) as u64
    } else if 'A' <= c && c <= 'F' {
        (c as u32 - 'A' as u32 + 10) as u64
    } else {
        0
    }
}

/// The decimal number in `s[a..b]`, if it is at most `cap`
fn dec_value_upto(s: &Vec<char>, a: usize, b: usize, cap: u64) -> (r: Option<u64>)
    requires
        a <= b <= s@.len(),
        cap <= 0x1_0000_0000,
    ensures
        match r {
            Some(v) => v == dec_value(s@, a as int, b as int) && v <= cap,
            None => dec_value(s@, a as int, b as int) > cap,
        },
{
    let mut acc: u64 = 0;
    let mut k: usize = a;
    while k < b
        invariant
            a <= k <= b,
            b <= s@.len(),
            cap <= 0x1_0000_0000,
            acc == dec_value(s@, a as int, k as int),
            acc <= cap,
        decreases b - k,
    {
        let d = digit_exec(s[k]);
        acc = acc * 10 + d;
        k = k + 1;
        if acc > cap {
            proof {
                lemma_dec_mono(s@, a as int, k as int, b as int);
            }
            return None;
        }
    }
    Some(acc)
}

/// The hexadecimal number in `s[a..b]`, if it is at most `cap`
fn hex_value_upto(s: &Vec<char>, a: usize, b: usize, cap: u64) -> (r: Option<u64>)
    requires
        a <= b <= s@.len(),
        cap <= 0x1_0000_0000,
    ensures
        match r {
            Some(v) => v == hex_value(s@, a as int, b as int) && v <= cap,
            None => hex_value(s@, a as int, b as int) > cap,
        },
{
    let mut acc: u64 = 0;
    let mut k: usize = a;
    while k < b
        invariant
            a <= k <= b,
            b <= s@.len(),
            cap <= 0x1_0000_0000,
            acc == hex_value(s@, a as int, k as int),
            acc <= cap,
        decreases b - k,
    {
        let d = hex_digit_exec(s[k]);
        acc = acc * 16 + d;
        k = k + 1;
        if acc > cap {
            proof {
                lemma_hex_mono(s@, a as int, k as int, b as int);
            }
            return None;
        }
    }
    Some(acc)
}

/// The value of a number token, if it fits in an `i32`
fn num_value_exec(s: &Vec<char>, t: Token) -> (r: Option<i32>)
    requires
        t.start < t.end <= s@.len(),
        t.kind == Tok::Hex ==> t.start + 2 < t.end,
    ensures
        r == num_value(s@, t),
{
    if t.kind == Tok::Hex {
        match hex_value_upto(s, t.start + 2, t.end, 0x7fff_ffff) {
            Some(v) => Some(v as i32),
            None => None,
        }
    } else if s[t.start] == '-' {
        match dec_value_upto(s, t.start + 1, t.end, 0x8000_0000) {
            Some(v) => Some((0 - (v as i64)) as i32),
            None => None,
        }
    } else {
        match dec_value_upto(s, t.start, t.end, 0x7fff_ffff) {
            Some(v) => Some(v as i32),
            None => None,
        }
    }
}

fn apply_op_exec(k: Tok, a: Option<i32>, b: Option<i32>) -> (r: Option<i32>)
    ensures
        r == apply_op(k, a, b),
{
    match (a, b) {
        (Some(x), Some(y)) => if k == Tok::Plus {
            x.checked_add(y)
        } else if k == Tok::Minus {
            x.checked_sub(y)
        } else if k == Tok::Star {
            x.checked_mul(y)
        } else if k == Tok::Slash {
            x.checked_div(y)
        } else {
            x.checked_rem(y)
        },
        _ => None,
    }
}

fn eval_term_exec(s: &Vec<char>, t: &Vec<Token>, i: usize) -> (r: (Option<i32>, usize))
    requires
        tokens_wf(s@, t@),
        t@.len() <= usize::MAX / 4,
        i <= t@.len(),
    ensures
        (r.0, r.1 as int) == eval_term(s@, t@, i as int),
        r.1 <= 2 * t@.len() - i,
    decreases t@.len() - i, 1int,
{
    if i >= t.len() {
        (None, i)
    } else if t[i].kind == Tok::LParen {
        let (v, j) = eval_expr_exec(s, t, i + 1);
        (v, j + 1)
    } else {
        let tok = t[i];
        assert(tok.start < tok.end <= s@.len());
        (num_value_exec(s, tok), i + 1)
    }
}

fn eval_factor_tail_exec(s: &Vec<char>, t: &Vec<Token>, i: usize, acc: Option<i32>) -> (r: (
    Option<i32>,
    usize,
))
    requires
        tokens_wf(s@, t@),
        t@.len() <= usize::MAX / 4,
        i <= t@.len(),
    ensures
        (r.0, r.1 as int) == eval_factor_tail(s@, t@, i as int, acc),
        r.1 <= 2 * t@.len() - i,
    decreases t@.len() - i, 2int,
{
    if i < t.len() && (t[i].kind == Tok::Star || t[i].kind == Tok::Slash || t[i].kind
        == Tok::Percent) {
        let (v, j) = eval_term_exec(s, t, i + 1);
        if j <= i || j > t.len() {
            (None, j)
        } else {
            eval_factor_tail_exec(s, t, j, apply_op_exec(t[i].kind, acc, v))
        }
    } else {
        (acc, i)
    }
}

fn eval_factor_exec(s: &Vec<char>, t: &Vec<Token>, i: usize) -> (r: (Option<i32>, usize))
    requires
        tokens_wf(s@, t@),
        t@.len() <= usize::MAX / 4,
        i <= t@.len(),
    ensures
        (r.0, r.1 as int) == eval_factor(s@, t@, i as int),
        r.1 <= 2 * t@.len() - i,
    decreases t@.len() - i, 3int,
{
    let (v, j) = eval_term_exec(s, t, i);
    if j <= i || j > t.len() {
        (None, j)
    } else {
        eval_factor_tail_exec(s, t, j, v)
    }
}

fn eval_expr_tail_exec(s: &Vec<char>, t: &Vec<Token>, i: usize, acc: Option<i32>) -> (r: (
    Option<i32>,
    usize,
))
    requires
        tokens_wf(s@, t@),
        t@.len() <= usize::MAX / 4,
        i <= t@.len(),
    ensures
        (r.0, r.1 as int) == eval_expr_tail(s@, t@, i as int, acc),
        r.1 <= 2 * t@.len() - i,
    decreases t@.len() - i, 4int,
{
    if i < t.len() && (t[i].kind == Tok::Plus || t[i].kind == Tok::Minus) {
        let (v, j) = eval_factor_exec(s, t, i + 1);
        if j <= i || j > t.len() {
            (None, j)
        } else {
            eval_expr_tail_exec(s, t, j, apply_op_exec(t[i].kind, acc, v))
        }
    } else {
        (acc, i)
    }
}

fn eval_expr_exec(s: &Vec<char>, t: &Vec<Token>, i: usize) -> (r: (Option<i32>, usize))
    requires
        tokens_wf(s@, t@),
        t@.len() <= usize::MAX / 4,
        i <= t@.len(),
    ensures
        (r.0, r.1 as int) == eval_expr(s@, t@, i as int),
        r.1 <= 2 * t@.len() - i,
    decreases t@.len() - i, 5int,
{
    let (v, j) = eval_factor_exec(s, t, i);
    if j <= i || j > t.len() {
        (None, j)
    } else {
        eval_expr_tail_exec(s, t, j, v)
    }
}

/// Where the expression of a command starts
fn expr_index_exec(t: &Vec<Token>) -> (r: usize)
    requires
        0 < t@.len() <= usize::MAX / 4,
    ensures
        r == expr_index(t@),
{
    let k = t[0].kind;
    if k == Tok::KwWatch || k == Tok::KwUnwatch {
        if t.len() > 1 && (t[1].kind == Tok::Space || t[1].kind == Tok::Tab) {
            2
        } else {
            1
        }
    } else if k == Tok::KwSet || k == Tok::KwUnset {
        let mut b: usize = 1;
        while b < t.len() && (t[b].kind == Tok::Space || t[b].kind == Tok::Tab)
            invariant
                1 <= b <= t@.len(),
                t@.len() <= usize::MAX / 4,
                bp_index(t@, b as int) == bp_index(t@, 1),
            decreases t@.len() - b,
        {
            b = b + 1;
        }
        if b + 1 < t.len() && (t[b + 1].kind == Tok::Space || t[b + 1].kind == Tok::Tab) {
            b + 2
        } else {
            b + 1
        }
    } else {
        0
    }
}

/// The text of a decimal digit
fn digit_text(d: u64) -> (r: &'static str)
    requires
        d < 10,
    ensures
        r@ == seq![digit_char(d as nat)],
{
    proof {
        reveal_strlit("0");
        reveal_strlit("1");
        reveal_strlit("2");
        reveal_strlit("3");
        reveal_strlit("4");
        reveal_strlit("5");
        reveal_strlit("6");
        reveal_strlit("7");
        reveal_strlit("8");
        reveal_strlit("9");
    }
    if d == 0 {
        "0"
    } else if d == 1 {
        "1"
    } else if d == 2 {
        "2"
    } else if d == 3 {
        "3"
    } else if d == 4 {
        "4"
    } else if d == 5 {
        "5"
    } else if d == 6 {
        "6"
    } else if d == 7 {
        "7"
    } else if d == 8 {
        "8"
    } else {
        "9"
    }
}

/// Appends the decimal digits of `n`
pub(crate) fn push_digits(out: &mut String, n: u64)
    ensures
        final(out)@ == old(out)@ + nat_digits(n as nat),
    decreases n,
{
    if n >= 10 {
        push_digits(out, n / 10);
    }
    out.append(digit_text(n % 10));
    proof {
        if n >= 10 {
            assert(old(out)@ + nat_digits((n / 10) as nat) + seq![digit_char((n % 10) as nat)]
                =~= old(out)@ + nat_digits(n as nat));
        } else {
            assert(nat_digits(n as nat) == seq![digit_char((n % 10) as nat)]);
        }
    }
}

/// An integer in decimal, as `format!("{}", v)` writes it
fn decimal_string(v: i32) -> (r: String)
    ensures
        r@ == decimal_chars(v as int),
{
    let mut out = String::new();
    if v < 0 {
        proof {
            reveal_strlit("-");
        }
        out.append("-");
        push_digits(&mut out, (0 - (v as i64)) as u64);
    } else {
        push_digits(&mut out, v as u64);
    }
    out
}

/// The characters of a text, its tokens, and where lexing stopped
fn lex_text(input: &str) -> (r: (Vec<char>, Vec<Token>, Option<usize>))
    requires
        input@.len() <= usize::MAX / 4,
    ensures
        r.0@ == input@,
        r.1@ == lex_from(input@, 0).0,
        r.2 == match lex_from(input@, 0).1 {
            Some(j) => Some(byte_offset(input@, j) as usize),
            None => None::<usize>,
        },
        tokens_wf(input@, r.1@),
        r.1@.len() <= input@.len(),
{
    let mut m = __Matcher::new(input);
    let (toks, err) = lex(&mut m);
    (m.chars, toks, err)
}

proof fn lemma_number_syntax(t: Seq<Token>)
    requires
        run_from(t, 0, PState::Start, true).0 >= t.len(),
        number_accepts(run_from(t, 0, PState::Start, true).1),
    ensures
        t.len() == 1,
{
    reveal_with_fuel(run_from, 3);
}

proof fn lemma_input_syntax(t: Seq<Token>)
    requires
        input_accepts(run_from(t, 0, PState::Start, false).1),
    ensures
        t.len() >= 1,
{
    reveal_with_fuel(run_from, 2);
}

/// Parses a lone number: decimal, with an optional minus sign, or
/// hexadecimal after `0x` or `0X`, with whitespace around it
pub fn parse_Number(input: &str) -> (r: Result<i32, DbgParseError>)
    requires
        input@.len() <= usize::MAX / 4,
        syntax(input@, true) is Ok ==> num_value(input@, lex_from(input@, 0).0[0]) is Some,
    ensures
        match syntax(input@, true) {
            Err(e) => r == Err::<i32, DbgParseError>(e),
            Ok(_) => r == Ok::<i32, DbgParseError>(
                num_value(input@, lex_from(input@, 0).0[0])->0,
            ),
        },
{
    parse_number_checked(input).unwrap()
}

/// Parses a lone number as `parse_Number` does, or gives nothing for a
/// number that does not fit in 32 bits, on which `parse_Number` panics
pub fn parse_number_checked(input: &str) -> (r: Option<Result<i32, DbgParseError>>)
    requires
        input@.len() <= usize::MAX / 4,
    ensures
        r is None <==> (syntax(input@, true) is Ok && num_value(input@, lex_from(input@, 0).0[0]) is None),
        r matches Some(x) ==> match syntax(input@, true) {
            Err(e) => x == Err::<i32, DbgParseError>(e),
            Ok(_) => x == Ok::<i32, DbgParseError>(
                num_value(input@, lex_from(input@, 0).0[0])->0,
            ),
        },
{
    let (chars, toks, err) = lex_text(input);
    match check_syntax(&chars, &toks, err, true) {
        Err(e) => Some(Err(e)),
        Ok(()) => {
            proof {
                lemma_number_syntax(toks@);
            }
            let tok = toks[0];
            assert(tok.start < tok.end);
            match num_value_exec(&chars, tok) {
                Some(v) => Some(Ok(v)),
                None => None,
            }
        },
    }
}

/// Parses a debugger command: `step`, `run`, `reset`, `watch E`,
/// `unwatch E`, `set\tbreakpoint E`, `unset\tbreakpoint E`, or an
/// expression `E`, whose value is echoed
pub fn parse_Input(input: &str) -> (r: Result<DebuggerAction, DbgParseError>)
    requires
        input@.len() <= usize::MAX / 4,
        !input_panics(input@),
    ensures
        match syntax(input@, false) {
            Err(e) => r == Err::<DebuggerAction, DbgParseError>(e),
            Ok(_) => r matches Ok(a) && input_action(input@, a),
        },
{
    parse_input_checked(input).unwrap()
}

/// Parses a debugger command as `parse_Input` does, or gives nothing for
/// a command whose value overflows 32 bits, on which `parse_Input` panics
pub fn parse_input_checked(input: &str) -> (r: Option<Result<DebuggerAction, DbgParseError>>)
    requires
        input@.len() <= usize::MAX / 4,
    ensures
        r is None <==> input_panics(input@),
        r matches Some(x) ==> match syntax(input@, false) {
            Err(e) => x == Err::<DebuggerAction, DbgParseError>(e),
            Ok(_) => x matches Ok(a) && input_action(input@, a),
        },
{
    let (chars, toks, err) = lex_text(input);
    match check_syntax(&chars, &toks, err, false) {
        Err(e) => Some(Err(e)),
        Ok(()) => {
            proof {
                lemma_input_syntax(toks@);
            }
            let k = toks[0].kind;
            if k == Tok::KwStep {
                return Some(Ok(DebuggerAction::Step));
            } else if k == Tok::KwRun {
                return Some(Ok(DebuggerAction::Run));
            } else if k == Tok::KwReset {
                return Some(Ok(DebuggerAction::Reset));
            }
            let idx = expr_index_exec(&toks);
            let value = if idx > toks.len() {
                None
            } else {
                eval_expr_exec(&chars, &toks, idx).0
            };
            assert(value == command_value(input@));
            let v = match value {
                Some(v) => v,
                None => {
                    return None;
                },
            };
            let addr = v as u16;
            if k == Tok::KwWatch {
                Some(Ok(DebuggerAction::WatchPoint { addr }))
            } else if k == Tok::KwUnwatch {
                Some(Ok(DebuggerAction::UnwatchPoint { addr }))
            } else if k == Tok::KwSet {
                Some(Ok(DebuggerAction::SetBreakPoint { addr }))
            } else if k == Tok::KwUnset {
                Some(Ok(DebuggerAction::UnsetBreakPoint { addr }))
            } else {
                Some(Ok(DebuggerAction::Echo { str: decimal_string(v) }))
            }
        },
    }
}

} // verus!
