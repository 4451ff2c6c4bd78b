//! The grammar of the language, as functions on glyphs.
//!
//! Every character is first classified as a glyph.  The ASCII and the
//! full-width form of an operator or bracket are the same glyph, so the
//! grammar, which reads glyphs only, cannot tell them apart.  The grammar
//! is ordered choice with backtracking: each rule is a function from a
//! position in the text to the tree that starts there and the position
//! behind it.

use vstd::prelude::*;
use crate::ast::{binary_node, BinaryOperator, Node};
use crate::number::{decimal_value, nearest};
use crate::types::Value;

verus! {

/// What a character is to the grammar.  The characters that can stand in
/// a name or a number are kept.
#[derive(Debug, Clone, Copy, PartialEq, Eq, Structural)]
pub enum Glyph {
    /// `+` `＋`
    Plus,
    /// `-`
    Minus,
    /// `*` `＊`
    Star,
    /// `/`
    Slash,
    /// `!` `！`
    Bang,
    /// `=` `＝`
    Equal,
    /// `&` `＆`
    Amp,
    /// `|` `｜`
    Bar,
    /// `<` `＜`
    Lt,
    /// `>` `＞`
    Gt,
    /// `(` `（`
    OpenParen,
    /// `)` `）`
    CloseParen,
    /// `「` `[`
    OpenBlock,
    /// `」` `]`
    CloseBlock,
    /// `、` `,`
    Comma,
    /// `：` `:`
    Colon,
    /// `。`
    EndOfTerm,
    /// A whitespace character.
    Space,
    /// An ASCII or full-width decimal digit.
    Digit(char),
    /// Another numeric character: it can stand in a name, but not at its
    /// start.
    Numeric(char),
    /// Any other character: it can stand anywhere in a name.
    Letter(char),
}

/// Whether Unicode counts the character as whitespace.
pub uninterp spec fn unicode_whitespace(c: char) -> bool;

/// Whether Unicode counts the character as numeric.
pub uninterp spec fn unicode_numeric(c: char) -> bool;

/// Whether the character is an ASCII decimal digit.
pub open spec fn ascii_digit(c: char) -> bool {
    '0' <= c <= '9'
}

/// Whether the character is a full-width decimal digit.
pub open spec fn wide_digit(c: char) -> bool {
    '０' <= c <= '９'
}

/// The value of an ASCII or full-width decimal digit.
pub open spec fn digit_value(c: char) -> u8 {
    if ascii_digit(c) {
        (c as u32 - '0' as u32) as u8
    } else if wide_digit(c) {
        (c as u32 - '０' as u32) as u8
    } else {
        0
    }
}

/// The glyph of an operator, a bracket or a mark, if the character is one.
pub open spec fn special_glyph(c: char) -> Option<Glyph> {
    if c == '+' || c == '＋' {
        Some(Glyph::Plus)
    } else if c == '-' {
        Some(Glyph::Minus)
    } else if c == '*' || c == '＊' {
        Some(Glyph::Star)
    } else if c == '/' {
        Some(Glyph::Slash)
    } else if c == '!' || c == '！' {
        Some(Glyph::Bang)
    } else if c == '=' || c == '＝' {
        Some(Glyph::Equal)
    } else if c == '&' || c == '＆' {
        Some(Glyph::Amp)
    } else if c == '|' || c == '｜' {
        Some(Glyph::Bar)
    } else if c == '<' || c == '＜' {
        Some(Glyph::Lt)
    } else if c == '>' || c == '＞' {
        Some(Glyph::Gt)
    } else if c == '(' || c == '（' {
        Some(Glyph::OpenParen)
    } else if c == ')' || c == '）' {
        Some(Glyph::CloseParen)
    } else if c == '「' || c == '[' {
        Some(Glyph::OpenBlock)
    } else if c == '」' || c == ']' {
        Some(Glyph::CloseBlock)
    } else if c == '、' || c == ',' {
        Some(Glyph::Comma)
    } else if c == '：' || c == ':' {
        Some(Glyph::Colon)
    } else if c == '。' {
        Some(Glyph::EndOfTerm)
    } else {
        None
    }
}

/// The glyph of a character.  Operators, brackets and marks come first,
/// then the decimal digits, then whitespace, then the other numeric
/// characters; what is left is a letter.
pub open spec fn glyph_of(c: char) -> Glyph {
    match special_glyph(c) {
        Some(g) => g,
        None => if ascii_digit(c) || wide_digit(c) {
            Glyph::Digit(c)
        } else if unicode_whitespace(c) {
            Glyph::Space
        } else if unicode_numeric(c) {
            Glyph::Numeric(c)
        } else {
            Glyph::Letter(c)
        },
    }
}

/// The glyphs of a text.
pub open spec fn glyphs_of(text: Seq<char>) -> Seq<Glyph> {
    Seq::new(text.len(), |i: int| glyph_of(text[i]))
}

/// The levels of the binary operators, loosest last.
#[derive(Debug, Clone, Copy, PartialEq, Eq, Structural)]
pub enum Level {
    /// `*` `/`
    MulDiv,
    /// `+` `-`
    AddSub,
    /// `<` `<=` `>` `>=`
    Compare,
    /// `==` `!=`
    EqNe,
    /// `&&`
    And,
    /// `||`
    Or,
}

impl Level {
    /// The place of the level among the levels, tightest first.
    pub open spec fn rank(self) -> nat {
        match self {
            Level::MulDiv => 0,
            Level::AddSub => 1,
            Level::Compare => 2,
            Level::EqNe => 3,
            Level::And => 4,
            Level::Or => 5,
        }
    }

    /// The level of the left operand; the tightest level has none, its
    /// operand is a single value.
    pub open spec fn tighter(self) -> Level {
        match self {
            Level::MulDiv => Level::MulDiv,
            Level::AddSub => Level::MulDiv,
            Level::Compare => Level::AddSub,
            Level::EqNe => Level::Compare,
            Level::And => Level::EqNe,
            Level::Or => Level::And,
        }
    }

    /// The level of the right operand: the level itself, but for the
    /// comparisons and equalities, whose right operand is a conjunction.
    pub open spec fn right(self) -> Level {
        match self {
            Level::Compare => Level::And,
            Level::EqNe => Level::And,
            level => level,
        }
    }
}

/// The glyph at a position, if the text reaches that far.
pub open spec fn glyph_at(text: Seq<Glyph>, pos: nat) -> Option<Glyph> {
    if pos < text.len() {
        Some(text[pos as int])
    } else {
        None
    }
}

/// Whether the glyph `glyph` stands at the position.
pub open spec fn has(text: Seq<Glyph>, pos: nat, glyph: Glyph) -> bool {
    glyph_at(text, pos) == Some(glyph)
}

/// The first position from `pos` on that holds no whitespace.
pub open spec fn skip_spaces(text: Seq<Glyph>, pos: nat) -> nat
    decreases text.len() - pos,
{
    if pos < text.len() && text[pos as int] == Glyph::Space {
        skip_spaces(text, pos + 1)
    } else {
        pos
    }
}

/// Whether the glyph can stand in a name.
pub open spec fn name_part(glyph: Glyph) -> bool {
    glyph is Letter || glyph is Digit || glyph is Numeric
}

/// The character that a glyph of a name or a number keeps.
pub open spec fn kept(glyph: Glyph) -> char {
    match glyph {
        Glyph::Letter(c) => c,
        Glyph::Digit(c) => c,
        Glyph::Numeric(c) => c,
        _ => ' ',
    }
}

/// The first position from `pos` on that holds nothing of a name.
pub open spec fn name_end(text: Seq<Glyph>, pos: nat) -> nat
    decreases text.len() - pos,
{
    if pos < text.len() && name_part(text[pos as int]) {
        name_end(text, pos + 1)
    } else {
        pos
    }
}

/// The first position from `pos` on that holds no decimal digit.
pub open spec fn digits_end(text: Seq<Glyph>, pos: nat) -> nat
    decreases text.len() - pos,
{
    if pos < text.len() && text[pos as int] is Digit {
        digits_end(text, pos + 1)
    } else {
        pos
    }
}

/// The characters kept between two positions.
pub open spec fn kept_between(text: Seq<Glyph>, from: nat, to: nat) -> Seq<char> {
    Seq::new((to - from) as nat, |i: int| kept(text[from + i]))
}

/// The values of the digits between two positions.
pub open spec fn digits_between(text: Seq<Glyph>, from: nat, to: nat) -> Seq<u8> {
    Seq::new((to - from) as nat, |i: int| digit_value(kept(text[from + i])))
}

/// A name: a letter, then letters, digits and other numeric characters.
pub open spec fn symbol(text: Seq<Glyph>, pos: nat) -> Option<(Seq<char>, nat)> {
    if pos < text.len() && text[pos as int] is Letter {
        let end = name_end(text, pos + 1);
        Some((kept_between(text, pos, end), end))
    } else {
        None
    }
}

/// A number: a row of decimal digits, read as the nearest binary64 number.
pub open spec fn number(text: Seq<Glyph>, pos: nat) -> Option<(Node, nat)> {
    if pos < text.len() && text[pos as int] is Digit {
        let end = digits_end(text, pos + 1);
        Some(
            (
                Node::StaticValue(
                    Value::Num(nearest(decimal_value(digits_between(text, pos, end)))),
                ),
                end,
            ),
        )
    } else {
        None
    }
}

/// The binary operator of a level that stands at a position, and how many
/// glyphs it takes.
pub open spec fn operator_at(text: Seq<Glyph>, pos: nat, level: Level) -> Option<
    (BinaryOperator, nat),
> {
    match level {
        Level::MulDiv => if has(text, pos, Glyph::Star) {
            Some((BinaryOperator::Mul, 1nat))
        } else if has(text, pos, Glyph::Slash) {
            Some((BinaryOperator::Div, 1nat))
        } else {
            None
        },
        Level::AddSub => if has(text, pos, Glyph::Plus) {
            Some((BinaryOperator::Add, 1nat))
        } else if has(text, pos, Glyph::Minus) {
            Some((BinaryOperator::Sub, 1nat))
        } else {
            None
        },
        Level::Compare => if has(text, pos, Glyph::Lt) {
            if has(text, pos + 1, Glyph::Equal) {
                Some((BinaryOperator::Lte, 2nat))
            } else {
                Some((BinaryOperator::Lt, 1nat))
            }
        } else if has(text, pos, Glyph::Gt) {
            if has(text, pos + 1, Glyph::Equal) {
                Some((BinaryOperator::Gte, 2nat))
            } else {
                Some((BinaryOperator::Gt, 1nat))
            }
        } else {
            None
        },
        Level::EqNe => if has(text, pos, Glyph::Equal) && has(text, pos + 1, Glyph::Equal) {
            Some((BinaryOperator::Eq, 2nat))
        } else if has(text, pos, Glyph::Bang) && has(text, pos + 1, Glyph::Equal) {
            Some((BinaryOperator::Ne, 2nat))
        } else {
            None
        },
        Level::And => if has(text, pos, Glyph::Amp) && has(text, pos + 1, Glyph::Amp) {
            Some((BinaryOperator::And, 2nat))
        } else {
            None
        },
        Level::Or => if has(text, pos, Glyph::Bar) && has(text, pos + 1, Glyph::Bar) {
            Some((BinaryOperator::Or, 2nat))
        } else {
            None
        },
    }
}

/// The names of a parameter list after the first: each behind a comma,
/// with whitespace allowed around the comma.
pub open spec fn more_names(text: Seq<Glyph>, pos: nat) -> (Seq<Seq<char>>, nat)
    decreases text.len() - pos,
{
    let comma = skip_spaces(text, pos);
    if has(text, comma, Glyph::Comma) {
        match symbol(text, skip_spaces(text, comma + 1)) {
            Some((name, end)) => if end > pos && end <= text.len() {
                let (names, last) = more_names(text, end);
                (seq![name] + names, last)
            } else {
                (Seq::empty(), pos)
            },
            None => (Seq::empty(), pos),
        }
    } else {
        (Seq::empty(), pos)
    }
}

/// A parameter list: names between two bars, separated by commas.
pub open spec fn dummy_args_list(text: Seq<Glyph>, pos: nat) -> Option<(Seq<Seq<char>>, nat)> {
    if has(text, pos, Glyph::Bar) {
        let (names, end) = match symbol(text, pos + 1) {
            Some((first, p)) => {
                let (names, last) = more_names(text, p);
                (seq![first] + names, last)
            },
            None => (Seq::empty(), pos + 1),
        };
        if has(text, end, Glyph::Bar) {
            Some((names, end + 1))
        } else {
            None
        }
    } else {
        None
    }
}

/// The tree that `left operator right` stands for.
pub open spec fn joined(operator: BinaryOperator, left: Node, right: Node) -> Node {
    binary_node(operator, left, right)
}

/// A form: a method call, else an expression of binary operators, else a
/// block, a read or a number.
pub open spec fn form(text: Seq<Glyph>, pos: nat) -> Option<(Node, nat)>
    decreases text.len() - pos, 30nat,
{
    match method_call(text, pos) {
        Some(r) => Some(r),
        None => match term(text, pos, Level::Or) {
            Some(r) => Some(r),
            None => match block(text, pos) {
                Some(r) => Some(r),
                None => match decl(text, pos) {
                    Some(r) => Some(r),
                    None => number(text, pos),
                },
            },
        },
    }
}

/// A form between parentheses.
pub open spec fn parenthesized(text: Seq<Glyph>, pos: nat) -> Option<(Node, nat)>
    decreases text.len() - pos, 2nat,
{
    if has(text, pos, Glyph::OpenParen) {
        match form(text, pos + 1) {
            Some((node, end)) => if has(text, end, Glyph::CloseParen) {
                Some((node, end + 1))
            } else {
                None
            },
            None => None,
        }
    } else {
        None
    }
}

/// What a member is read from or assigned to: a name, read as a binding, or
/// a form between parentheses.
pub open spec fn symbol_or_parentheses_form(text: Seq<Glyph>, pos: nat) -> Option<(Node, nat)>
    decreases text.len() - pos, 3nat,
{
    match symbol(text, pos) {
        Some((name, end)) => Some((Node::Decl { object: None, target: name }, end)),
        None => parenthesized(text, pos),
    }
}

/// A name, or an object, a colon and a name.
pub open spec fn symbol_or_member(text: Seq<Glyph>, pos: nat) -> Option<
    (Option<Box<Node>>, Seq<char>, nat),
>
    decreases text.len() - pos, 4nat,
{
    let member = match symbol_or_parentheses_form(text, pos) {
        Some((object, colon)) => if has(text, colon, Glyph::Colon) {
            match symbol(text, colon + 1) {
                Some((name, end)) => Some((Some(Box::new(object)), name, end)),
                None => None,
            }
        } else {
            None
        },
        None => None,
    };
    match member {
        Some(r) => Some(r),
        None => match symbol(text, pos) {
            Some((name, end)) => Some((None, name, end)),
            None => None,
        },
    }
}

/// A read of a binding or of a member.
pub open spec fn decl(text: Seq<Glyph>, pos: nat) -> Option<(Node, nat)>
    decreases text.len() - pos, 5nat,
{
    match symbol_or_member(text, pos) {
        Some((object, target, end)) => Some((Node::Decl { object, target }, end)),
        None => None,
    }
}

/// The statements of a block or a program: each may be followed by
/// whitespace.
pub open spec fn statements(text: Seq<Glyph>, pos: nat) -> (Seq<Node>, nat)
    decreases text.len() - pos, 41nat,
{
    match code_block(text, pos) {
        Some((statement, end)) => {
            let next = skip_spaces(text, end);
            if next > pos && next <= text.len() {
                let (others, last) = statements(text, next);
                (seq![statement] + others, last)
            } else {
                (Seq::empty(), pos)
            }
        },
        None => (Seq::empty(), pos),
    }
}

/// A block: between block brackets an optional parameter list and
/// statements.
pub open spec fn block(text: Seq<Glyph>, pos: nat) -> Option<(Node, nat)>
    decreases text.len() - pos, 6nat,
{
    if has(text, pos, Glyph::OpenBlock) {
        let (dummy_args, after) = match dummy_args_list(text, pos + 1) {
            Some(r) => r,
            None => (Seq::empty(), pos + 1),
        };
        let start = skip_spaces(text, after);
        if start > pos && start <= text.len() {
            let (body, end) = statements(text, start);
            if has(text, end, Glyph::CloseBlock) {
                Some((Node::BlockDefine { dummy_args, body }, end + 1))
            } else {
                None
            }
        } else {
            None
        }
    } else {
        None
    }
}

/// A single value: a number, a block, a read or a form between
/// parentheses.
pub open spec fn single_value(text: Seq<Glyph>, pos: nat) -> Option<(Node, nat)>
    decreases text.len() - pos, 7nat,
{
    match number(text, pos) {
        Some(r) => Some(r),
        None => match block(text, pos) {
            Some(r) => Some(r),
            None => match decl(text, pos) {
                Some(r) => Some(r),
                None => parenthesized(text, pos),
            },
        },
    }
}

/// An argument of a method call: a number, a block or a form between
/// parentheses.  A bare name is no argument.
pub open spec fn single_value_without_decl(text: Seq<Glyph>, pos: nat) -> Option<(Node, nat)>
    decreases text.len() - pos, 7nat,
{
    match number(text, pos) {
        Some(r) => Some(r),
        None => match block(text, pos) {
            Some(r) => Some(r),
            None => parenthesized(text, pos),
        },
    }
}

/// An expression of the binary operators of a level: a left operand of the
/// next tighter level and, if an operator of the level and a right operand
/// follow, the two joined.  Whitespace may stand around the operator.
pub open spec fn term(text: Seq<Glyph>, pos: nat, level: Level) -> Option<(Node, nat)>
    decreases text.len() - pos, 10 + level.rank(),
{
    let first = if level == Level::MulDiv {
        single_value(text, pos)
    } else {
        term(text, pos, level.tighter())
    };
    match first {
        Some((left, end)) => {
            let at = skip_spaces(text, end);
            match operator_at(text, at, level) {
                Some((operator, width)) => {
                    let start = skip_spaces(text, at + width);
                    if start > pos && start <= text.len() {
                        match term(text, start, level.right()) {
                            Some((right, last)) => Some((joined(operator, left, right), last)),
                            None => Some((left, end)),
                        }
                    } else {
                        Some((left, end))
                    }
                },
                None => Some((left, end)),
            }
        },
        None => None,
    }
}

/// The arguments of a method call: each followed by whitespace.
pub open spec fn arguments(text: Seq<Glyph>, pos: nat) -> (Seq<Node>, nat)
    decreases text.len() - pos, 8nat,
{
    match single_value_without_decl(text, pos) {
        Some((argument, end)) => if has(text, end, Glyph::Space) {
            let next = skip_spaces(text, end);
            if next > pos && next <= text.len() {
                let (others, last) = arguments(text, next);
                (seq![argument] + others, last)
            } else {
                (Seq::empty(), pos)
            }
        } else {
            (Seq::empty(), pos)
        },
        None => (Seq::empty(), pos),
    }
}

/// One call of a chain: whitespace, the arguments, the name of the method.
pub open spec fn one_call(text: Seq<Glyph>, pos: nat) -> Option<(Seq<Node>, Seq<char>, nat)>
    decreases text.len() - pos, 9nat,
{
    let start = skip_spaces(text, pos);
    if start >= pos && start <= text.len() {
        let (args, name_at) = arguments(text, start);
        match symbol(text, name_at) {
            Some((method, end)) => Some((args, method, end)),
            None => None,
        }
    } else {
        None
    }
}

/// The calls that follow a receiver: each call takes what is before it as
/// its receiver.
pub open spec fn call_chain(text: Seq<Glyph>, pos: nat, receiver: Node) -> (Node, nat)
    decreases text.len() - pos, 10nat,
{
    match one_call(text, pos) {
        Some((args, method, end)) => if end > pos && end <= text.len() {
            call_chain(text, end, Node::MethodCall { method, receiver: Box::new(receiver), args })
        } else {
            (receiver, pos)
        },
        None => (receiver, pos),
    }
}

/// A method call: a single value, a bang and one call or more.
pub open spec fn method_call(text: Seq<Glyph>, pos: nat) -> Option<(Node, nat)>
    decreases text.len() - pos, 20nat,
{
    match single_value(text, pos) {
        Some((receiver, bang)) => if has(text, bang, Glyph::Bang) && bang >= pos {
            match one_call(text, bang + 1) {
                Some((args, method, end)) => if end > pos && end <= text.len() {
                    Some(
                        call_chain(
                            text,
                            end,
                            Node::MethodCall { method, receiver: Box::new(receiver), args },
                        ),
                    )
                } else {
                    None
                },
                None => None,
            }
        } else {
            None
        },
        None => None,
    }
}

/// An assignment: a name or a member, an equals sign and a form.
pub open spec fn assign(text: Seq<Glyph>, pos: nat) -> Option<(Node, nat)>
    decreases text.len() - pos, 31nat,
{
    match symbol_or_member(text, pos) {
        Some((object, target, equal)) => if has(text, equal, Glyph::Equal) && equal >= pos {
            match form(text, equal + 1) {
                Some((value, end)) => Some(
                    (Node::Assign { object, target, value: Box::new(value) }, end),
                ),
                None => None,
            }
        } else {
            None
        },
        None => None,
    }
}

/// A statement: an assignment or a form, closed by `。`.
pub open spec fn code_block(text: Seq<Glyph>, pos: nat) -> Option<(Node, nat)>
    decreases text.len() - pos, 40nat,
{
    let inner = match assign(text, pos) {
        Some(r) => Some(r),
        None => form(text, pos),
    };
    match inner {
        Some((node, end)) => if has(text, end, Glyph::EndOfTerm) {
            Some((node, end + 1))
        } else {
            None
        },
        None => None,
    }
}

/// A program: statements from the start to the end of the text.  If the
/// statements end before the text does, the position where they end is the
/// error.
pub open spec fn program(text: Seq<Glyph>) -> Result<Seq<Node>, nat> {
    let (nodes, end) = statements(text, 0);
    if end == text.len() {
        Ok(nodes)
    } else {
        Err(end)
    }
}

/// The operators, brackets and marks as tokens.
#[derive(Debug, PartialOrd, PartialEq, Eq, Copy, Clone, Structural)]
pub enum SpecialToken {
    Plus,
    Minus,
    Astar,
    Slash,
    Exclamation,
    Equal,
    DoubleEqual,
    NotEqual,
    And,
    Or,
    Lt,
    Lte,
    Gt,
    Gte,
    OpenParentheses,
    CloseParentheses,
    OpenAngles,
    CloseAngles,
    Pipe,
    EndOfTerm,
    Comma,
    Colon,
}

/// The token `+` or `-` at a position.
pub open spec fn plus_minus(text: Seq<Glyph>, pos: nat) -> Option<(SpecialToken, nat)> {
    match glyph_at(text, pos) {
        Some(Glyph::Plus) => Some((SpecialToken::Plus, pos + 1)),
        Some(Glyph::Minus) => Some((SpecialToken::Minus, pos + 1)),
        _ => None,
    }
}

/// The token that ends a name at a position: the token of the one glyph
/// there, but for `&`, which is a token only when doubled.  The tokens of
/// two glyphs that begin with a token of one glyph are not found this way.
pub open spec fn specials(text: Seq<Glyph>, pos: nat) -> Option<(SpecialToken, nat)> {
    match glyph_at(text, pos) {
        Some(Glyph::Plus) => Some((SpecialToken::Plus, pos + 1)),
        Some(Glyph::Minus) => Some((SpecialToken::Minus, pos + 1)),
        Some(Glyph::Star) => Some((SpecialToken::Astar, pos + 1)),
        Some(Glyph::Slash) => Some((SpecialToken::Slash, pos + 1)),
        Some(Glyph::Bang) => Some((SpecialToken::Exclamation, pos + 1)),
        Some(Glyph::Equal) => Some((SpecialToken::Equal, pos + 1)),
        Some(Glyph::EndOfTerm) => Some((SpecialToken::EndOfTerm, pos + 1)),
        Some(Glyph::OpenParen) => Some((SpecialToken::OpenParentheses, pos + 1)),
        Some(Glyph::CloseParen) => Some((SpecialToken::CloseParentheses, pos + 1)),
        Some(Glyph::OpenBlock) => Some((SpecialToken::OpenAngles, pos + 1)),
        Some(Glyph::CloseBlock) => Some((SpecialToken::CloseAngles, pos + 1)),
        Some(Glyph::Comma) => Some((SpecialToken::Comma, pos + 1)),
        Some(Glyph::Bar) => Some((SpecialToken::Pipe, pos + 1)),
        Some(Glyph::Colon) => Some((SpecialToken::Colon, pos + 1)),
        Some(Glyph::Lt) => Some((SpecialToken::Lt, pos + 1)),
        Some(Glyph::Gt) => Some((SpecialToken::Gt, pos + 1)),
        Some(Glyph::Amp) => if has(text, pos + 1, Glyph::Amp) {
            Some((SpecialToken::And, pos + 2))
        } else {
            None
        },
        _ => None,
    }
}

/// The statements of a source text, or the position in characters where
/// the statements end before the text does.
pub open spec fn parsed(source: Seq<char>) -> Result<Seq<Node>, nat> {
    program(glyphs_of(source))
}

/// Two characters that the grammar cannot tell apart.
pub open spec fn alike(a: char, b: char) -> bool {
    glyph_of(a) == glyph_of(b)
}

/// The ASCII and the full-width form of every operator and bracket, and
/// the two forms of the block brackets and of the comma, are alike.
pub proof fn lemma_forms_alike()
    ensures
        alike('+', '＋'),
        alike('*', '＊'),
        alike('!', '！'),
        alike('=', '＝'),
        alike('&', '＆'),
        alike('|', '｜'),
        alike('<', '＜'),
        alike('>', '＞'),
        alike('(', '（'),
        alike(')', '）'),
        alike('[', '「'),
        alike(']', '」'),
        alike(',', '、'),
        alike(':', '：'),
{
}

/// Texts that are alike character by character parse alike: they give the
/// same statements, or fail at the same position.  So a text in which
/// operators and brackets are written in their ASCII form and the same
/// text with any of them in full width give equal trees.
pub proof fn lemma_alike_texts_parse_alike(a: Seq<char>, b: Seq<char>)
    requires
        a.len() == b.len(),
        forall|i: int| 0 <= i < a.len() ==> alike(a[i], b[i]),
    ensures
        parsed(a) == parsed(b),
{
    assert(glyphs_of(a) =~= glyphs_of(b));
}

/// A number depends on the values of its digits alone: rows of ASCII and
/// of full-width digits with the same values are the same number.
pub proof fn lemma_number_by_digit_values(a: Seq<Glyph>, b: Seq<Glyph>)
    requires
        a.len() == b.len(),
        forall|i: int| 0 <= i < a.len() ==> a[i] is Digit && b[i] is Digit && digit_value(kept(a[i]))
            == digit_value(kept(b[i])),
    ensures
        number(a, 0) == number(b, 0),
{
    if a.len() > 0 {
        lemma_digits_end(a, 1);
        lemma_digits_end(b, 1);
        assert(digits_between(a, 0, a.len()) =~= digits_between(b, 0, b.len()));
    }
}

/// Whether every character is an ASCII or a full-width decimal digit.
pub open spec fn all_decimal(text: Seq<char>) -> bool {
    forall|i: int| 0 <= i < text.len() ==> ascii_digit(#[trigger] text[i]) || wide_digit(text[i])
}

/// The values of the digits of a text.
pub open spec fn digit_values(text: Seq<char>) -> Seq<u8> {
    Seq::new(text.len(), |i: int| digit_value(text[i]))
}

/// A text of decimal digits is a number, whichever form its digits have:
/// the number that the values of its digits write.  So a number in
/// full-width digits is the number in ASCII digits.
pub proof fn lemma_digits_are_a_number(text: Seq<char>)
    requires
        text.len() > 0,
        all_decimal(text),
    ensures
        number(glyphs_of(text), 0) == Some(
            (
                Node::StaticValue(Value::Num(nearest(decimal_value(digit_values(text))))),
                text.len() as nat,
            ),
        ),
{
    let glyphs = glyphs_of(text);
    assert forall|i: int| 0 <= i < glyphs.len() implies glyphs[i] == Glyph::Digit(text[i]) by {
        assert(ascii_digit(text[i]) || wide_digit(text[i]));
    }
    lemma_digits_end(glyphs, 1);
    assert(digits_between(glyphs, 0, glyphs.len()) =~= digit_values(text));
}

/// A row of digits ends where the text ends.
pub proof fn lemma_digits_end(text: Seq<Glyph>, pos: nat)
    requires
        pos <= text.len(),
        forall|i: int| 0 <= i < text.len() ==> text[i] is Digit,
    ensures
        digits_end(text, pos) == text.len(),
    decreases text.len() - pos,
{
    if pos < text.len() {
        lemma_digits_end(text, pos + 1);
    }
}

} // verus!
