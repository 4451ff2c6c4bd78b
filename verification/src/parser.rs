//! The parser: from source text to syntax trees, rule by rule as the
//! grammar says.

use vstd::prelude::*;
use crate::ast::{
    child_view, names_view, node_view, nodes_view, ASTNode, AssignImpl, BinaryOperator,
    BinaryOperatorImpl, BlockDefineImpl, DeclImpl, MethodCallImpl, Node,
};
use crate::grammar;
use crate::grammar::{
    digit_value, digits_between, glyph_of, glyphs_of, has, kept, kept_between, name_part,
    special_glyph, unicode_numeric, unicode_whitespace, Glyph, Level,
};
use crate::number::{all_digits, decimal_value, from_decimal, nearest};
use crate::types::Value;

verus! {

/// Says whether Unicode counts the character as whitespace, as
/// `nom_unicode::is_whitespace` finds it.  Nothing more is claimed of the
/// answer than that it depends on the character alone.
#[verifier::external_body]
fn is_whitespace(c: char) -> (r: bool)
    ensures
        r == unicode_whitespace(c),
{
    nom_unicode::is_whitespace(c)
}

/// Says whether Unicode counts the character as numeric, as
/// `nom_unicode::is_numeric` finds it.  Nothing more is claimed of the
/// answer than that it depends on the character alone.
#[verifier::external_body]
fn is_numeric(c: char) -> (r: bool)
    ensures
        r == unicode_numeric(c),
{
    nom_unicode::is_numeric(c)
}

/// The glyph of an operator, a bracket or a mark, if the character is one.
pub fn special(c: char) -> (r: Option<Glyph>)
    ensures
        r == special_glyph(c),
{
    if c == '+' || c == '＋' {
        Some(Glyph::Plus)
    } else if c == '-' {
        Some(Glyph::Minus)
    } else if c == '*' || c == '＊' {
        Some(Glyph::Star)
    } else if c == '/' {
        Some(Glyph::Slash)
    } else if c == '!' || c == '！' {
        Some(Glyph::Bang)
    } else if c == '=' || c == '＝' {
        Some(Glyph::Equal)
    } else if c == '&' || c == '＆' {
        Some(Glyph::Amp)
    } else if c == '|' || c == '｜' {
        Some(Glyph::Bar)
    } else if c == '<' || c == '＜' {
        Some(Glyph::Lt)
    } else if c == '>' || c == '＞' {
        Some(Glyph::Gt)
    } else if c == '(' || c == '（' {
        Some(Glyph::OpenParen)
    } else if c == ')' || c == '）' {
        Some(Glyph::CloseParen)
    } else if c == '「' || c == '[' {
        Some(Glyph::OpenBlock)
    } else if c == '」' || c == ']' {
        Some(Glyph::CloseBlock)
    } else if c == '、' || c == ',' {
        Some(Glyph::Comma)
    } else if c == '：' || c == ':' {
        Some(Glyph::Colon)
    } else if c == '。' {
        Some(Glyph::EndOfTerm)
    } else {
        None
    }
}

/// The glyph of a character.
pub fn classify(c: char) -> (r: Glyph)
    ensures
        r == glyph_of(c),
{
    match special(c) {
        Some(g) => g,
        None => if ('0' <= c && c <= '9') || ('０' <= c && c <= '９') {
            Glyph::Digit(c)
        } else if is_whitespace(c) {
            Glyph::Space
        } else if is_numeric(c) {
            Glyph::Numeric(c)
        } else {
            Glyph::Letter(c)
        },
    }
}

/// The value of an ASCII or full-width decimal digit; 0 for another
/// character.
pub fn digit(c: char) -> (r: u8)
    ensures
        r == digit_value(c),
        r <= 9,
{
    if '0' <= c && c <= '9' {
        (c as u32 - '0' as u32) as u8
    } else if '０' <= c && c <= '９' {
        (c as u32 - '０' as u32) as u8
    } else {
        0
    }
}

/// The characters of a text.
pub fn chars_of(input: &str) -> (r: Vec<char>)
    ensures
        r@ == input@,
{
    let mut out: Vec<char> = Vec::new();
    for c in iter: input.chars()
        invariant
            out@ == iter.history(),
            iter.seq() == input@,
    {
        out.push(c);
    }
    out
}

/// The glyphs of a row of characters.
pub fn scan(chars: &Vec<char>) -> (r: Vec<Glyph>)
    ensures
        r@ == glyphs_of(chars@),
{
    let mut out: Vec<Glyph> = Vec::new();
    let mut i: usize = 0;
    while i < chars.len()
        invariant
            i <= chars.len(),
            out.len() == i,
            forall|j: int| 0 <= j < i ==> out[j] == glyph_of(chars[j]),
        decreases chars.len() - i,
    {
        out.push(classify(chars[i]));
        i += 1;
    }
    assert(out@ =~= glyphs_of(chars@));
    out
}

/// Appends a character to a string, as `String::push` does.
pub assume_specification[ String::push ](s: &mut String, c: char)
    ensures
        final(s)@ == old(s)@.push(c),
;

/// Whether the glyph `glyph` stands at the position.
fn glyph_is(text: &Vec<Glyph>, pos: usize, glyph: Glyph) -> (r: bool)
    ensures
        r == has(text@, pos as nat, glyph),
{
    pos < text.len() && text[pos] == glyph
}

/// The first position from `pos` on that holds no whitespace.
fn skip(text: &Vec<Glyph>, pos: usize) -> (r: usize)
    requires
        pos <= text.len(),
    ensures
        r == grammar::skip_spaces(text@, pos as nat),
        pos <= r <= text.len(),
{
    let mut i = pos;
    while i < text.len() && text[i] == Glyph::Space
        invariant
            pos <= i <= text.len(),
            grammar::skip_spaces(text@, i as nat) == grammar::skip_spaces(text@, pos as nat),
        decreases text.len() - i,
    {
        i += 1;
    }
    i
}

/// Whether the glyph can stand in a name.
fn is_name_part(glyph: Glyph) -> (r: bool)
    ensures
        r == name_part(glyph),
{
    match glyph {
        Glyph::Letter(_) => true,
        Glyph::Digit(_) => true,
        Glyph::Numeric(_) => true,
        _ => false,
    }
}

/// The character that a glyph of a name or a number keeps.
fn kept_char(glyph: Glyph) -> (r: char)
    ensures
        r == kept(glyph),
{
    match glyph {
        Glyph::Letter(c) => c,
        Glyph::Digit(c) => c,
        Glyph::Numeric(c) => c,
        _ => ' ',
    }
}

/// A name at the position, and the position behind it.
fn parse_symbol(text: &Vec<Glyph>, pos: usize) -> (r: Option<(String, usize)>)
    requires
        pos <= text.len(),
    ensures
        match r {
            Some((name, end)) => grammar::symbol(text@, pos as nat) == Some((name@, end as nat))
                && pos < end <= text.len(),
            None => grammar::symbol(text@, pos as nat) is None,
        },
{
    if pos >= text.len() {
        return None;
    }
    match text[pos] {
        Glyph::Letter(first) => {
            let mut name = String::new();
            name.push(first);
            let mut i = pos + 1;
            while i < text.len() && is_name_part(text[i])
                invariant
                    pos < i <= text.len(),
                    grammar::name_end(text@, i as nat) == grammar::name_end(
                        text@,
                        (pos + 1) as nat,
                    ),
                    name@ == kept_between(text@, pos as nat, i as nat),
                decreases text.len() - i,
            {
                name.push(kept_char(text[i]));
                assert(name@ =~= kept_between(text@, pos as nat, (i + 1) as nat));
                i += 1;
            }
            Some((name, i))
        },
        _ => None,
    }
}

/// A number at the position, and the position behind it.
fn parse_number(text: &Vec<Glyph>, pos: usize) -> (r: Option<(ASTNode, usize)>)
    requires
        pos <= text.len(),
    ensures
        match r {
            Some((node, end)) => grammar::number(text@, pos as nat) == Some((node@, end as nat))
                && pos < end <= text.len(),
            None => grammar::number(text@, pos as nat) is None,
        },
{
    if pos >= text.len() {
        return None;
    }
    match text[pos] {
        Glyph::Digit(first) => {
            let mut digits: Vec<u8> = Vec::new();
            digits.push(digit(first));
            let mut i = pos + 1;
            while i < text.len() && is_digit(text[i])
                invariant
                    pos < i <= text.len(),
                    grammar::digits_end(text@, i as nat) == grammar::digits_end(
                        text@,
                        (pos + 1) as nat,
                    ),
                    digits@ == digits_between(text@, pos as nat, i as nat),
                    all_digits(digits@),
                decreases text.len() - i,
            {
                digits.push(digit(kept_char(text[i])));
                assert(digits@ =~= digits_between(text@, pos as nat, (i + 1) as nat));
                i += 1;
            }
            Some((ASTNode::StaticValue(Value::Num(from_decimal(&digits))), i))
        },
        _ => None,
    }
}

/// Whether the glyph is a decimal digit.
fn is_digit(glyph: Glyph) -> (r: bool)
    ensures
        r == (glyph is Digit),
{
    match glyph {
        Glyph::Digit(_) => true,
        _ => false,
    }
}

/// The binary operator of a level that stands at a position, and how many
/// glyphs it takes.
fn parse_operator(text: &Vec<Glyph>, pos: usize, level: Level) -> (r: Option<
    (BinaryOperator, usize),
>)
    requires
        pos <= text.len(),
    ensures
        match r {
            Some((operator, width)) => grammar::operator_at(text@, pos as nat, level) == Some(
                (operator, width as nat),
            ) && 1 <= width && pos + width <= text.len(),
            None => grammar::operator_at(text@, pos as nat, level) is None,
        },
{
    if pos >= text.len() {
        return None;
    }
    let follows_equal = pos + 1 < text.len() && text[pos + 1] == Glyph::Equal;
    let first = text[pos];
    match level {
        Level::MulDiv => match first {
            Glyph::Star => Some((BinaryOperator::Mul, 1)),
            Glyph::Slash => Some((BinaryOperator::Div, 1)),
            _ => None,
        },
        Level::AddSub => match first {
            Glyph::Plus => Some((BinaryOperator::Add, 1)),
            Glyph::Minus => Some((BinaryOperator::Sub, 1)),
            _ => None,
        },
        Level::Compare => match first {
            Glyph::Lt => if follows_equal {
                Some((BinaryOperator::Lte, 2))
            } else {
                Some((BinaryOperator::Lt, 1))
            },
            Glyph::Gt => if follows_equal {
                Some((BinaryOperator::Gte, 2))
            } else {
                Some((BinaryOperator::Gt, 1))
            },
            _ => None,
        },
        Level::EqNe => match first {
            Glyph::Equal => if follows_equal {
                Some((BinaryOperator::Eq, 2))
            } else {
                None
            },
            Glyph::Bang => if follows_equal {
                Some((BinaryOperator::Ne, 2))
            } else {
                None
            },
            _ => None,
        },
        Level::And => match first {
            Glyph::Amp => if glyph_is(text, pos + 1, Glyph::Amp) {
                Some((BinaryOperator::And, 2))
            } else {
                None
            },
            _ => None,
        },
        Level::Or => match first {
            Glyph::Bar => if glyph_is(text, pos + 1, Glyph::Bar) {
                Some((BinaryOperator::Or, 2))
            } else {
                None
            },
            _ => None,
        },
    }
}

/// A parameter list at the position, and the position behind it.
fn parse_dummy_args_list(text: &Vec<Glyph>, pos: usize) -> (r: Option<(Vec<String>, usize)>)
    requires
        pos <= text.len(),
    ensures
        match r {
            Some((names, end)) => grammar::dummy_args_list(text@, pos as nat) == Some(
                (names_view(names@), end as nat),
            ) && pos < end <= text.len(),
            None => grammar::dummy_args_list(text@, pos as nat) is None,
        },
{
    if !glyph_is(text, pos, Glyph::Bar) {
        return None;
    }
    let mut names: Vec<String> = Vec::new();
    let mut end = pos + 1;
    match parse_symbol(text, pos + 1) {
        Some((first, behind)) => {
            names.push(first);
            end = behind;
            assert(names_view(names@) =~= seq![first@]);
            loop
                invariant
                    pos < end <= text.len(),
                    names.len() >= 1,
                    ({
                        let (others, last) = grammar::more_names(text@, end as nat);
                        let (all, stop) = grammar::more_names(text@, behind as nat);
                        seq![first@] + all == names_view(names@) + others && stop == last
                    }),
                ensures
                    grammar::more_names(text@, end as nat) == (
                        Seq::<Seq<char>>::empty(),
                        end as nat,
                    ),
                decreases text.len() - end,
            {
                let comma = skip(text, end);
                if !glyph_is(text, comma, Glyph::Comma) {
                    break ;
                }
                match parse_symbol(text, skip(text, comma + 1)) {
                    Some((name, next)) => {
                        let ghost before = names_view(names@);
                        let ghost (others, last) = grammar::more_names(text@, next as nat);
                        names.push(name);
                        assert(names_view(names@) =~= before.push(name@));
                        assert(before + (seq![name@] + others) =~= before.push(name@) + others);
                        end = next;
                    },
                    None => {
                        break ;
                    },
                }
            }
            assert(names_view(names@) + Seq::<Seq<char>>::empty() =~= names_view(names@));
        },
        None => {
            assert(names_view(names@) =~= Seq::<Seq<char>>::empty());
        },
    }
    if glyph_is(text, end, Glyph::Bar) {
        Some((names, end + 1))
    } else {
        None
    }
}

/// Whether what a rule found is what the grammar says: the same tree and
/// the same end, which lies behind the start and within the text.
pub open spec fn found(
    r: Option<(ASTNode, usize)>,
    expected: Option<(Node, nat)>,
    pos: usize,
    len: usize,
) -> bool {
    match r {
        Some((node, end)) => expected == Some((node@, end as nat)) && pos < end <= len,
        None => expected is None,
    }
}

/// Whether a list that a rule found is what the grammar says.
pub open spec fn found_all(
    r: (Vec<ASTNode>, usize),
    expected: (Seq<Node>, nat),
    pos: usize,
    len: usize,
) -> bool {
    expected == (nodes_view(r.0@), r.1 as nat) && pos <= r.1 <= len
}

/// A form at the position.
fn parse_form(text: &Vec<Glyph>, pos: usize) -> (r: Option<(ASTNode, usize)>)
    requires
        pos <= text.len(),
    ensures
        found(r, grammar::form(text@, pos as nat), pos, text.len()),
    decreases text.len() - pos, 30nat,
{
    match parse_method_call(text, pos) {
        Some(r) => Some(r),
        None => match parse_term(text, pos, Level::Or) {
            Some(r) => Some(r),
            None => match parse_block(text, pos) {
                Some(r) => Some(r),
                None => match parse_decl(text, pos) {
                    Some(r) => Some(r),
                    None => parse_number(text, pos),
                },
            },
        },
    }
}

/// A form between parentheses at the position.
fn parse_parenthesized(text: &Vec<Glyph>, pos: usize) -> (r: Option<(ASTNode, usize)>)
    requires
        pos <= text.len(),
    ensures
        found(r, grammar::parenthesized(text@, pos as nat), pos, text.len()),
    decreases text.len() - pos, 2nat,
{
    if !glyph_is(text, pos, Glyph::OpenParen) {
        return None;
    }
    match parse_form(text, pos + 1) {
        Some((node, end)) => if glyph_is(text, end, Glyph::CloseParen) {
            Some((node, end + 1))
        } else {
            None
        },
        None => None,
    }
}

/// A name, read as a binding, or a form between parentheses.
fn parse_symbol_or_parentheses_form(text: &Vec<Glyph>, pos: usize) -> (r: Option<
    (ASTNode, usize),
>)
    requires
        pos <= text.len(),
    ensures
        found(r, grammar::symbol_or_parentheses_form(text@, pos as nat), pos, text.len()),
    decreases text.len() - pos, 3nat,
{
    match parse_symbol(text, pos) {
        Some((name, end)) => {
            let node = ASTNode::Decl(DeclImpl { object: None, target: name });
            assert(child_view(None) is None);
            Some((node, end))
        },
        None => parse_parenthesized(text, pos),
    }
}

/// A name, or an object, a colon and a name.
fn parse_symbol_or_member(text: &Vec<Glyph>, pos: usize) -> (r: Option<
    (Option<Box<ASTNode>>, String, usize),
>)
    requires
        pos <= text.len(),
    ensures
        match r {
            Some((object, name, end)) => grammar::symbol_or_member(text@, pos as nat) == Some(
                (child_view(object), name@, end as nat),
            ) && pos < end <= text.len(),
            None => grammar::symbol_or_member(text@, pos as nat) is None,
        },
    decreases text.len() - pos, 4nat,
{
    match parse_symbol_or_parentheses_form(text, pos) {
        Some((object, colon)) => {
            if glyph_is(text, colon, Glyph::Colon) {
                match parse_symbol(text, colon + 1) {
                    Some((name, end)) => {
                        let boxed = Some(Box::new(object));
                        assert(child_view(boxed) == Some(Box::new(node_view(object))));
                        return Some((boxed, name, end));
                    },
                    None => {},
                }
            }
        },
        None => {},
    }
    match parse_symbol(text, pos) {
        Some((name, end)) => {
            assert(child_view(None) is None);
            Some((None, name, end))
        },
        None => None,
    }
}

/// A read of a binding or of a member at the position.
fn parse_decl(text: &Vec<Glyph>, pos: usize) -> (r: Option<(ASTNode, usize)>)
    requires
        pos <= text.len(),
    ensures
        found(r, grammar::decl(text@, pos as nat), pos, text.len()),
    decreases text.len() - pos, 5nat,
{
    match parse_symbol_or_member(text, pos) {
        Some((object, target, end)) => Some((ASTNode::Decl(DeclImpl { object, target }), end)),
        None => None,
    }
}

/// The statements from the position on.
fn parse_statements(text: &Vec<Glyph>, pos: usize) -> (r: (Vec<ASTNode>, usize))
    requires
        pos <= text.len(),
    ensures
        found_all(r, grammar::statements(text@, pos as nat), pos, text.len()),
    decreases text.len() - pos, 41nat,
{
    match parse_code_block(text, pos) {
        Some((statement, end)) => {
            let next = skip(text, end);
            let (others, last) = parse_statements(text, next);
            let mut all: Vec<ASTNode> = Vec::new();
            let ghost first = statement@;
            all.push(statement);
            let mut others = others;
            let ghost rest = nodes_view(others@);
            all.append(&mut others);
            assert(nodes_view(all@) =~= seq![first] + rest);
            (all, last)
        },
        None => {
            let none: Vec<ASTNode> = Vec::new();
            assert(nodes_view(none@) =~= Seq::<Node>::empty());
            (none, pos)
        },
    }
}

/// A block at the position.
fn parse_block(text: &Vec<Glyph>, pos: usize) -> (r: Option<(ASTNode, usize)>)
    requires
        pos <= text.len(),
    ensures
        found(r, grammar::block(text@, pos as nat), pos, text.len()),
    decreases text.len() - pos, 6nat,
{
    if !glyph_is(text, pos, Glyph::OpenBlock) {
        return None;
    }
    let (dummy_args, after) = match parse_dummy_args_list(text, pos + 1) {
        Some(r) => r,
        None => {
            let none: Vec<String> = Vec::new();
            assert(names_view(none@) =~= Seq::<Seq<char>>::empty());
            (none, pos + 1)
        },
    };
    let start = skip(text, after);
    let (body, end) = parse_statements(text, start);
    if glyph_is(text, end, Glyph::CloseBlock) {
        Some((ASTNode::BlockDefine(BlockDefineImpl { dummy_args, body }), end + 1))
    } else {
        None
    }
}

/// A single value at the position.
fn parse_single_value(text: &Vec<Glyph>, pos: usize) -> (r: Option<(ASTNode, usize)>)
    requires
        pos <= text.len(),
    ensures
        found(r, grammar::single_value(text@, pos as nat), pos, text.len()),
    decreases text.len() - pos, 7nat,
{
    match parse_number(text, pos) {
        Some(r) => Some(r),
        None => match parse_block(text, pos) {
            Some(r) => Some(r),
            None => match parse_decl(text, pos) {
                Some(r) => Some(r),
                None => parse_parenthesized(text, pos),
            },
        },
    }
}

/// An argument of a method call at the position.
fn parse_single_value_without_decl(text: &Vec<Glyph>, pos: usize) -> (r: Option<
    (ASTNode, usize),
>)
    requires
        pos <= text.len(),
    ensures
        found(r, grammar::single_value_without_decl(text@, pos as nat), pos, text.len()),
    decreases text.len() - pos, 7nat,
{
    match parse_number(text, pos) {
        Some(r) => Some(r),
        None => match parse_block(text, pos) {
            Some(r) => Some(r),
            None => parse_parenthesized(text, pos),
        },
    }
}

/// The level of the left operand.
fn tighter(level: Level) -> (r: Level)
    ensures
        r == level.tighter(),
{
    match level {
        Level::MulDiv => Level::MulDiv,
        Level::AddSub => Level::MulDiv,
        Level::Compare => Level::AddSub,
        Level::EqNe => Level::Compare,
        Level::And => Level::EqNe,
        Level::Or => Level::And,
    }
}

/// The level of the right operand.
fn right_of(level: Level) -> (r: Level)
    ensures
        r == level.right(),
{
    match level {
        Level::Compare => Level::And,
        Level::EqNe => Level::And,
        level => level,
    }
}

/// An expression of the binary operators of a level at the position.
fn parse_term(text: &Vec<Glyph>, pos: usize, level: Level) -> (r: Option<(ASTNode, usize)>)
    requires
        pos <= text.len(),
    ensures
        found(r, grammar::term(text@, pos as nat, level), pos, text.len()),
    decreases text.len() - pos, 10 + level.rank(),
{
    let first = match level {
        Level::MulDiv => parse_single_value(text, pos),
        _ => parse_term(text, pos, tighter(level)),
    };
    match first {
        Some((left, end)) => {
            let at = skip(text, end);
            match parse_operator(text, at, level) {
                Some((operator, width)) => {
                    let start = skip(text, at + width);
                    match parse_term(text, start, right_of(level)) {
                        Some((right, last)) => {
                            let node = ASTNode::DoBinaryOperator(
                                BinaryOperatorImpl {
                                    operator,
                                    left: Box::new(left),
                                    right: Box::new(right),
                                },
                            );
                            Some((node, last))
                        },
                        None => Some((left, end)),
                    }
                },
                None => Some((left, end)),
            }
        },
        None => None,
    }
}

/// The arguments of a method call from the position on.
fn parse_arguments(text: &Vec<Glyph>, pos: usize) -> (r: (Vec<ASTNode>, usize))
    requires
        pos <= text.len(),
    ensures
        found_all(r, grammar::arguments(text@, pos as nat), pos, text.len()),
    decreases text.len() - pos, 8nat,
{
    match parse_single_value_without_decl(text, pos) {
        Some((argument, end)) => {
            if glyph_is(text, end, Glyph::Space) {
                let next = skip(text, end);
                let (others, last) = parse_arguments(text, next);
                let mut all: Vec<ASTNode> = Vec::new();
                let ghost first = argument@;
                all.push(argument);
                let mut others = others;
                let ghost rest = nodes_view(others@);
                all.append(&mut others);
                assert(nodes_view(all@) =~= seq![first] + rest);
                return (all, last);
            }
        },
        None => {},
    }
    let none: Vec<ASTNode> = Vec::new();
    assert(nodes_view(none@) =~= Seq::<Node>::empty());
    (none, pos)
}

/// One call of a chain at the position: arguments and the name of the
/// method.
fn parse_one_call(text: &Vec<Glyph>, pos: usize) -> (r: Option<(Vec<ASTNode>, String, usize)>)
    requires
        pos <= text.len(),
    ensures
        match r {
            Some((args, method, end)) => grammar::one_call(text@, pos as nat) == Some(
                (nodes_view(args@), method@, end as nat),
            ) && pos < end <= text.len(),
            None => grammar::one_call(text@, pos as nat) is None,
        },
    decreases text.len() - pos, 9nat,
{
    let start = skip(text, pos);
    let (args, name_at) = parse_arguments(text, start);
    match parse_symbol(text, name_at) {
        Some((method, end)) => Some((args, method, end)),
        None => None,
    }
}

/// A method call at the position.
fn parse_method_call(text: &Vec<Glyph>, pos: usize) -> (r: Option<(ASTNode, usize)>)
    requires
        pos <= text.len(),
    ensures
        found(r, grammar::method_call(text@, pos as nat), pos, text.len()),
    decreases text.len() - pos, 20nat,
{
    match parse_single_value(text, pos) {
        Some((receiver, bang)) => {
            if !glyph_is(text, bang, Glyph::Bang) {
                return None;
            }
            match parse_one_call(text, bang + 1) {
                Some((args, method, end)) => {
                    let mut node = ASTNode::MethodCall(
                        MethodCallImpl { method, object: Box::new(receiver), args },
                    );
                    let mut at = end;
                    loop
                        invariant
                            pos < at <= text.len(),
                            grammar::call_chain(text@, at as nat, node@) == grammar::call_chain(
                                text@,
                                end as nat,
                                Node::MethodCall {
                                    method: method@,
                                    receiver: Box::new(receiver@),
                                    args: nodes_view(args@),
                                },
                            ),
                        ensures
                            grammar::call_chain(text@, at as nat, node@) == (node@, at as nat),
                        decreases text.len() - at,
                    {
                        match parse_one_call(text, at) {
                            Some((args, method, next)) => {
                                node = ASTNode::MethodCall(
                                    MethodCallImpl { method, object: Box::new(node), args },
                                );
                                at = next;
                            },
                            None => {
                                break ;
                            },
                        }
                    }
                    Some((node, at))
                },
                None => None,
            }
        },
        None => None,
    }
}

/// An assignment at the position.
fn parse_assign(text: &Vec<Glyph>, pos: usize) -> (r: Option<(ASTNode, usize)>)
    requires
        pos <= text.len(),
    ensures
        found(r, grammar::assign(text@, pos as nat), pos, text.len()),
    decreases text.len() - pos, 31nat,
{
    match parse_symbol_or_member(text, pos) {
        Some((object, target, equal)) => {
            if !glyph_is(text, equal, Glyph::Equal) {
                return None;
            }
            match parse_form(text, equal + 1) {
                Some((value, end)) => Some(
                    (
                        ASTNode::Assign(AssignImpl { object, target, value_node: Box::new(value) }),
                        end,
                    ),
                ),
                None => None,
            }
        },
        None => None,
    }
}

/// A statement at the position.
fn parse_code_block(text: &Vec<Glyph>, pos: usize) -> (r: Option<(ASTNode, usize)>)
    requires
        pos <= text.len(),
    ensures
        found(r, grammar::code_block(text@, pos as nat), pos, text.len()),
    decreases text.len() - pos, 40nat,
{
    let inner = match parse_assign(text, pos) {
        Some(r) => Some(r),
        None => parse_form(text, pos),
    };
    match inner {
        Some((node, end)) => if glyph_is(text, end, Glyph::EndOfTerm) {
            Some((node, end + 1))
        } else {
            None
        },
        None => None,
    }
}

/// Why a source text is no program.
#[derive(Debug, Clone, Copy, PartialEq, Eq, Structural)]
pub enum ParseErrorKind {
    /// The statements end before the text does.
    Eof,
}

/// Where and why a source text is no program: `rest` is the text that is
/// left where the statements end, `position` counts the characters before
/// it.
#[derive(Debug, Clone, PartialEq, Eq)]
pub struct ParseError {
    pub rest: String,
    pub position: usize,
    pub kind: ParseErrorKind,
}

/// Whether an error says that the statements of `source` end at `position`.
pub open spec fn refused(error: ParseError, source: Seq<char>, position: nat) -> bool {
    &&& error.position == position
    &&& error.kind == ParseErrorKind::Eof
    &&& error.rest@ == source.skip(position as int)
}

/// The characters from `from` on as a string.
pub fn rest_from(chars: &Vec<char>, from: usize) -> (r: String)
    requires
        from <= chars.len(),
    ensures
        r@ == chars@.skip(from as int),
{
    let mut rest = String::new();
    let mut i = from;
    while i < chars.len()
        invariant
            from <= i <= chars.len(),
            rest@ == chars@.subrange(from as int, i as int),
        decreases chars.len() - i,
    {
        rest.push(chars[i]);
        assert(rest@ =~= chars@.subrange(from as int, i + 1));
        i += 1;
    }
    assert(rest@ =~= chars@.skip(from as int));
    rest
}

/// Whether a rule's answer on a source text is what the grammar says: the
/// tree, and the rest of the text behind it.
pub open spec fn answered(
    r: Option<(String, ASTNode)>,
    source: Seq<char>,
    expected: Option<(Node, nat)>,
) -> bool {
    match expected {
        Some((node, end)) => r is Some && (r->0).1@ == node && (r->0).0@ == source.skip(end as int),
        None => r is None,
    }
}

/// Pairs the tree that a rule found with the rest of the text.
fn answer(chars: &Vec<char>, result: Option<(ASTNode, usize)>) -> (r: Option<(String, ASTNode)>)
    requires
        result is Some ==> (result->0).1 <= chars.len(),
    ensures
        match result {
            Some((node, end)) => r is Some && (r->0).1@ == node@ && (r->0).0@ == chars@.skip(
                end as int,
            ),
            None => r is None,
        },
{
    match result {
        Some((node, end)) => Some((rest_from(chars, end), node)),
        None => None,
    }
}

/// Parses a program: statements from the start to the end of the text.
/// If the statements end before the text does, the error names the
/// position where they end.
pub fn parse_program_code(input: &str) -> (r: Result<Vec<ASTNode>, ParseError>)
    ensures
        match grammar::parsed(input@) {
            Ok(nodes) => r is Ok && nodes_view((r->Ok_0)@) == nodes,
            Err(position) => r is Err && refused(r->Err_0, input@, position) && position
                < input@.len(),
        },
{
    let chars = chars_of(input);
    let text = scan(&chars);
    let (nodes, end) = parse_statements(&text, 0);
    if end == text.len() {
        Ok(nodes)
    } else {
        Err(ParseError { rest: rest_from(&chars, end), position: end, kind: ParseErrorKind::Eof })
    }
}

/// The name at the start of the text, and the rest of the text.
pub fn symbol(input: &str) -> (r: Option<(String, String)>)
    ensures
        match grammar::symbol(glyphs_of(input@), 0) {
            Some((name, end)) => r is Some && (r->0).1@ == name && (r->0).0@ == input@.skip(
                end as int,
            ),
            None => r is None,
        },
{
    let chars = chars_of(input);
    let text = scan(&chars);
    match parse_symbol(&text, 0) {
        Some((name, end)) => Some((rest_from(&chars, end), name)),
        None => None,
    }
}

/// The read of a binding or a member at the start of the text, and the
/// rest of the text.
pub fn decl(input: &str) -> (r: Option<(String, ASTNode)>)
    ensures
        answered(r, input@, grammar::decl(glyphs_of(input@), 0)),
{
    let chars = chars_of(input);
    let text = scan(&chars);
    answer(&chars, parse_decl(&text, 0))
}

/// The form at the start of the text, and the rest of the text.
pub fn form(input: &str) -> (r: Option<(String, ASTNode)>)
    ensures
        answered(r, input@, grammar::form(glyphs_of(input@), 0)),
{
    let chars = chars_of(input);
    let text = scan(&chars);
    answer(&chars, parse_form(&text, 0))
}

/// The statement at the start of the text, and the rest of the text.
pub fn code_block(input: &str) -> (r: Option<(String, ASTNode)>)
    ensures
        answered(r, input@, grammar::code_block(glyphs_of(input@), 0)),
{
    let chars = chars_of(input);
    let text = scan(&chars);
    answer(&chars, parse_code_block(&text, 0))
}

/// The assignment at the start of the text, and the rest of the text.
pub fn assign(input: &str) -> (r: Option<(String, ASTNode)>)
    ensures
        answered(r, input@, grammar::assign(glyphs_of(input@), 0)),
{
    let chars = chars_of(input);
    let text = scan(&chars);
    answer(&chars, parse_assign(&text, 0))
}

/// The block at the start of the text, and the rest of the text.
pub fn block(input: &str) -> (r: Option<(String, ASTNode)>)
    ensures
        answered(r, input@, grammar::block(glyphs_of(input@), 0)),
{
    let chars = chars_of(input);
    let text = scan(&chars);
    answer(&chars, parse_block(&text, 0))
}

/// The method call at the start of the text, and the rest of the text.
pub fn method_call(input: &str) -> (r: Option<(String, ASTNode)>)
    ensures
        answered(r, input@, grammar::method_call(glyphs_of(input@), 0)),
{
    let chars = chars_of(input);
    let text = scan(&chars);
    answer(&chars, parse_method_call(&text, 0))
}

/// The expression of the binary operators of `level` at the start of the
/// text, and the rest of the text.
pub fn term(input: &str, level: Level) -> (r: Option<(String, ASTNode)>)
    ensures
        answered(r, input@, grammar::term(glyphs_of(input@), 0, level)),
{
    let chars = chars_of(input);
    let text = scan(&chars);
    answer(&chars, parse_term(&text, 0, level))
}

/// The expression of any binary operators at the start of the text, and
/// the rest of the text.
pub fn or_term(input: &str) -> (r: Option<(String, ASTNode)>)
    ensures
        answered(r, input@, grammar::term(glyphs_of(input@), 0, Level::Or)),
{
    term(input, Level::Or)
}

/// The parameter list at the start of the text, and the rest of the text.
pub fn dummy_args_list(input: &str) -> (r: Option<(String, Vec<String>)>)
    ensures
        match grammar::dummy_args_list(glyphs_of(input@), 0) {
            Some((names, end)) => r is Some && names_view((r->0).1@) == names && (r->0).0@
                == input@.skip(end as int),
            None => r is None,
        },
{
    let chars = chars_of(input);
    let text = scan(&chars);
    match parse_dummy_args_list(&text, 0) {
        Some((names, end)) => Some((rest_from(&chars, end), names)),
        None => None,
    }
}

/// The name, or the object, colon and name, at the start of the text, and
/// the rest of the text.
pub fn symbol_or_member(input: &str) -> (r: Option<(String, (Option<ASTNode>, String))>)
    ensures
        match grammar::symbol_or_member(glyphs_of(input@), 0) {
            Some((object, name, end)) => r is Some && crate::ast::option_view((r->0).1.0)
                == object && (r->0).1.1@ == name && (r->0).0@ == input@.skip(end as int),
            None => r is None,
        },
{
    let chars = chars_of(input);
    let text = scan(&chars);
    match parse_symbol_or_member(&text, 0) {
        Some((object, name, end)) => {
            let object = match object {
                Some(o) => {
                    assert(child_view(Some(o)) == Some(Box::new(node_view(*o))));
                    Some(*o)
                },
                None => {
                    assert(child_view(None) is None);
                    None
                },
            };
            Some((rest_from(&chars, end), (object, name)))
        },
        None => None,
    }
}

/// The token `+` or `-` at the start of the text, and the rest of the
/// text.
pub fn plus_minus(input: &str) -> (r: Option<(String, grammar::SpecialToken)>)
    ensures
        match grammar::plus_minus(glyphs_of(input@), 0) {
            Some((token, end)) => r is Some && (r->0).1 == token && (r->0).0@ == input@.skip(
                end as int,
            ),
            None => r is None,
        },
{
    let chars = chars_of(input);
    let text = scan(&chars);
    if text.len() == 0 {
        return None;
    }
    match text[0] {
        Glyph::Plus => Some((rest_from(&chars, 1), grammar::SpecialToken::Plus)),
        Glyph::Minus => Some((rest_from(&chars, 1), grammar::SpecialToken::Minus)),
        _ => None,
    }
}

/// The token that ends a name at a position.
fn parse_specials(text: &Vec<Glyph>, pos: usize) -> (r: Option<(grammar::SpecialToken, usize)>)
    requires
        pos <= text.len(),
    ensures
        match r {
            Some((token, end)) => grammar::specials(text@, pos as nat) == Some(
                (token, end as nat),
            ) && pos < end <= text.len(),
            None => grammar::specials(text@, pos as nat) is None,
        },
{
    if pos >= text.len() {
        return None;
    }
    match text[pos] {
        Glyph::Plus => Some((grammar::SpecialToken::Plus, pos + 1)),
        Glyph::Minus => Some((grammar::SpecialToken::Minus, pos + 1)),
        Glyph::Star => Some((grammar::SpecialToken::Astar, pos + 1)),
        Glyph::Slash => Some((grammar::SpecialToken::Slash, pos + 1)),
        Glyph::Bang => Some((grammar::SpecialToken::Exclamation, pos + 1)),
        Glyph::Equal => Some((grammar::SpecialToken::Equal, pos + 1)),
        Glyph::EndOfTerm => Some((grammar::SpecialToken::EndOfTerm, pos + 1)),
        Glyph::OpenParen => Some((grammar::SpecialToken::OpenParentheses, pos + 1)),
        Glyph::CloseParen => Some((grammar::SpecialToken::CloseParentheses, pos + 1)),
        Glyph::OpenBlock => Some((grammar::SpecialToken::OpenAngles, pos + 1)),
        Glyph::CloseBlock => Some((grammar::SpecialToken::CloseAngles, pos + 1)),
        Glyph::Comma => Some((grammar::SpecialToken::Comma, pos + 1)),
        Glyph::Bar => Some((grammar::SpecialToken::Pipe, pos + 1)),
        Glyph::Colon => Some((grammar::SpecialToken::Colon, pos + 1)),
        Glyph::Lt => Some((grammar::SpecialToken::Lt, pos + 1)),
        Glyph::Gt => Some((grammar::SpecialToken::Gt, pos + 1)),
        Glyph::Amp => if glyph_is(text, pos + 1, Glyph::Amp) {
            Some((grammar::SpecialToken::And, pos + 2))
        } else {
            None
        },
        _ => None,
    }
}

/// The token that ends a name at the start of the text, and the rest of
/// the text.
pub fn specials(input: &str) -> (r: Option<(String, grammar::SpecialToken)>)
    ensures
        match grammar::specials(glyphs_of(input@), 0) {
            Some((token, end)) => r is Some && (r->0).1 == token && (r->0).0@ == input@.skip(
                end as int,
            ),
            None => r is None,
        },
{
    let chars = chars_of(input);
    let text = scan(&chars);
    match parse_specials(&text, 0) {
        Some((token, end)) => Some((rest_from(&chars, end), token)),
        None => None,
    }
}

} // verus!
