use interpreter::ast::ASTNode;
use interpreter::grammar::{Level, SpecialToken};
use interpreter::parser::{
    assign, block, code_block, decl, dummy_args_list, form, method_call, or_term,
    parse_program_code, plus_minus, specials, symbol, symbol_or_member, term, ParseError,
    ParseErrorKind,
};
use interpreter::types::Value;
use interpreter::unicode_num::{parse_unicode, to_ascii_digit};

fn number(value: f64) -> ASTNode {
    ASTNode::new_static_value(&Value::Num(value.to_bits()))
}

fn all(node: ASTNode) -> Option<(String, ASTNode)> {
    Some((String::new(), node))
}

#[test]
fn it_works() {
    assert_eq!(2 + 2, 4);
}

#[test]
fn test_parse_program_code() {
    let result = parse_program_code(
        r#"かめた＝タートル！作る。

かめた！１００　歩く。
"#,
    );
    assert!(result.is_ok());
    assert_eq!(result.unwrap().len(), 2);
}

#[test]
fn parse_specials() {
    assert_eq!(specials("+"), Some((String::new(), SpecialToken::Plus)));
    assert_eq!(specials("＋"), Some((String::new(), SpecialToken::Plus)));
    assert_eq!(specials("1"), None);
    assert_eq!(specials("="), Some((String::new(), SpecialToken::Equal)));
    assert_eq!(specials("&&"), Some((String::new(), SpecialToken::And)));
    assert_eq!(specials("&"), None);
    assert_eq!(specials("。あ"), Some(("あ".to_string(), SpecialToken::EndOfTerm)));
}

#[test]
fn parse_symbol() {
    assert_eq!(symbol("なでこ"), Some((String::new(), "なでこ".to_string())));
    assert_eq!(symbol("なでこ1"), Some((String::new(), "なでこ1".to_string())));
    assert_eq!(symbol("なでこ１"), Some((String::new(), "なでこ１".to_string())));
    assert_eq!(symbol("１なでこ"), None);
    assert_eq!(symbol("！なでこ"), None);
    assert_eq!(symbol("なでこ　あ"), Some(("　あ".to_string(), "なでこ".to_string())));
    assert_eq!(symbol("Ⅷ"), None);
}

#[test]
fn parse_decl() {
    assert_eq!(decl("かめた"), all(ASTNode::new_decl(&None, "かめた")));
    assert_eq!(decl("かめた！"), Some(("！".to_string(), ASTNode::new_decl(&None, "かめた"))));
    assert_eq!(
        decl("かめた:歩幅"),
        all(ASTNode::new_decl(&Some(ASTNode::new_decl(&None, "かめた")), "歩幅"))
    );
}

#[test]
fn parse_method_call() {
    assert_eq!(
        method_call("タートル！作る"),
        all(ASTNode::new_method_call("作る", &ASTNode::new_decl(&None, "タートル"), &vec![]))
    );
    assert_eq!(
        method_call("かめた！(歩幅)　歩く"),
        all(ASTNode::new_method_call(
            "歩く",
            &ASTNode::new_decl(&None, "かめた"),
            &vec![ASTNode::new_decl(&None, "歩幅")]
        ))
    );
}

#[test]
fn parse_dummy_args_list() {
    assert_eq!(dummy_args_list("｜歩幅｜"), Some((String::new(), vec!["歩幅".to_string()])));
    assert_eq!(dummy_args_list("|歩幅|"), Some((String::new(), vec!["歩幅".to_string()])));
    assert_eq!(
        dummy_args_list("|歩幅, 角度|"),
        Some((String::new(), vec!["歩幅".to_string(), "角度".to_string()]))
    );
    assert_eq!(dummy_args_list("||"), Some((String::new(), vec![])));
    assert_eq!(dummy_args_list("|歩幅"), None);
}

#[test]
fn parse_block() {
    let walk = ASTNode::new_method_call(
        "歩く",
        &ASTNode::new_decl(&None, "かめた"),
        &vec![ASTNode::new_decl(&None, "歩幅")],
    );
    assert_eq!(
        block("「|歩幅| かめた！(歩幅)　歩く。」"),
        all(ASTNode::new_block_define(&vec!["歩幅"], &vec![walk.clone()]))
    );
    assert_eq!(
        block("「|歩幅|かめた！(歩幅)　歩く。」"),
        all(ASTNode::new_block_define(&vec!["歩幅"], &vec![walk.clone()]))
    );
    assert_eq!(
        block("「|歩幅|かめた！(歩幅)　歩く。かめた！ (歩幅)　歩く。」"),
        all(ASTNode::new_block_define(&vec!["歩幅"], &vec![walk.clone(), walk.clone()]))
    );
    let walk100 = ASTNode::new_method_call(
        "歩く",
        &ASTNode::new_decl(&None, "かめた"),
        &vec![number(100.0)],
    );
    assert_eq!(
        block("「||かめた！100　歩く。」"),
        all(ASTNode::new_block_define(&vec![], &vec![walk100.clone()]))
    );
    assert_eq!(
        block("「かめた！100　歩く。」"),
        all(ASTNode::new_block_define(&vec![], &vec![walk100]))
    );
}

#[test]
fn parse_symbol_or_member() {
    assert_eq!(symbol_or_member("X"), Some((String::new(), (None, "X".to_string()))));
    assert_eq!(
        symbol_or_member("かめた：X"),
        Some((String::new(), (Some(ASTNode::new_decl(&None, "かめた")), "X".to_string())))
    );
    assert_eq!(
        symbol_or_member("かめた：歩く２"),
        Some((String::new(), (Some(ASTNode::new_decl(&None, "かめた")), "歩く２".to_string())))
    );
}

#[test]
fn lib_kameta_create() {
    assert_eq!(
        code_block("かめた＝タートル！作る。"),
        all(ASTNode::new_assign(
            &None,
            "かめた",
            &ASTNode::new_method_call("作る", &ASTNode::new_decl(&None, "タートル"), &vec![])
        ))
    );
}

#[test]
fn lib_kameta_walk() {
    assert_eq!(
        code_block("かめた！１００　歩く。"),
        all(ASTNode::new_method_call(
            "歩く",
            &ASTNode::new_decl(&None, "かめた"),
            &vec![number(100.0)]
        ))
    );
}

#[test]
fn lib_kameta_walk_turn_left90() {
    assert_eq!(
        code_block("かめた！１００　歩く　９０　右回り。"),
        all(ASTNode::new_method_call(
            "右回り",
            &ASTNode::new_method_call(
                "歩く",
                &ASTNode::new_decl(&None, "かめた"),
                &vec![number(100.0)]
            ),
            &vec![number(90.0)]
        ))
    );
}

#[test]
fn parse_assign() {
    assert_eq!(
        assign("かめた：歩幅＝１００"),
        all(ASTNode::new_assign(
            &Some(ASTNode::new_decl(&None, "かめた")),
            "歩幅",
            &number(100.0)
        ))
    );
}

#[test]
fn numeric_forms() {
    assert_eq!(or_term("1 + 1"), all(ASTNode::new_add(&number(1.0), &number(1.0))));
    assert_eq!(or_term("1-1"), all(ASTNode::new_sub(&number(1.0), &number(1.0))));
    assert_eq!(or_term("1*1"), all(ASTNode::new_mul(&number(1.0), &number(1.0))));
    assert_eq!(or_term("1/1"), all(ASTNode::new_div(&number(1.0), &number(1.0))));
    assert_eq!(or_term("1<1"), all(ASTNode::new_lt(&number(1.0), &number(1.0))));
    assert_eq!(
        or_term("1 + 2 * 3"),
        all(ASTNode::new_add(&number(1.0), &ASTNode::new_mul(&number(2.0), &number(3.0))))
    );
    assert_eq!(
        or_term("(1 + 2) * 3"),
        all(ASTNode::new_mul(&ASTNode::new_add(&number(1.0), &number(2.0)), &number(3.0)))
    );
    assert_eq!(
        or_term("1 + 2 < 3"),
        all(ASTNode::new_lt(&ASTNode::new_add(&number(1.0), &number(2.0)), &number(3.0)))
    );
}

#[test]
fn method_assign_test() {
    let target = "かめた：歩く２＝「｜N｜　かめた！(N)　歩く。　かめた！(N)　歩く。」。";
    assert_eq!(
        code_block(target),
        all(ASTNode::new_assign(
            &Some(ASTNode::new_decl(&None, "かめた")),
            "歩く２",
            &ASTNode::new_block_define(
                &vec!["N"],
                &vec![
                    ASTNode::new_method_call(
                        "歩く",
                        &ASTNode::new_decl(&None, "かめた"),
                        &vec![ASTNode::new_decl(&None, "N")]
                    ),
                    ASTNode::new_method_call(
                        "歩く",
                        &ASTNode::new_decl(&None, "かめた"),
                        &vec![ASTNode::new_decl(&None, "N")]
                    ),
                ]
            )
        ))
    );
}

#[test]
fn repeat_block_4times() {
    let input = "「｜長さ｜「｜｜ かめた！（長さ）　歩く。かめた！９０　右回り。」！４　繰り返す。」。";
    assert_eq!(
        code_block(input),
        all(ASTNode::new_block_define(
            &vec!["長さ"],
            &vec![ASTNode::new_method_call(
                "繰り返す",
                &ASTNode::new_block_define(
                    &vec![],
                    &vec![
                        ASTNode::new_method_call(
                            "歩く",
                            &ASTNode::new_decl(&None, "かめた"),
                            &vec![ASTNode::new_decl(&None, "長さ")]
                        ),
                        ASTNode::new_method_call(
                            "右回り",
                            &ASTNode::new_decl(&None, "かめた"),
                            &vec![number(90.0)]
                        ),
                    ]
                ),
                &vec![number(4.0)],
            )],
        ))
    );
}

#[test]
fn lib_awesome_check() {
    let target = "タートル！作る";
    assert_eq!(decl(target), Some(("！作る".to_string(), ASTNode::new_decl(&None, "タートル"))));

    assert_eq!(parse_unicode("１００"), Some(100usize));

    assert_eq!(form("１００"), all(number(100.0)));

    assert_eq!(block("「|歩幅|かめた！(歩幅)　歩く (歩幅)　歩く。」").is_some(), true);

    assert_eq!(form("「||かめた！１００　歩く。」！４　繰り返す。").is_some(), true);

    assert_eq!(plus_minus("+").is_some(), true);
    assert_eq!(or_term("1+1").is_some(), true);
}

#[test]
fn test_to_ascii_digit() {
    assert_eq!(to_ascii_digit("０１２３４５６７８９abc"), "0123456789abc".to_string())
}

#[test]
fn test_parse_unicode_usize() {
    assert_eq!(parse_unicode("１２３"), Some(123usize));
    assert_eq!(parse_unicode("123"), Some(123usize));
    assert_eq!(parse_unicode("+7"), Some(7usize));
    assert_eq!(parse_unicode(""), None);
    assert_eq!(parse_unicode("+"), None);
    assert_eq!(parse_unicode("12a"), None);
    assert_eq!(parse_unicode("18446744073709551615"), Some(usize::MAX));
    assert_eq!(parse_unicode("18446744073709551616"), None);
}

#[test]
fn wide_digits_are_the_same_number() {
    assert_eq!(form("１２３"), form("123"));
    assert_eq!(form("１２３"), all(number(123.0)));
    assert_eq!(form("1２3"), all(number(123.0)));
}

#[test]
fn wide_and_ascii_forms_parse_alike() {
    let pairs = [
        ("1+2。", "1＋2。"),
        ("1*2。", "1＊2。"),
        ("あ!い。", "あ！い。"),
        ("あ=1。", "あ＝1。"),
        ("1==2。", "1＝＝2。"),
        ("1!=2。", "1！＝2。"),
        ("あ&&い。", "あ＆＆い。"),
        ("あ||い。", "あ｜｜い。"),
        ("1<2。", "1＜2。"),
        ("1<=2。", "1＜＝2。"),
        ("1>2。", "1＞2。"),
        ("1>=2。", "1＞＝2。"),
        ("(1)。", "（1）。"),
        ("[|あ,い| あ。]。", "「｜あ、い｜ あ。」。"),
        ("あ:い。", "あ：い。"),
        ("あ!1 い。", "あ!1　い。"),
    ];
    for (ascii, wide) in pairs.iter() {
        let a = parse_program_code(ascii);
        let w = parse_program_code(wide);
        assert!(a.is_ok(), "{}", ascii);
        assert_eq!(a, w, "{} / {}", ascii, wide);
    }
}

#[test]
fn comparison_operators() {
    assert_eq!(or_term("1<=2"), all(ASTNode::new_lte(&number(1.0), &number(2.0))));
    assert_eq!(or_term("1>=2"), all(ASTNode::new_gte(&number(1.0), &number(2.0))));
    assert_eq!(or_term("1>2"), all(ASTNode::new_gt(&number(1.0), &number(2.0))));
    assert_eq!(or_term("1==2"), all(ASTNode::new_eq(&number(1.0), &number(2.0))));
    assert_eq!(or_term("1!=2"), all(ASTNode::new_ne(&number(1.0), &number(2.0))));
    assert_eq!(
        or_term("あ&&い||う"),
        all(ASTNode::new_or(
            &ASTNode::new_and(&ASTNode::new_decl(&None, "あ"), &ASTNode::new_decl(&None, "い")),
            &ASTNode::new_decl(&None, "う")
        ))
    );
    assert_eq!(
        or_term("1 - 2 - 3"),
        all(ASTNode::new_sub(&number(1.0), &ASTNode::new_sub(&number(2.0), &number(3.0))))
    );
    assert_eq!(term("1 + 2", Level::MulDiv), Some((" + 2".to_string(), number(1.0))));
}

#[test]
fn program_errors_name_the_rest() {
    assert_eq!(parse_program_code(""), Ok(vec![]));
    assert_eq!(
        parse_program_code("あ"),
        Err(ParseError { rest: "あ".to_string(), position: 0, kind: ParseErrorKind::Eof })
    );
    assert_eq!(
        parse_program_code("あ。 い"),
        Err(ParseError { rest: "い".to_string(), position: 3, kind: ParseErrorKind::Eof })
    );
    assert_eq!(
        parse_program_code(" あ。"),
        Err(ParseError { rest: " あ。".to_string(), position: 0, kind: ParseErrorKind::Eof })
    );
    assert_eq!(
        parse_program_code("かめた！歩く　１００。"),
        Err(ParseError {
            rest: "かめた！歩く　１００。".to_string(),
            position: 0,
            kind: ParseErrorKind::Eof
        })
    );
}

#[test]
fn method_calls_chain_to_the_left() {
    assert_eq!(
        form("x!1 a 2 b"),
        all(ASTNode::new_method_call(
            "b",
            &ASTNode::new_method_call("a", &ASTNode::new_decl(&None, "x"), &vec![number(1.0)]),
            &vec![number(2.0)]
        ))
    );
}
