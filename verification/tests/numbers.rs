use interpreter::ast::BinaryOperator;
use interpreter::number::{
    compare, from_decimal, is_finite, is_nan, is_sign_negative, negate, truncate,
};
use interpreter::symbol::{SymbolId, SymbolTable};
use interpreter::types::Value;
use interpreter::error::Error;
use interpreter::vm::ObjectId;

fn digits_of(text: &str) -> Vec<u8> {
    text.bytes().map(|b| b - b'0').collect()
}

fn samples() -> Vec<f64> {
    vec![
        0.0,
        -0.0,
        1.0,
        -1.0,
        0.5,
        1.5,
        2.0,
        3.999,
        4.0,
        100.0,
        -100.0,
        1e15,
        9007199254740992.0,
        9007199254740993.0,
        1.8446744073709552e19,
        1e19,
        1e20,
        1e300,
        f64::MAX,
        f64::MIN_POSITIVE,
        5e-324,
        f64::INFINITY,
        f64::NEG_INFINITY,
        f64::NAN,
    ]
}

#[test]
fn decimal_literals_round_to_nearest() {
    let texts = [
        "0",
        "1",
        "7",
        "10",
        "100",
        "123",
        "0000123",
        "4503599627370495",
        "4503599627370496",
        "9007199254740991",
        "9007199254740992",
        "9007199254740993",
        "9007199254740994",
        "9007199254740995",
        "9007199254740997",
        "18014398509481985",
        "18014398509481986",
        "18014398509481987",
        "18446744073709551615",
        "18446744073709551616",
        "340282366920938463463374607431768211456",
        "123456789012345678901234567890123456789012345678901234567890",
        "99999999999999999999999999999999999999999999999999",
        "179769313486231570814527423731704356798070567525844996598917476803157260780028538760589558632766878171540458953514382464234321326889464182768467546703537516986049910576551282076245490090389328944075868508455133942304583236903222948165808559332123348274797826204144723168738177180919299881250404026184124858368",
        "179769313486231580793728971405303415079934132710037826936173778980444968292764750946649017977587207096330286416692887910946555547851940402630657488671505820681908902000708383676273854845817711531764475730270069855571366959622842914819860834936475292719074168444365510704342711559699508093042880177904174497791",
        "179769313486231580793728971405303415079934132710037826936173778980444968292764750946649017977587207096330286416692887910946555547851940402630657488671505820681908902000708383676273854845817711531764475730270069855571366959622842914819860834936475292719074168444365510704342711559699508093042880177904174497792",
        "1000000000000000000000000000000000000000000000000000000000000000000000000000000000000000000000000000000000000000000000000000000000000000000000000000000000000000000000000000000000000000000000000000000000000000000000000000000000000000000000000000000000000000000000000000000000000000000000000000000000000000000000000000000000000000000000000000",
    ];
    for text in texts.iter() {
        let expected: f64 = text.parse().unwrap();
        assert_eq!(from_decimal(&digits_of(text)), expected.to_bits(), "{}", text);
    }
    assert_eq!(from_decimal(&vec![]), 0);
    assert_eq!(from_decimal(&digits_of("100")), 100.0f64.to_bits());
}

#[test]
fn comparisons_follow_the_numbers() {
    for a in samples() {
        for b in samples() {
            let (x, y) = (a.to_bits(), b.to_bits());
            assert_eq!(compare(BinaryOperator::Lt, x, y), a < b, "{} < {}", a, b);
            assert_eq!(compare(BinaryOperator::Lte, x, y), a <= b, "{} <= {}", a, b);
            assert_eq!(compare(BinaryOperator::Gt, x, y), a > b, "{} > {}", a, b);
            assert_eq!(compare(BinaryOperator::Gte, x, y), a >= b, "{} >= {}", a, b);
            assert_eq!(compare(BinaryOperator::Eq, x, y), a == b, "{} == {}", a, b);
            assert_eq!(compare(BinaryOperator::Ne, x, y), a != b, "{} != {}", a, b);
        }
    }
}

#[test]
fn signs_and_truncation_follow_the_numbers() {
    for a in samples() {
        let x = a.to_bits();
        assert_eq!(is_sign_negative(x), a.is_sign_negative());
        assert_eq!(is_nan(x), a.is_nan());
        assert_eq!(is_finite(x), a.is_finite());
        assert_eq!(negate(x), (-a).to_bits());
        if a.is_finite() && !a.is_sign_negative() {
            assert_eq!(truncate(x), a.floor() as u64, "{}", a);
        }
    }
    assert_eq!(truncate(3.999f64.to_bits()), 3);
    assert_eq!(truncate(4.0f64.to_bits()), 4);
}

#[test]
fn interning_is_stable_and_injective() {
    let mut table = SymbolTable::new();
    assert_eq!(table.get("かめ"), None);
    let a = table.insert_user_symbol_if_no_exist("かめ");
    let b = table.insert_user_symbol_if_no_exist("つる");
    assert_eq!(a, SymbolId(10000));
    assert_eq!(b, SymbolId(10001));
    assert_eq!(table.insert_user_symbol_if_no_exist("かめ"), a);
    assert_eq!(table.get("かめ"), Some(a));
    assert_ne!(a, b);
    let s = table.insert_system_symbol("null");
    assert_eq!(s, SymbolId::null());
    assert_eq!(table.insert_system_symbol("num"), SymbolId::num());
    assert_eq!(table.insert_system_symbol("str"), SymbolId::str());
    assert_eq!(table.insert_system_symbol("null"), s);
    assert_eq!(table.system_len(), 3);
    table.insert_user_symbol("かめ");
    assert_eq!(table.get("かめ"), Some(a));
    table.insert_user_symbol("さる");
    assert_eq!(table.get("さる"), Some(SymbolId(10002)));
}

#[test]
fn value_conversions() {
    assert_eq!(Value::Num(7).as_num(), Ok(7));
    assert_eq!(Value::Bool(true).as_num(), Err(Error::Runtime));
    assert_eq!(Value::Bool(true).as_bool(), Ok(true));
    assert_eq!(Value::Null.as_bool(), Err(Error::Runtime));
    assert_eq!(Value::ObjectReference(ObjectId(3)).as_object_id(), Ok(ObjectId(3)));
    assert_eq!(Value::Str("a".to_string()).as_object_id(), Err(Error::Runtime));
    assert_eq!(Value::Str("a".to_string()).duplicate(), Value::Str("a".to_string()));
}

#[test]
fn objects_are_found_by_value_and_by_name() {
    let mut vm = interpreter::vm::VirtualMachine::new();
    vm.initialize();
    let turtle = vm.get_object_in_assigns_from_symbol("タートル").unwrap();
    assert_eq!(turtle, ObjectId(2));
    assert_eq!(vm.get_object_in_assigns_from_symbol("ない"), Err(Error::ObjectNotFound));
    let symbol = vm.to_symbol("線");
    assert_eq!(vm.get_object_id(symbol), Ok(ObjectId(3)));
    assert_eq!(Value::ObjectReference(turtle).as_object(&vm).unwrap().id(), turtle);
    assert_eq!(Value::Null.as_object(&vm).err(), Some(Error::Runtime));
    assert_eq!(
        Value::ObjectReference(ObjectId(99)).as_object(&vm).err(),
        Some(Error::ObjectNotFound)
    );
    assert_eq!(vm.get_block_object_value(), Ok(Value::ObjectReference(ObjectId(1))));
    let number = vm.to_symbol("かず");
    vm.assign(number, &Value::Num(1)).unwrap();
    assert_eq!(vm.get_object_id_in_assigns(number), Err(Error::Runtime));
    assert_eq!(vm.get_value_in_assigns(number), Ok(Value::Num(1)));
}

#[test]
fn scopes_shadow_from_the_inside() {
    let mut vm = interpreter::vm::VirtualMachine::new();
    let a = vm.to_symbol("あ");
    vm.assign(a, &Value::Num(1)).unwrap();
    assert_eq!(vm.get_value_in_scope(a), Ok(Value::Num(1)));
    vm.push_stack(&vec!["あ".to_string(), "い".to_string()], &vec![Value::Num(2)]);
    assert_eq!(vm.get_value_in_scope(a), Ok(Value::Num(2)));
    assert_eq!(vm.get_value_in_scope_from_symbol("い"), Err(Error::ObjectNotFound));
    vm.push_stack(&vec!["い".to_string()], &vec![Value::Num(3), Value::Num(4)]);
    assert_eq!(vm.get_value_in_scope(a), Ok(Value::Num(2)));
    assert_eq!(vm.get_value_in_scope_from_symbol("い"), Ok(Value::Num(3)));
    vm.pop_stack();
    vm.pop_stack();
    assert_eq!(vm.get_value_in_scope(a), Ok(Value::Num(1)));
    vm.pop_stack();
    assert_eq!(vm.get_value_in_scope(a), Ok(Value::Num(1)));
}

#[test]
fn detached_objects_read_through_the_heap() {
    let mut vm = interpreter::vm::VirtualMachine::new();
    vm.initialize();
    let turtle = vm.get_object_in_assigns_from_symbol("タートル").unwrap();
    let mut body = interpreter::object::ObjectBody::new(Some(vm.get_object(turtle).unwrap()));
    assert_eq!(body.parent(), Some(turtle));
    assert_eq!(body.get_member_str("visible", &mut vm), Ok(Value::Bool(false)));
    body.set_member_str("なまえ", Value::Str("かめ".to_string()), &mut vm);
    assert_eq!(body.get_member_str("なまえ", &mut vm), Ok(Value::Str("かめ".to_string())));
    assert_eq!(body.get_member_str("ない", &mut vm), Err(Error::MemberNotFound));
    body.add_method_str("走る", interpreter::object::NativeMethod::TurtleWalk, &mut vm);
    let run = vm.to_symbol("走る");
    let create = vm.to_symbol("作る");
    assert_eq!(
        body.get_method(run, vm.get_object_heap()),
        Ok(interpreter::object::NativeMethod::TurtleWalk)
    );
    assert_eq!(
        body.get_method(create, vm.get_object_heap()),
        Ok(interpreter::object::NativeMethod::TurtleCreate)
    );
    let walk = vm.to_symbol("歩く");
    let mut object = interpreter::object::Object::empty(ObjectId(40));
    assert_eq!(object.get_method(walk, vm.get_object_heap()), Err(Error::MethodNotFound));
    object.set_member_str("x", Value::Num(5), &mut vm);
    assert_eq!(object.get_member_str("x", &mut vm), Ok(Value::Num(5)));
    assert!(object.get_internal_value().is_none());
    // a body whose parent is not on the heap is refused
    let orphan = interpreter::object::ObjectBody::new(Some(&object));
    assert_eq!(vm.allocate(orphan), Err(Error::ObjectNotFound));
    assert_eq!(vm.get_object_heap().len(), 7);
}
