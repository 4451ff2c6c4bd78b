use interpreter::ast::ASTNode;
use interpreter::error::Error;
use interpreter::interpreter::Interpreter;
use interpreter::machine::{Action, Reply, Request};
use interpreter::ast::BinaryOperator;
use interpreter::object::{NativeMethod, ObjectBody};
use interpreter::types::Value;
use interpreter::viewmodel::{visual_objects, ImageObjectImpl, LineImpl, VisualObject};
use interpreter::vm::{Callee, ObjectId, VirtualMachine};

const EPS: f64 = 1e-5;

fn num(value: f64) -> Value {
    Value::Num(value.to_bits())
}

fn as_f64(value: &Value) -> f64 {
    f64::from_bits(value.as_num().unwrap())
}

fn nearly_equal_with_eps(f1: f64, f2: f64, epsilon: f64) -> bool {
    (f1 - f2).abs() < epsilon
}

fn nearly_equal(f1: f64, f2: f64) -> bool {
    nearly_equal_with_eps(f1, f2, f64::EPSILON)
}

fn compute(request: Request) -> Reply {
    match request {
        Request::Arithmetic { operator, left, right } => {
            let a = f64::from_bits(left);
            let b = f64::from_bits(right);
            let r = match operator {
                BinaryOperator::Add => a + b,
                BinaryOperator::Sub => a - b,
                BinaryOperator::Mul => a * b,
                BinaryOperator::Div => a / b,
                _ => f64::NAN,
            };
            Reply::Number(r.to_bits())
        }
        Request::Advance { x, y, direction, amount } => {
            let (s, c) = f64::from_bits(direction).to_radians().sin_cos();
            let amount = f64::from_bits(amount);
            Reply::Position(
                (f64::from_bits(x) + amount * c).to_bits(),
                (f64::from_bits(y) + amount * s).to_bits(),
            )
        }
    }
}

fn drive(vm: &mut VirtualMachine) -> Result<Value, Error> {
    let mut reply = Reply::Nothing;
    loop {
        match vm.run(reply, 1000) {
            Action::Done(r) => return r,
            Action::Compute(request) => reply = compute(request),
            Action::Running => reply = Reply::Nothing,
        }
    }
}

fn eval(vm: &mut VirtualMachine, ast: &ASTNode) -> Result<Value, Error> {
    assert!(vm.eval(ast));
    drive(vm)
}

fn exec(interpreter: &mut Interpreter, program: &str) -> Result<Value, Error> {
    assert_eq!(interpreter.exec(program), Ok(true));
    let mut reply = Reply::Nothing;
    loop {
        match interpreter.run(reply, 1000) {
            Action::Done(r) => return r,
            Action::Compute(request) => reply = compute(request),
            Action::Running => reply = Reply::Nothing,
        }
    }
}

fn member(interpreter: &mut Interpreter, object: &str, name: &str) -> Value {
    let id = interpreter.get_object_id(object).unwrap();
    let symbol = interpreter.get_symbol(name);
    interpreter.vm().get_member(id, symbol).unwrap()
}

fn global(interpreter: &mut Interpreter, name: &str) -> Value {
    let symbol = interpreter.get_symbol(name);
    interpreter.vm().get_value_in_scope(symbol).unwrap()
}

fn setup() -> VirtualMachine {
    let mut vm = VirtualMachine::new();
    let create_symbol = vm.to_symbol("作る");
    let mut root = ObjectBody::empty();
    root.add_method(create_symbol, NativeMethod::RootCreate);

    let root_obj_id = vm.allocate(root).unwrap();
    let root_symbol = vm.to_symbol("ルート");
    vm.assign(root_symbol, &Value::ObjectReference(root_obj_id)).unwrap();

    let turtle = ObjectBody::new(Some(vm.get_object(root_obj_id).unwrap()));
    let turtle_obj_id = vm.allocate(turtle).unwrap();
    let turtle_symbol = vm.to_symbol("タートル");
    vm.assign(turtle_symbol, &Value::ObjectReference(turtle_obj_id)).unwrap();

    vm
}

#[test]
fn lib_create() {
    let mut vm = setup();
    assert_eq!(vm.object_heap_borrow().len(), 2);
    let _ = eval(
        &mut vm,
        &ASTNode::new_method_call("作る", &ASTNode::new_decl(&None, "ルート"), &vec![]),
    );

    assert_eq!(vm.object_heap_borrow().len(), 3);
}

#[test]
fn lib_call_parent_method() {
    let mut vm = setup();
    assert_eq!(vm.object_heap_borrow().len(), 2);
    let _ = eval(
        &mut vm,
        &ASTNode::new_method_call("作る", &ASTNode::new_decl(&None, "タートル"), &vec![]),
    );

    assert_eq!(vm.object_heap_borrow().len(), 3);
}

#[test]
fn define_block_and_call_block() {
    let mut vm = VirtualMachine::new();
    vm.initialize();

    let turtle_create =
        ASTNode::new_method_call("作る", &ASTNode::new_decl(&None, "タートル"), &vec![]);

    let _ = eval(
        &mut vm,
        &ASTNode::new_assign(
            &None,
            "なでこ",
            &ASTNode::new_block_define(&vec![], &vec![turtle_create]),
        ),
    );

    let before_exec = vm.object_heap_borrow().len();
    let _ = eval(
        &mut vm,
        &ASTNode::new_method_call("実行", &ASTNode::new_decl(&None, "なでこ"), &vec![]),
    );

    assert_eq!(vm.object_heap_borrow().len(), before_exec + 1);
}

#[test]
fn define_block_and_call_block2() {
    let mut vm = VirtualMachine::new();
    vm.initialize();

    let turtle_create = ASTNode::new_assign(
        &None,
        "かめた",
        &ASTNode::new_method_call("作る", &ASTNode::new_decl(&None, "タートル"), &vec![]),
    );

    eval(&mut vm, &turtle_create).unwrap();

    let walk2_body = vec![
        ASTNode::new_method_call(
            "歩く",
            &ASTNode::new_decl(&None, "かめた"),
            &vec![ASTNode::new_decl(&None, "歩幅")],
        ),
        ASTNode::new_method_call(
            "歩く",
            &ASTNode::new_decl(&None, "かめた"),
            &vec![ASTNode::new_decl(&None, "歩幅")],
        ),
    ];

    eval(
        &mut vm,
        &ASTNode::new_assign(
            &Some(ASTNode::new_decl(&None, "かめた")),
            "歩く２",
            &ASTNode::new_block_define(&vec!["歩幅"], &walk2_body),
        ),
    )
    .unwrap();

    eval(
        &mut vm,
        &ASTNode::new_method_call(
            "歩く２",
            &ASTNode::new_decl(&None, "かめた"),
            &vec![ASTNode::new_static_value(&num(100.0))],
        ),
    )
    .unwrap();
}

#[test]
fn test_repeat_4times() {
    let mut vm = VirtualMachine::new();
    vm.initialize();

    let turtle_create = ASTNode::new_assign(
        &None,
        "かめた",
        &ASTNode::new_method_call("作る", &ASTNode::new_decl(&None, "タートル"), &vec![]),
    );

    eval(&mut vm, &turtle_create).unwrap();
    eval(
        &mut vm,
        &ASTNode::new_method_call(
            "繰り返す",
            &ASTNode::new_block_define(
                &vec![],
                &vec![ASTNode::new_method_call(
                    "歩く",
                    &ASTNode::new_decl(&None, "かめた"),
                    &vec![ASTNode::StaticValue(num(100.0))],
                )],
            ),
            &vec![ASTNode::StaticValue(num(4.0))],
        ),
    )
    .unwrap();

    assert_eq!(
        eval(&mut vm, &ASTNode::new_decl(&Some(ASTNode::new_decl(&None, "かめた")), "x")).unwrap(),
        num(400.0)
    );
    assert_eq!(
        eval(&mut vm, &ASTNode::new_decl(&Some(ASTNode::new_decl(&None, "かめた")), "y")).unwrap(),
        num(0.0)
    );
}

#[test]
fn is_subclass() {
    let mut vm = VirtualMachine::new();
    let parent = vm.allocate(ObjectBody::empty()).unwrap();
    assert_eq!(parent, ObjectId(0));
    let body = ObjectBody::new(Some(vm.get_object(parent).unwrap()));
    let child = vm.allocate(body).unwrap();
    assert_eq!(child, ObjectId(1));

    let heap = vm.get_object_heap();
    assert!(heap[1].is_subclass(ObjectId(0), heap));
    assert!(!heap[1].is_subclass(ObjectId(3), heap));
}

#[test]
fn test_kameta_create_and_walk() {
    let mut interpreter = Interpreter::new();

    exec(
        &mut interpreter,
        r#"かめた＝タートル！作る。
かめた！１００　歩く。
"#,
    )
    .unwrap();

    assert!(nearly_equal(100.0, as_f64(&member(&mut interpreter, "かめた", "x"))));
    assert!(nearly_equal(0.0, as_f64(&member(&mut interpreter, "かめた", "y"))));
    assert!(nearly_equal(0.0, as_f64(&member(&mut interpreter, "かめた", "direction"))));
    assert!(member(&mut interpreter, "かめた", "visible").as_bool().unwrap());
}

#[test]
fn test_kameta_create_and_turnleft90_and_walk() {
    let mut interpreter = Interpreter::new();

    exec(
        &mut interpreter,
        r#"かめた＝タートル！作る。
かめた！ ９０　左回り １００　歩く。
"#,
    )
    .unwrap();

    assert!(nearly_equal_with_eps(0.0, as_f64(&member(&mut interpreter, "かめた", "x")), EPS));
    assert!(nearly_equal_with_eps(100.0, as_f64(&member(&mut interpreter, "かめた", "y")), EPS));
    assert!(nearly_equal_with_eps(
        90.0,
        as_f64(&member(&mut interpreter, "かめた", "direction")),
        EPS
    ));
    assert!(member(&mut interpreter, "かめた", "visible").as_bool().unwrap());
    assert_eq!(interpreter.vm().get_object_heap().len(), 9);
}

#[test]
fn test_kameta_square() {
    let mut interpreter = Interpreter::new();

    exec(
        &mut interpreter,
        r#"かめた＝タートル！作る。
かめた：四角＝「｜長さ｜ かめた！（長さ） 歩く。 かめた！９０ 右回り。」。
かめた！１００　四角。"#,
    )
    .unwrap();

    assert!(nearly_equal_with_eps(100.0, as_f64(&member(&mut interpreter, "かめた", "x")), EPS));
    assert!(nearly_equal_with_eps(0.0, as_f64(&member(&mut interpreter, "かめた", "y")), EPS));
}

#[test]
fn test_assign_static_value() {
    let mut interpreter = Interpreter::new();

    exec(&mut interpreter, "てすと＝１。").unwrap();

    assert_eq!(as_f64(&global(&mut interpreter, "てすと")), 1.0)
}

#[test]
fn test_repeat() {
    let mut interpreter = Interpreter::new();

    exec(&mut interpreter, "かめた＝タートル！　作る。").unwrap();
    exec(&mut interpreter, "「かめた！１００　歩く。」！４　繰り返す。").unwrap();

    assert!(nearly_equal_with_eps(400.0, as_f64(&member(&mut interpreter, "かめた", "x")), EPS));
    assert!(nearly_equal_with_eps(0.0, as_f64(&member(&mut interpreter, "かめた", "y")), EPS));
}

#[test]
fn test_if() {
    let mut interpreter = Interpreter::new();

    exec(&mut interpreter, "てすと＝１。").unwrap();
    assert_eq!(as_f64(&global(&mut interpreter, "てすと")), 1.0);
    exec(&mut interpreter, "「てすと＝＝１。」！ならば　「てすと２＝２。」　実行。").unwrap();
    assert_eq!(as_f64(&global(&mut interpreter, "てすと２")), 2.0);
    exec(
        &mut interpreter,
        "「てすと＝＝０。」！ならば　「てすと２＝２。」　実行　そうでないなら　「てすと３＝３。」　実行。",
    )
    .unwrap();
    assert_eq!(as_f64(&global(&mut interpreter, "てすと３")), 3.0);
}

#[test]
fn walk_leaves_one_line() {
    let mut interpreter = Interpreter::new();
    let before = interpreter.get_objects().len();
    assert_eq!(before, 7);
    exec(&mut interpreter, "かめた＝タートル！作る。\nかめた！１００　歩く。\n").unwrap();
    assert_eq!(interpreter.get_objects().len(), before + 2);
    let visuals = visual_objects(&mut interpreter);
    assert_eq!(
        visuals,
        vec![
            VisualObject::Line(LineImpl {
                x1: 0.0f64.to_bits(),
                y1: 0.0f64.to_bits(),
                x2: 100.0f64.to_bits(),
                y2: 0.0f64.to_bits(),
            }),
            VisualObject::ImageObject(ImageObjectImpl {
                x: 100.0f64.to_bits(),
                y: 0.0f64.to_bits(),
                direction: 0.0f64.to_bits(),
            }),
        ]
    );
}

#[test]
fn arithmetic_precedence_values() {
    let mut interpreter = Interpreter::new();
    assert_eq!(exec(&mut interpreter, "1 + 2 * 3。"), Ok(num(7.0)));
    assert_eq!(exec(&mut interpreter, "(1 + 2) * 3。"), Ok(num(9.0)));
    assert_eq!(exec(&mut interpreter, "7 - 2。"), Ok(num(5.0)));
    assert_eq!(exec(&mut interpreter, "7 / 2。"), Ok(num(3.5)));
    assert_eq!(exec(&mut interpreter, "1 < 2。"), Ok(Value::Bool(true)));
    assert_eq!(exec(&mut interpreter, "2 <= 2。"), Ok(Value::Bool(true)));
    assert_eq!(exec(&mut interpreter, "1 > 2。"), Ok(Value::Bool(false)));
    assert_eq!(exec(&mut interpreter, "1 >= 2。"), Ok(Value::Bool(false)));
    assert_eq!(exec(&mut interpreter, "1 != 2。"), Ok(Value::Bool(true)));
    assert_eq!(exec(&mut interpreter, "(1 == 1) && (2 == 3)。"), Ok(Value::Bool(false)));
    assert_eq!(exec(&mut interpreter, "(1 == 1) || (2 == 3)。"), Ok(Value::Bool(true)));
    // the right operand of an equality is a conjunction
    assert_eq!(exec(&mut interpreter, "1 == 1 && 2 == 3。"), Err(Error::Runtime));
}

#[test]
fn both_operands_are_evaluated() {
    let mut interpreter = Interpreter::new();
    assert_eq!(exec(&mut interpreter, "1 == 2 && ない。"), Err(Error::ObjectNotFound));
}

#[test]
fn error_kinds() {
    let mut interpreter = Interpreter::new();
    assert_eq!(exec(&mut interpreter, "ない。"), Err(Error::ObjectNotFound));
    assert_eq!(exec(&mut interpreter, "タートル：ない。"), Err(Error::MemberNotFound));
    assert_eq!(exec(&mut interpreter, "タートル！ない。"), Err(Error::MethodNotFound));
    assert_eq!(exec(&mut interpreter, "かめた＝タートル！作る。"), Ok(Value::Null));
    assert_eq!(exec(&mut interpreter, "かめた！歩く。"), Err(Error::ArgumentError));
    assert_eq!(exec(&mut interpreter, "かめた！「」 歩く。"), Err(Error::ArgumentError));
    assert_eq!(exec(&mut interpreter, "1 + (1 == 1)。"), Err(Error::Runtime));
    assert_eq!(exec(&mut interpreter, "1 && 2。"), Err(Error::Runtime));
    assert_eq!(exec(&mut interpreter, "(1)！作る。"), Err(Error::Runtime));
    // the machine is idle again after an error, and the state is kept
    assert_eq!(exec(&mut interpreter, "かめた：visible。"), Ok(Value::Bool(true)));
}

#[test]
fn first_error_ends_the_program() {
    let mut interpreter = Interpreter::new();
    assert_eq!(exec(&mut interpreter, "あ＝１。ない。い＝２。"), Err(Error::ObjectNotFound));
    assert_eq!(global(&mut interpreter, "あ"), num(1.0));
    let symbol = interpreter.get_symbol("い");
    assert_eq!(interpreter.vm().get_value_in_scope(symbol), Err(Error::ObjectNotFound));
}

#[test]
fn child_writes_do_not_reach_the_parent() {
    let mut interpreter = Interpreter::new();
    exec(&mut interpreter, "かめた＝タートル！作る。かめた：x＝５。").unwrap();
    assert_eq!(member(&mut interpreter, "かめた", "x"), num(5.0));
    assert_eq!(member(&mut interpreter, "タートル", "x"), num(0.0));
    // the snapshot is taken when the child is made
    exec(&mut interpreter, "タートル：y＝７。こがめ＝タートル！作る。").unwrap();
    assert_eq!(member(&mut interpreter, "かめた", "y"), num(0.0));
    assert_eq!(member(&mut interpreter, "こがめ", "y"), num(7.0));
}

#[test]
fn methods_are_inherited_not_copied() {
    let mut interpreter = Interpreter::new();
    exec(&mut interpreter, "かめた＝タートル！作る。").unwrap();
    let kameta = interpreter.get_object_id("かめた").unwrap();
    let walk = interpreter.get_symbol("歩く");
    let heap = interpreter.get_objects();
    assert_eq!(heap[kameta.0].get_method(walk, heap), Ok(NativeMethod::TurtleWalk));
    assert_eq!(interpreter.vm().resolve(kameta, walk), Some(Callee::Native(NativeMethod::TurtleWalk)));
    let create = interpreter.get_symbol("作る");
    let turtle = interpreter.get_object_id("タートル").unwrap();
    assert_eq!(interpreter.vm().resolve(turtle, create), Some(Callee::Native(NativeMethod::TurtleCreate)));
    let line = interpreter.get_object_id("線").unwrap();
    assert_eq!(interpreter.vm().resolve(line, create), Some(Callee::Native(NativeMethod::RootCreate)));
    assert_eq!(interpreter.vm().resolve(line, walk), None);
}

#[test]
fn block_member_overrides_method() {
    let mut interpreter = Interpreter::new();
    exec(&mut interpreter, "かめた＝タートル！作る。かめた：歩く＝「｜n｜ 42。」。").unwrap();
    assert_eq!(exec(&mut interpreter, "かめた！１００　歩く。"), Ok(num(42.0)));
    assert_eq!(member(&mut interpreter, "かめた", "x"), num(0.0));
    // a member that is no block does not hide the method
    exec(&mut interpreter, "こがめ＝タートル！作る。こがめ：歩く＝１。").unwrap();
    exec(&mut interpreter, "こがめ！１０　歩く。").unwrap();
    assert_eq!(member(&mut interpreter, "こがめ", "x"), num(10.0));
}

#[test]
fn block_scope_ends_with_the_block() {
    let mut interpreter = Interpreter::new();
    exec(&mut interpreter, "外＝１。ぶろっく＝「｜ひきすう｜ ひきすう + 外。」。").unwrap();
    assert_eq!(exec(&mut interpreter, "ぶろっく！５ 実行。"), Ok(num(6.0)));
    assert_eq!(exec(&mut interpreter, "ひきすう。"), Err(Error::ObjectNotFound));
    // an inner block sees the parameters of the block around it
    exec(&mut interpreter, "そと＝「｜あ｜ 「｜い｜ あ + い。」！２ 実行。」。").unwrap();
    assert_eq!(exec(&mut interpreter, "そと！４０ 実行。"), Ok(num(42.0)));
    // the scope is popped when an error leaves the block
    assert_eq!(exec(&mut interpreter, "「｜あ｜ ない。」！１ 実行。"), Err(Error::ObjectNotFound));
    assert_eq!(exec(&mut interpreter, "あ。"), Err(Error::ObjectNotFound));
    // missing arguments leave the parameter unbound, extra ones are dropped
    assert_eq!(exec(&mut interpreter, "「｜あ｜ あ。」！実行。"), Err(Error::ObjectNotFound));
    assert_eq!(exec(&mut interpreter, "「｜あ｜ あ。」！１ ２ 実行。"), Ok(num(1.0)));
}

#[test]
fn repeat_counts() {
    let mut interpreter = Interpreter::new();
    exec(&mut interpreter, "かめた＝タートル！作る。").unwrap();
    assert_eq!(exec(&mut interpreter, "「かめた！１　歩く。」！０　繰り返す。"), Ok(Value::Null));
    assert_eq!(member(&mut interpreter, "かめた", "x"), num(0.0));
    exec(&mut interpreter, "「かめた！１　歩く。」！(7 / 2)　繰り返す。").unwrap();
    assert_eq!(member(&mut interpreter, "かめた", "x"), num(3.0));
    assert_eq!(exec(&mut interpreter, "「1。」！(0 - 1)　繰り返す。"), Err(Error::Runtime));
    assert_eq!(exec(&mut interpreter, "「1。」！(1 / 0)　繰り返す。"), Err(Error::Runtime));
    assert_eq!(exec(&mut interpreter, "「1。」！繰り返す。"), Err(Error::ArgumentError));
    assert_eq!(exec(&mut interpreter, "「5。」！３　繰り返す。"), Ok(num(5.0)));
}

#[test]
fn turn_right_subtracts() {
    let mut interpreter = Interpreter::new();
    exec(&mut interpreter, "かめた＝タートル！作る。かめた！９０　右回り。").unwrap();
    assert_eq!(member(&mut interpreter, "かめた", "direction"), num(-90.0));
    exec(&mut interpreter, "かめた！１００　歩く。").unwrap();
    assert!(nearly_equal_with_eps(0.0, as_f64(&member(&mut interpreter, "かめた", "x")), EPS));
    assert!(nearly_equal_with_eps(-100.0, as_f64(&member(&mut interpreter, "かめた", "y")), EPS));
}

#[test]
fn button_click_runs_the_action() {
    let mut interpreter = Interpreter::new();
    assert_eq!(exec(&mut interpreter, "ボタン！クリック。"), Ok(Value::Null));
    exec(&mut interpreter, "ぼたん＝ボタン！作る。ぼたん：動作＝「おした＝１。」。").unwrap();
    exec(&mut interpreter, "ぼたん！クリック。").unwrap();
    assert_eq!(global(&mut interpreter, "おした"), num(1.0));
}

#[test]
fn condition_takes_one_block() {
    let mut interpreter = Interpreter::new();
    assert_eq!(exec(&mut interpreter, "「1 == 1。」！ならば　実行。"), Err(Error::ArgumentError));
    assert_eq!(exec(&mut interpreter, "「1。」！ならば。"), Err(Error::Runtime));
    assert_eq!(exec(&mut interpreter, "「1 == 1。」！ならば 「5。」 実行。"), Ok(num(5.0)));
}

#[test]
fn busy_machine_refuses_a_second_program() {
    let mut interpreter = Interpreter::new();
    assert_eq!(interpreter.exec("1 + 2。"), Ok(true));
    assert_eq!(interpreter.exec("3。"), Ok(false));
    let mut reply = Reply::Nothing;
    let result = loop {
        match interpreter.step(reply) {
            Action::Done(r) => break r,
            Action::Compute(request) => reply = compute(request),
            Action::Running => reply = Reply::Nothing,
        }
    };
    assert_eq!(result, Ok(num(3.0)));
}

#[test]
fn waiting_machine_ignores_a_wrong_reply() {
    let mut interpreter = Interpreter::new();
    assert_eq!(interpreter.exec("1 + 2。"), Ok(true));
    let request = loop {
        match interpreter.step(Reply::Nothing) {
            Action::Compute(request) => break request,
            Action::Running => {}
            Action::Done(_) => panic!("ended without asking"),
        }
    };
    assert_eq!(
        request,
        Request::Arithmetic {
            operator: BinaryOperator::Add,
            left: 1.0f64.to_bits(),
            right: 2.0f64.to_bits()
        }
    );
    assert_eq!(interpreter.step(Reply::Nothing), Action::Compute(request));
    assert_eq!(interpreter.step(Reply::Position(0, 0)), Action::Compute(request));
    assert_eq!(interpreter.step(Reply::Number(3.0f64.to_bits())), Action::Running);
}
