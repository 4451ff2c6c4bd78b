//! The interpreter: a machine with its prototypes, fed with source text.

use vstd::prelude::*;
use crate::ast::nodes_view;
use crate::error::Error;
use crate::grammar::parsed;
use crate::machine::{Action, Reply};
use crate::object::{heap_view, NativeMethod, Object};
use crate::parser::{parse_program_code, refused, ParseError};
use crate::symbol::{SymbolId, SymbolTableModel};
use crate::types::Value;
use crate::vm::{ObjectId, VirtualMachine, VmModel};

verus! {

/// The machine that a new interpreter starts with: nothing but the
/// prototypes.
pub open spec fn initial_machine() -> VmModel {
    empty_machine().bootstrapped()
}

/// An interpreter: parses programs and runs them on its machine.
pub struct Interpreter {
    vm: VirtualMachine,
}

impl View for Interpreter {
    type V = VmModel;

    closed spec fn view(&self) -> VmModel {
        self.vm@
    }
}

impl Interpreter {
    /// The invariant of the interpreter: that of its machine.
    pub open spec fn wf(&self) -> bool {
        self@.wf()
    }

    /// An interpreter whose machine holds the prototypes and nothing else.
    pub fn new() -> (r: Self)
        ensures
            r.wf(),
            r@ == initial_machine(),
    {
        let mut vm = VirtualMachine::new();
        proof {
            let m = vm@;
            assert(m.heap =~= Seq::<crate::object::ObjectModel>::empty());
            assert(m.stack =~= Seq::<Map<u128, Value>>::empty());
            assert(m.control =~= Seq::<crate::machine::FrameModel>::empty());
        }
        vm.initialize();
        Interpreter { vm }
    }

    /// Parses `program` and schedules its statements.  The steps that
    /// follow evaluate them in order and stop at the first error.  A text
    /// that is no program is refused with the position where its
    /// statements end, and nothing is scheduled; `Ok(false)` says that the
    /// machine was busy, and nothing is scheduled either.
    pub fn exec(&mut self, program: &str) -> (r: Result<bool, ParseError>)
        requires
            old(self).wf(),
        ensures
            final(self).wf(),
            match parsed(program@) {
                Ok(nodes) => r == Ok::<bool, ParseError>(old(self)@.idle()) && final(self)@ == old(
                    self,
                )@.loaded(nodes),
                Err(position) => r is Err && refused(r->Err_0, program@, position)
                    && final(self)@ == old(self)@,
            },
    {
        match parse_program_code(program) {
            Ok(statements) => Ok(self.vm.load(statements)),
            Err(e) => Err(e),
        }
    }

    /// Takes one step of the scheduled program.
    pub fn step(&mut self, reply: Reply) -> (action: Action)
        requires
            old(self).wf(),
        ensures
            final(self).wf(),
            final(self)@ == old(self)@.stepped(reply),
            action == final(self)@.action(),
    {
        self.vm.step(reply)
    }

    /// Takes steps of the scheduled program until it has ended or asks the
    /// host, but at most `budget` of them.
    pub fn run(&mut self, reply: Reply, budget: u64) -> (action: Action)
        requires
            old(self).wf(),
        ensures
            final(self).wf(),
            final(self)@ == old(self)@.ran(reply, budget as nat),
            action == final(self)@.action(),
    {
        self.vm.run(reply, budget)
    }

    /// The objects of the heap, each at the position that its id names.
    pub fn get_objects(&self) -> (r: &Vec<Object>)
        ensures
            heap_view(r@) == self@.heap,
    {
        self.vm.get_object_heap()
    }

    /// The symbol of the name `s`, which is interned if it was not.
    pub fn get_symbol(&mut self, s: &str) -> (r: SymbolId)
        requires
            old(self).wf(),
        ensures
            final(self).wf(),
            final(self)@ == old(self)@.intern(s@),
            r.0 == old(self)@.symbol(s@),
    {
        self.vm.to_symbol(s)
    }

    /// The id of the object that the name `symbol` is bound to, in a scope
    /// or globally; `ObjectNotFound` if the name is not bound, `Runtime` if
    /// it is bound to something else.  The name is interned.
    pub fn get_object_id(&mut self, symbol: &str) -> (r: Result<ObjectId, Error>)
        requires
            old(self).wf(),
        ensures
            final(self).wf(),
            final(self)@ == old(self)@.intern(symbol@),
            r == (match old(self)@.value_in_scope(old(self)@.symbol(symbol@)) {
                Some(Value::ObjectReference(id)) => Ok::<ObjectId, Error>(id),
                Some(_) => Err(Error::Runtime),
                None => Err(Error::ObjectNotFound),
            }),
    {
        match self.vm.get_value_in_scope_from_symbol(symbol) {
            Ok(v) => v.as_object_id(),
            Err(e) => Err(e),
        }
    }

    /// The machine.
    pub fn vm(&self) -> (r: &VirtualMachine)
        ensures
            r@ == self@,
    {
        &self.vm
    }
}

/// The machine that holds nothing.
pub open spec fn empty_machine() -> VmModel {
    VmModel {
        heap: Seq::empty(),
        globals: Map::empty(),
        symbols: SymbolTableModel::empty(),
        stack: Seq::empty(),
        control: Seq::empty(),
        state: crate::machine::State::Value(Value::Null),
    }
}

/// Whether the name is bound to the object.
pub open spec fn holds(m: VmModel, name: Seq<char>, id: ObjectId) -> bool {
    m.symbols.ids.contains_key(name) && m.value_in_scope(m.symbol(name)) == Some(
        Value::ObjectReference(id),
    )
}

/// What every stage of the bootstrap keeps: the machine is well formed, has
/// interned at most `names` names, runs nothing, and has `objects`
/// objects; the first of them has no parent, the next five are its
/// children, and none of these six is a block.
pub open spec fn staged(m: VmModel, objects: nat, names: nat) -> bool {
    &&& m.wf()
    &&& m.heap.len() == objects
    &&& m.symbols.system_next == 0
    &&& m.symbols.user_count <= names
    &&& m.stack.len() == 0
    &&& m.control.len() == 0
    &&& m.state == crate::machine::State::Value(Value::Null)
    &&& objects > 0 ==> m.heap[0].body.parent is None
    &&& forall|i: int|
        1 <= i < objects && i <= 5 ==> (#[trigger] m.heap[i]).body.parent == Some(ObjectId(0))
    &&& forall|i: int| 0 <= i < objects && i <= 5 ==> (#[trigger] m.heap[i]).body.block is None
}

/// Giving an object a method keeps the stage and the bindings.
proof fn lemma_with_method_staged(
    m: VmModel,
    id: ObjectId,
    name: Seq<char>,
    method: NativeMethod,
    objects: nat,
    names: nat,
)
    requires
        staged(m, objects, names),
        names < 1000,
    ensures
        staged(m.with_method(id, name, method), objects, names + 1),
        forall|n: Seq<char>, o: ObjectId| #[trigger]
            holds(m, n, o) ==> holds(m.with_method(id, name, method), n, o),
        objects == 7 ==> m.with_method(id, name, method).heap[6].body.parent
            == m.heap[6].body.parent && m.with_method(id, name, method).heap[6].body.block
            == m.heap[6].body.block,
{
    crate::symbol::lemma_intern_wf(m.symbols, name);
    let after = m.with_method(id, name, method);
    assert(m.stack =~= after.stack);
}

/// Giving an object a member keeps the stage and the bindings.
proof fn lemma_with_member_staged(
    m: VmModel,
    id: ObjectId,
    name: Seq<char>,
    value: Value,
    objects: nat,
    names: nat,
)
    requires
        staged(m, objects, names),
        names < 1000,
    ensures
        staged(m.with_member(id, name, value), objects, names + 1),
        forall|n: Seq<char>, o: ObjectId| #[trigger]
            holds(m, n, o) ==> holds(m.with_member(id, name, value), n, o),
        objects == 7 ==> m.with_member(id, name, value).heap[6].body.parent
            == m.heap[6].body.parent && m.with_member(id, name, value).heap[6].body.block
            == m.heap[6].body.block,
{
    crate::symbol::lemma_intern_wf(m.symbols, name);
    let after = m.with_member(id, name, value);
    assert(m.stack =~= after.stack);
}

/// Binding a name to an object keeps the stage and the bindings of the
/// other names.
proof fn lemma_bound_staged(m: VmModel, name: Seq<char>, id: ObjectId, objects: nat, names: nat)
    requires
        staged(m, objects, names),
        names < 1000,
    ensures
        staged(m.bound(name, Value::ObjectReference(id)), objects, names + 1),
        holds(m.bound(name, Value::ObjectReference(id)), name, id),
        forall|n: Seq<char>, o: ObjectId| #[trigger]
            holds(m, n, o) && n != name ==> holds(m.bound(name, Value::ObjectReference(id)), n, o),
        m.bound(name, Value::ObjectReference(id)).heap == m.heap,
{
    crate::symbol::lemma_intern_wf(m.symbols, name);
    let after = m.bound(name, Value::ObjectReference(id));
    assert(m.stack =~= Seq::<Map<u128, Value>>::empty());
    assert(after.stack =~= Seq::<Map<u128, Value>>::empty());
    assert forall|n: Seq<char>, o: ObjectId| #[trigger] holds(m, n, o) && n != name implies holds(
        after,
        n,
        o,
    ) by {
        assert(m.symbols.intern(name).ids.contains_key(n));
        assert(m.symbols.intern(name).ids.contains_key(name));
        assert(m.symbol(n) != m.symbol(name));
    }
}

/// Making a child of the first object keeps the stage and the bindings,
/// while the heap holds fewer than six objects.
proof fn lemma_with_child_staged(m: VmModel, objects: nat, names: nat)
    requires
        staged(m, objects, names),
        1 <= objects <= 5,
    ensures
        staged(m.with_child(ObjectId(0)), objects + 1, names),
        forall|n: Seq<char>, o: ObjectId| #[trigger]
            holds(m, n, o) ==> holds(m.with_child(ObjectId(0)), n, o),
{
    let after = m.with_child(ObjectId(0));
    assert(m.stack =~= after.stack);
}

/// The names that the prototypes are bound to differ from each other.
proof fn lemma_prototype_names_differ()
    ensures
        "ルート"@ != "ブロック"@,
        "ルート"@ != "タートル"@,
        "ルート"@ != "線"@,
        "ルート"@ != "Condition"@,
        "ルート"@ != "ボタン"@,
        "ブロック"@ != "タートル"@,
        "ブロック"@ != "線"@,
        "ブロック"@ != "Condition"@,
        "ブロック"@ != "ボタン"@,
        "タートル"@ != "線"@,
        "タートル"@ != "Condition"@,
        "タートル"@ != "ボタン"@,
        "線"@ != "Condition"@,
        "線"@ != "ボタン"@,
        "Condition"@ != "ボタン"@,
{
    reveal_strlit("ルート");
    reveal_strlit("ブロック");
    reveal_strlit("タートル");
    reveal_strlit("線");
    reveal_strlit("Condition");
    reveal_strlit("ボタン");
    assert("ルート"@[0] == 'ル');
    assert("ブロック"@[0] == 'ブ');
    assert("タートル"@[0] == 'タ');
    assert("線"@[0] == '線');
    assert("Condition"@[0] == 'C');
    assert("ボタン"@[0] == 'ボ');
}

/// The first stage: the root.
proof fn lemma_root_stage()
    ensures
        staged(empty_machine().with_root(), 1, 2),
        holds(empty_machine().with_root(), "ルート"@, ObjectId(0)),
{
    let m0 = empty_machine();
    assert(m0.symbols.ids.len() == 0);
    crate::symbol::lemma_intern_wf(m0.symbols, "作る"@);
    let root_body = crate::object::ObjectBodyModel {
        methods: Map::<u128, NativeMethod>::empty().insert(
            m0.symbol("作る"@),
            NativeMethod::RootCreate,
        ),
        ..crate::object::child_body(None)
    };
    let a0 = m0.intern("作る"@).allocate(root_body);
    assert(staged(a0, 1, 1));
    lemma_bound_staged(a0, "ルート"@, ObjectId(0), 1, 1);
}

/// The second stage: the prototype of the blocks.
proof fn lemma_block_stage(m: VmModel)
    requires
        staged(m, 1, 2),
    ensures
        staged(m.with_block_prototype(ObjectId(0)), 2, 6),
        holds(m.with_block_prototype(ObjectId(0)), "ブロック"@, ObjectId(1)),
        forall|n: Seq<char>, o: ObjectId| #[trigger]
            holds(m, n, o) && n != "ブロック"@ ==> holds(
                m.with_block_prototype(ObjectId(0)),
                n,
                o,
            ),
{
    let block = ObjectId(1);
    lemma_with_child_staged(m, 1, 2);
    let b0 = m.with_child(ObjectId(0));
    lemma_with_method_staged(b0, block, "実行"@, NativeMethod::BlockExec, 2, 2);
    let b1 = b0.with_method(block, "実行"@, NativeMethod::BlockExec);
    lemma_with_method_staged(b1, block, "繰り返す"@, NativeMethod::BlockRepeat, 2, 3);
    let b2 = b1.with_method(block, "繰り返す"@, NativeMethod::BlockRepeat);
    lemma_with_method_staged(b2, block, "ならば"@, NativeMethod::BlockIf, 2, 4);
    let b3 = b2.with_method(block, "ならば"@, NativeMethod::BlockIf);
    lemma_bound_staged(b3, "ブロック"@, block, 2, 5);
}

/// The third stage: the prototype of the turtles.
proof fn lemma_turtle_stage(m: VmModel)
    requires
        staged(m, 2, 6),
    ensures
        staged(m.with_turtle_prototype(ObjectId(0)), 3, 15),
        holds(m.with_turtle_prototype(ObjectId(0)), "タートル"@, ObjectId(2)),
        forall|n: Seq<char>, o: ObjectId| #[trigger]
            holds(m, n, o) && n != "タートル"@ ==> holds(
                m.with_turtle_prototype(ObjectId(0)),
                n,
                o,
            ),
{
    let turtle = ObjectId(2);
    lemma_with_child_staged(m, 2, 6);
    let t0 = m.with_child(ObjectId(0));
    lemma_with_method_staged(t0, turtle, "歩く"@, NativeMethod::TurtleWalk, 3, 6);
    let t1 = t0.with_method(turtle, "歩く"@, NativeMethod::TurtleWalk);
    lemma_with_method_staged(t1, turtle, "右回り"@, NativeMethod::TurtleTurnRight, 3, 7);
    let t2 = t1.with_method(turtle, "右回り"@, NativeMethod::TurtleTurnRight);
    lemma_with_method_staged(t2, turtle, "左回り"@, NativeMethod::TurtleTurnLeft, 3, 8);
    let t3 = t2.with_method(turtle, "左回り"@, NativeMethod::TurtleTurnLeft);
    lemma_with_method_staged(t3, turtle, "作る"@, NativeMethod::TurtleCreate, 3, 9);
    let t4 = t3.with_method(turtle, "作る"@, NativeMethod::TurtleCreate);
    lemma_with_member_staged(t4, turtle, "x"@, Value::Num(0), 3, 10);
    let t5 = t4.with_member(turtle, "x"@, Value::Num(0));
    lemma_with_member_staged(t5, turtle, "y"@, Value::Num(0), 3, 11);
    let t6 = t5.with_member(turtle, "y"@, Value::Num(0));
    lemma_with_member_staged(t6, turtle, "direction"@, Value::Num(0), 3, 12);
    let t7 = t6.with_member(turtle, "direction"@, Value::Num(0));
    lemma_with_member_staged(t7, turtle, "visible"@, Value::Bool(false), 3, 13);
    let t8 = t7.with_member(turtle, "visible"@, Value::Bool(false));
    lemma_bound_staged(t8, "タートル"@, turtle, 3, 14);
}

/// The fourth stage: the prototype of the lines.
proof fn lemma_line_stage(m: VmModel)
    requires
        staged(m, 3, 15),
    ensures
        staged(m.with_line_prototype(ObjectId(0)), 4, 16),
        holds(m.with_line_prototype(ObjectId(0)), "線"@, ObjectId(3)),
        forall|n: Seq<char>, o: ObjectId| #[trigger]
            holds(m, n, o) && n != "線"@ ==> holds(m.with_line_prototype(ObjectId(0)), n, o),
{
    lemma_with_child_staged(m, 3, 15);
    lemma_bound_staged(m.with_child(ObjectId(0)), "線"@, ObjectId(3), 4, 15);
}

/// The fifth stage: the prototype of the conditions.
proof fn lemma_condition_stage(m: VmModel)
    requires
        staged(m, 4, 16),
    ensures
        ({
            let after = crate::object::condition::condition_prototype(m, ObjectId(0)).0;
            &&& staged(after, 5, 20)
            &&& holds(after, "Condition"@, ObjectId(4))
            &&& forall|n: Seq<char>, o: ObjectId| #[trigger]
                holds(m, n, o) && n != "Condition"@ ==> holds(after, n, o)
        }),
{
    let condition = ObjectId(4);
    lemma_with_child_staged(m, 4, 16);
    let c0 = m.with_child(ObjectId(0));
    lemma_with_member_staged(c0, condition, "flag"@, Value::Bool(false), 5, 16);
    let c1 = c0.with_member(condition, "flag"@, Value::Bool(false));
    lemma_with_method_staged(c1, condition, "実行"@, NativeMethod::ConditionExec, 5, 17);
    let c2 = c1.with_method(condition, "実行"@, NativeMethod::ConditionExec);
    lemma_with_method_staged(c2, condition, "そうでないなら"@, NativeMethod::ConditionElse, 5, 18);
    let c3 = c2.with_method(condition, "そうでないなら"@, NativeMethod::ConditionElse);
    lemma_bound_staged(c3, "Condition"@, condition, 5, 19);
    let m5 = c3.bound("Condition"@, Value::ObjectReference(condition));
    assert(m5 == crate::object::condition::condition_prototype(m, ObjectId(0)).0);
}

/// The last stage: the prototype of the buttons and its action.
proof fn lemma_button_stage(m: VmModel)
    requires
        staged(m, 5, 20),
        holds(m, "ブロック"@, ObjectId(1)),
    ensures
        ({
            let after = crate::object::button::button_prototype(m, ObjectId(0)).0;
            &&& staged(after, 7, 24)
            &&& holds(after, "ボタン"@, ObjectId(5))
            &&& forall|n: Seq<char>, o: ObjectId| #[trigger]
                holds(m, n, o) && n != "ボタン"@ ==> holds(after, n, o)
            &&& after.heap[6].body.parent == Some(ObjectId(1))
            &&& after.is_block(ObjectId(6))
            &&& after.code(ObjectId(6)).body.len() == 0
            &&& after.code(ObjectId(6)).dummy_args.len() == 0
        }),
{
    let button = ObjectId(5);
    let action = ObjectId(6);
    lemma_with_child_staged(m, 5, 20);
    let u0 = m.with_child(ObjectId(0));
    crate::symbol::lemma_intern_wf(u0.symbols, "ブロック"@);
    let u1 = u0.intern("ブロック"@);
    assert(u1 == u0);
    assert(holds(u0, "ブロック"@, ObjectId(1)));
    let u2 = u1.with_child(ObjectId(1));
    assert(u1.stack =~= u2.stack);
    let code = crate::object::BlockModel {
        dummy_args: Seq::<Seq<char>>::empty(),
        body: Seq::<crate::ast::Node>::empty(),
    };
    let u3 = u2.set_block(action, code);
    assert(u2.stack =~= u3.stack);
    assert(crate::object::block::empty_block_created(u0) == (
        u3,
        Ok::<Value, Error>(Value::ObjectReference(action)),
    ));
    assert(staged(u3, 7, 20));
    assert forall|n: Seq<char>, o: ObjectId| #[trigger] holds(u0, n, o) implies holds(u3, n, o) by {}
    lemma_with_member_staged(u3, button, "動作"@, Value::ObjectReference(action), 7, 20);
    let u4 = u3.with_member(button, "動作"@, Value::ObjectReference(action));
    lemma_with_method_staged(u4, button, "クリック"@, NativeMethod::ButtonClick, 7, 21);
    let u5 = u4.with_method(button, "クリック"@, NativeMethod::ButtonClick);
    lemma_bound_staged(u5, "ボタン"@, button, 7, 22);
    let m6 = u5.bound("ボタン"@, Value::ObjectReference(button));
    assert(m6 == crate::object::button::button_prototype(m, ObjectId(0)).0);
}

/// The machine of a new interpreter.  It is well formed and runs nothing.
/// Its heap holds seven objects: the root, without a parent; its children
/// the block, the turtle, the line, the condition and the button, in this
/// order; and the empty block that is the button's action, a child of the
/// block.  The six prototypes are bound to their names.
pub proof fn lemma_initial_machine()
    ensures
        ({
            let m = initial_machine();
            &&& m.wf()
            &&& m.idle()
            &&& m.scoped()
            &&& m.heap.len() == 7
            &&& m.heap[0].body.parent is None
            &&& forall|i: int| 1 <= i <= 5 ==> (#[trigger] m.heap[i]).body.parent == Some(ObjectId(0))
            &&& m.heap[6].body.parent == Some(ObjectId(1))
            &&& forall|i: int| 0 <= i <= 5 ==> (#[trigger] m.heap[i]).body.block is None
            &&& m.is_block(ObjectId(6))
            &&& m.code(ObjectId(6)).body.len() == 0
            &&& m.code(ObjectId(6)).dummy_args.len() == 0
            &&& holds(m, "ルート"@, ObjectId(0))
            &&& holds(m, "ブロック"@, ObjectId(1))
            &&& holds(m, "タートル"@, ObjectId(2))
            &&& holds(m, "線"@, ObjectId(3))
            &&& holds(m, "Condition"@, ObjectId(4))
            &&& holds(m, "ボタン"@, ObjectId(5))
        }),
{
    lemma_prototype_names_differ();
    let root = ObjectId(0);
    let m1 = empty_machine().with_root();
    lemma_root_stage();
    let m2 = m1.with_block_prototype(root);
    lemma_block_stage(m1);
    let m3 = m2.with_turtle_prototype(root);
    lemma_turtle_stage(m2);
    let m4 = m3.with_line_prototype(root);
    lemma_line_stage(m3);
    let m5 = crate::object::condition::condition_prototype(m4, root).0;
    lemma_condition_stage(m4);
    let m6 = crate::object::button::button_prototype(m5, root).0;
    lemma_button_stage(m5);
    reveal(VmModel::bootstrapped);
    assert(m6 == initial_machine());
    assert(crate::machine::scopes_owned(m6.control) == 0);
}

} // verus!
