//! The virtual machine: object heap, global bindings, scope stack and
//! interner, together with the frames of the evaluation in progress.

use vstd::prelude::*;
use std::collections::HashMap;
use crate::error::Error;
use crate::machine::{frames_view, Frame, FrameModel, State};
use crate::object::{
    heap_view, heap_wf, NativeMethod, Object, ObjectBody, ObjectBodyModel, ObjectModel,
};
use crate::symbol::{SymbolId, SymbolTable, SymbolTableModel};
use crate::types::Value;

verus! {

broadcast use vstd::std_specs::hash::group_hash_axioms;

/// The key of an object on the heap: its position there.
#[derive(Copy, Clone, Hash, PartialEq, Eq, Debug, Structural)]
pub struct ObjectId(pub usize);

/// The machine as a mathematical value.  The tables are keyed by the number
/// of the symbol.
pub struct VmModel {
    /// The objects, each at the position that its id names.
    pub heap: Seq<ObjectModel>,
    /// The global bindings.
    pub globals: Map<u128, Value>,
    /// The interner.
    pub symbols: SymbolTableModel,
    /// The scopes of the blocks that are running, innermost last.
    pub stack: Seq<Map<u128, Value>>,
    /// What is left to do, next frame last.
    pub control: Seq<FrameModel>,
    /// Where the evaluation stands.
    pub state: State,
}

/// The views of a stack of scopes.
pub open spec fn stack_view(stack: Seq<HashMap<u128, Value>>) -> Seq<Map<u128, Value>> {
    Seq::new(stack.len(), |i: int| stack[i]@)
}

/// The value bound to `symbol` in the innermost scope that binds it.
pub open spec fn find_in_scopes(stack: Seq<Map<u128, Value>>, symbol: u128) -> Option<Value>
    decreases stack.len(),
{
    if stack.len() == 0 {
        None
    } else if stack.last().contains_key(symbol) {
        Some(stack.last()[symbol])
    } else {
        find_in_scopes(stack.drop_last(), symbol)
    }
}

/// The scope of a block after the first `n` parameters have been bound to
/// the first `n` arguments, and the interner after their names have been
/// interned.
pub open spec fn bind_prefix(
    symbols: SymbolTableModel,
    dummy_args: Seq<Seq<char>>,
    real_args: Seq<Value>,
    n: nat,
) -> (SymbolTableModel, Map<u128, Value>)
    decreases n,
{
    if n == 0 || n > dummy_args.len() || n > real_args.len() {
        (symbols, Map::empty())
    } else {
        let (s, scope) = bind_prefix(symbols, dummy_args, real_args, (n - 1) as nat);
        (
            s.intern(dummy_args[n - 1]),
            scope.insert(s.symbol_of(dummy_args[n - 1]).0, real_args[n - 1]),
        )
    }
}

/// The scope of a block called with `real_args`: each parameter that has an
/// argument is bound to it; arguments without a parameter are dropped.
pub open spec fn bind_all(
    symbols: SymbolTableModel,
    dummy_args: Seq<Seq<char>>,
    real_args: Seq<Value>,
) -> (SymbolTableModel, Map<u128, Value>) {
    bind_prefix(
        symbols,
        dummy_args,
        real_args,
        if dummy_args.len() <= real_args.len() {
            dummy_args.len()
        } else {
            real_args.len()
        },
    )
}

impl VmModel {
    /// The heap is well formed and so is the interner.
    pub open spec fn wf(self) -> bool {
        heap_wf(self.heap) && self.symbols.wf()
    }

    /// The machine after `name` has been interned.
    pub open spec fn intern(self, name: Seq<char>) -> VmModel {
        VmModel { symbols: self.symbols.intern(name), ..self }
    }

    /// The number of the symbol of `name`.
    pub open spec fn symbol(self, name: Seq<char>) -> u128 {
        self.symbols.symbol_of(name).0
    }

    /// The machine after `target` has been bound globally to `value`.
    pub open spec fn assign(self, target: u128, value: Value) -> VmModel {
        VmModel { globals: self.globals.insert(target, value), ..self }
    }

    /// Whether a body can be put on the heap: its parent, if it has one, is
    /// there.
    pub open spec fn admits(self, body: ObjectBodyModel) -> bool {
        body.parent is Some ==> (body.parent->0).0 < self.heap.len()
    }

    /// The machine after an object with the state `body` has been put on the
    /// heap.
    pub open spec fn allocate(self, body: ObjectBodyModel) -> VmModel {
        VmModel {
            heap: self.heap.push(ObjectModel { id: ObjectId(self.heap.len() as usize), body }),
            ..self
        }
    }

    /// The object that `value` refers to, or the error that says why there
    /// is none.
    pub open spec fn object_of(self, value: Value) -> Result<ObjectModel, Error> {
        match value {
            Value::ObjectReference(id) => if id.0 < self.heap.len() {
                Ok(self.heap[id.0 as int])
            } else {
                Err(Error::ObjectNotFound)
            },
            _ => Err(Error::Runtime),
        }
    }

    /// The value that `symbol` is bound to: in the innermost scope that
    /// binds it, else globally.
    pub open spec fn value_in_scope(self, symbol: u128) -> Option<Value> {
        match find_in_scopes(self.stack, symbol) {
            Some(v) => Some(v),
            None => if self.globals.contains_key(symbol) {
                Some(self.globals[symbol])
            } else {
                None
            },
        }
    }

    /// The machine after a block with the parameters `dummy_args` has been
    /// entered with `real_args`.
    pub open spec fn push_stack(self, dummy_args: Seq<Seq<char>>, real_args: Seq<Value>) -> VmModel {
        let (symbols, scope) = bind_all(self.symbols, dummy_args, real_args);
        VmModel { symbols, stack: self.stack.push(scope), ..self }
    }

    /// The machine after the innermost block has been left.
    pub open spec fn pop_stack(self) -> VmModel {
        if self.stack.len() == 0 {
            self
        } else {
            VmModel { stack: self.stack.drop_last(), ..self }
        }
    }

    /// The machine after the member `symbol` of the object `id` has been
    /// set.  No other object changes.
    pub open spec fn set_member(self, id: ObjectId, symbol: u128, value: Value) -> VmModel {
        if id.0 < self.heap.len() {
            let old = self.heap[id.0 as int];
            VmModel {
                heap: self.heap.update(
                    id.0 as int,
                    ObjectModel {
                        body: ObjectBodyModel {
                            members: old.body.members.insert(symbol, value),
                            ..old.body
                        },
                        ..old
                    },
                ),
                ..self
            }
        } else {
            self
        }
    }

    /// The machine after the object `id` has become a block with the code
    /// `code`.
    pub open spec fn set_block(self, id: ObjectId, code: crate::object::BlockModel) -> VmModel {
        if id.0 < self.heap.len() {
            let old = self.heap[id.0 as int];
            VmModel {
                heap: self.heap.update(
                    id.0 as int,
                    ObjectModel { body: ObjectBodyModel { block: Some(code), ..old.body }, ..old },
                ),
                ..self
            }
        } else {
            self
        }
    }

    /// The member `symbol` of the object `id`, looked up along its parent
    /// chain.
    pub open spec fn member(self, id: ObjectId, symbol: u128) -> Result<Value, Error> {
        if id.0 < self.heap.len() {
            match self.heap[id.0 as int].body.member(self.heap, symbol) {
                Some(v) => Ok(v),
                None => Err(Error::MemberNotFound),
            }
        } else {
            Err(Error::ObjectNotFound)
        }
    }

    /// Whether the object `id` is on the heap and is a block.
    pub open spec fn is_block(self, id: ObjectId) -> bool {
        id.0 < self.heap.len() && self.heap[id.0 as int].body.block is Some
    }

    /// The code of the block `id`.
    pub open spec fn code(self, id: ObjectId) -> crate::object::BlockModel {
        self.heap[id.0 as int].body.block->0
    }

    /// The machine after the block `id` has been entered with `args`: a new
    /// scope binds the parameters, the frame on top runs the statements from
    /// the first on.  If the object is no block the machine fails with
    /// `Runtime`.
    pub open spec fn entered(self, id: ObjectId, args: Seq<Value>) -> VmModel {
        if self.is_block(id) {
            self.push_stack(self.code(id).dummy_args, args).push_frame(
                FrameModel::BlockBody { block: id, next: 0 },
            ).yields(Value::Null)
        } else {
            self.fails(Error::Runtime)
        }
    }

    /// The number that the member `name` of the object `id` holds; `Runtime`
    /// if the member holds something else.
    pub open spec fn number_member(self, id: ObjectId, name: Seq<char>) -> Result<u64, Error> {
        match self.member(id, self.symbol(name)) {
            Ok(Value::Num(bits)) => Ok(bits),
            Ok(_) => Err(Error::Runtime),
            Err(e) => Err(e),
        }
    }

    /// The truth value that the member `name` of the object `id` holds;
    /// `Runtime` if the member holds something else.
    pub open spec fn bool_member(self, id: ObjectId, name: Seq<char>) -> Result<bool, Error> {
        match self.member(id, self.symbol(name)) {
            Ok(Value::Bool(b)) => Ok(b),
            Ok(_) => Err(Error::Runtime),
            Err(e) => Err(e),
        }
    }

    /// The machine after the method `method` has been called on `this`
    /// with `args`.  A member of that name that refers to a block comes
    /// first: the block is entered.  Else the built-in method of that name
    /// is called, as the receiver or its nearest ancestor has it.  The
    /// machine fails with `Runtime` if the receiver is no object, with
    /// `ObjectNotFound` if it is not on the heap, with `MethodNotFound` if
    /// there is neither such a member nor such a method.
    pub open spec fn called(self, this: Value, method: u128, args: Seq<Value>) -> VmModel {
        match self.object_of(this) {
            Ok(obj) => match self.callee(obj.id, method) {
                Some(Callee::Block(block)) => self.entered(block, args),
                Some(Callee::Native(native)) => self.invoked(native, this, args),
                None => self.fails(Error::MethodNotFound),
            },
            Err(e) => self.fails(e),
        }
    }

    /// What a call of `method` on the object `id` runs: the block that the
    /// member of that name refers to, else the built-in method of that name.
    pub open spec fn callee(self, id: ObjectId, method: u128) -> Option<Callee> {
        match self.member(id, method) {
            Ok(Value::ObjectReference(block)) if self.is_block(block) => Some(
                Callee::Block(block),
            ),
            _ => if id.0 < self.heap.len() {
                match self.heap[id.0 as int].body.method(self.heap, method) {
                    Some(native) => Some(Callee::Native(native)),
                    None => None,
                }
            } else {
                None
            },
        }
    }

    /// The machine after the method named `method` has been called on
    /// `this` with `args`.  The name is interned.
    pub open spec fn called_by_name(self, this: Value, method: Seq<char>, args: Seq<Value>) -> VmModel {
        self.intern(method).called(this, self.symbol(method), args)
    }

    /// The machine after the built-in method `native` has been called on
    /// `this` with `args`.
    pub open spec fn invoked(self, native: NativeMethod, this: Value, args: Seq<Value>) -> VmModel {
        match native {
            NativeMethod::RootCreate => {
                let (m, r) = crate::object::root::created(self, this);
                m.settles(r)
            },
            NativeMethod::TurtleCreate => {
                let (m, r) = crate::object::turtle::turtle_created(self, this);
                m.settles(r)
            },
            NativeMethod::TurtleWalk => crate::object::turtle::walked(self, this, args),
            NativeMethod::TurtleTurnLeft => crate::object::turtle::turn_started(
                self,
                this,
                args,
                false,
            ),
            NativeMethod::TurtleTurnRight => crate::object::turtle::turn_started(
                self,
                this,
                args,
                true,
            ),
            NativeMethod::BlockExec => crate::object::block::executed(self, this, args),
            NativeMethod::BlockRepeat => crate::object::block::repeated(self, this, args),
            NativeMethod::BlockIf => crate::object::block::if_started(self, this),
            NativeMethod::ConditionExec => crate::object::condition::condition_executed(
                self,
                this,
                args,
            ),
            NativeMethod::ConditionElse => crate::object::condition::condition_negated(
                self,
                this,
                args,
            ),
            NativeMethod::ButtonClick => crate::object::button::clicked(self, this),
        }
    }

    /// The machine after the object `id` has got the member named `name`.
    pub open spec fn with_member(self, id: ObjectId, name: Seq<char>, value: Value) -> VmModel {
        self.intern(name).set_member(id, self.symbol(name), value)
    }

    /// The machine after the object `id` has got the method named `name`.
    pub open spec fn with_method(self, id: ObjectId, name: Seq<char>, method: NativeMethod) -> VmModel {
        self.intern(name).add_method(id, self.symbol(name), method)
    }

    /// The machine after `name` has been bound globally to `value`.
    pub open spec fn bound(self, name: Seq<char>, value: Value) -> VmModel {
        self.intern(name).assign(self.symbol(name), value)
    }

    /// The id that the next object gets.
    pub open spec fn next_id(self) -> ObjectId {
        ObjectId(self.heap.len() as usize)
    }

    /// The machine after a child of the object `parent` has been made.
    pub open spec fn with_child(self, parent: ObjectId) -> VmModel {
        crate::object::root::created(self, Value::ObjectReference(parent)).0
    }

    /// The machine after the root has been made and bound to `ルート`: an
    /// object without a parent, with the method `作る`.
    pub open spec fn with_root(self) -> VmModel {
        let root_body = ObjectBodyModel {
            methods: Map::<u128, NativeMethod>::empty().insert(
                self.symbol("作る"@),
                NativeMethod::RootCreate,
            ),
            ..crate::object::child_body(None)
        };
        self.intern("作る"@).allocate(root_body).bound(
            "ルート"@,
            Value::ObjectReference(self.next_id()),
        )
    }

    /// The machine after the prototype of the blocks has been made and
    /// bound to `ブロック`: a child of `root` with the methods `実行`,
    /// `繰り返す` and `ならば`.
    pub open spec fn with_block_prototype(self, root: ObjectId) -> VmModel {
        let block = self.next_id();
        self.with_child(root).with_method(block, "実行"@, NativeMethod::BlockExec).with_method(
            block,
            "繰り返す"@,
            NativeMethod::BlockRepeat,
        ).with_method(block, "ならば"@, NativeMethod::BlockIf).bound(
            "ブロック"@,
            Value::ObjectReference(block),
        )
    }

    /// The machine after the prototype of the turtles has been made and
    /// bound to `タートル`: a child of `root` with the methods `歩く`,
    /// `右回り`, `左回り` and `作る` and the members `x`, `y` and
    /// `direction`, all zero, and `visible`, false.
    pub open spec fn with_turtle_prototype(self, root: ObjectId) -> VmModel {
        let turtle = self.next_id();
        self.with_child(root).with_method(
            turtle,
            "歩く"@,
            NativeMethod::TurtleWalk,
        ).with_method(turtle, "右回り"@, NativeMethod::TurtleTurnRight).with_method(
            turtle,
            "左回り"@,
            NativeMethod::TurtleTurnLeft,
        ).with_method(turtle, "作る"@, NativeMethod::TurtleCreate).with_member(
            turtle,
            "x"@,
            Value::Num(crate::number::ZERO_BITS),
        ).with_member(turtle, "y"@, Value::Num(crate::number::ZERO_BITS)).with_member(
            turtle,
            "direction"@,
            Value::Num(crate::number::ZERO_BITS),
        ).with_member(turtle, "visible"@, Value::Bool(false)).bound(
            "タートル"@,
            Value::ObjectReference(turtle),
        )
    }

    /// The machine after the prototype of the lines has been made and bound
    /// to `線`: a child of `root`.
    pub open spec fn with_line_prototype(self, root: ObjectId) -> VmModel {
        self.with_child(root).bound("線"@, Value::ObjectReference(self.next_id()))
    }

    /// The machine after the prototypes have been made and bound to their
    /// names.  Seven objects are added to the heap, in this order: the
    /// root; the prototypes of the blocks, the turtles, the lines, the
    /// conditions and the buttons; and an empty block, the action of the
    /// button prototype.
    #[verifier::opaque]
    pub open spec fn bootstrapped(self) -> VmModel {
        let root = self.next_id();
        let m = self.with_root().with_block_prototype(root).with_turtle_prototype(
            root,
        ).with_line_prototype(root);
        crate::object::button::button_prototype(
            crate::object::condition::condition_prototype(m, root).0,
            root,
        ).0
    }

    /// The machine in the state `state`.
    pub open spec fn with_state(self, state: State) -> VmModel {
        VmModel { state, ..self }
    }

    /// The machine handing `value` to the frame on top.
    pub open spec fn yields(self, value: Value) -> VmModel {
        self.with_state(State::Value(value))
    }

    /// The machine unwinding with `error`.
    pub open spec fn fails(self, error: Error) -> VmModel {
        self.with_state(State::Failed(error))
    }

    /// The machine handing on a value, or unwinding with an error.
    pub open spec fn settles(self, result: Result<Value, Error>) -> VmModel {
        match result {
            Ok(v) => self.yields(v),
            Err(e) => self.fails(e),
        }
    }

    /// The machine with one more frame to work off.
    pub open spec fn push_frame(self, frame: FrameModel) -> VmModel {
        VmModel { control: self.control.push(frame), ..self }
    }

    /// The machine without the frame on top.
    pub open spec fn pop_frame(self) -> VmModel {
        VmModel { control: self.control.drop_last(), ..self }
    }

    /// The machine after the object `id` has got the method `symbol`.  No
    /// other object changes.
    pub open spec fn add_method(
        self,
        id: ObjectId,
        symbol: u128,
        method: crate::object::NativeMethod,
    ) -> VmModel {
        if id.0 < self.heap.len() {
            let old = self.heap[id.0 as int];
            VmModel {
                heap: self.heap.update(
                    id.0 as int,
                    ObjectModel {
                        body: ObjectBodyModel {
                            methods: old.body.methods.insert(symbol, method),
                            ..old.body
                        },
                        ..old
                    },
                ),
                ..self
            }
        } else {
            self
        }
    }
}

/// What a method call runs.
#[derive(Debug, Clone, Copy, PartialEq, Eq, Structural)]
pub enum Callee {
    /// The block with this id.
    Block(ObjectId),
    /// The built-in method.
    Native(NativeMethod),
}

/// The virtual machine.
pub struct VirtualMachine {
    object_heap: Vec<Object>,
    value_assigns_table: HashMap<u128, Value>,
    symbol_table: SymbolTable,
    stack: Vec<HashMap<u128, Value>>,
    control: Vec<Frame>,
    state: State,
}

impl View for VirtualMachine {
    type V = VmModel;

    closed spec fn view(&self) -> VmModel {
        VmModel {
            heap: heap_view(self.object_heap@),
            globals: self.value_assigns_table@,
            symbols: self.symbol_table@,
            stack: stack_view(self.stack@),
            control: frames_view(self.control@),
            state: self.state,
        }
    }
}

impl VirtualMachine {
    /// The invariant of the machine.
    pub open spec fn wf(&self) -> bool {
        self@.wf()
    }

    /// A machine with an empty heap, no bindings and nothing to do.
    pub fn new() -> (r: Self)
        ensures
            r.wf(),
            r@.heap.len() == 0,
            r@.globals == Map::<u128, Value>::empty(),
            r@.symbols == SymbolTableModel::empty(),
            r@.stack.len() == 0,
            r@.control.len() == 0,
            r@.state == State::Value(Value::Null),
    {
        VirtualMachine {
            object_heap: Vec::new(),
            value_assigns_table: HashMap::new(),
            symbol_table: SymbolTable::new(),
            stack: Vec::new(),
            control: Vec::new(),
            state: State::Value(Value::Null),
        }
    }

    /// The symbol of `symbol_str`, which is interned if it was not.
    pub fn to_symbol(&mut self, symbol_str: &str) -> (r: SymbolId)
        requires
            old(self).wf(),
        ensures
            final(self).wf(),
            final(self)@ == old(self)@.intern(symbol_str@),
            r.0 == old(self)@.symbol(symbol_str@),
    {
        self.symbol_table.insert_user_symbol_if_no_exist(symbol_str)
    }

    /// Binds `target` globally to `value`.  Always succeeds.
    pub fn assign(&mut self, target: SymbolId, value: &Value) -> (r: Result<(), Error>)
        ensures
            r is Ok,
            final(self)@ == old(self)@.assign(target.0, *value),
    {
        self.value_assigns_table.insert(target.0, value.duplicate());
        Ok(())
    }

    /// Puts an object with the state `object_body` on the heap and returns
    /// its id, the number of objects that were there.  Fails with
    /// `ObjectNotFound`, and changes nothing, if the body names a parent
    /// that is not on the heap.
    pub fn allocate(&mut self, object_body: ObjectBody) -> (r: Result<ObjectId, Error>)
        requires
            old(self).wf(),
        ensures
            final(self).wf(),
            old(self)@.admits(object_body@) ==> r == Ok::<ObjectId, Error>(
                ObjectId(old(self)@.heap.len() as usize),
            ) && final(self)@ == old(self)@.allocate(object_body@),
            !old(self)@.admits(object_body@) ==> r == Err::<ObjectId, Error>(Error::ObjectNotFound)
                && final(self)@ == old(self)@,
    {
        match object_body.parent() {
            Some(p) => {
                if p.0 >= self.object_heap.len() {
                    return Err(Error::ObjectNotFound);
                }
            },
            None => {},
        }
        let id = ObjectId(self.object_heap.len());
        let object = Object::new(id, object_body);
        self.object_heap.push(object);
        assert(self@.heap =~= old(self)@.allocate(object_body@).heap);
        Ok(id)
    }

    /// The object with the id `object_id`; `ObjectNotFound` if the heap has
    /// none.
    pub fn get_object(&self, object_id: ObjectId) -> (r: Result<&Object, Error>)
        ensures
            match r {
                Ok(o) => object_id.0 < self@.heap.len() && o@ == self@.heap[object_id.0 as int],
                Err(e) => object_id.0 >= self@.heap.len() && e == Error::ObjectNotFound,
            },
    {
        if object_id.0 < self.object_heap.len() {
            Ok(&self.object_heap[object_id.0])
        } else {
            Err(Error::ObjectNotFound)
        }
    }

    /// The object that `value` refers to; `Runtime` if the value is no
    /// reference, `ObjectNotFound` if the heap has no such object.
    pub fn get_object_from_value(&self, value: &Value) -> (r: Result<&Object, Error>)
        ensures
            match r {
                Ok(o) => self@.object_of(*value) == Ok::<ObjectModel, Error>(o@),
                Err(e) => self@.object_of(*value) == Err::<ObjectModel, Error>(e),
            },
    {
        match value {
            Value::ObjectReference(obj_id) => self.get_object(*obj_id),
            _ => Err(Error::Runtime),
        }
    }

    /// The objects of the heap, each at the position that its id names.
    pub fn get_object_heap(&self) -> (r: &Vec<Object>)
        ensures
            heap_view(r@) == self@.heap,
    {
        &self.object_heap
    }

    /// The objects of the heap, each at the position that its id names.
    pub fn object_heap_borrow(&self) -> (r: &Vec<Object>)
        ensures
            heap_view(r@) == self@.heap,
    {
        &self.object_heap
    }

    /// The value that `symbol_id` is bound to globally; `ObjectNotFound` if
    /// it is not bound.
    pub fn get_value_in_assigns(&self, symbol_id: SymbolId) -> (r: Result<Value, Error>)
        ensures
            r == (if self@.globals.contains_key(symbol_id.0) {
                Ok::<Value, Error>(self@.globals[symbol_id.0])
            } else {
                Err(Error::ObjectNotFound)
            }),
    {
        match self.value_assigns_table.get(&symbol_id.0) {
            Some(v) => Ok(v.duplicate()),
            None => Err(Error::ObjectNotFound),
        }
    }

    /// The id of the object that `symbol_id` is bound to globally;
    /// `ObjectNotFound` if it is not bound, `Runtime` if it is bound to
    /// something else.
    pub fn get_object_id_in_assigns(&self, symbol_id: SymbolId) -> (r: Result<ObjectId, Error>)
        ensures
            r == (if self@.globals.contains_key(symbol_id.0) {
                match self@.globals[symbol_id.0] {
                    Value::ObjectReference(id) => Ok::<ObjectId, Error>(id),
                    _ => Err(Error::Runtime),
                }
            } else {
                Err(Error::ObjectNotFound)
            }),
    {
        match self.get_value_in_assigns(symbol_id) {
            Ok(v) => v.as_object_id(),
            Err(e) => Err(e),
        }
    }

    /// The id of the object that `symbol_id` is bound to globally, as
    /// `get_object_id_in_assigns` finds it.
    pub fn get_object_id(&self, symbol_id: SymbolId) -> (r: Result<ObjectId, Error>)
        ensures
            r == (if self@.globals.contains_key(symbol_id.0) {
                match self@.globals[symbol_id.0] {
                    Value::ObjectReference(id) => Ok::<ObjectId, Error>(id),
                    _ => Err(Error::Runtime),
                }
            } else {
                Err(Error::ObjectNotFound)
            }),
    {
        self.get_object_id_in_assigns(symbol_id)
    }

    /// The value that `symbol_id` is bound to: in the innermost scope that
    /// binds it, else globally; `ObjectNotFound` if nothing binds it.
    pub fn get_value_in_scope(&self, symbol_id: SymbolId) -> (r: Result<Value, Error>)
        ensures
            r == (match self@.value_in_scope(symbol_id.0) {
                Some(v) => Ok::<Value, Error>(v),
                None => Err(Error::ObjectNotFound),
            }),
    {
        let mut i: usize = self.stack.len();
        assert(stack_view(self.stack@).take(i as int) =~= stack_view(self.stack@));
        while i > 0
            invariant
                i <= self.stack.len(),
                find_in_scopes(stack_view(self.stack@), symbol_id.0) == find_in_scopes(
                    stack_view(self.stack@).take(i as int),
                    symbol_id.0,
                ),
            decreases i,
        {
            i -= 1;
            assert(stack_view(self.stack@).take(i + 1).drop_last() =~= stack_view(
                self.stack@,
            ).take(i as int));
            match self.stack[i].get(&symbol_id.0) {
                Some(v) => {
                    return Ok(v.duplicate());
                },
                None => {},
            }
        }
        self.get_value_in_assigns(symbol_id)
    }

    /// The value that the name `symbol` is bound to, as `get_value_in_scope`
    /// finds it.  The name is interned.
    pub fn get_value_in_scope_from_symbol(&mut self, symbol: &str) -> (r: Result<Value, Error>)
        requires
            old(self).wf(),
        ensures
            final(self).wf(),
            final(self)@ == old(self)@.intern(symbol@),
            r == (match old(self)@.value_in_scope(old(self)@.symbol(symbol@)) {
                Some(v) => Ok::<Value, Error>(v),
                None => Err(Error::ObjectNotFound),
            }),
    {
        let sym_id = self.to_symbol(symbol);
        self.get_value_in_scope(sym_id)
    }

    /// The prototype of the blocks: what `ブロック` is bound to globally,
    /// which must be an object.
    pub fn get_block_object_value(&mut self) -> (r: Result<Value, Error>)
        requires
            old(self).wf(),
        ensures
            final(self).wf(),
            final(self)@ == old(self)@.intern("ブロック"@),
            r == (if old(self)@.globals.contains_key(old(self)@.symbol("ブロック"@)) {
                match old(self)@.globals[old(self)@.symbol("ブロック"@)] {
                    Value::ObjectReference(id) => Ok::<Value, Error>(Value::ObjectReference(id)),
                    _ => Err(Error::Runtime),
                }
            } else {
                Err(Error::ObjectNotFound)
            }),
    {
        let sym = self.to_symbol("ブロック");
        match self.get_object_id_in_assigns(sym) {
            Ok(id) => Ok(Value::ObjectReference(id)),
            Err(e) => Err(e),
        }
    }

    /// The id of the object that the name `symbol` is bound to globally;
    /// `ObjectNotFound` if the name is not bound or the heap has no such
    /// object, `Runtime` if the name is bound to something else.  The name
    /// is interned.
    pub fn get_object_in_assigns_from_symbol(&mut self, symbol: &str) -> (r: Result<
        ObjectId,
        Error,
    >)
        requires
            old(self).wf(),
        ensures
            final(self).wf(),
            final(self)@ == old(self)@.intern(symbol@),
            r == (if old(self)@.globals.contains_key(old(self)@.symbol(symbol@)) {
                match old(self)@.globals[old(self)@.symbol(symbol@)] {
                    Value::ObjectReference(id) => if id.0 < old(self)@.heap.len() {
                        Ok::<ObjectId, Error>(id)
                    } else {
                        Err(Error::ObjectNotFound)
                    },
                    _ => Err(Error::Runtime),
                }
            } else {
                Err(Error::ObjectNotFound)
            }),
    {
        let sym = self.to_symbol(symbol);
        match self.get_object_id_in_assigns(sym) {
            Ok(id) => match self.get_object(id) {
                Ok(_) => Ok(id),
                Err(e) => Err(e),
            },
            Err(e) => Err(e),
        }
    }

    /// Enters a block: pushes a scope in which each parameter that has an
    /// argument is bound to it.  The names are interned.
    pub fn push_stack(&mut self, dummy_args: &Vec<String>, real_args: &Vec<Value>)
        requires
            old(self).wf(),
        ensures
            final(self).wf(),
            final(self)@ == old(self)@.push_stack(
                crate::ast::names_view(dummy_args@),
                real_args@,
            ),
    {
        let ghost names = crate::ast::names_view(dummy_args@);
        let mut scope: HashMap<u128, Value> = HashMap::new();
        let n = if dummy_args.len() <= real_args.len() {
            dummy_args.len()
        } else {
            real_args.len()
        };
        let mut i: usize = 0;
        while i < n
            invariant
                i <= n,
                n <= dummy_args.len(),
                n <= real_args.len(),
                names == crate::ast::names_view(dummy_args@),
                self.wf(),
                (self@.symbols, scope@) == bind_prefix(
                    old(self)@.symbols,
                    names,
                    real_args@,
                    i as nat,
                ),
                self@ == (VmModel { symbols: self@.symbols, ..old(self)@ }),
            decreases n - i,
        {
            let sym = self.to_symbol(dummy_args[i].as_str());
            scope.insert(sym.0, real_args[i].duplicate());
            i += 1;
        }
        self.stack.push(scope);
        assert(self@.stack =~= old(self)@.stack.push(scope@));
    }

    /// Sets the member `symbol` of the object `id`; does nothing if the heap
    /// has no such object.  No other object changes.
    pub fn set_member(&mut self, id: ObjectId, symbol: SymbolId, value: Value)
        ensures
            final(self)@ == old(self)@.set_member(id, symbol.0, value),
            old(self).wf() ==> final(self).wf(),
    {
        if id.0 < self.object_heap.len() {
            self.object_heap[id.0].set_member(symbol, value);
            assert(self@.heap =~= old(self)@.set_member(id, symbol.0, value).heap);
        }
    }

    /// Sets the member named `symbol` of the object `id`.  The name is
    /// interned.
    pub fn set_member_str(&mut self, id: ObjectId, symbol: &str, value: Value)
        requires
            old(self).wf(),
        ensures
            final(self).wf(),
            final(self)@ == old(self)@.intern(symbol@).set_member(
                id,
                old(self)@.symbol(symbol@),
                value,
            ),
    {
        let sym = self.to_symbol(symbol);
        self.set_member(id, sym, value)
    }

    /// The member `symbol` of the object `id` or of its nearest ancestor
    /// that has it; `ObjectNotFound` if the heap has no such object,
    /// `MemberNotFound` if none of them has the member.
    pub fn get_member(&self, id: ObjectId, symbol: SymbolId) -> (r: Result<Value, Error>)
        ensures
            r == self@.member(id, symbol.0),
    {
        if id.0 < self.object_heap.len() {
            self.object_heap[id.0].get_member(symbol, &self.object_heap)
        } else {
            Err(Error::ObjectNotFound)
        }
    }

    /// The member named `symbol` of the object `id`, as `get_member` finds
    /// it.  The name is interned.
    pub fn get_member_str(&mut self, id: ObjectId, symbol: &str) -> (r: Result<Value, Error>)
        requires
            old(self).wf(),
        ensures
            final(self).wf(),
            final(self)@ == old(self)@.intern(symbol@),
            r == old(self)@.member(id, old(self)@.symbol(symbol@)),
    {
        let sym = self.to_symbol(symbol);
        self.get_member(id, sym)
    }

    /// Gives the object `id` the method `symbol`; does nothing if the heap
    /// has no such object.
    pub fn add_method(&mut self, id: ObjectId, symbol: SymbolId, method: crate::object::NativeMethod)
        ensures
            final(self)@ == old(self)@.add_method(id, symbol.0, method),
            old(self).wf() ==> final(self).wf(),
    {
        if id.0 < self.object_heap.len() {
            self.object_heap[id.0].add_method(symbol, method);
            assert(self@.heap =~= old(self)@.add_method(id, symbol.0, method).heap);
        }
    }

    /// Gives the object `id` the method named `symbol`.  The name is
    /// interned.
    pub fn add_method_str(&mut self, id: ObjectId, symbol: &str, method: crate::object::NativeMethod)
        requires
            old(self).wf(),
        ensures
            final(self).wf(),
            final(self)@ == old(self)@.intern(symbol@).add_method(
                id,
                old(self)@.symbol(symbol@),
                method,
            ),
    {
        let sym = self.to_symbol(symbol);
        self.add_method(id, sym, method)
    }

    /// Makes the object `id` a block with the code `code`; does nothing if
    /// the heap has no such object.
    pub fn set_internal_value(&mut self, id: ObjectId, code: crate::object::BlockCode)
        ensures
            final(self)@ == old(self)@.set_block(id, code@),
            old(self).wf() ==> final(self).wf(),
    {
        if id.0 < self.object_heap.len() {
            self.object_heap[id.0].set_internal_value(code);
            assert(self@.heap =~= old(self)@.set_block(id, code@).heap);
        }
    }

    /// The number that the member named `name` of the object `id` holds.
    /// The name is interned.
    pub fn number_member(&mut self, id: ObjectId, name: &str) -> (r: Result<u64, Error>)
        requires
            old(self).wf(),
        ensures
            final(self).wf(),
            final(self)@ == old(self)@.intern(name@),
            r == old(self)@.number_member(id, name@),
    {
        match self.get_member_str(id, name) {
            Ok(v) => v.as_num(),
            Err(e) => Err(e),
        }
    }

    /// The truth value that the member named `name` of the object `id`
    /// holds.  The name is interned.
    pub fn bool_member(&mut self, id: ObjectId, name: &str) -> (r: Result<bool, Error>)
        requires
            old(self).wf(),
        ensures
            final(self).wf(),
            final(self)@ == old(self)@.intern(name@),
            r == old(self)@.bool_member(id, name@),
    {
        match self.get_member_str(id, name) {
            Ok(v) => v.as_bool(),
            Err(e) => Err(e),
        }
    }

    /// Enters the block `block` with `args`: pushes a scope that binds the
    /// parameters and schedules the statements.  Fails with `Runtime` if the
    /// object is no block.
    pub fn enter_block(&mut self, block: ObjectId, args: &Vec<Value>)
        requires
            old(self).wf(),
        ensures
            final(self).wf(),
            final(self)@ == old(self)@.entered(block, args@),
    {
        if block.0 >= self.object_heap.len() {
            self.state = State::Failed(Error::Runtime);
            return ;
        }
        let dummy_args = match self.object_heap[block.0].get_internal_value() {
            Some(code) => Some(crate::ast::duplicate_names(&code.dummy_args)),
            None => None,
        };
        match dummy_args {
            Some(names) => {
                self.push_stack(&names, args);
                self.push_frame(Frame::BlockBody { block, next: 0 });
                self.state = State::Value(Value::Null);
            },
            None => {
                self.state = State::Failed(Error::Runtime);
            },
        }
    }

    /// What a call of `method` on the object `id` runs: the block that the
    /// member of that name refers to, else the built-in method of that name,
    /// as the object or its nearest ancestor has them.
    pub fn resolve(&self, id: ObjectId, method: SymbolId) -> (r: Option<Callee>)
        ensures
            r == self@.callee(id, method.0),
    {
        match self.get_member(id, method) {
            Ok(Value::ObjectReference(block)) => {
                if block.0 < self.object_heap.len() {
                    if self.object_heap[block.0].get_internal_value().is_some() {
                        return Some(Callee::Block(block));
                    }
                }
            },
            _ => {},
        }
        if id.0 < self.object_heap.len() {
            match self.object_heap[id.0].get_method(method, &self.object_heap) {
                Ok(native) => Some(Callee::Native(native)),
                Err(_) => None,
            }
        } else {
            None
        }
    }

    /// Calls the method `method` on `this` with `args`.  A member of that
    /// name that refers to a block is entered; else the built-in method of
    /// that name is called.
    pub fn call_method(&mut self, this: &Value, method: SymbolId, args: &Vec<Value>)
        requires
            old(self).wf(),
        ensures
            final(self).wf(),
            final(self)@ == old(self)@.called(*this, method.0, args@),
    {
        let target = match self.get_object_from_value(this) {
            Ok(obj) => Ok(obj.id()),
            Err(e) => Err(e),
        };
        match target {
            Ok(id) => match self.resolve(id, method) {
                Some(Callee::Block(block)) => self.enter_block(block, args),
                Some(Callee::Native(native)) => self.invoke(native, this, args),
                None => self.set_state(State::Failed(Error::MethodNotFound)),
            },
            Err(e) => self.set_state(State::Failed(e)),
        }
    }

    /// Calls the built-in method `native` on `this` with `args`.
    pub fn invoke(&mut self, native: NativeMethod, this: &Value, args: &Vec<Value>)
        requires
            old(self).wf(),
        ensures
            final(self).wf(),
            final(self)@ == old(self)@.invoked(native, *this, args@),
    {
        match native {
            NativeMethod::RootCreate => {
                let r = crate::object::root::create(this, args, self);
                self.settle(r);
            },
            NativeMethod::TurtleCreate => {
                let r = crate::object::turtle::create(this, args, self);
                self.settle(r);
            },
            NativeMethod::TurtleWalk => crate::object::turtle::walk(this, args, self),
            NativeMethod::TurtleTurnLeft => crate::object::turtle::turn_left(this, args, self),
            NativeMethod::TurtleTurnRight => crate::object::turtle::turn_right(this, args, self),
            NativeMethod::BlockExec => crate::object::block::exec(this, args, self),
            NativeMethod::BlockRepeat => crate::object::block::repeat(this, args, self),
            NativeMethod::BlockIf => crate::object::block::if_(this, args, self),
            NativeMethod::ConditionExec => crate::object::condition::exec(this, args, self),
            NativeMethod::ConditionElse => crate::object::condition::else_(this, args, self),
            NativeMethod::ButtonClick => crate::object::button::click(this, args, self),
        }
    }

    /// Binds the name `name` globally to `value`.  The name is interned.
    pub fn assign_str(&mut self, name: &str, value: &Value)
        requires
            old(self).wf(),
        ensures
            final(self).wf(),
            final(self)@ == old(self)@.bound(name@, *value),
    {
        let symbol = self.to_symbol(name);
        let _ = self.assign(symbol, value);
    }

    /// Makes a child of the object `parent`, which must be on the heap, and
    /// returns its id.
    pub fn create_child(&mut self, parent: ObjectId) -> (r: ObjectId)
        requires
            old(self).wf(),
            parent.0 < old(self)@.heap.len(),
        ensures
            final(self).wf(),
            final(self)@ == old(self)@.with_child(parent),
            r == old(self)@.next_id(),
            final(self)@.heap.len() == old(self)@.heap.len() + 1,
    {
        let no_args: Vec<Value> = Vec::new();
        match crate::object::root::create(&Value::ObjectReference(parent), &no_args, self) {
            Ok(Value::ObjectReference(id)) => id,
            _ => ObjectId(0),
        }
    }

    /// Makes the prototypes and binds them to their names: the root, the
    /// block, the turtle, the line, the condition and the button.
    pub fn initialize(&mut self)
        requires
            old(self).wf(),
        ensures
            final(self).wf(),
            final(self)@ == old(self)@.bootstrapped(),
    {
        reveal(VmModel::bootstrapped);
        let create_symbol = self.to_symbol("作る");
        let mut root_body = ObjectBody::empty();
        root_body.add_method(create_symbol, NativeMethod::RootCreate);
        let root = match self.allocate(root_body) {
            Ok(id) => id,
            Err(_) => ObjectId(0),
        };
        self.assign_str("ルート", &Value::ObjectReference(root));

        let block = self.create_child(root);
        self.add_method_str(block, "実行", NativeMethod::BlockExec);
        self.add_method_str(block, "繰り返す", NativeMethod::BlockRepeat);
        self.add_method_str(block, "ならば", NativeMethod::BlockIf);
        self.assign_str("ブロック", &Value::ObjectReference(block));

        let turtle = self.create_child(root);
        self.add_method_str(turtle, "歩く", NativeMethod::TurtleWalk);
        self.add_method_str(turtle, "右回り", NativeMethod::TurtleTurnRight);
        self.add_method_str(turtle, "左回り", NativeMethod::TurtleTurnLeft);
        self.add_method_str(turtle, "作る", NativeMethod::TurtleCreate);
        self.set_member_str(turtle, "x", Value::Num(crate::number::ZERO_BITS));
        self.set_member_str(turtle, "y", Value::Num(crate::number::ZERO_BITS));
        self.set_member_str(turtle, "direction", Value::Num(crate::number::ZERO_BITS));
        self.set_member_str(turtle, "visible", Value::Bool(false));
        self.assign_str("タートル", &Value::ObjectReference(turtle));

        let line = self.create_child(root);
        self.assign_str("線", &Value::ObjectReference(line));

        let _ = crate::object::condition::create_super_object(root, self);
        let _ = crate::object::button::create_super_object(root, self);
    }

    /// How many frames are left to work off.
    pub fn pending(&self) -> (r: usize)
        ensures
            r == self@.control.len(),
    {
        self.control.len()
    }

    /// Where the evaluation stands.
    pub fn state(&self) -> (r: &State)
        ensures
            *r == self@.state,
    {
        &self.state
    }

    /// Puts the evaluation in the state `state`.
    pub fn set_state(&mut self, state: State)
        ensures
            final(self)@ == old(self)@.with_state(state),
            old(self).wf() ==> final(self).wf(),
    {
        self.state = state;
    }

    /// Hands `result` on: a value to the frame on top, an error to unwind.
    pub fn settle(&mut self, result: Result<Value, Error>)
        ensures
            final(self)@ == old(self)@.settles(result),
            old(self).wf() ==> final(self).wf(),
    {
        match result {
            Ok(v) => {
                self.state = State::Value(v);
            },
            Err(e) => {
                self.state = State::Failed(e);
            },
        }
    }

    /// Puts a frame on top of the control stack.
    pub fn push_frame(&mut self, frame: Frame)
        ensures
            final(self)@ == old(self)@.push_frame(frame@),
            old(self).wf() ==> final(self).wf(),
    {
        self.control.push(frame);
        assert(self@.control =~= old(self)@.control.push(frame@));
    }

    /// Takes the frame on top of the control stack, if there is one.
    pub fn pop_frame(&mut self) -> (r: Option<Frame>)
        ensures
            old(self).wf() ==> final(self).wf(),
            match r {
                Some(frame) => old(self)@.control.len() > 0 && frame@ == old(self)@.control.last()
                    && final(self)@ == old(self)@.pop_frame(),
                None => old(self)@.control.len() == 0 && final(self)@ == old(self)@,
            },
    {
        let r = self.control.pop();
        proof {
            if r is Some {
                assert(self@.control =~= old(self)@.control.drop_last());
            } else {
                assert(self@.control =~= old(self)@.control);
            }
        }
        r
    }

    /// Leaves the innermost block: pops its scope, if there is one.
    pub fn pop_stack(&mut self)
        ensures
            final(self)@ == old(self)@.pop_stack(),
            old(self).wf() ==> final(self).wf(),
    {
        let _ = self.stack.pop();
        assert(self@.stack =~= old(self)@.pop_stack().stack);
    }
}

/// What an object of a heap's first `bound` positions sees along its parent
/// chain does not depend on the rest of the heap.
pub proof fn lemma_lookup_below(
    h1: Seq<ObjectModel>,
    h2: Seq<ObjectModel>,
    bound: int,
    start: Option<ObjectId>,
    symbol: u128,
)
    requires
        0 <= bound <= h1.len(),
        bound <= h2.len(),
        forall|i: int| 0 <= i < bound ==> h1[i] == h2[i],
        start is Some ==> (start->0).0 < bound,
    ensures
        crate::object::find_member(h1, start, symbol) == crate::object::find_member(
            h2,
            start,
            symbol,
        ),
        crate::object::find_method(h1, start, symbol) == crate::object::find_method(
            h2,
            start,
            symbol,
        ),
    decreases
            (match start {
                Some(p) => p.0 + 1,
                None => 0,
            }),
{
    match start {
        Some(p) => {
            let body = h1[p.0 as int].body;
            if body.parent is Some && (body.parent->0).0 < p.0 {
                lemma_lookup_below(h1, h2, bound, body.parent, symbol);
            }
        },
        None => {},
    }
}

/// A child is isolated from its prototype.  After a child of `parent` has
/// been made, setting a member of the child leaves the parent as it was:
/// the parent's own state is unchanged, and every member that the parent
/// has or inherits reads as before.  The child itself reads the new value.
pub proof fn lemma_child_write_keeps_parent(
    m: VmModel,
    parent: ObjectId,
    symbol: u128,
    value: Value,
)
    requires
        m.wf(),
        parent.0 < m.heap.len(),
        m.heap.len() < usize::MAX,
    ensures
        ({
            let child = m.next_id();
            let after = m.with_child(parent).set_member(child, symbol, value);
            &&& after.heap[parent.0 as int] == m.heap[parent.0 as int]
            &&& forall|s: u128| after.member(parent, s) == m.member(parent, s)
            &&& after.member(child, symbol) == Ok::<Value, Error>(value)
        }),
{
    let child = m.next_id();
    let after = m.with_child(parent).set_member(child, symbol, value);
    assert forall|s: u128| after.member(parent, s) == m.member(parent, s) by {
        lemma_lookup_below(
            after.heap,
            m.heap,
            m.heap.len() as int,
            m.heap[parent.0 as int].body.parent,
            s,
        );
    }
}

/// A child inherits the methods of its prototype.  After the object
/// `parent` has got a method, a call of that method on a child that has no
/// method of that name itself finds the parent's method; the child's own
/// table of methods is as it was.  Unless a member of that name refers to a
/// block, the call runs the parent's method.
pub proof fn lemma_child_inherits_method(
    m: VmModel,
    parent: ObjectId,
    child: ObjectId,
    symbol: u128,
    method: NativeMethod,
)
    requires
        m.wf(),
        child.0 < m.heap.len(),
        m.heap[child.0 as int].body.parent == Some(parent),
        !m.heap[child.0 as int].body.methods.contains_key(symbol),
    ensures
        ({
            let after = m.add_method(parent, symbol, method);
            &&& after.heap[child.0 as int].body.methods == m.heap[child.0 as int].body.methods
            &&& after.heap[child.0 as int].body.method(after.heap, symbol) == Some(method)
            &&& (after.callee(child, symbol) == Some(Callee::Native(method)) || (exists|
                block: ObjectId,
            |
                after.member(child, symbol) == Ok::<Value, Error>(Value::ObjectReference(block))
                    && after.is_block(block)))
        }),
{
    let after = m.add_method(parent, symbol, method);
    match after.member(child, symbol) {
        Ok(Value::ObjectReference(block)) => {
            if after.is_block(block) {
                assert(after.member(child, symbol) == Ok::<Value, Error>(
                    Value::ObjectReference(block),
                ) && after.is_block(block));
            }
        },
        _ => {},
    }
}

/// A block that is assigned to a member overrides the methods of that
/// name.  After the member `symbol` of an object has been set to a block, a
/// call of `symbol` on the object enters that block, whatever built-in
/// method of that name the object has or inherits.
pub proof fn lemma_block_member_overrides(
    m: VmModel,
    object: ObjectId,
    symbol: u128,
    block: ObjectId,
    args: Seq<Value>,
)
    requires
        m.wf(),
        object.0 < m.heap.len(),
        m.is_block(block),
    ensures
        ({
            let after = m.set_member(object, symbol, Value::ObjectReference(block));
            &&& after.callee(object, symbol) == Some(Callee::Block(block))
            &&& after.called(Value::ObjectReference(object), symbol, args) == after.entered(
                block,
                args,
            )
        }),
{
}

} // verus!
