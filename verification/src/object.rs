//! Prototype objects.
//!
//! An object has an optional parent, a table of members, a table of built-in
//! methods and, if it is a block, the code of the block.  Objects live on a
//! heap and name their parent by its id; an object's parent always has a
//! smaller id than the object itself, so every parent chain ends.

pub mod block;
pub mod button;
pub mod condition;
pub mod root;
pub mod turtle;

use vstd::prelude::*;
use std::collections::HashMap;
use crate::ast::{duplicate_names, duplicate_nodes, names_view, nodes_view, ASTNode, Node};
use crate::error::Error;
use crate::symbol::SymbolId;
use crate::types::Value;
use crate::vm::{ObjectId, VirtualMachine};

verus! {

broadcast use vstd::std_specs::hash::group_hash_axioms;

/// The built-in methods.
#[derive(Debug, Clone, Copy, PartialEq, Eq, Structural)]
pub enum NativeMethod {
    /// `作る` of the root: make a child of the receiver.
    RootCreate,
    /// `作る` of the turtle: make a visible child of the receiver.
    TurtleCreate,
    /// `歩く`: move the turtle forward and leave a line.
    TurtleWalk,
    /// `左回り`: turn the turtle to the left.
    TurtleTurnLeft,
    /// `右回り`: turn the turtle to the right.
    TurtleTurnRight,
    /// `実行` of a block: run it.
    BlockExec,
    /// `繰り返す`: run the block a number of times.
    BlockRepeat,
    /// `ならば`: run the block and make a condition of its result.
    BlockIf,
    /// `実行` of a condition: run the given block if the condition holds.
    ConditionExec,
    /// `そうでないなら`: the opposite condition.
    ConditionElse,
    /// `クリック`: run the button's action.
    ButtonClick,
}

/// The code of a block: parameter names and statements.
#[derive(Debug, PartialEq)]
pub struct BlockCode {
    pub dummy_args: Vec<String>,
    pub body: Vec<ASTNode>,
}

/// The code of a block as a mathematical value.
pub struct BlockModel {
    pub dummy_args: Seq<Seq<char>>,
    pub body: Seq<Node>,
}

impl View for BlockCode {
    type V = BlockModel;

    open spec fn view(&self) -> BlockModel {
        BlockModel { dummy_args: names_view(self.dummy_args@), body: nodes_view(self.body@) }
    }
}

impl BlockCode {
    /// A copy of the code.
    pub fn duplicate(&self) -> (r: BlockCode)
        ensures
            r@ == self@,
    {
        BlockCode {
            dummy_args: duplicate_names(&self.dummy_args),
            body: duplicate_nodes(&self.body),
        }
    }
}

/// An object's own state as a mathematical value.  The tables are keyed by
/// the number of the symbol.
pub struct ObjectBodyModel {
    pub parent: Option<ObjectId>,
    pub members: Map<u128, Value>,
    pub methods: Map<u128, NativeMethod>,
    pub block: Option<BlockModel>,
}

/// An object as a mathematical value.
pub struct ObjectModel {
    pub id: ObjectId,
    pub body: ObjectBodyModel,
}

/// The body of a fresh object whose parent is `parent`: the new object
/// starts with a copy of the parent's members, with no methods of its own
/// and with no code.
pub open spec fn child_body(parent: Option<ObjectModel>) -> ObjectBodyModel {
    match parent {
        Some(p) => ObjectBodyModel {
            parent: Some(p.id),
            members: p.body.members,
            methods: Map::empty(),
            block: None,
        },
        None => ObjectBodyModel {
            parent: None,
            members: Map::empty(),
            methods: Map::empty(),
            block: None,
        },
    }
}

/// The member `symbol` as seen from the object `start` of `heap`: the
/// object's own member if it has one, else what its parent sees.
pub open spec fn find_member(heap: Seq<ObjectModel>, start: Option<ObjectId>, symbol: u128) -> Option<
    Value,
>
    decreases
            (match start {
                Some(p) => p.0 + 1,
                None => 0,
            }),
{
    match start {
        None => None,
        Some(p) => if p.0 < heap.len() {
            let body = heap[p.0 as int].body;
            if body.members.contains_key(symbol) {
                Some(body.members[symbol])
            } else if body.parent is Some && (body.parent->0).0 < p.0 {
                find_member(heap, body.parent, symbol)
            } else {
                None
            }
        } else {
            None
        },
    }
}

/// The method `symbol` as seen from the object `start` of `heap`: the
/// object's own method if it has one, else what its parent sees.
pub open spec fn find_method(heap: Seq<ObjectModel>, start: Option<ObjectId>, symbol: u128) -> Option<
    NativeMethod,
>
    decreases
            (match start {
                Some(p) => p.0 + 1,
                None => 0,
            }),
{
    match start {
        None => None,
        Some(p) => if p.0 < heap.len() {
            let body = heap[p.0 as int].body;
            if body.methods.contains_key(symbol) {
                Some(body.methods[symbol])
            } else if body.parent is Some && (body.parent->0).0 < p.0 {
                find_method(heap, body.parent, symbol)
            } else {
                None
            }
        } else {
            None
        },
    }
}

/// Whether `ancestor` is `start` or one of the objects above it in `heap`.
pub open spec fn reaches(heap: Seq<ObjectModel>, start: Option<ObjectId>, ancestor: ObjectId) -> bool
    decreases
            (match start {
                Some(p) => p.0 + 1,
                None => 0,
            }),
{
    match start {
        None => false,
        Some(p) => p == ancestor || (p.0 < heap.len() && {
            let body = heap[p.0 as int].body;
            body.parent is Some && (body.parent->0).0 < p.0 && reaches(heap, body.parent, ancestor)
        }),
    }
}

impl ObjectBodyModel {
    /// The member `symbol` of an object with this body: its own, else what
    /// its parent sees.
    pub open spec fn member(self, heap: Seq<ObjectModel>, symbol: u128) -> Option<Value> {
        if self.members.contains_key(symbol) {
            Some(self.members[symbol])
        } else {
            find_member(heap, self.parent, symbol)
        }
    }

    /// The method `symbol` of an object with this body: its own, else what
    /// its parent sees.
    pub open spec fn method(self, heap: Seq<ObjectModel>, symbol: u128) -> Option<NativeMethod> {
        if self.methods.contains_key(symbol) {
            Some(self.methods[symbol])
        } else {
            find_method(heap, self.parent, symbol)
        }
    }

    /// Whether `ancestor` is among the objects above an object with this
    /// body.
    pub open spec fn is_subclass(self, heap: Seq<ObjectModel>, ancestor: ObjectId) -> bool {
        reaches(heap, self.parent, ancestor)
    }
}

/// An object's own state.
#[derive(Debug)]
pub struct ObjectBody {
    parent: Option<ObjectId>,
    members: HashMap<u128, Value>,
    methods: HashMap<u128, NativeMethod>,
    internal_value: Option<BlockCode>,
}

/// An object on the heap.
#[derive(Debug)]
pub struct Object {
    id: ObjectId,
    body: ObjectBody,
}

/// The objects of a heap as mathematical values.
pub open spec fn heap_view(heap: Seq<Object>) -> Seq<ObjectModel> {
    Seq::new(heap.len(), |i: int| heap[i]@)
}

/// Every object of the heap sits at the position that its id names, and
/// below its parent.
pub open spec fn heap_wf(heap: Seq<ObjectModel>) -> bool {
    forall|i: int|
        0 <= i < heap.len() ==> (#[trigger] heap[i]).id.0 == i && (heap[i].body.parent is Some
            ==> (heap[i].body.parent->0).0 < i)
}

impl View for ObjectBody {
    type V = ObjectBodyModel;

    closed spec fn view(&self) -> ObjectBodyModel {
        ObjectBodyModel {
            parent: self.parent,
            members: self.members@,
            methods: self.methods@,
            block: match self.internal_value {
                Some(code) => Some(code@),
                None => None,
            },
        }
    }
}

impl View for Object {
    type V = ObjectModel;

    closed spec fn view(&self) -> ObjectModel {
        ObjectModel { id: self.id, body: self.body@ }
    }
}

impl ObjectBody {
    /// The body of a fresh object below `parent`.  The new body starts with
    /// a copy of the parent's members.
    pub fn new(parent: Option<&Object>) -> (r: Self)
        ensures
            r@ == child_body(
                match parent {
                    Some(p) => Some(p@),
                    None => None,
                },
            ),
    {
        match parent {
            Some(p) => ObjectBody {
                parent: Some(p.id),
                members: p.body.members.clone(),
                methods: HashMap::new(),
                internal_value: None,
            },
            None => ObjectBody {
                parent: None,
                members: HashMap::new(),
                methods: HashMap::new(),
                internal_value: None,
            },
        }
    }

    /// The body of a fresh object without a parent.
    pub fn empty() -> (r: Self)
        ensures
            r@ == child_body(None),
    {
        ObjectBody::new(None)
    }

    /// The id of the parent, if there is one.
    pub fn parent(&self) -> (r: Option<ObjectId>)
        ensures
            r == self@.parent,
    {
        self.parent
    }

    /// The method `symbol`, looked up on this body and then along the parent
    /// chain in `heap`; `MethodNotFound` if no object on the way has it.
    pub fn get_method(&self, symbol: SymbolId, heap: &Vec<Object>) -> (r: Result<
        NativeMethod,
        Error,
    >)
        ensures
            r == (match self@.method(heap_view(heap@), symbol.0) {
                Some(m) => Ok::<NativeMethod, Error>(m),
                None => Err(Error::MethodNotFound),
            }),
    {
        match self.methods.get(&symbol.0) {
            Some(m) => Ok(*m),
            None => match lookup_method(heap, self.parent, symbol) {
                Some(m) => Ok(m),
                None => Err(Error::MethodNotFound),
            },
        }
    }

    /// Adds or replaces the method `symbol` of this body.
    pub fn add_method(&mut self, symbol: SymbolId, method: NativeMethod)
        ensures
            final(self)@ == (ObjectBodyModel {
                methods: old(self)@.methods.insert(symbol.0, method),
                ..old(self)@
            }),
    {
        self.methods.insert(symbol.0, method);
    }

    /// Sets the member `symbol` of this body.  No other object changes.
    pub fn set_member(&mut self, symbol: SymbolId, value: Value)
        ensures
            final(self)@ == (ObjectBodyModel {
                members: old(self)@.members.insert(symbol.0, value),
                ..old(self)@
            }),
    {
        self.members.insert(symbol.0, value);
    }

    /// The member `symbol`, looked up on this body and then along the parent
    /// chain in `heap`; `MemberNotFound` if no object on the way has it.
    pub fn get_member(&self, symbol: SymbolId, heap: &Vec<Object>) -> (r: Result<Value, Error>)
        ensures
            r == (match self@.member(heap_view(heap@), symbol.0) {
                Some(v) => Ok::<Value, Error>(v),
                None => Err(Error::MemberNotFound),
            }),
    {
        match self.members.get(&symbol.0) {
            Some(v) => Ok(v.duplicate()),
            None => match lookup_member(heap, self.parent, symbol) {
                Some(v) => Ok(v),
                None => Err(Error::MemberNotFound),
            },
        }
    }

    /// Adds or replaces the method named `symbol` of this body.  The name
    /// is interned in `vm`.
    pub fn add_method_str(&mut self, symbol: &str, method: NativeMethod, vm: &mut VirtualMachine)
        requires
            old(vm).wf(),
        ensures
            final(vm).wf(),
            final(vm)@ == old(vm)@.intern(symbol@),
            final(self)@ == (ObjectBodyModel {
                methods: old(self)@.methods.insert(old(vm)@.symbol(symbol@), method),
                ..old(self)@
            }),
    {
        let sym = vm.to_symbol(symbol);
        self.add_method(sym, method)
    }

    /// The member named `symbol`, as `get_member` finds it on the heap of
    /// `vm`.  The name is interned in `vm`.
    pub fn get_member_str(&self, symbol: &str, vm: &mut VirtualMachine) -> (r: Result<
        Value,
        Error,
    >)
        requires
            old(vm).wf(),
        ensures
            final(vm).wf(),
            final(vm)@ == old(vm)@.intern(symbol@),
            r == (match self@.member(old(vm)@.heap, old(vm)@.symbol(symbol@)) {
                Some(v) => Ok::<Value, Error>(v),
                None => Err(Error::MemberNotFound),
            }),
    {
        let sym = vm.to_symbol(symbol);
        self.get_member(sym, vm.get_object_heap())
    }

    /// Sets the member named `symbol` of this body.  The name is interned
    /// in `vm`.
    pub fn set_member_str(&mut self, symbol: &str, value: Value, vm: &mut VirtualMachine)
        requires
            old(vm).wf(),
        ensures
            final(vm).wf(),
            final(vm)@ == old(vm)@.intern(symbol@),
            final(self)@ == (ObjectBodyModel {
                members: old(self)@.members.insert(old(vm)@.symbol(symbol@), value),
                ..old(self)@
            }),
    {
        let sym = vm.to_symbol(symbol);
        self.set_member(sym, value)
    }

    /// Makes this body a block with the given code.
    pub fn set_internal_value(&mut self, internal_value: BlockCode)
        ensures
            final(self)@ == (ObjectBodyModel { block: Some(internal_value@), ..old(self)@ }),
    {
        self.internal_value = Some(internal_value);
    }

    /// The code of the block, if this body is one.
    pub fn get_internal_value(&self) -> (r: Option<&BlockCode>)
        ensures
            match r {
                Some(code) => self@.block == Some(code@),
                None => self@.block is None,
            },
    {
        self.internal_value.as_ref()
    }

    /// Whether `obj_id` is among the objects above this body in `heap`.
    pub fn is_subclass(&self, obj_id: ObjectId, heap: &Vec<Object>) -> (r: bool)
        ensures
            r == self@.is_subclass(heap_view(heap@), obj_id),
    {
        let mut current = self.parent;
        loop
            invariant
                reaches(heap_view(heap@), current, obj_id) == self@.is_subclass(
                    heap_view(heap@),
                    obj_id,
                ),
            decreases
                    (match current {
                        Some(p) => p.0 + 1,
                        None => 0,
                    }),
        {
            match current {
                None => {
                    return false;
                },
                Some(p) => {
                    if p.0 == obj_id.0 {
                        return true;
                    }
                    if p.0 >= heap.len() {
                        return false;
                    }
                    let next = heap[p.0].body.parent;
                    match next {
                        Some(q) => {
                            if q.0 < p.0 {
                                current = next;
                            } else {
                                return false;
                            }
                        },
                        None => {
                            return false;
                        },
                    }
                },
            }
        }
    }
}

/// The member `symbol` as seen from the object `start` of `heap`.
pub fn lookup_member(heap: &Vec<Object>, start: Option<ObjectId>, symbol: SymbolId) -> (r: Option<
    Value,
>)
    ensures
        r == find_member(heap_view(heap@), start, symbol.0),
{
    let mut current = start;
    loop
        invariant
            find_member(heap_view(heap@), current, symbol.0) == find_member(
                heap_view(heap@),
                start,
                symbol.0,
            ),
        decreases
                (match current {
                    Some(p) => p.0 + 1,
                    None => 0,
                }),
    {
        match current {
            None => {
                return None;
            },
            Some(p) => {
                if p.0 >= heap.len() {
                    return None;
                }
                let body = &heap[p.0].body;
                match body.members.get(&symbol.0) {
                    Some(v) => {
                        return Some(v.duplicate());
                    },
                    None => {},
                }
                match body.parent {
                    Some(q) => {
                        if q.0 < p.0 {
                            current = body.parent;
                        } else {
                            return None;
                        }
                    },
                    None => {
                        return None;
                    },
                }
            },
        }
    }
}

/// The method `symbol` as seen from the object `start` of `heap`.
pub fn lookup_method(heap: &Vec<Object>, start: Option<ObjectId>, symbol: SymbolId) -> (r: Option<
    NativeMethod,
>)
    ensures
        r == find_method(heap_view(heap@), start, symbol.0),
{
    let mut current = start;
    loop
        invariant
            find_method(heap_view(heap@), current, symbol.0) == find_method(
                heap_view(heap@),
                start,
                symbol.0,
            ),
        decreases
                (match current {
                    Some(p) => p.0 + 1,
                    None => 0,
                }),
    {
        match current {
            None => {
                return None;
            },
            Some(p) => {
                if p.0 >= heap.len() {
                    return None;
                }
                let body = &heap[p.0].body;
                match body.methods.get(&symbol.0) {
                    Some(m) => {
                        return Some(*m);
                    },
                    None => {},
                }
                match body.parent {
                    Some(q) => {
                        if q.0 < p.0 {
                            current = body.parent;
                        } else {
                            return None;
                        }
                    },
                    None => {
                        return None;
                    },
                }
            },
        }
    }
}

impl Object {
    /// A fresh object with the id `id`, without parent, members or methods.
    pub fn empty(id: ObjectId) -> (r: Self)
        ensures
            r@ == (ObjectModel { id, body: child_body(None) }),
    {
        Object { id, body: ObjectBody::empty() }
    }

    /// The object with the id `id` and the state `body`.
    pub fn new(id: ObjectId, body: ObjectBody) -> (r: Self)
        ensures
            r@ == (ObjectModel { id, body: body@ }),
    {
        Object { id, body }
    }

    /// The id of the object.
    pub fn id(&self) -> (r: ObjectId)
        ensures
            r == self@.id,
    {
        self.id
    }

    /// The object's own state.
    pub fn body(&self) -> (r: &ObjectBody)
        ensures
            r@ == self@.body,
    {
        &self.body
    }

    /// Whether `obj_id` is among the objects above this one in `heap`.
    pub fn is_subclass(&self, obj_id: ObjectId, heap: &Vec<Object>) -> (r: bool)
        ensures
            r == self@.body.is_subclass(heap_view(heap@), obj_id),
    {
        self.body.is_subclass(obj_id, heap)
    }

    /// The method `symbol` of this object or of the nearest ancestor that
    /// has it; `MethodNotFound` if none has.
    pub fn get_method(&self, symbol: SymbolId, heap: &Vec<Object>) -> (r: Result<
        NativeMethod,
        Error,
    >)
        ensures
            r == (match self@.body.method(heap_view(heap@), symbol.0) {
                Some(m) => Ok::<NativeMethod, Error>(m),
                None => Err(Error::MethodNotFound),
            }),
    {
        self.body.get_method(symbol, heap)
    }

    /// Adds or replaces the method `symbol` of this object.
    pub fn add_method(&mut self, symbol: SymbolId, method: NativeMethod)
        ensures
            final(self)@ == (ObjectModel {
                body: ObjectBodyModel {
                    methods: old(self)@.body.methods.insert(symbol.0, method),
                    ..old(self)@.body
                },
                ..old(self)@
            }),
    {
        self.body.add_method(symbol, method)
    }

    /// Sets the member `symbol` of this object.  No other object changes.
    pub fn set_member(&mut self, symbol: SymbolId, value: Value)
        ensures
            final(self)@ == (ObjectModel {
                body: ObjectBodyModel {
                    members: old(self)@.body.members.insert(symbol.0, value),
                    ..old(self)@.body
                },
                ..old(self)@
            }),
    {
        self.body.set_member(symbol, value)
    }

    /// The member `symbol` of this object or of the nearest ancestor that
    /// has it; `MemberNotFound` if none has.
    pub fn get_member(&self, symbol: SymbolId, heap: &Vec<Object>) -> (r: Result<Value, Error>)
        ensures
            r == (match self@.body.member(heap_view(heap@), symbol.0) {
                Some(v) => Ok::<Value, Error>(v),
                None => Err(Error::MemberNotFound),
            }),
    {
        self.body.get_member(symbol, heap)
    }

    /// Adds or replaces the method named `symbol` of this object.  The
    /// name is interned in `vm`.
    pub fn add_method_str(&mut self, symbol: &str, method: NativeMethod, vm: &mut VirtualMachine)
        requires
            old(vm).wf(),
        ensures
            final(vm).wf(),
            final(vm)@ == old(vm)@.intern(symbol@),
            final(self)@ == (ObjectModel {
                body: ObjectBodyModel {
                    methods: old(self)@.body.methods.insert(old(vm)@.symbol(symbol@), method),
                    ..old(self)@.body
                },
                ..old(self)@
            }),
    {
        self.body.add_method_str(symbol, method, vm)
    }

    /// The member named `symbol`, as `get_member` finds it on the heap of
    /// `vm`.  The name is interned in `vm`.
    pub fn get_member_str(&self, symbol: &str, vm: &mut VirtualMachine) -> (r: Result<
        Value,
        Error,
    >)
        requires
            old(vm).wf(),
        ensures
            final(vm).wf(),
            final(vm)@ == old(vm)@.intern(symbol@),
            r == (match self@.body.member(old(vm)@.heap, old(vm)@.symbol(symbol@)) {
                Some(v) => Ok::<Value, Error>(v),
                None => Err(Error::MemberNotFound),
            }),
    {
        self.body.get_member_str(symbol, vm)
    }

    /// Sets the member named `symbol` of this object.  The name is
    /// interned in `vm`.
    pub fn set_member_str(&mut self, symbol: &str, value: Value, vm: &mut VirtualMachine)
        requires
            old(vm).wf(),
        ensures
            final(vm).wf(),
            final(vm)@ == old(vm)@.intern(symbol@),
            final(self)@ == (ObjectModel {
                body: ObjectBodyModel {
                    members: old(self)@.body.members.insert(old(vm)@.symbol(symbol@), value),
                    ..old(self)@.body
                },
                ..old(self)@
            }),
    {
        self.body.set_member_str(symbol, value, vm)
    }

    /// Makes this object a block with the given code.
    pub fn set_internal_value(&mut self, internal_value: BlockCode)
        ensures
            final(self)@ == (ObjectModel {
                body: ObjectBodyModel { block: Some(internal_value@), ..old(self)@.body },
                ..old(self)@
            }),
    {
        self.body.set_internal_value(internal_value)
    }

    /// The code of the block, if this object is one.
    pub fn get_internal_value(&self) -> (r: Option<&BlockCode>)
        ensures
            match r {
                Some(code) => self@.body.block == Some(code@),
                None => self@.body.block is None,
            },
    {
        self.body.get_internal_value()
    }
}

} // verus!
