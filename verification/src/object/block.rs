//! Blocks: objects that carry code.

use vstd::prelude::*;
use crate::ast::{duplicate_names, duplicate_nodes, names_view, nodes_view, ASTNode, Node};
use crate::error::Error;
use crate::machine::{Frame, FrameModel, State};
use crate::number::{finite, is_finite, is_sign_negative, sign_negative, truncate, truncated};
use crate::object::root::created;
use crate::object::{BlockCode, BlockModel};
use crate::types::Value;
use crate::vm::{VirtualMachine, VmModel};

verus! {

/// The machine after a child of the object `this` has been made a block with
/// the parameters `dummy_args` and the statements `body`, and the reference
/// to the block.
pub open spec fn block_created(
    m: VmModel,
    this: Value,
    dummy_args: Seq<Seq<char>>,
    body: Seq<Node>,
) -> (VmModel, Result<Value, Error>) {
    let (m1, r) = created(m, this);
    match r {
        Ok(Value::ObjectReference(id)) => (m1.set_block(id, BlockModel { dummy_args, body }), r),
        _ => (m1, r),
    }
}

/// The machine after an empty block has been made below what `ブロック` is
/// bound to, and the reference to the block; `ObjectNotFound` if the name is
/// not bound.
pub open spec fn empty_block_created(m: VmModel) -> (VmModel, Result<Value, Error>) {
    let m1 = m.intern("ブロック"@);
    match m.value_in_scope(m.symbol("ブロック"@)) {
        Some(proto) => block_created(m1, proto, Seq::empty(), Seq::empty()),
        None => (m1, Err(Error::ObjectNotFound)),
    }
}

/// The machine after the block `this` has been entered with `args`: a scope
/// binds the parameters, the statements are next to run.  The machine fails
/// with `Runtime` if `this` is no object or no block, with `ObjectNotFound`
/// if it is not on the heap.
pub open spec fn executed(m: VmModel, this: Value, args: Seq<Value>) -> VmModel {
    match m.object_of(this) {
        Ok(obj) => m.entered(obj.id, args),
        Err(e) => m.fails(e),
    }
}

/// The machine after `繰り返す` has been called on `this`: the block is to
/// be run as many times as the whole part of the first argument says.  The
/// machine fails with `ArgumentError` if that argument is missing or no
/// number, with `Runtime` if it is negative or not finite.
pub open spec fn repeated(m: VmModel, this: Value, args: Seq<Value>) -> VmModel {
    if args.len() == 0 {
        m.fails(Error::ArgumentError)
    } else {
        match args[0] {
            Value::Num(n) => if sign_negative(n) || !finite(n) {
                m.fails(Error::Runtime)
            } else {
                m.push_frame(FrameModel::Repeat { this, remaining: truncated(n) }).yields(
                    Value::Null,
                )
            },
            _ => m.fails(Error::ArgumentError),
        }
    }
}

/// The machine after `ならば` has been called on `this`: the block is
/// entered without arguments, and its result will become a condition.
pub open spec fn if_started(m: VmModel, this: Value) -> VmModel {
    executed(m.push_frame(FrameModel::IfFlag), this, Seq::empty())
}

/// Makes a block below the object `this`, with the parameters `dummy_args`
/// and the statements `body`, and returns a reference to it.
pub fn create(
    this: &Value,
    dummy_args: &Vec<String>,
    body: &Vec<ASTNode>,
    vm: &mut VirtualMachine,
) -> (r: Result<Value, Error>)
    requires
        old(vm).wf(),
    ensures
        final(vm).wf(),
        (final(vm)@, r) == block_created(
            old(vm)@,
            *this,
            names_view(dummy_args@),
            nodes_view(body@),
        ),
{
    let no_args: Vec<Value> = Vec::new();
    match super::root::create(this, &no_args, vm) {
        Ok(Value::ObjectReference(id)) => {
            let code = BlockCode {
                dummy_args: duplicate_names(dummy_args),
                body: duplicate_nodes(body),
            };
            vm.set_internal_value(id, code);
            Ok(Value::ObjectReference(id))
        },
        Ok(v) => Ok(v),
        Err(e) => Err(e),
    }
}

/// Makes a block without parameters and statements below what `ブロック` is
/// bound to.
pub fn empty_block(vm: &mut VirtualMachine) -> (r: Result<Value, Error>)
    requires
        old(vm).wf(),
    ensures
        final(vm).wf(),
        (final(vm)@, r) == empty_block_created(old(vm)@),
{
    match vm.get_value_in_scope_from_symbol("ブロック") {
        Ok(block) => {
            let dummy_args: Vec<String> = Vec::new();
            let body: Vec<ASTNode> = Vec::new();
            assert(names_view(dummy_args@) =~= Seq::<Seq<char>>::empty());
            assert(nodes_view(body@) =~= Seq::<Node>::empty());
            create(&block, &dummy_args, &body, vm)
        },
        Err(e) => Err(e),
    }
}

/// `繰り返す`: runs the block as many times as the whole part of the first
/// argument says; the value of the last run is the result, `Null` if there
/// is no run.
pub fn repeat(this: &Value, args: &Vec<Value>, vm: &mut VirtualMachine)
    requires
        old(vm).wf(),
    ensures
        final(vm).wf(),
        final(vm)@ == repeated(old(vm)@, *this, args@),
{
    if args.len() == 0 {
        vm.set_state(State::Failed(Error::ArgumentError));
        return ;
    }
    match &args[0] {
        Value::Num(n) => {
            if is_sign_negative(*n) || !is_finite(*n) {
                vm.set_state(State::Failed(Error::Runtime));
            } else {
                vm.push_frame(Frame::Repeat { this: this.duplicate(), remaining: truncate(*n) });
                vm.set_state(State::Value(Value::Null));
            }
        },
        _ => {
            vm.set_state(State::Failed(Error::ArgumentError));
        },
    }
}

/// `ならば`: runs the block; its result, which must be a truth value,
/// becomes the flag of a new condition.
pub fn if_(this: &Value, _args: &Vec<Value>, vm: &mut VirtualMachine)
    requires
        old(vm).wf(),
    ensures
        final(vm).wf(),
        final(vm)@ == if_started(old(vm)@, *this),
{
    vm.push_frame(Frame::IfFlag);
    let no_args: Vec<Value> = Vec::new();
    assert(no_args@ =~= Seq::<Value>::empty());
    exec(this, &no_args, vm)
}

/// `実行`: enters the block with `args`.  Each parameter that has an
/// argument is bound to it in a new scope; the value of the last statement
/// is the result, `Null` if there is none.
pub fn exec(this: &Value, args: &Vec<Value>, vm: &mut VirtualMachine)
    requires
        old(vm).wf(),
    ensures
        final(vm).wf(),
        final(vm)@ == executed(old(vm)@, *this, args@),
{
    let target = match vm.get_object_from_value(this) {
        Ok(this_obj) => Ok(this_obj.id()),
        Err(e) => Err(e),
    };
    match target {
        Ok(id) => vm.enter_block(id, args),
        Err(e) => vm.set_state(State::Failed(e)),
    }
}

} // verus!
