//! Conditions: what `ならば` makes of a truth value.

use vstd::prelude::*;
use crate::error::Error;
use crate::machine::State;
use crate::object::block::executed;
use crate::object::root::created;
use crate::object::NativeMethod;
use crate::types::Value;
use crate::vm::{ObjectId, VirtualMachine, VmModel};

verus! {

/// The machine after the prototype of the conditions has been made below
/// the object `root_object_id` and bound globally to `Condition`, and the
/// id of the prototype.  Its flag is false; it has the methods `実行` and
/// `そうでないなら`.
pub open spec fn condition_prototype(m: VmModel, root_object_id: ObjectId) -> (
    VmModel,
    Result<ObjectId, Error>,
) {
    let (m1, r) = created(m, Value::ObjectReference(root_object_id));
    match r {
        Ok(Value::ObjectReference(id)) => {
            let m2 = m1.intern("flag"@).set_member(id, m1.symbol("flag"@), Value::Bool(false));
            let m3 = m2.intern("実行"@).add_method(
                id,
                m2.symbol("実行"@),
                NativeMethod::ConditionExec,
            );
            let m4 = m3.intern("そうでないなら"@).add_method(
                id,
                m3.symbol("そうでないなら"@),
                NativeMethod::ConditionElse,
            );
            let m5 = m4.intern("Condition"@).assign(
                m4.symbol("Condition"@),
                Value::ObjectReference(id),
            );
            (m5, Ok(id))
        },
        Ok(_) => (m1, Err(Error::Runtime)),
        Err(e) => (m1, Err(e)),
    }
}

/// The machine after a child of what `Condition` is bound to has been
/// made, and the id of the child; `ObjectNotFound` if the name is not
/// bound.
pub open spec fn condition_created(m: VmModel) -> (VmModel, Result<ObjectId, Error>) {
    let m1 = m.intern("Condition"@);
    match m.value_in_scope(m.symbol("Condition"@)) {
        Some(proto) => {
            let (m2, r) = created(m1, proto);
            match r {
                Ok(Value::ObjectReference(id)) => (m2, Ok(id)),
                Ok(_) => (m2, Err(Error::Runtime)),
                Err(e) => (m2, Err(e)),
            }
        },
        None => (m1, Err(Error::ObjectNotFound)),
    }
}

/// The machine after a condition with the flag `flag` has been made; the
/// condition is the result.
pub open spec fn instantiated(m: VmModel, flag: bool) -> VmModel {
    let (m1, r) = condition_created(m);
    match r {
        Ok(id) => m1.intern("flag"@).set_member(id, m1.symbol("flag"@), Value::Bool(flag)).yields(
            Value::ObjectReference(id),
        ),
        Err(e) => m1.fails(e),
    }
}

/// The machine after `実行` has been called on the condition `this` with
/// one block: the block is entered if the flag holds, else the condition
/// itself is the result.  The machine fails with `ArgumentError` unless
/// there is exactly one argument.
pub open spec fn condition_executed(m: VmModel, this: Value, args: Seq<Value>) -> VmModel {
    if args.len() != 1 {
        m.fails(Error::ArgumentError)
    } else {
        match m.object_of(this) {
            Ok(obj) => {
                let m1 = m.intern("flag"@);
                match m.bool_member(obj.id, "flag"@) {
                    Ok(true) => executed(m1, args[0], Seq::empty()),
                    Ok(false) => m1.yields(this),
                    Err(e) => m1.fails(e),
                }
            },
            Err(e) => m.fails(e),
        }
    }
}

/// The machine after `そうでないなら` has been called on the condition
/// `this`: a new condition with the opposite flag is the result.  The
/// machine fails with `ArgumentError` if there is an argument.
pub open spec fn condition_negated(m: VmModel, this: Value, args: Seq<Value>) -> VmModel {
    if args.len() != 0 {
        m.fails(Error::ArgumentError)
    } else {
        match m.object_of(this) {
            Ok(obj) => {
                let m1 = m.intern("flag"@);
                match m.bool_member(obj.id, "flag"@) {
                    Ok(b) => instantiated(m1, !b),
                    Err(e) => m1.fails(e),
                }
            },
            Err(e) => m.fails(e),
        }
    }
}

/// Makes the prototype of the conditions below the root and binds it
/// globally to `Condition`.
pub fn create_super_object(root_object_id: ObjectId, vm: &mut VirtualMachine) -> (r: Result<
    ObjectId,
    Error,
>)
    requires
        old(vm).wf(),
    ensures
        final(vm).wf(),
        (final(vm)@, r) == condition_prototype(old(vm)@, root_object_id),
{
    let root_value = Value::ObjectReference(root_object_id);
    let no_args: Vec<Value> = Vec::new();
    match super::root::create(&root_value, &no_args, vm) {
        Ok(Value::ObjectReference(id)) => {
            vm.set_member_str(id, "flag", Value::Bool(false));
            vm.add_method_str(id, "実行", NativeMethod::ConditionExec);
            vm.add_method_str(id, "そうでないなら", NativeMethod::ConditionElse);
            let symbol = vm.to_symbol("Condition");
            let _ = vm.assign(symbol, &Value::ObjectReference(id));
            Ok(id)
        },
        Ok(_) => Err(Error::Runtime),
        Err(e) => Err(e),
    }
}

/// Makes a child of what `Condition` is bound to.
pub fn create_internal(vm: &mut VirtualMachine) -> (r: Result<ObjectId, Error>)
    requires
        old(vm).wf(),
    ensures
        final(vm).wf(),
        (final(vm)@, r) == condition_created(old(vm)@),
{
    match vm.get_value_in_scope_from_symbol("Condition") {
        Ok(v) => {
            let no_args: Vec<Value> = Vec::new();
            match super::root::create(&v, &no_args, vm) {
                Ok(Value::ObjectReference(id)) => Ok(id),
                Ok(_) => Err(Error::Runtime),
                Err(e) => Err(e),
            }
        },
        Err(e) => Err(e),
    }
}

/// Makes a condition with the flag `flag` the result.
pub fn instantiate(flag: bool, vm: &mut VirtualMachine)
    requires
        old(vm).wf(),
    ensures
        final(vm).wf(),
        final(vm)@ == instantiated(old(vm)@, flag),
{
    match create_internal(vm) {
        Ok(id) => {
            vm.set_member_str(id, "flag", Value::Bool(flag));
            vm.set_state(State::Value(Value::ObjectReference(id)));
        },
        Err(e) => {
            vm.set_state(State::Failed(e));
        },
    }
}

/// `実行`: enters the block given as the one argument if the flag of the
/// condition holds; else the condition itself is the result.
pub fn exec(this: &Value, args: &Vec<Value>, vm: &mut VirtualMachine)
    requires
        old(vm).wf(),
    ensures
        final(vm).wf(),
        final(vm)@ == condition_executed(old(vm)@, *this, args@),
{
    if args.len() != 1 {
        vm.set_state(State::Failed(Error::ArgumentError));
        return ;
    }
    let target = match vm.get_object_from_value(this) {
        Ok(this_obj) => Ok(this_obj.id()),
        Err(e) => Err(e),
    };
    match target {
        Ok(id) => {
            match vm.bool_member(id, "flag") {
                Ok(true) => {
                    let no_args: Vec<Value> = Vec::new();
                    assert(no_args@ =~= Seq::<Value>::empty());
                    super::block::exec(&args[0], &no_args, vm);
                },
                Ok(false) => {
                    vm.set_state(State::Value(this.duplicate()));
                },
                Err(e) => {
                    vm.set_state(State::Failed(e));
                },
            }
        },
        Err(e) => {
            vm.set_state(State::Failed(e));
        },
    }
}

/// `そうでないなら`: a new condition whose flag is the opposite of this
/// one's.
pub fn else_(this: &Value, args: &Vec<Value>, vm: &mut VirtualMachine)
    requires
        old(vm).wf(),
    ensures
        final(vm).wf(),
        final(vm)@ == condition_negated(old(vm)@, *this, args@),
{
    if args.len() != 0 {
        vm.set_state(State::Failed(Error::ArgumentError));
        return ;
    }
    let target = match vm.get_object_from_value(this) {
        Ok(this_obj) => Ok(this_obj.id()),
        Err(e) => Err(e),
    };
    match target {
        Ok(id) => {
            match vm.bool_member(id, "flag") {
                Ok(b) => {
                    instantiate(!b, vm);
                },
                Err(e) => {
                    vm.set_state(State::Failed(e));
                },
            }
        },
        Err(e) => {
            vm.set_state(State::Failed(e));
        },
    }
}

} // verus!
