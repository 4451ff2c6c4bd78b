//! Buttons: objects that hold an action to run on a click.

use vstd::prelude::*;
use crate::error::Error;
use crate::machine::State;
use crate::object::block::{empty_block_created, executed};
use crate::object::root::created;
use crate::object::NativeMethod;
use crate::types::Value;
use crate::vm::{ObjectId, VirtualMachine, VmModel};

verus! {

/// The machine after the prototype of the buttons has been made below the
/// object `root_object_id` and bound globally to `ボタン`, and the id of
/// the prototype.  Its action `動作` is an empty block; it has the method
/// `クリック`.
pub open spec fn button_prototype(m: VmModel, root_object_id: ObjectId) -> (
    VmModel,
    Result<ObjectId, Error>,
) {
    let (m1, r) = created(m, Value::ObjectReference(root_object_id));
    match r {
        Ok(Value::ObjectReference(id)) => {
            let (m2, action) = empty_block_created(m1);
            match action {
                Ok(block) => {
                    let m3 = m2.intern("動作"@).set_member(id, m2.symbol("動作"@), block);
                    let m4 = m3.intern("クリック"@).add_method(
                        id,
                        m3.symbol("クリック"@),
                        NativeMethod::ButtonClick,
                    );
                    let m5 = m4.intern("ボタン"@).assign(
                        m4.symbol("ボタン"@),
                        Value::ObjectReference(id),
                    );
                    (m5, Ok(id))
                },
                Err(e) => (m2, Err(e)),
            }
        },
        Ok(_) => (m1, Err(Error::Runtime)),
        Err(e) => (m1, Err(e)),
    }
}

/// The machine after `クリック` has been called on the button `this`: the
/// block that its member `動作` holds is entered.  The machine fails with
/// `MemberNotFound` if there is no such member.
pub open spec fn clicked(m: VmModel, this: Value) -> VmModel {
    match m.object_of(this) {
        Ok(obj) => {
            let m1 = m.intern("動作"@);
            match m.member(obj.id, m.symbol("動作"@)) {
                Ok(action) => executed(m1, action, Seq::empty()),
                Err(e) => m1.fails(e),
            }
        },
        Err(e) => m.fails(e),
    }
}

/// Makes the prototype of the buttons below the root and binds it globally
/// to `ボタン`.
pub fn create_super_object(root_object_id: ObjectId, vm: &mut VirtualMachine) -> (r: Result<
    ObjectId,
    Error,
>)
    requires
        old(vm).wf(),
    ensures
        final(vm).wf(),
        (final(vm)@, r) == button_prototype(old(vm)@, root_object_id),
{
    let root_value = Value::ObjectReference(root_object_id);
    let no_args: Vec<Value> = Vec::new();
    match super::root::create(&root_value, &no_args, vm) {
        Ok(Value::ObjectReference(id)) => {
            match super::block::empty_block(vm) {
                Ok(block) => {
                    vm.set_member_str(id, "動作", block);
                    vm.add_method_str(id, "クリック", NativeMethod::ButtonClick);
                    let symbol = vm.to_symbol("ボタン");
                    let _ = vm.assign(symbol, &Value::ObjectReference(id));
                    Ok(id)
                },
                Err(e) => Err(e),
            }
        },
        Ok(_) => Err(Error::Runtime),
        Err(e) => Err(e),
    }
}

/// `クリック`: runs the block that the member `動作` of the button holds.
pub fn click(this: &Value, _args: &Vec<Value>, vm: &mut VirtualMachine)
    requires
        old(vm).wf(),
    ensures
        final(vm).wf(),
        final(vm)@ == clicked(old(vm)@, *this),
{
    let target = match vm.get_object_from_value(this) {
        Ok(this_obj) => Ok(this_obj.id()),
        Err(e) => Err(e),
    };
    match target {
        Ok(id) => {
            match vm.get_member_str(id, "動作") {
                Ok(action) => {
                    let no_args: Vec<Value> = Vec::new();
                    assert(no_args@ =~= Seq::<Value>::empty());
                    super::block::exec(&action, &no_args, vm);
                },
                Err(e) => {
                    vm.set_state(State::Failed(e));
                },
            }
        },
        Err(e) => {
            vm.set_state(State::Failed(e));
        },
    }
}

} // verus!
