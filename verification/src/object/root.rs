//! The root prototype, the ancestor of every object.

use vstd::prelude::*;
use crate::error::Error;
use crate::object::{child_body, ObjectBody};
use crate::types::Value;
use crate::vm::{ObjectId, VirtualMachine, VmModel};

verus! {

/// The machine after a child of the object `this` has been made, and the
/// reference to the child.  The child is the newest object of the heap and
/// starts with a copy of the members of `this`.  Without such an object
/// nothing changes.
pub open spec fn created(m: VmModel, this: Value) -> (VmModel, Result<Value, Error>) {
    match m.object_of(this) {
        Ok(parent) => (
            m.allocate(child_body(Some(parent))),
            Ok(Value::ObjectReference(ObjectId(m.heap.len() as usize))),
        ),
        Err(e) => (m, Err(e)),
    }
}

/// `作る`: makes a child of the receiver and returns a reference to it.
/// Fails with `Runtime` if the receiver is no object, with `ObjectNotFound`
/// if it is not on the heap.
pub fn create(this: &Value, _args: &Vec<Value>, vm: &mut VirtualMachine) -> (r: Result<
    Value,
    Error,
>)
    requires
        old(vm).wf(),
    ensures
        final(vm).wf(),
        (final(vm)@, r) == created(old(vm)@, *this),
{
    let body = match vm.get_object_from_value(this) {
        Ok(this_obj) => ObjectBody::new(Some(this_obj)),
        Err(e) => {
            return Err(e);
        },
    };
    match vm.allocate(body) {
        Ok(id) => Ok(Value::ObjectReference(id)),
        Err(e) => Err(e),
    }
}

} // verus!
