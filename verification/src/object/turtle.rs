//! The turtle: a point that moves and leaves lines.

use vstd::prelude::*;
use crate::error::Error;
use crate::machine::{Frame, FrameModel, State};
use crate::number::{negate, negated};
use crate::object::root::created;
use crate::types::Value;
use crate::vm::{ObjectId, VirtualMachine, VmModel};

verus! {

/// The machine after a visible child of the object `this` has been made,
/// and the reference to the child.
pub open spec fn turtle_created(m: VmModel, this: Value) -> (VmModel, Result<Value, Error>) {
    let (m1, r) = created(m, this);
    match r {
        Ok(Value::ObjectReference(id)) => (
            m1.intern("visible"@).set_member(id, m1.symbol("visible"@), Value::Bool(true)),
            r,
        ),
        _ => (m1, r),
    }
}

/// The first of three results that is an error, if one is.
pub open spec fn first_error(a: Result<u64, Error>, b: Result<u64, Error>, c: Result<u64, Error>) -> Option<
    Error,
> {
    match a {
        Err(e) => Some(e),
        Ok(_) => match b {
            Err(e) => Some(e),
            Ok(_) => match c {
                Err(e) => Some(e),
                Ok(_) => None,
            },
        },
    }
}

/// The machine after `歩く` has been called on `this`: the host is asked
/// where a walk of the first argument's length ends, from the turtle's
/// position in its direction.  The machine fails with `ArgumentError` if
/// that argument is missing or no number; else with the error of the first
/// of the members `direction`, `x` and `y` that is missing
/// (`MemberNotFound`) or no number (`Runtime`).
pub open spec fn walked(m: VmModel, this: Value, args: Seq<Value>) -> VmModel {
    if args.len() == 0 {
        m.fails(Error::ArgumentError)
    } else {
        match args[0] {
            Value::Num(amount) => match m.object_of(this) {
                Ok(obj) => {
                    let m1 = m.intern("direction"@);
                    let m2 = m1.intern("x"@);
                    let m3 = m2.intern("y"@);
                    let direction = m.number_member(obj.id, "direction"@);
                    let x = m1.number_member(obj.id, "x"@);
                    let y = m2.number_member(obj.id, "y"@);
                    match first_error(direction, x, y) {
                        Some(e) => m3.fails(e),
                        None => m3.with_state(
                            State::AwaitWalk {
                                this: obj.id,
                                x: x->Ok_0,
                                y: y->Ok_0,
                                direction: direction->Ok_0,
                                amount,
                            },
                        ),
                    }
                },
                Err(e) => m.fails(e),
            },
            _ => m.fails(Error::ArgumentError),
        }
    }
}

/// The machine after the walk of the turtle `this` from `(x1, y1)` has been
/// found to end at `(x2, y2)`: the turtle is there, and `作る` has been
/// called on what `線` is bound to globally; the line that comes of it will
/// get the end points.
pub open spec fn arrived(m: VmModel, this: ObjectId, x1: u64, y1: u64, x2: u64, y2: u64) -> VmModel {
    let m1 = m.intern("x"@).set_member(this, m.symbol("x"@), Value::Num(x2));
    let m2 = m1.intern("y"@).set_member(this, m1.symbol("y"@), Value::Num(y2));
    let m3 = m2.intern("線"@);
    let line = m2.symbol("線"@);
    if !m2.globals.contains_key(line) {
        m3.fails(Error::ObjectNotFound)
    } else {
        match m2.globals[line] {
            Value::ObjectReference(id) => m3.push_frame(
                FrameModel::WalkLine { this, x1, y1, x2, y2 },
            ).called_by_name(Value::ObjectReference(id), "作る"@, Seq::empty()),
            _ => m3.fails(Error::Runtime),
        }
    }
}

/// The machine after the line of a walk has been made: the line has its end
/// points, and the turtle is the result.  The machine fails if `line` is no
/// object of the heap.
pub open spec fn line_drawn(
    m: VmModel,
    line: Value,
    this: ObjectId,
    x1: u64,
    y1: u64,
    x2: u64,
    y2: u64,
) -> VmModel {
    match m.object_of(line) {
        Ok(obj) => {
            let m1 = m.intern("x1"@).set_member(obj.id, m.symbol("x1"@), Value::Num(x1));
            let m2 = m1.intern("y1"@).set_member(obj.id, m1.symbol("y1"@), Value::Num(y1));
            let m3 = m2.intern("x2"@).set_member(obj.id, m2.symbol("x2"@), Value::Num(x2));
            let m4 = m3.intern("y2"@).set_member(obj.id, m3.symbol("y2"@), Value::Num(y2));
            m4.yields(Value::ObjectReference(this))
        },
        Err(e) => m.fails(e),
    }
}

/// The machine after `左回り` or, if `right` holds, `右回り` has been called
/// on `this`: the host is asked for the sum of the turtle's direction and
/// the first argument, which is negated for a turn to the right.  The
/// machine fails with `ArgumentError` if that argument is missing or no
/// number, with `MemberNotFound` if the turtle has no member `direction`,
/// with `Runtime` if that member is no number.
pub open spec fn turn_started(m: VmModel, this: Value, args: Seq<Value>, right: bool) -> VmModel {
    if args.len() == 0 {
        m.fails(Error::ArgumentError)
    } else {
        match args[0] {
            Value::Num(angle) => match m.object_of(this) {
                Ok(obj) => {
                    let m1 = m.intern("direction"@);
                    match m.number_member(obj.id, "direction"@) {
                        Ok(direction) => m1.with_state(
                            State::AwaitTurn {
                                this: obj.id,
                                direction,
                                angle: if right {
                                    negated(angle)
                                } else {
                                    angle
                                },
                            },
                        ),
                        Err(e) => m1.fails(e),
                    }
                },
                Err(e) => m.fails(e),
            },
            _ => m.fails(Error::ArgumentError),
        }
    }
}

/// The machine after the new direction of the turtle `this` has been found:
/// the turtle has it, and is the result.
pub open spec fn turned(m: VmModel, this: ObjectId, direction: u64) -> VmModel {
    m.intern("direction"@).set_member(this, m.symbol("direction"@), Value::Num(direction)).yields(
        Value::ObjectReference(this),
    )
}

/// `作る`: makes a child of the receiver whose member `visible` is true.
pub fn create(this: &Value, _args: &Vec<Value>, vm: &mut VirtualMachine) -> (r: Result<
    Value,
    Error,
>)
    requires
        old(vm).wf(),
    ensures
        final(vm).wf(),
        (final(vm)@, r) == turtle_created(old(vm)@, *this),
{
    match super::root::create(this, _args, vm) {
        Ok(Value::ObjectReference(id)) => {
            vm.set_member_str(id, "visible", Value::Bool(true));
            Ok(Value::ObjectReference(id))
        },
        Ok(v) => Ok(v),
        Err(e) => Err(e),
    }
}

/// `歩く`: moves the turtle forward by the first argument and leaves a line
/// from the old position to the new one.  The turtle is the result.
pub fn walk(this: &Value, args: &Vec<Value>, vm: &mut VirtualMachine)
    requires
        old(vm).wf(),
    ensures
        final(vm).wf(),
        final(vm)@ == walked(old(vm)@, *this, args@),
{
    if args.len() == 0 {
        vm.set_state(State::Failed(Error::ArgumentError));
        return ;
    }
    let amount = match &args[0] {
        Value::Num(amount) => *amount,
        _ => {
            vm.set_state(State::Failed(Error::ArgumentError));
            return ;
        },
    };
    let target = match vm.get_object_from_value(this) {
        Ok(this_obj) => Ok(this_obj.id()),
        Err(e) => Err(e),
    };
    match target {
        Ok(id) => {
            let direction = vm.number_member(id, "direction");
            let x = vm.number_member(id, "x");
            let y = vm.number_member(id, "y");
            match (direction, x, y) {
                (Ok(direction), Ok(x), Ok(y)) => {
                    vm.set_state(State::AwaitWalk { this: id, x, y, direction, amount });
                },
                (Err(e), _, _) => {
                    vm.set_state(State::Failed(e));
                },
                (_, Err(e), _) => {
                    vm.set_state(State::Failed(e));
                },
                (_, _, Err(e)) => {
                    vm.set_state(State::Failed(e));
                },
            }
        },
        Err(e) => {
            vm.set_state(State::Failed(e));
        },
    }
}

/// Goes on with a walk once the host has found its end.
pub fn arrive(this: ObjectId, x1: u64, y1: u64, x2: u64, y2: u64, vm: &mut VirtualMachine)
    requires
        old(vm).wf(),
    ensures
        final(vm).wf(),
        final(vm)@ == arrived(old(vm)@, this, x1, y1, x2, y2),
{
    vm.set_member_str(this, "x", Value::Num(x2));
    vm.set_member_str(this, "y", Value::Num(y2));
    let line_symbol = vm.to_symbol("線");
    match vm.get_object_id_in_assigns(line_symbol) {
        Ok(line) => {
            vm.push_frame(Frame::WalkLine { this, x1, y1, x2, y2 });
            let create_symbol = vm.to_symbol("作る");
            let no_args: Vec<Value> = Vec::new();
            assert(no_args@ =~= Seq::<Value>::empty());
            vm.call_method(&Value::ObjectReference(line), create_symbol, &no_args);
        },
        Err(e) => {
            vm.set_state(State::Failed(e));
        },
    }
}

/// Ends a walk once its line has been made.
pub fn draw_line(
    line: &Value,
    this: ObjectId,
    x1: u64,
    y1: u64,
    x2: u64,
    y2: u64,
    vm: &mut VirtualMachine,
)
    requires
        old(vm).wf(),
    ensures
        final(vm).wf(),
        final(vm)@ == line_drawn(old(vm)@, *line, this, x1, y1, x2, y2),
{
    let target = match vm.get_object_from_value(line) {
        Ok(line_obj) => Ok(line_obj.id()),
        Err(e) => Err(e),
    };
    match target {
        Ok(id) => {
            vm.set_member_str(id, "x1", Value::Num(x1));
            vm.set_member_str(id, "y1", Value::Num(y1));
            vm.set_member_str(id, "x2", Value::Num(x2));
            vm.set_member_str(id, "y2", Value::Num(y2));
            vm.set_state(State::Value(Value::ObjectReference(this)));
        },
        Err(e) => {
            vm.set_state(State::Failed(e));
        },
    }
}

/// Starts a turn by the first argument, to the right if `right` holds.
pub fn turn(this: &Value, args: &Vec<Value>, right: bool, vm: &mut VirtualMachine)
    requires
        old(vm).wf(),
    ensures
        final(vm).wf(),
        final(vm)@ == turn_started(old(vm)@, *this, args@, right),
{
    if args.len() == 0 {
        vm.set_state(State::Failed(Error::ArgumentError));
        return ;
    }
    let angle = match &args[0] {
        Value::Num(angle) => *angle,
        _ => {
            vm.set_state(State::Failed(Error::ArgumentError));
            return ;
        },
    };
    let target = match vm.get_object_from_value(this) {
        Ok(this_obj) => Ok(this_obj.id()),
        Err(e) => Err(e),
    };
    match target {
        Ok(id) => {
            match vm.number_member(id, "direction") {
                Ok(direction) => {
                    let angle = if right {
                        negate(angle)
                    } else {
                        angle
                    };
                    vm.set_state(State::AwaitTurn { this: id, direction, angle });
                },
                Err(e) => {
                    vm.set_state(State::Failed(e));
                },
            }
        },
        Err(e) => {
            vm.set_state(State::Failed(e));
        },
    }
}

/// `左回り`: adds the first argument, in degrees, to the turtle's
/// direction.  The turtle is the result.
pub fn turn_left(this: &Value, args: &Vec<Value>, vm: &mut VirtualMachine)
    requires
        old(vm).wf(),
    ensures
        final(vm).wf(),
        final(vm)@ == turn_started(old(vm)@, *this, args@, false),
{
    turn(this, args, false, vm)
}

/// `右回り`: subtracts the first argument, in degrees, from the turtle's
/// direction.  The turtle is the result.
pub fn turn_right(this: &Value, args: &Vec<Value>, vm: &mut VirtualMachine)
    requires
        old(vm).wf(),
    ensures
        final(vm).wf(),
        final(vm)@ == turn_started(old(vm)@, *this, args@, true),
{
    turn(this, args, true, vm)
}

/// Ends a turn once the host has found the new direction.
pub fn finish_turn(this: ObjectId, direction: u64, vm: &mut VirtualMachine)
    requires
        old(vm).wf(),
    ensures
        final(vm).wf(),
        final(vm)@ == turned(old(vm)@, this, direction),
{
    vm.set_member_str(this, "direction", Value::Num(direction));
    vm.set_state(State::Value(Value::ObjectReference(this)));
}

} // verus!
