//! What a view draws: the visible turtles and the lines.

use vstd::prelude::*;
use crate::interpreter::Interpreter;
use crate::object::{heap_view, Object, ObjectModel};
use crate::symbol::SymbolId;
use crate::types::Value;
use crate::vm::{ObjectId, VirtualMachine, VmModel};

verus! {

/// Something to draw.  The numbers are bit patterns of binary64 numbers.
#[derive(Clone, Copy, Debug, PartialEq, Eq, Structural)]
pub enum VisualObject {
    /// A turtle.
    ImageObject(ImageObjectImpl),
    /// A line.
    Line(LineImpl),
}

/// A turtle: where it is, and the direction it faces, in degrees.
#[derive(Clone, Copy, Debug, PartialEq, Eq, Structural)]
pub struct ImageObjectImpl {
    pub x: u64,
    pub y: u64,
    pub direction: u64,
}

/// A line between two points.
#[derive(Clone, Copy, Debug, PartialEq, Eq, Structural)]
pub struct LineImpl {
    pub x1: u64,
    pub y1: u64,
    pub x2: u64,
    pub y2: u64,
}

/// The symbols of the members that a view reads, and the prototypes that
/// it looks for.
#[derive(Clone, Copy, Debug, PartialEq, Eq, Structural)]
pub struct Legend {
    pub x: SymbolId,
    pub y: SymbolId,
    pub x1: SymbolId,
    pub y1: SymbolId,
    pub x2: SymbolId,
    pub y2: SymbolId,
    pub direction: SymbolId,
    pub visible: SymbolId,
    pub turtle: Option<ObjectId>,
    pub line: Option<ObjectId>,
}

/// The number that the member `symbol` of an object holds, if it holds one.
pub open spec fn number_of(heap: Seq<ObjectModel>, object: ObjectModel, symbol: SymbolId) -> Option<
    u64,
> {
    match object.body.member(heap, symbol.0) {
        Some(Value::Num(bits)) => Some(bits),
        _ => None,
    }
}

/// The turtle that an object is drawn as: the object must descend from the
/// turtle prototype, its member `visible` must be true, and its members
/// `x`, `y` and `direction` must be numbers.
pub open spec fn image_of(heap: Seq<ObjectModel>, object: ObjectModel, legend: Legend) -> Option<
    VisualObject,
> {
    if legend.turtle is Some && object.body.is_subclass(heap, legend.turtle->0)
        && object.body.member(heap, legend.visible.0) == Some(Value::Bool(true)) && number_of(
        heap,
        object,
        legend.x,
    ) is Some && number_of(heap, object, legend.y) is Some && number_of(
        heap,
        object,
        legend.direction,
    ) is Some {
        Some(
            VisualObject::ImageObject(
                ImageObjectImpl {
                    x: number_of(heap, object, legend.x)->0,
                    y: number_of(heap, object, legend.y)->0,
                    direction: number_of(heap, object, legend.direction)->0,
                },
            ),
        )
    } else {
        None
    }
}

/// The line that an object is drawn as: the object must descend from the
/// line prototype, and its members `x1`, `y1`, `x2` and `y2` must be
/// numbers.
pub open spec fn line_of(heap: Seq<ObjectModel>, object: ObjectModel, legend: Legend) -> Option<
    VisualObject,
> {
    if legend.line is Some && object.body.is_subclass(heap, legend.line->0) && number_of(
        heap,
        object,
        legend.x1,
    ) is Some && number_of(heap, object, legend.y1) is Some && number_of(
        heap,
        object,
        legend.x2,
    ) is Some && number_of(heap, object, legend.y2) is Some {
        Some(
            VisualObject::Line(
                LineImpl {
                    x1: number_of(heap, object, legend.x1)->0,
                    y1: number_of(heap, object, legend.y1)->0,
                    x2: number_of(heap, object, legend.x2)->0,
                    y2: number_of(heap, object, legend.y2)->0,
                },
            ),
        )
    } else {
        None
    }
}

/// What the first `n` objects of the heap are drawn as, newest first:
/// lines if `lines` holds, else turtles.
pub open spec fn drawn(heap: Seq<ObjectModel>, legend: Legend, lines: bool, n: nat) -> Seq<
    VisualObject,
>
    decreases n,
{
    if n == 0 || n > heap.len() {
        Seq::empty()
    } else {
        let object = heap[n - 1];
        let visual = if lines {
            line_of(heap, object, legend)
        } else {
            image_of(heap, object, legend)
        };
        match visual {
            Some(v) => seq![v] + drawn(heap, legend, lines, (n - 1) as nat),
            None => drawn(heap, legend, lines, (n - 1) as nat),
        }
    }
}

/// What a heap is drawn as: the lines, newest first, then the visible
/// turtles, newest first.
pub open spec fn visuals(heap: Seq<ObjectModel>, legend: Legend) -> Seq<VisualObject> {
    drawn(heap, legend, true, heap.len()) + drawn(heap, legend, false, heap.len())
}

/// The machine after the names that a view reads have been interned.
pub open spec fn legend_interned(m: VmModel) -> VmModel {
    m.intern("x"@).intern("y"@).intern("x1"@).intern("y1"@).intern("x2"@).intern("y2"@).intern(
        "direction"@,
    ).intern("visible"@).intern("タートル"@).intern("線"@)
}

/// The object that a name is bound to, in a scope or globally, if it is
/// bound to one.
pub open spec fn prototype(m: VmModel, symbol: u128) -> Option<ObjectId> {
    match m.value_in_scope(symbol) {
        Some(Value::ObjectReference(id)) => Some(id),
        _ => None,
    }
}

/// The symbols and prototypes that a view of the machine reads.
pub open spec fn legend_of(m: VmModel) -> Legend {
    let m1 = m.intern("x"@);
    let m2 = m1.intern("y"@);
    let m3 = m2.intern("x1"@);
    let m4 = m3.intern("y1"@);
    let m5 = m4.intern("x2"@);
    let m6 = m5.intern("y2"@);
    let m7 = m6.intern("direction"@);
    let m8 = m7.intern("visible"@);
    let m9 = m8.intern("タートル"@);
    Legend {
        x: SymbolId(m.symbol("x"@)),
        y: SymbolId(m1.symbol("y"@)),
        x1: SymbolId(m2.symbol("x1"@)),
        y1: SymbolId(m3.symbol("y1"@)),
        x2: SymbolId(m4.symbol("x2"@)),
        y2: SymbolId(m5.symbol("y2"@)),
        direction: SymbolId(m6.symbol("direction"@)),
        visible: SymbolId(m7.symbol("visible"@)),
        turtle: prototype(m8, m8.symbol("タートル"@)),
        line: prototype(m9, m9.symbol("線"@)),
    }
}

/// The number that the member `symbol` of an object holds, if it holds one.
fn number(heap: &Vec<Object>, object: &Object, symbol: SymbolId) -> (r: Option<u64>)
    ensures
        r == number_of(heap_view(heap@), object@, symbol),
{
    match object.get_member(symbol, heap) {
        Ok(Value::Num(bits)) => Some(bits),
        _ => None,
    }
}

/// The turtle that an object is drawn as, if it is drawn as one.
pub fn image(heap: &Vec<Object>, object: &Object, legend: &Legend) -> (r: Option<VisualObject>)
    ensures
        r == image_of(heap_view(heap@), object@, *legend),
{
    let turtle = match legend.turtle {
        Some(id) => id,
        None => {
            return None;
        },
    };
    if !object.is_subclass(turtle, heap) {
        return None;
    }
    match object.get_member(legend.visible, heap) {
        Ok(Value::Bool(true)) => {},
        _ => {
            return None;
        },
    }
    match (
        number(heap, object, legend.x),
        number(heap, object, legend.y),
        number(heap, object, legend.direction),
    ) {
        (Some(x), Some(y), Some(direction)) => Some(
            VisualObject::ImageObject(ImageObjectImpl { x, y, direction }),
        ),
        _ => None,
    }
}

/// The line that an object is drawn as, if it is drawn as one.
pub fn line(heap: &Vec<Object>, object: &Object, legend: &Legend) -> (r: Option<VisualObject>)
    ensures
        r == line_of(heap_view(heap@), object@, *legend),
{
    let prototype = match legend.line {
        Some(id) => id,
        None => {
            return None;
        },
    };
    if !object.is_subclass(prototype, heap) {
        return None;
    }
    match (
        number(heap, object, legend.x1),
        number(heap, object, legend.y1),
        number(heap, object, legend.x2),
        number(heap, object, legend.y2),
    ) {
        (Some(x1), Some(y1), Some(x2), Some(y2)) => Some(
            VisualObject::Line(LineImpl { x1, y1, x2, y2 }),
        ),
        _ => None,
    }
}

/// What a heap is drawn as: the lines, newest first, then the visible
/// turtles, newest first.
pub fn collect(heap: &Vec<Object>, legend: &Legend) -> (r: Vec<VisualObject>)
    ensures
        r@ == visuals(heap_view(heap@), *legend),
{
    let ghost model = heap_view(heap@);
    let mut out: Vec<VisualObject> = Vec::new();
    let mut i: usize = heap.len();
    while i > 0
        invariant
            i <= heap.len(),
            model == heap_view(heap@),
            out@ + drawn(model, *legend, true, i as nat) == drawn(
                model,
                *legend,
                true,
                heap.len() as nat,
            ),
        decreases i,
    {
        let ghost before = out@;
        match line(heap, &heap[i - 1], legend) {
            Some(v) => {
                out.push(v);
                assert(before + (seq![v] + drawn(model, *legend, true, (i - 1) as nat))
                    =~= out@ + drawn(model, *legend, true, (i - 1) as nat));
            },
            None => {},
        }
        i -= 1;
    }
    let ghost lines = out@;
    assert(lines =~= drawn(model, *legend, true, heap.len() as nat));
    let mut i: usize = heap.len();
    while i > 0
        invariant
            i <= heap.len(),
            model == heap_view(heap@),
            out@ + drawn(model, *legend, false, i as nat) == lines + drawn(
                model,
                *legend,
                false,
                heap.len() as nat,
            ),
        decreases i,
    {
        let ghost before = out@;
        match image(heap, &heap[i - 1], legend) {
            Some(v) => {
                out.push(v);
                assert(before + (seq![v] + drawn(model, *legend, false, (i - 1) as nat))
                    =~= out@ + drawn(model, *legend, false, (i - 1) as nat));
            },
            None => {},
        }
        i -= 1;
    }
    assert(out@ =~= lines + drawn(model, *legend, false, heap.len() as nat));
    out
}

/// The object that a name is bound to, in a scope or globally, if it is
/// bound to one.  The name is interned.
fn find_prototype(interpreter: &mut Interpreter, name: &str) -> (r: Option<ObjectId>)
    requires
        old(interpreter).wf(),
    ensures
        final(interpreter).wf(),
        final(interpreter)@ == old(interpreter)@.intern(name@),
        r == prototype(old(interpreter)@, old(interpreter)@.symbol(name@)),
{
    match interpreter.get_object_id(name) {
        Ok(id) => Some(id),
        Err(_) => None,
    }
}

/// What the interpreter's heap is drawn as: every line, and every visible
/// turtle, newest first, the lines before the turtles.  The names of the
/// members that are read are interned.
pub fn visual_objects(interpreter: &mut Interpreter) -> (r: Vec<VisualObject>)
    requires
        old(interpreter).wf(),
    ensures
        final(interpreter).wf(),
        final(interpreter)@ == legend_interned(old(interpreter)@),
        r@ == visuals(old(interpreter)@.heap, legend_of(old(interpreter)@)),
{
    let x = interpreter.get_symbol("x");
    let y = interpreter.get_symbol("y");
    let x1 = interpreter.get_symbol("x1");
    let y1 = interpreter.get_symbol("y1");
    let x2 = interpreter.get_symbol("x2");
    let y2 = interpreter.get_symbol("y2");
    let direction = interpreter.get_symbol("direction");
    let visible = interpreter.get_symbol("visible");
    let turtle = find_prototype(interpreter, "タートル");
    let line = find_prototype(interpreter, "線");
    let legend = Legend { x, y, x1, y1, x2, y2, direction, visible, turtle, line };
    collect(interpreter.get_objects(), &legend)
}

} // verus!
