//! The state of an evaluation in progress.
//!
//! Evaluation runs in steps.  What is still to be done is kept as a stack of
//! frames; the value that was just computed is handed to the frame on top.
//! Arithmetic on binary64 numbers is done by the host: the machine stops
//! with a request and goes on when the host steps it with the reply.

use vstd::prelude::*;
use crate::ast::{
    child_view, duplicate_nodes, names_view, node_view, nodes_view, ASTNode, AssignImpl, BinaryOperator,
    BinaryOperatorImpl, BlockDefineImpl, DeclImpl, MethodCallImpl, Node,
};
use crate::error::Error;
use crate::number::{compare, compared};
use crate::object::block::block_created;
use crate::object::condition::instantiated;
use crate::object::turtle::{arrived, line_drawn, turned};
use crate::types::Value;
use crate::vm::{ObjectId, VirtualMachine, VmModel};

verus! {

/// What is left to do once a value has been computed.
#[derive(Debug, PartialEq)]
pub enum Frame {
    /// Evaluate the node.
    Eval(ASTNode),
    /// Evaluate the statements of a program from `next` on.
    Sequence { statements: Vec<ASTNode>, next: usize },
    /// The left operand is being evaluated; the right one comes next.
    BinaryRight { operator: BinaryOperator, right: ASTNode },
    /// The right operand is being evaluated; then the operator is applied.
    BinaryApply { operator: BinaryOperator, left: Value },
    /// The value is being evaluated; then it is bound globally.
    AssignGlobal { target: String },
    /// The value is being evaluated; the object comes next.
    AssignObject { object: ASTNode, target: String },
    /// The object is being evaluated; then the member is set.
    AssignMember { target: String, value: Value },
    /// The object is being evaluated; then the member is read.
    ReadMember { target: String },
    /// The receiver is being evaluated; the arguments come next.
    CallReceiver { method: String, args: Vec<ASTNode> },
    /// The argument before `next` is being evaluated; `done` holds the
    /// values of those before it.
    CallArgs { method: String, receiver: Value, args: Vec<ASTNode>, next: usize, done: Vec<Value> },
    /// The statement before `next` of the block `block` is being evaluated.
    /// The frame owns the innermost scope.
    BlockBody { block: ObjectId, next: usize },
    /// The block is being run; `remaining` more runs follow.
    Repeat { this: Value, remaining: u64 },
    /// The block of a `ならば` is being run; its result becomes a condition.
    IfFlag,
    /// The line of a walk is being made; then its end points are set.
    WalkLine { this: ObjectId, x1: u64, y1: u64, x2: u64, y2: u64 },
}

/// A frame as a mathematical value.
pub enum FrameModel {
    Eval(Node),
    Sequence { statements: Seq<Node>, next: nat },
    BinaryRight { operator: BinaryOperator, right: Node },
    BinaryApply { operator: BinaryOperator, left: Value },
    AssignGlobal { target: Seq<char> },
    AssignObject { object: Node, target: Seq<char> },
    AssignMember { target: Seq<char>, value: Value },
    ReadMember { target: Seq<char> },
    CallReceiver { method: Seq<char>, args: Seq<Node> },
    CallArgs { method: Seq<char>, receiver: Value, args: Seq<Node>, next: nat, done: Seq<Value> },
    BlockBody { block: ObjectId, next: nat },
    Repeat { this: Value, remaining: u64 },
    IfFlag,
    WalkLine { this: ObjectId, x1: u64, y1: u64, x2: u64, y2: u64 },
}

impl View for Frame {
    type V = FrameModel;

    open spec fn view(&self) -> FrameModel {
        match *self {
            Frame::Eval(node) => FrameModel::Eval(node_view(node)),
            Frame::Sequence { statements, next } => FrameModel::Sequence {
                statements: nodes_view(statements@),
                next: next as nat,
            },
            Frame::BinaryRight { operator, right } => FrameModel::BinaryRight {
                operator,
                right: node_view(right),
            },
            Frame::BinaryApply { operator, left } => FrameModel::BinaryApply { operator, left },
            Frame::AssignGlobal { target } => FrameModel::AssignGlobal { target: target@ },
            Frame::AssignObject { object, target } => FrameModel::AssignObject {
                object: node_view(object),
                target: target@,
            },
            Frame::AssignMember { target, value } => FrameModel::AssignMember {
                target: target@,
                value,
            },
            Frame::ReadMember { target } => FrameModel::ReadMember { target: target@ },
            Frame::CallReceiver { method, args } => FrameModel::CallReceiver {
                method: method@,
                args: nodes_view(args@),
            },
            Frame::CallArgs { method, receiver, args, next, done } => FrameModel::CallArgs {
                method: method@,
                receiver,
                args: nodes_view(args@),
                next: next as nat,
                done: done@,
            },
            Frame::BlockBody { block, next } => FrameModel::BlockBody { block, next: next as nat },
            Frame::Repeat { this, remaining } => FrameModel::Repeat { this, remaining },
            Frame::IfFlag => FrameModel::IfFlag,
            Frame::WalkLine { this, x1, y1, x2, y2 } => FrameModel::WalkLine {
                this,
                x1,
                y1,
                x2,
                y2,
            },
        }
    }
}

/// The frames of a control stack as mathematical values.
pub open spec fn frames_view(frames: Seq<Frame>) -> Seq<FrameModel> {
    Seq::new(frames.len(), |i: int| frames[i]@)
}

/// Where an evaluation stands.
#[derive(Debug, PartialEq)]
pub enum State {
    /// The value is handed to the frame on top; with no frame left it is the
    /// result.
    Value(Value),
    /// An error unwinds the frames; with no frame left it is the result.
    Failed(Error),
    /// The host is asked for `left operator right`; the reply is the result
    /// of a binary operation.
    AwaitArithmetic { operator: BinaryOperator, left: u64, right: u64 },
    /// The host is asked for `direction + angle`; the reply becomes the
    /// direction of the turtle `this`.
    AwaitTurn { this: ObjectId, direction: u64, angle: u64 },
    /// The host is asked where a walk of `amount` from `(x, y)` in the
    /// direction `direction` ends; the turtle `this` moves there.
    AwaitWalk { this: ObjectId, x: u64, y: u64, direction: u64, amount: u64 },
}

/// What the machine asks of the host.  Numbers are bit patterns of binary64
/// numbers.
#[derive(Debug, Clone, Copy, PartialEq, Eq, Structural)]
pub enum Request {
    /// `left operator right`, where the operator is one of `Add`, `Sub`,
    /// `Mul` and `Div`.  The reply is a `Number`.
    Arithmetic { operator: BinaryOperator, left: u64, right: u64 },
    /// The point `amount` away from `(x, y)` in the direction `direction`,
    /// given in degrees.  The reply is a `Position`.
    Advance { x: u64, y: u64, direction: u64, amount: u64 },
}

/// What the host hands to a step of the machine.
#[derive(Debug, Clone, Copy, PartialEq, Eq, Structural)]
pub enum Reply {
    /// Nothing was asked.
    Nothing,
    /// The result of an `Arithmetic` request.
    Number(u64),
    /// The result of an `Advance` request.
    Position(u64, u64),
}

/// What a step of the machine reports.
#[derive(Debug, PartialEq)]
pub enum Action {
    /// The evaluation has ended with this result.
    Done(Result<Value, Error>),
    /// The host must compute this and step the machine with the reply.
    Compute(Request),
    /// The evaluation goes on.
    Running,
}

impl State {
    /// A copy of the state.
    pub fn duplicate(&self) -> (r: State)
        ensures
            r == *self,
    {
        match self {
            State::Value(v) => State::Value(v.duplicate()),
            State::Failed(e) => State::Failed(*e),
            State::AwaitArithmetic { operator, left, right } => State::AwaitArithmetic {
                operator: *operator,
                left: *left,
                right: *right,
            },
            State::AwaitTurn { this, direction, angle } => State::AwaitTurn {
                this: *this,
                direction: *direction,
                angle: *angle,
            },
            State::AwaitWalk { this, x, y, direction, amount } => State::AwaitWalk {
                this: *this,
                x: *x,
                y: *y,
                direction: *direction,
                amount: *amount,
            },
        }
    }
}

/// Whether the operator is one of `Add`, `Sub`, `Mul` and `Div`.
pub open spec fn arithmetic(operator: BinaryOperator) -> bool {
    operator == BinaryOperator::Add || operator == BinaryOperator::Sub || operator
        == BinaryOperator::Mul || operator == BinaryOperator::Div
}

/// Whether the operator is `And` or `Or`.
pub open spec fn logical(operator: BinaryOperator) -> bool {
    operator == BinaryOperator::And || operator == BinaryOperator::Or
}

/// How many frames of a control stack own a scope.
pub open spec fn scopes_owned(control: Seq<FrameModel>) -> nat
    decreases control.len(),
{
    if control.len() == 0 {
        0
    } else {
        scopes_owned(control.drop_last()) + (if control.last() is BlockBody {
            1nat
        } else {
            0nat
        })
    }
}

impl VmModel {
    /// Nothing is left to do and the host is not asked for anything.
    pub open spec fn idle(self) -> bool {
        self.control.len() == 0 && (self.state is Value || self.state is Failed)
    }

    /// Every scope belongs to a frame that runs a block, and every such
    /// frame has its scope.
    pub open spec fn scoped(self) -> bool {
        scopes_owned(self.control) == self.stack.len()
    }

    /// The machine with `node` scheduled, if it was idle; else the machine
    /// unchanged.
    pub open spec fn scheduled(self, node: Node) -> VmModel {
        if self.idle() {
            self.push_frame(FrameModel::Eval(node)).yields(Value::Null)
        } else {
            self
        }
    }

    /// The machine with the statements of a program scheduled, if it was
    /// idle; else the machine unchanged.
    pub open spec fn loaded(self, statements: Seq<Node>) -> VmModel {
        if self.idle() {
            self.push_frame(FrameModel::Sequence { statements, next: 0 }).yields(Value::Null)
        } else {
            self
        }
    }

    /// What the machine reports: the request it waits for, the result if
    /// nothing is left to do, else that it is running.
    pub open spec fn action(self) -> Action {
        match self.state {
            State::Value(v) => if self.control.len() == 0 {
                Action::Done(Ok(v))
            } else {
                Action::Running
            },
            State::Failed(e) => if self.control.len() == 0 {
                Action::Done(Err(e))
            } else {
                Action::Running
            },
            State::AwaitArithmetic { operator, left, right } => Action::Compute(
                Request::Arithmetic { operator, left, right },
            ),
            State::AwaitTurn { this, direction, angle } => Action::Compute(
                Request::Arithmetic { operator: BinaryOperator::Add, left: direction, right: angle },
            ),
            State::AwaitWalk { this, x, y, direction, amount } => Action::Compute(
                Request::Advance { x, y, direction, amount },
            ),
        }
    }

    /// The machine after `operator` has been applied to two values.  The
    /// arithmetic operators and the comparisons want two numbers, `And` and
    /// `Or` two truth values; else the machine fails with `Runtime`.  For an
    /// arithmetic operator the host is asked.
    pub open spec fn applied(self, operator: BinaryOperator, left: Value, right: Value) -> VmModel {
        if logical(operator) {
            match (left, right) {
                (Value::Bool(a), Value::Bool(b)) => self.yields(
                    Value::Bool(
                        if operator == BinaryOperator::And {
                            a && b
                        } else {
                            a || b
                        },
                    ),
                ),
                _ => self.fails(Error::Runtime),
            }
        } else {
            match (left, right) {
                (Value::Num(a), Value::Num(b)) => if arithmetic(operator) {
                    self.with_state(State::AwaitArithmetic { operator, left: a, right: b })
                } else {
                    self.yields(Value::Bool(compared(operator, a, b)))
                },
                _ => self.fails(Error::Runtime),
            }
        }
    }

    /// The machine after a block literal has been evaluated: a new block
    /// below what `ブロック` is bound to globally is the result.
    pub open spec fn defined(self, dummy_args: Seq<Seq<char>>, body: Seq<Node>) -> VmModel {
        let m1 = self.intern("ブロック"@);
        let symbol = self.symbol("ブロック"@);
        if !self.globals.contains_key(symbol) {
            m1.fails(Error::ObjectNotFound)
        } else {
            match self.globals[symbol] {
                Value::ObjectReference(id) => {
                    let (m2, r) = block_created(
                        m1,
                        Value::ObjectReference(id),
                        dummy_args,
                        body,
                    );
                    m2.settles(r)
                },
                _ => m1.fails(Error::Runtime),
            }
        }
    }

    /// The machine after the evaluation of `node` has begun.  A literal and
    /// a read of a name are done at once; for the other nodes the first
    /// part is scheduled, and a frame under it says what follows.
    pub open spec fn evaluated(self, node: Node) -> VmModel {
        match node {
            Node::StaticValue(v) => self.yields(v),
            Node::BinaryOp { operator, left, right } => self.push_frame(
                FrameModel::BinaryRight { operator, right: *right },
            ).push_frame(FrameModel::Eval(*left)),
            Node::Decl { object: None, target } => self.intern(target).settles(
                match self.value_in_scope(self.symbol(target)) {
                    Some(v) => Ok(v),
                    None => Err(Error::ObjectNotFound),
                },
            ),
            Node::Decl { object: Some(o), target } => self.push_frame(
                FrameModel::ReadMember { target },
            ).push_frame(FrameModel::Eval(*o)),
            Node::Assign { object: None, target, value } => self.push_frame(
                FrameModel::AssignGlobal { target },
            ).push_frame(FrameModel::Eval(*value)),
            Node::Assign { object: Some(o), target, value } => self.push_frame(
                FrameModel::AssignObject { object: *o, target },
            ).push_frame(FrameModel::Eval(*value)),
            Node::BlockDefine { dummy_args, body } => self.defined(dummy_args, body),
            Node::MethodCall { method, receiver, args } => self.push_frame(
                FrameModel::CallReceiver { method, args },
            ).push_frame(FrameModel::Eval(*receiver)),
        }
    }

    /// The machine after `value` has been handed to `frame`, which has been
    /// taken off the control stack.
    pub open spec fn resumed(self, frame: FrameModel, value: Value) -> VmModel {
        match frame {
            FrameModel::Eval(node) => self.evaluated(node),
            FrameModel::Sequence { statements, next } => if next < statements.len() {
                self.push_frame(FrameModel::Sequence { statements, next: next + 1 }).push_frame(
                    FrameModel::Eval(statements[next as int]),
                )
            } else {
                self
            },
            FrameModel::BinaryRight { operator, right } => self.push_frame(
                FrameModel::BinaryApply { operator, left: value },
            ).push_frame(FrameModel::Eval(right)),
            FrameModel::BinaryApply { operator, left } => self.applied(operator, left, value),
            FrameModel::AssignGlobal { target } => self.intern(target).assign(
                self.symbol(target),
                value,
            ).yields(Value::Null),
            FrameModel::AssignObject { object, target } => self.push_frame(
                FrameModel::AssignMember { target, value },
            ).push_frame(FrameModel::Eval(object)),
            FrameModel::AssignMember { target, value: assigned } => match self.object_of(value) {
                Ok(obj) => self.intern(target).set_member(
                    obj.id,
                    self.symbol(target),
                    assigned,
                ).yields(Value::Null),
                Err(e) => self.fails(e),
            },
            FrameModel::ReadMember { target } => match self.object_of(value) {
                Ok(obj) => self.intern(target).settles(self.member(obj.id, self.symbol(target))),
                Err(e) => self.fails(e),
            },
            FrameModel::CallReceiver { method, args } => if args.len() == 0 {
                self.called_by_name(value, method, Seq::empty())
            } else {
                self.push_frame(
                    FrameModel::CallArgs {
                        method,
                        receiver: value,
                        args,
                        next: 1,
                        done: Seq::empty(),
                    },
                ).push_frame(FrameModel::Eval(args[0]))
            },
            FrameModel::CallArgs { method, receiver, args, next, done } => if next < args.len() {
                self.push_frame(
                    FrameModel::CallArgs {
                        method,
                        receiver,
                        args,
                        next: next + 1,
                        done: done.push(value),
                    },
                ).push_frame(FrameModel::Eval(args[next as int]))
            } else {
                self.called_by_name(receiver, method, done.push(value))
            },
            FrameModel::BlockBody { block, next } => if self.is_block(block) && next < self.code(
                block,
            ).body.len() {
                self.push_frame(FrameModel::BlockBody { block, next: next + 1 }).push_frame(
                    FrameModel::Eval(self.code(block).body[next as int]),
                )
            } else {
                self.pop_stack()
            },
            FrameModel::Repeat { this, remaining } => if remaining == 0 {
                self
            } else {
                crate::object::block::executed(
                    self.push_frame(
                        FrameModel::Repeat { this, remaining: (remaining - 1) as u64 },
                    ),
                    this,
                    Seq::empty(),
                )
            },
            FrameModel::IfFlag => match value {
                Value::Bool(flag) => instantiated(self, flag),
                _ => self.fails(Error::Runtime),
            },
            FrameModel::WalkLine { this, x1, y1, x2, y2 } => line_drawn(
                self,
                value,
                this,
                x1,
                y1,
                x2,
                y2,
            ),
        }
    }

    /// The machine after the frame on top has been dropped because of an
    /// error.  A frame that runs a block takes its scope with it.
    pub open spec fn unwound(self) -> VmModel {
        if self.control.len() == 0 {
            self
        } else if self.control.last() is BlockBody {
            self.pop_frame().pop_stack()
        } else {
            self.pop_frame()
        }
    }

    /// The machine one step on.  While it waits for the host it goes on only
    /// with a reply of the kind it asked for; else a reply is ignored.
    pub open spec fn stepped(self, reply: Reply) -> VmModel {
        match self.state {
            State::Value(v) => if self.control.len() == 0 {
                self
            } else {
                self.pop_frame().resumed(self.control.last(), v)
            },
            State::Failed(e) => self.unwound(),
            State::AwaitArithmetic { operator, left, right } => match reply {
                Reply::Number(bits) => self.yields(Value::Num(bits)),
                _ => self,
            },
            State::AwaitTurn { this, direction, angle } => match reply {
                Reply::Number(bits) => turned(self, this, bits),
                _ => self,
            },
            State::AwaitWalk { this, x, y, direction, amount } => match reply {
                Reply::Position(x2, y2) => arrived(self, this, x, y, x2, y2),
                _ => self,
            },
        }
    }

    /// The machine after at most `budget` steps: it stops earlier when it
    /// has a result or asks the host.  The reply goes to the first step.
    pub open spec fn ran(self, reply: Reply, budget: nat) -> VmModel
        decreases budget,
    {
        if budget == 0 {
            self
        } else {
            let next = self.stepped(reply);
            if next.action() is Running {
                next.ran(Reply::Nothing, (budget - 1) as nat)
            } else {
                next
            }
        }
    }
}

impl VirtualMachine {
    /// Schedules the evaluation of `ast`, if the machine is idle, and says
    /// whether it was.  The steps that follow evaluate the node; the last of
    /// them reports its value.
    pub fn eval(&mut self, ast: &ASTNode) -> (r: bool)
        requires
            old(self).wf(),
        ensures
            final(self).wf(),
            r == old(self)@.idle(),
            final(self)@ == old(self)@.scheduled(ast@),
    {
        if self.is_idle() {
            self.push_frame(Frame::Eval(ast.duplicate()));
            self.set_state(State::Value(Value::Null));
            true
        } else {
            false
        }
    }

    /// Schedules the statements of a program, if the machine is idle, and
    /// says whether it was.  The steps that follow evaluate them in order;
    /// the first error ends the program.
    pub fn load(&mut self, statements: Vec<ASTNode>) -> (r: bool)
        requires
            old(self).wf(),
        ensures
            final(self).wf(),
            r == old(self)@.idle(),
            final(self)@ == old(self)@.loaded(nodes_view(statements@)),
    {
        if self.is_idle() {
            self.push_frame(Frame::Sequence { statements, next: 0 });
            self.set_state(State::Value(Value::Null));
            true
        } else {
            false
        }
    }

    /// Whether nothing is left to do and the host is not asked for anything.
    pub fn is_idle(&self) -> (r: bool)
        ensures
            r == self@.idle(),
    {
        self.pending() == 0 && match self.state() {
            State::Value(_) => true,
            State::Failed(_) => true,
            _ => false,
        }
    }

    /// What the machine reports: the request it waits for, the result if
    /// nothing is left to do, else that it is running.
    pub fn action(&self) -> (r: Action)
        ensures
            r == self@.action(),
    {
        let finished = self.pending() == 0;
        match self.state() {
            State::Value(v) => if finished {
                Action::Done(Ok(v.duplicate()))
            } else {
                Action::Running
            },
            State::Failed(e) => if finished {
                Action::Done(Err(*e))
            } else {
                Action::Running
            },
            State::AwaitArithmetic { operator, left, right } => Action::Compute(
                Request::Arithmetic { operator: *operator, left: *left, right: *right },
            ),
            State::AwaitTurn { this, direction, angle } => Action::Compute(
                Request::Arithmetic {
                    operator: BinaryOperator::Add,
                    left: *direction,
                    right: *angle,
                },
            ),
            State::AwaitWalk { this, x, y, direction, amount } => Action::Compute(
                Request::Advance { x: *x, y: *y, direction: *direction, amount: *amount },
            ),
        }
    }

    /// Applies `operator` to two values.
    pub fn apply(&mut self, operator: BinaryOperator, left: &Value, right: &Value)
        ensures
            final(self)@ == old(self)@.applied(operator, *left, *right),
            old(self).wf() ==> final(self).wf(),
    {
        match operator {
            BinaryOperator::And => match (left, right) {
                (Value::Bool(a), Value::Bool(b)) => self.set_state(
                    State::Value(Value::Bool(*a && *b)),
                ),
                _ => self.set_state(State::Failed(Error::Runtime)),
            },
            BinaryOperator::Or => match (left, right) {
                (Value::Bool(a), Value::Bool(b)) => self.set_state(
                    State::Value(Value::Bool(*a || *b)),
                ),
                _ => self.set_state(State::Failed(Error::Runtime)),
            },
            BinaryOperator::Add | BinaryOperator::Sub | BinaryOperator::Mul | BinaryOperator::Div => match (
                left,
                right,
            ) {
                (Value::Num(a), Value::Num(b)) => self.set_state(
                    State::AwaitArithmetic { operator, left: *a, right: *b },
                ),
                _ => self.set_state(State::Failed(Error::Runtime)),
            },
            _ => match (left, right) {
                (Value::Num(a), Value::Num(b)) => self.set_state(
                    State::Value(Value::Bool(compare(operator, *a, *b))),
                ),
                _ => self.set_state(State::Failed(Error::Runtime)),
            },
        }
    }

    /// Begins the evaluation of `node`.
    pub fn evaluate(&mut self, node: ASTNode)
        requires
            old(self).wf(),
        ensures
            final(self).wf(),
            final(self)@ == old(self)@.evaluated(node@),
    {
        match node {
            ASTNode::StaticValue(v) => self.set_state(State::Value(v)),
            ASTNode::DoBinaryOperator(b) => {
                let BinaryOperatorImpl { operator, left, right } = b;
                self.push_frame(Frame::BinaryRight { operator, right: *right });
                self.push_frame(Frame::Eval(*left));
            },
            ASTNode::Decl(d) => {
                let DeclImpl { object, target } = d;
                match object {
                    None => {
                        assert(child_view(object) is None);
                        let r = self.get_value_in_scope_from_symbol(target.as_str());
                        self.settle(r);
                    },
                    Some(o) => {
                        assert(child_view(object) == Some(Box::new(node_view(*o))));
                        self.push_frame(Frame::ReadMember { target });
                        self.push_frame(Frame::Eval(*o));
                    },
                }
            },
            ASTNode::Assign(a) => {
                let AssignImpl { object, target, value_node } = a;
                match object {
                    None => {
                        assert(child_view(object) is None);
                        self.push_frame(Frame::AssignGlobal { target });
                        self.push_frame(Frame::Eval(*value_node));
                    },
                    Some(o) => {
                        assert(child_view(object) == Some(Box::new(node_view(*o))));
                        self.push_frame(Frame::AssignObject { object: *o, target });
                        self.push_frame(Frame::Eval(*value_node));
                    },
                }
            },
            ASTNode::BlockDefine(b) => {
                let BlockDefineImpl { dummy_args, body } = b;
                match self.get_block_object_value() {
                    Ok(proto) => {
                        let r = crate::object::block::create(&proto, &dummy_args, &body, self);
                        self.settle(r);
                    },
                    Err(e) => self.set_state(State::Failed(e)),
                }
            },
            ASTNode::MethodCall(m) => {
                let MethodCallImpl { method, object, args } = m;
                self.push_frame(Frame::CallReceiver { method, args });
                self.push_frame(Frame::Eval(*object));
            },
        }
    }

    /// Calls the method named `method` on `this` with `args`.  The name is
    /// interned.
    pub fn call_method_str(&mut self, this: &Value, method: &str, args: &Vec<Value>)
        requires
            old(self).wf(),
        ensures
            final(self).wf(),
            final(self)@ == old(self)@.called_by_name(*this, method@, args@),
    {
        let symbol = self.to_symbol(method);
        self.call_method(this, symbol, args)
    }

    /// Hands `value` to `frame`, which has been taken off the control
    /// stack.
    pub fn resume(&mut self, frame: Frame, value: Value)
        requires
            old(self).wf(),
        ensures
            final(self).wf(),
            final(self)@ == old(self)@.resumed(frame@, value),
    {
        match frame {
            Frame::Eval(node) => self.evaluate(node),
            Frame::Sequence { statements, next } => {
                if next < statements.len() {
                    let node = statements[next].duplicate();
                    self.push_frame(Frame::Sequence { statements, next: next + 1 });
                    self.push_frame(Frame::Eval(node));
                }
            },
            Frame::BinaryRight { operator, right } => {
                self.push_frame(Frame::BinaryApply { operator, left: value });
                self.push_frame(Frame::Eval(right));
            },
            Frame::BinaryApply { operator, left } => self.apply(operator, &left, &value),
            Frame::AssignGlobal { target } => {
                let symbol = self.to_symbol(target.as_str());
                let _ = self.assign(symbol, &value);
                self.set_state(State::Value(Value::Null));
            },
            Frame::AssignObject { object, target } => {
                self.push_frame(Frame::AssignMember { target, value });
                self.push_frame(Frame::Eval(object));
            },
            Frame::AssignMember { target, value: assigned } => {
                let found = match self.get_object_from_value(&value) {
                    Ok(obj) => Ok(obj.id()),
                    Err(e) => Err(e),
                };
                match found {
                    Ok(id) => {
                        self.set_member_str(id, target.as_str(), assigned);
                        self.set_state(State::Value(Value::Null));
                    },
                    Err(e) => self.set_state(State::Failed(e)),
                }
            },
            Frame::ReadMember { target } => {
                let found = match self.get_object_from_value(&value) {
                    Ok(obj) => Ok(obj.id()),
                    Err(e) => Err(e),
                };
                match found {
                    Ok(id) => {
                        let r = self.get_member_str(id, target.as_str());
                        self.settle(r);
                    },
                    Err(e) => self.set_state(State::Failed(e)),
                }
            },
            Frame::CallReceiver { method, args } => {
                if args.len() == 0 {
                    let no_args: Vec<Value> = Vec::new();
                    assert(no_args@ =~= Seq::<Value>::empty());
                    self.call_method_str(&value, method.as_str(), &no_args);
                } else {
                    let node = args[0].duplicate();
                    let done: Vec<Value> = Vec::new();
                    assert(done@ =~= Seq::<Value>::empty());
                    self.push_frame(
                        Frame::CallArgs { method, receiver: value, args, next: 1, done },
                    );
                    self.push_frame(Frame::Eval(node));
                }
            },
            Frame::CallArgs { method, receiver, args, next, done } => {
                let mut done = done;
                done.push(value);
                if next < args.len() {
                    let node = args[next].duplicate();
                    self.push_frame(
                        Frame::CallArgs { method, receiver, args, next: next + 1, done },
                    );
                    self.push_frame(Frame::Eval(node));
                } else {
                    self.call_method_str(&receiver, method.as_str(), &done);
                }
            },
            Frame::BlockBody { block, next } => {
                let statement = match self.get_object(block) {
                    Ok(obj) => match obj.get_internal_value() {
                        Some(code) => if next < code.body.len() {
                            Some(code.body[next].duplicate())
                        } else {
                            None
                        },
                        None => None,
                    },
                    Err(_) => None,
                };
                match statement {
                    Some(node) => {
                        self.push_frame(Frame::BlockBody { block, next: next + 1 });
                        self.push_frame(Frame::Eval(node));
                    },
                    None => self.pop_stack(),
                }
            },
            Frame::Repeat { this, remaining } => {
                if remaining != 0 {
                    let again = this.duplicate();
                    self.push_frame(Frame::Repeat { this: again, remaining: remaining - 1 });
                    let no_args: Vec<Value> = Vec::new();
                    assert(no_args@ =~= Seq::<Value>::empty());
                    crate::object::block::exec(&this, &no_args, self);
                }
            },
            Frame::IfFlag => match value {
                Value::Bool(flag) => crate::object::condition::instantiate(flag, self),
                _ => self.set_state(State::Failed(Error::Runtime)),
            },
            Frame::WalkLine { this, x1, y1, x2, y2 } => crate::object::turtle::draw_line(
                &value,
                this,
                x1,
                y1,
                x2,
                y2,
                self,
            ),
        }
    }

    /// Drops the frame on top because of an error, and its scope with it if
    /// it runs a block.
    pub fn unwind(&mut self)
        requires
            old(self).wf(),
        ensures
            final(self).wf(),
            final(self)@ == old(self)@.unwound(),
    {
        match self.pop_frame() {
            Some(Frame::BlockBody { block, next }) => self.pop_stack(),
            _ => {},
        }
    }

    /// Takes one step and reports where the machine stands then.  `reply`
    /// is what the host computed for the request that the step before
    /// reported, `Nothing` if it reported none.
    pub fn step(&mut self, reply: Reply) -> (action: Action)
        requires
            old(self).wf(),
        ensures
            final(self).wf(),
            final(self)@ == old(self)@.stepped(reply),
            action == final(self)@.action(),
    {
        let state = self.state().duplicate();
        match state {
            State::Value(v) => match self.pop_frame() {
                Some(frame) => self.resume(frame, v),
                None => {},
            },
            State::Failed(e) => self.unwind(),
            State::AwaitArithmetic { operator, left, right } => match reply {
                Reply::Number(bits) => self.set_state(State::Value(Value::Num(bits))),
                _ => {},
            },
            State::AwaitTurn { this, direction, angle } => match reply {
                Reply::Number(bits) => crate::object::turtle::finish_turn(this, bits, self),
                _ => {},
            },
            State::AwaitWalk { this, x, y, direction, amount } => match reply {
                Reply::Position(x2, y2) => crate::object::turtle::arrive(this, x, y, x2, y2, self),
                _ => {},
            },
        }
        self.action()
    }

    /// Takes steps until the machine has a result or asks the host, but at
    /// most `budget` of them, and reports where the machine stands then.
    /// `reply` goes to the first step.
    pub fn run(&mut self, reply: Reply, budget: u64) -> (action: Action)
        requires
            old(self).wf(),
        ensures
            final(self).wf(),
            final(self)@ == old(self)@.ran(reply, budget as nat),
            action == final(self)@.action(),
    {
        let mut remaining = budget;
        let mut next_reply = reply;
        let mut action = self.action();
        while remaining > 0
            invariant
                self.wf(),
                self@.ran(next_reply, remaining as nat) == old(self)@.ran(reply, budget as nat),
                action == self@.action(),
            decreases remaining,
        {
            action = self.step(next_reply);
            match action {
                Action::Running => {
                    next_reply = Reply::Nothing;
                    remaining = remaining - 1;
                    action = Action::Running;
                },
                _ => {
                    return action;
                },
            }
        }
        action
    }
}

/// A frame on top of a control stack adds its scope, if it owns one, to
/// those that the stack owns.
pub proof fn lemma_scopes_owned_push(control: Seq<FrameModel>, frame: FrameModel)
    ensures
        scopes_owned(control.push(frame)) == scopes_owned(control) + (if frame is BlockBody {
            1nat
        } else {
            0nat
        }),
{
    assert(control.push(frame).drop_last() =~= control);
}

/// The scope of a block is seen inside the block and nowhere else.  Inside
/// a block that was entered with `real_args`, a name reads as the scope of
/// the block binds it, and else as it read outside: the scopes of the
/// blocks around it and the global bindings are seen through.  Once the
/// block is left, every name reads as it did before the block was entered.
pub proof fn lemma_block_scope(
    m: VmModel,
    dummy_args: Seq<Seq<char>>,
    real_args: Seq<Value>,
    symbol: u128,
)
    ensures
        ({
            let inside = m.push_stack(dummy_args, real_args);
            let scope = crate::vm::bind_all(m.symbols, dummy_args, real_args).1;
            &&& inside.stack.len() == m.stack.len() + 1
            &&& inside.value_in_scope(symbol) == (if scope.contains_key(symbol) {
                Some(scope[symbol])
            } else {
                m.value_in_scope(symbol)
            })
            &&& inside.pop_stack().stack == m.stack
            &&& inside.pop_stack().value_in_scope(symbol) == m.value_in_scope(symbol)
        }),
{
    let inside = m.push_stack(dummy_args, real_args);
    let scope = crate::vm::bind_all(m.symbols, dummy_args, real_args).1;
    assert(inside.stack.drop_last() =~= m.stack);
    assert(inside.stack.last() == scope);
}

/// Entering a block pushes one scope and one frame that owns it; the frame
/// gives the scope up when it has run its last statement, and when an error
/// unwinds it.
pub proof fn lemma_block_frame_owns_scope(m: VmModel, block: ObjectId, args: Seq<Value>, value: Value)
    requires
        m.is_block(block),
        m.scoped(),
    ensures
        ({
            let inside = m.entered(block, args);
            let last = FrameModel::BlockBody { block, next: m.code(block).body.len() };
            &&& inside.scoped()
            &&& inside.stack == m.push_stack(m.code(block).dummy_args, args).stack
            &&& inside.control == m.control.push(FrameModel::BlockBody { block, next: 0 })
            &&& inside.pop_frame().resumed(last, value).stack == m.stack
            &&& inside.pop_frame().resumed(last, value).control == m.control
            &&& inside.pop_frame().resumed(last, value).state == State::Value(Value::Null)
            &&& inside.fails(Error::Runtime).unwound().stack == m.stack
            &&& inside.fails(Error::Runtime).unwound().control == m.control
        }),
{
    let inside = m.entered(block, args);
    lemma_scopes_owned_push(m.control, FrameModel::BlockBody { block, next: 0 });
    assert(inside.stack.drop_last() =~= m.stack);
    assert(inside.control.drop_last() =~= m.control);
}

/// Whether `after` is `before` with at most one scope pushed or popped.
pub open spec fn one_scope_apart(before: Seq<Map<u128, Value>>, after: Seq<Map<u128, Value>>) -> bool {
    ||| after == before
    ||| (after.len() == before.len() + 1 && after.drop_last() == before)
    ||| (before.len() > 0 && after == before.drop_last())
}

/// Calling a method keeps the scopes in step with the frames: the call
/// pushes a scope exactly if it enters a block.
pub proof fn lemma_call_keeps_scoped(m: VmModel, this: Value, method: u128, args: Seq<Value>)
    requires
        m.scoped(),
    ensures
        m.called(this, method, args).scoped(),
        one_scope_apart(m.stack, m.called(this, method, args).stack),
{
    let after = m.called(this, method, args);
    match m.object_of(this) {
        Ok(obj) => match m.callee(obj.id, method) {
            Some(crate::vm::Callee::Block(block)) => {
                lemma_entered_keeps_scoped(m, block, args);
            },
            Some(crate::vm::Callee::Native(native)) => {
                lemma_invoke_keeps_scoped(m, native, this, args);
                assert(after == m.invoked(native, this, args));
            },
            None => {
                assert(after == m.fails(Error::MethodNotFound));
            },
        },
        Err(e) => {
            assert(after == m.fails(e));
        },
    }
}

/// Entering the block with the id `block` keeps the scopes in step with the
/// frames.
pub proof fn lemma_entered_keeps_scoped(m: VmModel, block: ObjectId, args: Seq<Value>)
    requires
        m.scoped(),
    ensures
        m.entered(block, args).scoped(),
        one_scope_apart(m.stack, m.entered(block, args).stack),
{
    if m.is_block(block) {
        lemma_scopes_owned_push(m.control, FrameModel::BlockBody { block, next: 0 });
        let inside = m.entered(block, args);
        assert(inside.stack.drop_last() =~= m.stack);
    }
}

/// Entering a block keeps the scopes in step with the frames.
pub proof fn lemma_enter_keeps_scoped(m: VmModel, this: Value, args: Seq<Value>)
    requires
        m.scoped(),
    ensures
        crate::object::block::executed(m, this, args).scoped(),
        one_scope_apart(m.stack, crate::object::block::executed(m, this, args).stack),
{
    match m.object_of(this) {
        Ok(obj) => {
            lemma_entered_keeps_scoped(m, obj.id, args);
        },
        Err(e) => {},
    }
}

/// Making a condition keeps the scopes in step with the frames.
pub proof fn lemma_instantiate_keeps_scoped(m: VmModel, flag: bool)
    requires
        m.scoped(),
    ensures
        instantiated(m, flag).scoped(),
        instantiated(m, flag).stack == m.stack,
{
}

/// Calling a built-in method keeps the scopes in step with the frames.
pub proof fn lemma_invoke_keeps_scoped(
    m: VmModel,
    native: crate::object::NativeMethod,
    this: Value,
    args: Seq<Value>,
)
    requires
        m.scoped(),
    ensures
        m.invoked(native, this, args).scoped(),
        one_scope_apart(m.stack, m.invoked(native, this, args).stack),
{
    match native {
        crate::object::NativeMethod::BlockExec => {
            lemma_enter_keeps_scoped(m, this, args);
        },
        crate::object::NativeMethod::BlockRepeat => {
            if args.len() > 0 {
                match args[0] {
                    Value::Num(n) => {
                        lemma_scopes_owned_push(
                            m.control,
                            FrameModel::Repeat { this, remaining: crate::number::truncated(n) },
                        );
                    },
                    _ => {},
                }
            }
        },
        crate::object::NativeMethod::BlockIf => {
            lemma_scopes_owned_push(m.control, FrameModel::IfFlag);
            lemma_enter_keeps_scoped(m.push_frame(FrameModel::IfFlag), this, Seq::empty());
        },
        crate::object::NativeMethod::ConditionExec => {
            if args.len() == 1 {
                match m.object_of(this) {
                    Ok(obj) => {
                        lemma_enter_keeps_scoped(m.intern("flag"@), args[0], Seq::empty());
                    },
                    Err(e) => {},
                }
            }
        },
        crate::object::NativeMethod::ConditionElse => {
            if args.len() == 0 {
                match m.object_of(this) {
                    Ok(obj) => {
                        match m.bool_member(obj.id, "flag"@) {
                            Ok(b) => {
                                lemma_instantiate_keeps_scoped(m.intern("flag"@), !b);
                            },
                            Err(e) => {},
                        }
                    },
                    Err(e) => {},
                }
            }
        },
        crate::object::NativeMethod::ButtonClick => {
            match m.object_of(this) {
                Ok(obj) => {
                    match m.member(obj.id, m.symbol("動作"@)) {
                        Ok(action) => {
                            lemma_enter_keeps_scoped(m.intern("動作"@), action, Seq::empty());
                        },
                        Err(e) => {},
                    }
                },
                Err(e) => {},
            }
        },
        _ => {},
    }
}

/// Handing a value to a frame keeps the scopes in step with the frames.
pub proof fn lemma_resume_keeps_scoped(m: VmModel, value: Value)
    requires
        m.scoped(),
        m.control.len() > 0,
    ensures
        m.pop_frame().resumed(m.control.last(), value).scoped(),
        one_scope_apart(m.stack, m.pop_frame().resumed(m.control.last(), value).stack),
{
    let frame = m.control.last();
    let below = m.pop_frame();
    let after = below.resumed(frame, value);
    assert(scopes_owned(m.control) == scopes_owned(below.control) + (if frame is BlockBody {
        1nat
    } else {
        0nat
    }));
    match frame {
        FrameModel::Eval(node) => {
            match node {
                Node::BinaryOp { operator, left, right } => {
                    let f1 = FrameModel::BinaryRight { operator, right: *right };
                    lemma_scopes_owned_push(below.control, f1);
                    lemma_scopes_owned_push(below.control.push(f1), FrameModel::Eval(*left));
                },
                Node::Decl { object: Some(o), target } => {
                    let f1 = FrameModel::ReadMember { target };
                    lemma_scopes_owned_push(below.control, f1);
                    lemma_scopes_owned_push(below.control.push(f1), FrameModel::Eval(*o));
                },
                Node::Assign { object: None, target, value: v } => {
                    let f1 = FrameModel::AssignGlobal { target };
                    lemma_scopes_owned_push(below.control, f1);
                    lemma_scopes_owned_push(below.control.push(f1), FrameModel::Eval(*v));
                },
                Node::Assign { object: Some(o), target, value: v } => {
                    let f1 = FrameModel::AssignObject { object: *o, target };
                    lemma_scopes_owned_push(below.control, f1);
                    lemma_scopes_owned_push(below.control.push(f1), FrameModel::Eval(*v));
                },
                Node::MethodCall { method, receiver, args } => {
                    let f1 = FrameModel::CallReceiver { method, args };
                    lemma_scopes_owned_push(below.control, f1);
                    lemma_scopes_owned_push(below.control.push(f1), FrameModel::Eval(*receiver));
                },
                _ => {},
            }
        },
        FrameModel::Sequence { statements, next } => {
            if next < statements.len() {
                let f1 = FrameModel::Sequence { statements, next: next + 1 };
                lemma_scopes_owned_push(below.control, f1);
                lemma_scopes_owned_push(
                    below.control.push(f1),
                    FrameModel::Eval(statements[next as int]),
                );
            }
        },
        FrameModel::BinaryRight { operator, right } => {
            let f1 = FrameModel::BinaryApply { operator, left: value };
            lemma_scopes_owned_push(below.control, f1);
            lemma_scopes_owned_push(below.control.push(f1), FrameModel::Eval(right));
        },
        FrameModel::AssignObject { object, target } => {
            let f1 = FrameModel::AssignMember { target, value };
            lemma_scopes_owned_push(below.control, f1);
            lemma_scopes_owned_push(below.control.push(f1), FrameModel::Eval(object));
        },
        FrameModel::CallReceiver { method, args } => {
            if args.len() == 0 {
                lemma_call_keeps_scoped(
                    below.intern(method),
                    value,
                    below.symbol(method),
                    Seq::empty(),
                );
            } else {
                let f1 = FrameModel::CallArgs {
                    method,
                    receiver: value,
                    args,
                    next: 1,
                    done: Seq::empty(),
                };
                lemma_scopes_owned_push(below.control, f1);
                lemma_scopes_owned_push(below.control.push(f1), FrameModel::Eval(args[0]));
            }
        },
        FrameModel::CallArgs { method, receiver, args, next, done } => {
            if next < args.len() {
                let f1 = FrameModel::CallArgs {
                    method,
                    receiver,
                    args,
                    next: next + 1,
                    done: done.push(value),
                };
                lemma_scopes_owned_push(below.control, f1);
                lemma_scopes_owned_push(
                    below.control.push(f1),
                    FrameModel::Eval(args[next as int]),
                );
            } else {
                lemma_call_keeps_scoped(
                    below.intern(method),
                    receiver,
                    below.symbol(method),
                    done.push(value),
                );
            }
        },
        FrameModel::BlockBody { block, next } => {
            if below.is_block(block) && next < below.code(block).body.len() {
                let f1 = FrameModel::BlockBody { block, next: next + 1 };
                lemma_scopes_owned_push(below.control, f1);
                lemma_scopes_owned_push(
                    below.control.push(f1),
                    FrameModel::Eval(below.code(block).body[next as int]),
                );
            }
        },
        FrameModel::Repeat { this, remaining } => {
            if remaining != 0 {
                let f1 = FrameModel::Repeat { this, remaining: (remaining - 1) as u64 };
                lemma_scopes_owned_push(below.control, f1);
                lemma_enter_keeps_scoped(below.push_frame(f1), this, Seq::empty());
            }
        },
        FrameModel::IfFlag => {
            match value {
                Value::Bool(flag) => {
                    lemma_instantiate_keeps_scoped(below, flag);
                },
                _ => {},
            }
        },
        _ => {},
    }
}

/// The scopes stay in step with the frames, whatever the machine does.  If
/// every scope belongs to a frame that runs a block before a step, so it is
/// after the step; and a step pushes or pops at most one scope and leaves
/// the scopes below as they were.
pub proof fn lemma_step_keeps_scoped(m: VmModel, reply: Reply)
    requires
        m.scoped(),
    ensures
        m.stepped(reply).scoped(),
        one_scope_apart(m.stack, m.stepped(reply).stack),
{
    match m.state {
        State::Value(v) => {
            if m.control.len() > 0 {
                lemma_resume_keeps_scoped(m, v);
            }
        },
        State::Failed(e) => {},
        State::AwaitArithmetic { operator, left, right } => {},
        State::AwaitTurn { this, direction, angle } => {},
        State::AwaitWalk { this, x, y, direction, amount } => {
            match reply {
                Reply::Position(x2, y2) => {
                    let m1 = m.intern("x"@).set_member(this, m.symbol("x"@), Value::Num(x2));
                    let m2 = m1.intern("y"@).set_member(this, m1.symbol("y"@), Value::Num(y2));
                    let m3 = m2.intern("線"@);
                    let line = m2.symbol("線"@);
                    if m2.globals.contains_key(line) {
                        match m2.globals[line] {
                            Value::ObjectReference(id) => {
                                let f1 = FrameModel::WalkLine { this, x1: x, y1: y, x2, y2 };
                                lemma_scopes_owned_push(m3.control, f1);
                                lemma_call_keeps_scoped(
                                    m3.push_frame(f1).intern("作る"@),
                                    Value::ObjectReference(id),
                                    m3.push_frame(f1).symbol("作る"@),
                                    Seq::empty(),
                                );
                            },
                            _ => {},
                        }
                    }
                },
                _ => {},
            }
        },
    }
}

/// The scopes stay in step with the frames over any number of steps; so
/// when an evaluation has ended, by a result or by an error, no scope of a
/// block is left, and every name reads as it is bound globally.
pub proof fn lemma_run_keeps_scoped(m: VmModel, reply: Reply, budget: nat)
    requires
        m.scoped(),
    ensures
        m.ran(reply, budget).scoped(),
        m.ran(reply, budget).idle() ==> m.ran(reply, budget).stack.len() == 0,
    decreases budget,
{
    if budget > 0 {
        lemma_step_keeps_scoped(m, reply);
        let next = m.stepped(reply);
        if next.action() is Running {
            lemma_run_keeps_scoped(next, Reply::Nothing, (budget - 1) as nat);
        }
    }
}

} // verus!
