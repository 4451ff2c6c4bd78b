//! The syntax tree.

use vstd::prelude::*;
use crate::types::Value;

verus! {

/// The binary operators.
#[derive(Debug, PartialEq, Eq, Clone, Copy, Structural)]
pub enum BinaryOperator {
    Add,
    Sub,
    Mul,
    Div,
    Lt,
    Lte,
    Gt,
    Gte,
    Eq,
    Ne,
    And,
    Or,
}

/// A node of the syntax tree.
#[derive(Debug, PartialEq)]
pub enum ASTNode {
    /// A method call on a receiver.
    MethodCall(MethodCallImpl),
    /// An assignment to a global or to a member.
    Assign(AssignImpl),
    /// A read of a binding or of a member.
    Decl(DeclImpl),
    /// A literal.
    StaticValue(Value),
    /// A block literal.
    BlockDefine(BlockDefineImpl),
    /// A binary operation.
    DoBinaryOperator(BinaryOperatorImpl),
}

/// `receiver ! args method`.
#[derive(Debug, PartialEq)]
pub struct MethodCallImpl {
    pub method: String,
    pub object: Box<ASTNode>,
    pub args: Vec<ASTNode>,
}

/// `name = value` or `object : name = value`.
#[derive(Debug, PartialEq)]
pub struct AssignImpl {
    pub object: Option<Box<ASTNode>>,
    pub target: String,
    pub value_node: Box<ASTNode>,
}

/// `name` or `object : name`.
#[derive(Debug, PartialEq)]
pub struct DeclImpl {
    pub object: Option<Box<ASTNode>>,
    pub target: String,
}

/// A block literal: parameter names and body.
#[derive(Debug, PartialEq)]
pub struct BlockDefineImpl {
    pub dummy_args: Vec<String>,
    pub body: Vec<ASTNode>,
}

/// `left op right`.
#[derive(Debug, PartialEq)]
pub struct BinaryOperatorImpl {
    pub operator: BinaryOperator,
    pub left: Box<ASTNode>,
    pub right: Box<ASTNode>,
}

/// A syntax tree as a mathematical value: names are sequences of
/// characters, children are sequences of trees.
pub enum Node {
    MethodCall { method: Seq<char>, receiver: Box<Node>, args: Seq<Node> },
    Assign { object: Option<Box<Node>>, target: Seq<char>, value: Box<Node> },
    Decl { object: Option<Box<Node>>, target: Seq<char> },
    StaticValue(Value),
    BlockDefine { dummy_args: Seq<Seq<char>>, body: Seq<Node> },
    BinaryOp { operator: BinaryOperator, left: Box<Node>, right: Box<Node> },
}

/// The views of a list of nodes.
pub open spec fn nodes_view(nodes: Seq<ASTNode>) -> Seq<Node>
    decreases nodes, 1int,
{
    Seq::new(
        nodes.len(),
        |i: int|
            if 0 <= i < nodes.len() {
                node_view(nodes[i])
            } else {
                Node::StaticValue(Value::Null)
            },
    )
}

/// The views of a list of names.
pub open spec fn names_view(names: Seq<String>) -> Seq<Seq<char>> {
    Seq::new(names.len(), |i: int| names[i]@)
}

/// The view of an optional child.
pub open spec fn child_view(child: Option<Box<ASTNode>>) -> Option<Box<Node>>
    decreases child, 1int,
{
    match child {
        Some(o) => Some(Box::new(node_view(*o))),
        None => None,
    }
}

/// The mathematical tree that a node stands for.
pub open spec fn node_view(node: ASTNode) -> Node
    decreases node, 0int,
{
    match node {
        ASTNode::MethodCall(m) => Node::MethodCall {
            method: m.method@,
            receiver: Box::new(node_view(*m.object)),
            args: nodes_view(m.args@),
        },
        ASTNode::Assign(a) => Node::Assign {
            object: child_view(a.object),
            target: a.target@,
            value: Box::new(node_view(*a.value_node)),
        },
        ASTNode::Decl(d) => Node::Decl { object: child_view(d.object), target: d.target@ },
        ASTNode::StaticValue(v) => Node::StaticValue(v),
        ASTNode::BlockDefine(b) => Node::BlockDefine {
            dummy_args: names_view(b.dummy_args@),
            body: nodes_view(b.body@),
        },
        ASTNode::DoBinaryOperator(b) => Node::BinaryOp {
            operator: b.operator,
            left: Box::new(node_view(*b.left)),
            right: Box::new(node_view(*b.right)),
        },
    }
}

/// A copy of a list of names.
pub fn duplicate_names(names: &Vec<String>) -> (r: Vec<String>)
    ensures
        names_view(r@) == names_view(names@),
{
    let mut out: Vec<String> = Vec::new();
    let mut i: usize = 0;
    while i < names.len()
        invariant
            i <= names.len(),
            out.len() == i,
            forall|j: int| 0 <= j < i ==> out[j]@ == names[j]@,
        decreases names.len() - i,
    {
        out.push(names[i].clone());
        i += 1;
    }
    assert(names_view(out@) =~= names_view(names@));
    out
}

/// A copy of a list of nodes.
pub fn duplicate_nodes(nodes: &Vec<ASTNode>) -> (r: Vec<ASTNode>)
    ensures
        nodes_view(r@) == nodes_view(nodes@),
    decreases nodes, 1int,
{
    let mut out: Vec<ASTNode> = Vec::new();
    let mut i: usize = 0;
    while i < nodes.len()
        invariant
            i <= nodes.len(),
            out.len() == i,
            forall|j: int| 0 <= j < i ==> out[j]@ == nodes[j]@,
        decreases nodes.len() - i,
    {
        out.push(nodes[i].duplicate());
        i += 1;
    }
    assert(nodes_view(out@) =~= nodes_view(nodes@));
    out
}

/// A copy of an optional child.
pub fn duplicate_child(child: &Option<Box<ASTNode>>) -> (r: Option<Box<ASTNode>>)
    ensures
        child_view(r) == child_view(*child),
    decreases child, 1int,
{
    match child {
        Some(o) => {
            let copy = o.duplicate();
            assert(node_view(copy) == node_view(**o));
            Some(Box::new(copy))
        },
        None => None,
    }
}

impl ASTNode {
    /// A copy of the tree.
    pub fn duplicate(&self) -> (r: ASTNode)
        ensures
            r@ == self@,
        decreases self, 0int,
    {
        match self {
            ASTNode::MethodCall(m) => {
                let object = m.object.duplicate();
                let args = duplicate_nodes(&m.args);
                ASTNode::MethodCall(
                    MethodCallImpl { method: m.method.clone(), object: Box::new(object), args },
                )
            },
            ASTNode::Assign(a) => {
                let object = duplicate_child(&a.object);
                let value = a.value_node.duplicate();
                ASTNode::Assign(
                    AssignImpl { object, target: a.target.clone(), value_node: Box::new(value) },
                )
            },
            ASTNode::Decl(d) => {
                let object = duplicate_child(&d.object);
                ASTNode::Decl(DeclImpl { object, target: d.target.clone() })
            },
            ASTNode::StaticValue(v) => ASTNode::StaticValue(v.duplicate()),
            ASTNode::BlockDefine(b) => {
                let dummy_args = duplicate_names(&b.dummy_args);
                let body = duplicate_nodes(&b.body);
                ASTNode::BlockDefine(BlockDefineImpl { dummy_args, body })
            },
            ASTNode::DoBinaryOperator(b) => {
                let left = b.left.duplicate();
                let right = b.right.duplicate();
                ASTNode::DoBinaryOperator(
                    BinaryOperatorImpl {
                        operator: b.operator,
                        left: Box::new(left),
                        right: Box::new(right),
                    },
                )
            },
        }
    }
}

/// The views of a list of borrowed names.
pub open spec fn strs_view(names: Seq<&str>) -> Seq<Seq<char>> {
    Seq::new(names.len(), |i: int| names[i]@)
}

/// The tree `left op right`.
pub open spec fn binary_node(operator: BinaryOperator, left: Node, right: Node) -> Node {
    Node::BinaryOp { operator, left: Box::new(left), right: Box::new(right) }
}

/// The view of an optional node.
pub open spec fn option_view(node: Option<ASTNode>) -> Option<Box<Node>> {
    match node {
        Some(o) => Some(Box::new(o@)),
        None => None,
    }
}

/// A boxed copy of an optional node.
fn box_option(node: &Option<ASTNode>) -> (r: Option<Box<ASTNode>>)
    ensures
        child_view(r) == option_view(*node),
{
    match node {
        Some(o) => {
            let copy = o.duplicate();
            assert(node_view(copy) == node_view(*o));
            Some(Box::new(copy))
        },
        None => None,
    }
}

impl ASTNode {
    /// The call of `method` on `object` with `args`.
    pub fn new_method_call(method: &str, object: &ASTNode, args: &Vec<ASTNode>) -> (r: Self)
        ensures
            r@ == (Node::MethodCall {
                method: method@,
                receiver: Box::new(object@),
                args: nodes_view(args@),
            }),
    {
        let receiver = object.duplicate();
        let args = duplicate_nodes(args);
        ASTNode::MethodCall(
            MethodCallImpl { method: String::from_str(method), object: Box::new(receiver), args },
        )
    }

    /// The assignment of `value_node` to the global `target`, or to the
    /// member `target` of `object`.
    pub fn new_assign(object: &Option<ASTNode>, target: &str, value_node: &ASTNode) -> (r: Self)
        ensures
            r@ == (Node::Assign {
                object: option_view(*object),
                target: target@,
                value: Box::new(value_node@),
            }),
    {
        let object = box_option(object);
        let value = value_node.duplicate();
        ASTNode::Assign(
            AssignImpl { object, target: String::from_str(target), value_node: Box::new(value) },
        )
    }

    /// The read of the binding `target`, or of the member `target` of
    /// `object`.
    pub fn new_decl(object: &Option<ASTNode>, target: &str) -> (r: Self)
        ensures
            r@ == (Node::Decl { object: option_view(*object), target: target@ }),
    {
        let object = box_option(object);
        ASTNode::Decl(DeclImpl { object, target: String::from_str(target) })
    }

    /// The literal `value`.
    pub fn new_static_value(value: &Value) -> (r: Self)
        ensures
            r@ == Node::StaticValue(*value),
    {
        ASTNode::StaticValue(value.duplicate())
    }

    /// The block with the parameters `dummy_args` and the statements `body`.
    pub fn new_block_define(dummy_args: &Vec<&str>, body: &Vec<ASTNode>) -> (r: Self)
        ensures
            r@ == (Node::BlockDefine {
                dummy_args: strs_view(dummy_args@),
                body: nodes_view(body@),
            }),
    {
        let mut names: Vec<String> = Vec::new();
        let mut i: usize = 0;
        while i < dummy_args.len()
            invariant
                i <= dummy_args.len(),
                names.len() == i,
                forall|j: int| 0 <= j < i ==> names[j]@ == dummy_args[j]@,
            decreases dummy_args.len() - i,
        {
            names.push(String::from_str(dummy_args[i]));
            i += 1;
        }
        assert(names_view(names@) =~= strs_view(dummy_args@));
        let body = duplicate_nodes(body);
        ASTNode::BlockDefine(BlockDefineImpl { dummy_args: names, body })
    }

    /// The node `left operator right`.
    pub fn new_binary(operator: BinaryOperator, left: &ASTNode, right: &ASTNode) -> (r: Self)
        ensures
            r@ == binary_node(operator, left@, right@),
    {
        let left = left.duplicate();
        let right = right.duplicate();
        ASTNode::DoBinaryOperator(
            BinaryOperatorImpl { operator, left: Box::new(left), right: Box::new(right) },
        )
    }

    /// The node `left + right`.
    pub fn new_add(left: &ASTNode, right: &ASTNode) -> (r: Self)
        ensures
            r@ == binary_node(BinaryOperator::Add, left@, right@),
    {
        ASTNode::new_binary(BinaryOperator::Add, left, right)
    }

    /// The node `left - right`.
    pub fn new_sub(left: &ASTNode, right: &ASTNode) -> (r: Self)
        ensures
            r@ == binary_node(BinaryOperator::Sub, left@, right@),
    {
        ASTNode::new_binary(BinaryOperator::Sub, left, right)
    }

    /// The node `left / right`.
    pub fn new_div(left: &ASTNode, right: &ASTNode) -> (r: Self)
        ensures
            r@ == binary_node(BinaryOperator::Div, left@, right@),
    {
        ASTNode::new_binary(BinaryOperator::Div, left, right)
    }

    /// The node `left * right`.
    pub fn new_mul(left: &ASTNode, right: &ASTNode) -> (r: Self)
        ensures
            r@ == binary_node(BinaryOperator::Mul, left@, right@),
    {
        ASTNode::new_binary(BinaryOperator::Mul, left, right)
    }

    /// The node `left < right`.
    pub fn new_lt(left: &ASTNode, right: &ASTNode) -> (r: Self)
        ensures
            r@ == binary_node(BinaryOperator::Lt, left@, right@),
    {
        ASTNode::new_binary(BinaryOperator::Lt, left, right)
    }

    /// The node `left <= right`.
    pub fn new_lte(left: &ASTNode, right: &ASTNode) -> (r: Self)
        ensures
            r@ == binary_node(BinaryOperator::Lte, left@, right@),
    {
        ASTNode::new_binary(BinaryOperator::Lte, left, right)
    }

    /// The node `left > right`.
    pub fn new_gt(left: &ASTNode, right: &ASTNode) -> (r: Self)
        ensures
            r@ == binary_node(BinaryOperator::Gt, left@, right@),
    {
        ASTNode::new_binary(BinaryOperator::Gt, left, right)
    }

    /// The node `left >= right`.
    pub fn new_gte(left: &ASTNode, right: &ASTNode) -> (r: Self)
        ensures
            r@ == binary_node(BinaryOperator::Gte, left@, right@),
    {
        ASTNode::new_binary(BinaryOperator::Gte, left, right)
    }

    /// The node `left == right`.
    pub fn new_eq(left: &ASTNode, right: &ASTNode) -> (r: Self)
        ensures
            r@ == binary_node(BinaryOperator::Eq, left@, right@),
    {
        ASTNode::new_binary(BinaryOperator::Eq, left, right)
    }

    /// The node `left != right`.
    pub fn new_ne(left: &ASTNode, right: &ASTNode) -> (r: Self)
        ensures
            r@ == binary_node(BinaryOperator::Ne, left@, right@),
    {
        ASTNode::new_binary(BinaryOperator::Ne, left, right)
    }

    /// The node `left && right`.
    pub fn new_and(left: &ASTNode, right: &ASTNode) -> (r: Self)
        ensures
            r@ == binary_node(BinaryOperator::And, left@, right@),
    {
        ASTNode::new_binary(BinaryOperator::And, left, right)
    }

    /// The node `left || right`.
    pub fn new_or(left: &ASTNode, right: &ASTNode) -> (r: Self)
        ensures
            r@ == binary_node(BinaryOperator::Or, left@, right@),
    {
        ASTNode::new_binary(BinaryOperator::Or, left, right)
    }
}

impl Clone for ASTNode {
    fn clone(&self) -> (r: Self)
        ensures
            r@ == self@,
    {
        self.duplicate()
    }
}

impl View for ASTNode {
    type V = Node;

    open spec fn view(&self) -> Node {
        node_view(*self)
    }
}

} // verus!
