use vstd::prelude::*;
use crate::typename::Typename;

verus! {

/// A local variable: its offset within the function's frame and its type.
#[derive(Clone, Copy, Debug, PartialEq, Eq, Structural)]
pub struct LVar {
    pub offset: usize,
    pub typename: Typename,
}

#[derive(Clone, Copy, Debug, PartialEq, Eq, Structural)]
pub enum UnaryType {
    Not,
}

#[derive(Clone, Copy, Debug, PartialEq, Eq, Structural)]
pub enum BinaryType {
    Add,
    Sub,
    Mul,
    Div,
    Equal,
    NotEqual,
    Lt,
    LtEq,
}

/// A node of the syntax tree.
#[derive(Debug)]
pub enum Node {
    /// operand, operator
    Unary(Box<Node>, UnaryType),
    /// left, right, operator
    Binary(Box<Node>, Box<Node>, BinaryType),
    Num(i32),
    Boolean(bool),
    /// frame offset, type
    LVar(usize, Typename),
    /// target, value
    Assign(Box<Node>, Box<Node>),
    Return(Option<Box<Node>>),
    /// condition, then
    If(Box<Node>, Box<Node>),
    /// condition, then, else
    IfElse(Box<Node>, Box<Node>, Box<Node>),
    /// init, condition, update, body
    For(Box<Node>, Box<Node>, Box<Node>, Box<Node>),
    /// condition, body
    While(Box<Node>, Box<Node>),
    Block(Vec<Node>),
    /// name, return type, parameter types, body, bytes of local variables
    Function(String, Typename, Vec<Typename>, Box<Node>, usize),
    /// name, arguments
    FunctionCall(String, Vec<Node>),
    Empty,
}

/// The mathematical form of a node: names as character sequences, lists as sequences.
pub enum NodeView {
    Unary(Box<NodeView>, UnaryType),
    Binary(Box<NodeView>, Box<NodeView>, BinaryType),
    Num(i32),
    Boolean(bool),
    LVar(usize, Typename),
    Assign(Box<NodeView>, Box<NodeView>),
    Return(Option<Box<NodeView>>),
    If(Box<NodeView>, Box<NodeView>),
    IfElse(Box<NodeView>, Box<NodeView>, Box<NodeView>),
    For(Box<NodeView>, Box<NodeView>, Box<NodeView>, Box<NodeView>),
    While(Box<NodeView>, Box<NodeView>),
    Block(Seq<NodeView>),
    Function(Seq<char>, Typename, Seq<Typename>, Box<NodeView>, usize),
    FunctionCall(Seq<char>, Seq<NodeView>),
    Empty,
}

/// The views of a list of nodes, element by element.
pub open spec fn views(v: Seq<Node>) -> Seq<NodeView>
    decreases v,
{
    if v.len() == 0 {
        seq![]
    } else {
        views(v.drop_last()).push(node_view(v.last()))
    }
}

/// The mathematical form of a node.
pub open spec fn node_view(n: Node) -> NodeView
    decreases n,
{
    match n {
        Node::Unary(a, t) => NodeView::Unary(Box::new(node_view(*a)), t),
        Node::Binary(l, r, op) => NodeView::Binary(
            Box::new(node_view(*l)),
            Box::new(node_view(*r)),
            op,
        ),
        Node::Num(v) => NodeView::Num(v),
        Node::Boolean(b) => NodeView::Boolean(b),
        Node::LVar(offset, t) => NodeView::LVar(offset, t),
        Node::Assign(l, r) => NodeView::Assign(Box::new(node_view(*l)), Box::new(node_view(*r))),
        Node::Return(None) => NodeView::Return(None),
        Node::Return(Some(e)) => NodeView::Return(Some(Box::new(node_view(*e)))),
        Node::If(c, t) => NodeView::If(Box::new(node_view(*c)), Box::new(node_view(*t))),
        Node::IfElse(c, t, e) => NodeView::IfElse(
            Box::new(node_view(*c)),
            Box::new(node_view(*t)),
            Box::new(node_view(*e)),
        ),
        Node::For(i, c, u, b) => NodeView::For(
            Box::new(node_view(*i)),
            Box::new(node_view(*c)),
            Box::new(node_view(*u)),
            Box::new(node_view(*b)),
        ),
        Node::While(c, b) => NodeView::While(Box::new(node_view(*c)), Box::new(node_view(*b))),
        Node::Block(v) => NodeView::Block(views(v@)),
        Node::Function(name, ret, params, body, size) => NodeView::Function(
            name@,
            ret,
            params@,
            Box::new(node_view(*body)),
            size,
        ),
        Node::FunctionCall(name, args) => NodeView::FunctionCall(name@, views(args@)),
        Node::Empty => NodeView::Empty,
    }
}

impl View for Node {
    type V = NodeView;

    open spec fn view(&self) -> NodeView {
        node_view(*self)
    }
}

/// A node that leaves one value on the operand stack when generated.
pub open spec fn is_expression(n: Node) -> bool {
    match n {
        Node::Unary(..) | Node::Binary(..) | Node::Num(_) | Node::Boolean(_) | Node::LVar(..)
        | Node::Assign(..) | Node::FunctionCall(..) => true,
        _ => false,
    }
}

impl Node {
    pub fn is_block(&self) -> (r: bool)
        ensures
            r == (*self is Block),
    {
        match self {
            Node::Block(_) => true,
            _ => false,
        }
    }

    /// The offset and type of a variable node; `None` for any other node.
    pub fn expect_lvar(&self) -> (r: Option<(usize, Typename)>)
        ensures
            match *self {
                Node::LVar(offset, t) => r == Some((offset, t)),
                _ => r is None,
            },
    {
        match self {
            Node::LVar(offset, typename) => Some((*offset, *typename)),
            _ => None,
        }
    }

    /// True for the nodes that leave one value on the operand stack.
    pub fn is_expression(&self) -> (r: bool)
        ensures
            r == is_expression(*self),
    {
        match self {
            Node::Unary(..) | Node::Binary(..) | Node::Num(_) | Node::Boolean(_) | Node::LVar(..)
            | Node::Assign(..) | Node::FunctionCall(..) => true,
            _ => false,
        }
    }
}

} // verus!
