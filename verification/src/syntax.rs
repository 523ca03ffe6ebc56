//! A reduced syntax tree of a script: the node kinds that the walkers tell
//! apart, and every other node as a bare list of its sub-nodes.

use vstd::prelude::*;

verus! {

/// The extent of a node in the source text, as the parser reports it: byte
/// offsets that start at 1.
#[derive(Debug, Clone, Copy, PartialEq, Eq, Hash, Structural)]
pub struct Span {
    pub lo: u32,
    pub hi: u32,
}

/// A node of the reduced tree. Sub-nodes are kept in source order.
#[derive(Debug)]
pub enum Node {
    /// An identifier that names a property: the `a` of `{a: 1}`.
    Ident(String),
    /// A string literal, also as a property key: the `"a"` of `{"a": 1}`.
    Str(String),
    /// A numeric literal, truncated to an integer.
    Num(u32),
    /// An array literal with its elements.
    Array(Vec<Node>),
    /// The place of an element that an array literal leaves out.
    Hole,
    /// An object literal with its properties.
    Object(Vec<Node>),
    /// A `key: value` property of an object literal. A computed key is any
    /// node other than `Ident`, `Str` and `Num`.
    KeyValue { key: Box<Node>, value: Box<Node> },
    /// A function expression.
    Function { span: Span, children: Vec<Node> },
    /// An arrow expression.
    Arrow { span: Span, children: Vec<Node> },
    /// A call expression.
    Call { callee: Box<Node>, args: Vec<Node> },
    /// An expression statement.
    ExprStmt(Box<Node>),
    /// Any other node.
    Other(Vec<Node>),
}

/// A parsed script: its top-level statements.
#[derive(Debug)]
pub struct Script {
    pub body: Vec<Node>,
}

/// The `key: value` properties below the nodes `nodes[..upto]` that no other
/// such property encloses, in source order.
pub open spec fn outer_props_of_all(nodes: Seq<Node>, upto: nat) -> Seq<Node>
    decreases nodes, upto,
{
    if upto == 0 || upto > nodes.len() {
        Seq::empty()
    } else {
        outer_props_of_all(nodes, (upto - 1) as nat) + outer_props(nodes[upto - 1])
    }
}

/// The `key: value` properties at or below `node` that no other such
/// property encloses, in source order.
pub open spec fn outer_props(node: Node) -> Seq<Node>
    decreases node,
{
    match node {
        Node::KeyValue { .. } => seq![node],
        Node::Array(elems) => outer_props_of_all(elems@, elems@.len()),
        Node::Object(props) => outer_props_of_all(props@, props@.len()),
        Node::Function { children, .. } => outer_props_of_all(children@, children@.len()),
        Node::Arrow { children, .. } => outer_props_of_all(children@, children@.len()),
        Node::Call { callee, args } => outer_props(*callee) + outer_props_of_all(
            args@,
            args@.len(),
        ),
        Node::ExprStmt(expr) => outer_props(*expr),
        Node::Other(children) => outer_props_of_all(children@, children@.len()),
        _ => Seq::empty(),
    }
}

/// The properties directly inside the property `prop`: those of its key and
/// of its value that no deeper property encloses.
pub open spec fn inner_props(prop: Node) -> Seq<Node> {
    match prop {
        Node::KeyValue { key, value } => outer_props(*key) + outer_props(*value),
        _ => Seq::empty(),
    }
}

/// The nodes that a sequence of references points to.
pub open spec fn refs_view(refs: Seq<&Node>) -> Seq<Node> {
    Seq::new(refs.len(), |i: int| *refs[i])
}

/// Appends to `out` the outermost properties at or below `node`.
pub fn collect_outer_props<'a>(node: &'a Node, out: &mut Vec<&'a Node>)
    ensures
        refs_view(final(out)@) == refs_view(old(out)@) + outer_props(*node),
    decreases node,
{
    match node {
        Node::KeyValue { .. } => {
            out.push(node);
            assert(refs_view(out@) =~= refs_view(old(out)@) + outer_props(*node));
        },
        Node::Array(elems) => collect_outer_props_of_all(elems, out),
        Node::Object(props) => collect_outer_props_of_all(props, out),
        Node::Function { children, .. } => collect_outer_props_of_all(children, out),
        Node::Arrow { children, .. } => collect_outer_props_of_all(children, out),
        Node::Call { callee, args } => {
            collect_outer_props(callee, out);
            collect_outer_props_of_all(args, out);
            assert(refs_view(out@) =~= refs_view(old(out)@) + outer_props(*node));
        },
        Node::ExprStmt(expr) => collect_outer_props(expr, out),
        Node::Other(children) => collect_outer_props_of_all(children, out),
        _ => {
            assert(refs_view(out@) =~= refs_view(old(out)@) + outer_props(*node));
        },
    }
}

/// Appends to `out` the outermost properties below each of `nodes`.
pub fn collect_outer_props_of_all<'a>(nodes: &'a Vec<Node>, out: &mut Vec<&'a Node>)
    ensures
        refs_view(final(out)@) == refs_view(old(out)@) + outer_props_of_all(nodes@, nodes@.len()),
    decreases nodes,
{
    let mut i: usize = 0;
    assert(refs_view(out@) =~= refs_view(old(out)@) + outer_props_of_all(nodes@, 0));
    while i < nodes.len()
        invariant
            i <= nodes@.len(),
            refs_view(out@) == refs_view(old(out)@) + outer_props_of_all(nodes@, i as nat),
        decreases nodes@.len() - i,
    {
        collect_outer_props(&nodes[i], out);
        assert(refs_view(out@) =~= refs_view(old(out)@) + outer_props_of_all(nodes@, (i + 1) as nat));
        i += 1;
    }
}

} // verus!
