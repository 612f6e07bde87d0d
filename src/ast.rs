use vstd::prelude::*;
use crate::operators::{CmpOperator, Operator};

verus! {

/// A literal written in source text.
#[derive(Debug, Clone)]
pub enum Literal {
    PyNone,
    Bool(bool),
    Int(i64),
    Str(String),
}

/// An expression. `V` names a variable and `F` a function: names as written
/// before resolution, slots and builtins after.
#[derive(Debug)]
pub enum Expr<V, F> {
    Constant(Literal),
    Name(V),
    Call { func: F, args: Vec<Expr<V, F>> },
    Op { left: Box<Expr<V, F>>, op: Operator, right: Box<Expr<V, F>> },
    Cmp { left: Box<Expr<V, F>>, op: CmpOperator, right: Box<Expr<V, F>> },
}

/// A statement.
#[derive(Debug)]
pub enum Node<V, F> {
    Pass,
    Expr(Expr<V, F>),
    Assign { target: V, value: Expr<V, F> },
    For { target: V, iter: Expr<V, F>, body: Vec<Node<V, F>>, or_else: Vec<Node<V, F>> },
    If { test: Expr<V, F>, body: Vec<Node<V, F>>, or_else: Vec<Node<V, F>> },
}

/// A resolved variable: its slot in the namespace, and its name for messages.
#[derive(Debug, Clone)]
pub struct Ident {
    pub slot: usize,
    pub name: String,
}

/// A statement whose names are resolved to slots and builtins.
pub type PreparedNode = Node<Ident, crate::builtins::Builtins>;

/// An expression whose names are resolved to slots and builtins.
pub type PreparedExpr = Expr<Ident, crate::builtins::Builtins>;

/// `id` names the slot of its name in the table `names`.
pub open spec fn ident_ok(id: Ident, names: Seq<Seq<char>>) -> bool {
    id.slot < names.len() && names[id.slot as int] == id.name@
}

/// No name stands twice in the table.
pub open spec fn names_distinct(names: Seq<Seq<char>>) -> bool {
    forall|i: int, j: int| 0 <= i < names.len() && 0 <= j < names.len() && names[i] == names[j] ==> i == j
}

/// `new` holds the names of `old` at the same slots.
pub open spec fn names_extend(old: Seq<Seq<char>>, new: Seq<Seq<char>>) -> bool {
    old.len() <= new.len() && forall|i: int| 0 <= i < old.len() ==> new[i] == old[i]
}

/// Every variable of `e` names the slot of its name in `names`.
pub open spec fn expr_resolved(e: PreparedExpr, names: Seq<Seq<char>>) -> bool
    decreases e, 0int,
{
    match e {
        Expr::Constant(_) => true,
        Expr::Name(id) => ident_ok(id, names),
        Expr::Call { args, .. } => args_resolved(args@, 0, names),
        Expr::Op { left, right, .. } => expr_resolved(*left, names) && expr_resolved(*right, names),
        Expr::Cmp { left, right, .. } => expr_resolved(*left, names) && expr_resolved(*right, names),
    }
}

/// `expr_resolved` of each of `args[i..]`.
pub open spec fn args_resolved(args: Seq<PreparedExpr>, i: int, names: Seq<Seq<char>>) -> bool
    decreases args, args.len() - i,
{
    if i < 0 || i >= args.len() {
        true
    } else {
        expr_resolved(args[i], names) && args_resolved(args, i + 1, names)
    }
}

/// Every variable of `node` names the slot of its name in `names`.
pub open spec fn node_resolved(node: PreparedNode, names: Seq<Seq<char>>) -> bool
    decreases node, 1int,
{
    match node {
        Node::Pass => true,
        Node::Expr(e) => expr_resolved(e, names),
        Node::Assign { target, value } => ident_ok(target, names) && expr_resolved(value, names),
        Node::For { target, iter, body, or_else } => ident_ok(target, names) && expr_resolved(
            iter,
            names,
        ) && block_resolved(body@, 0, names) && block_resolved(or_else@, 0, names),
        Node::If { test, body, or_else } => expr_resolved(test, names) && block_resolved(
            body@,
            0,
            names,
        ) && block_resolved(or_else@, 0, names),
    }
}

/// `node_resolved` of each of `nodes[i..]`.
pub open spec fn block_resolved(nodes: Seq<PreparedNode>, i: int, names: Seq<Seq<char>>) -> bool
    decreases nodes, nodes.len() - i,
{
    if i < 0 || i >= nodes.len() {
        true
    } else {
        node_resolved(nodes[i], names) && block_resolved(nodes, i + 1, names)
    }
}

/// What is resolved against a table stays resolved once the table grows.
pub proof fn lemma_expr_resolved_extend(e: PreparedExpr, old: Seq<Seq<char>>, new: Seq<Seq<char>>)
    requires
        expr_resolved(e, old),
        names_extend(old, new),
    ensures
        expr_resolved(e, new),
    decreases e, 0int,
{
    match e {
        Expr::Call { args, .. } => lemma_args_resolved_extend(args@, 0, old, new),
        Expr::Op { left, right, .. } => {
            lemma_expr_resolved_extend(*left, old, new);
            lemma_expr_resolved_extend(*right, old, new);
        },
        Expr::Cmp { left, right, .. } => {
            lemma_expr_resolved_extend(*left, old, new);
            lemma_expr_resolved_extend(*right, old, new);
        },
        _ => {},
    }
}

pub proof fn lemma_args_resolved_extend(
    args: Seq<PreparedExpr>,
    i: int,
    old: Seq<Seq<char>>,
    new: Seq<Seq<char>>,
)
    requires
        args_resolved(args, i, old),
        names_extend(old, new),
    ensures
        args_resolved(args, i, new),
    decreases args, args.len() - i,
{
    if 0 <= i < args.len() {
        lemma_expr_resolved_extend(args[i], old, new);
        lemma_args_resolved_extend(args, i + 1, old, new);
    }
}

pub proof fn lemma_node_resolved_extend(
    node: PreparedNode,
    old: Seq<Seq<char>>,
    new: Seq<Seq<char>>,
)
    requires
        node_resolved(node, old),
        names_extend(old, new),
    ensures
        node_resolved(node, new),
    decreases node, 1int,
{
    match node {
        Node::Expr(e) => lemma_expr_resolved_extend(e, old, new),
        Node::Assign { value, .. } => lemma_expr_resolved_extend(value, old, new),
        Node::For { iter, body, or_else, .. } => {
            lemma_expr_resolved_extend(iter, old, new);
            lemma_block_resolved_extend(body@, 0, old, new);
            lemma_block_resolved_extend(or_else@, 0, old, new);
        },
        Node::If { test, body, or_else } => {
            lemma_expr_resolved_extend(test, old, new);
            lemma_block_resolved_extend(body@, 0, old, new);
            lemma_block_resolved_extend(or_else@, 0, old, new);
        },
        _ => {},
    }
}

pub proof fn lemma_block_resolved_extend(
    nodes: Seq<PreparedNode>,
    i: int,
    old: Seq<Seq<char>>,
    new: Seq<Seq<char>>,
)
    requires
        block_resolved(nodes, i, old),
        names_extend(old, new),
    ensures
        block_resolved(nodes, i, new),
    decreases nodes, nodes.len() - i,
{
    if 0 <= i < nodes.len() {
        lemma_node_resolved_extend(nodes[i], old, new);
        lemma_block_resolved_extend(nodes, i + 1, old, new);
    }
}

/// Appending a resolved expression keeps a resolved list resolved.
pub proof fn lemma_args_resolved_push(
    args: Seq<PreparedExpr>,
    i: int,
    a: PreparedExpr,
    names: Seq<Seq<char>>,
)
    requires
        0 <= i <= args.len(),
        args_resolved(args, i, names),
        expr_resolved(a, names),
    ensures
        args_resolved(args.push(a), i, names),
    decreases args.len() - i,
{
    if i < args.len() {
        assert(args.push(a)[i] == args[i]);
        lemma_args_resolved_push(args, i + 1, a, names);
    } else {
        assert(args.push(a)[i] == a);
        assert(args_resolved(args.push(a), i + 1, names));
    }
}

/// Appending a resolved statement keeps a resolved block resolved.
pub proof fn lemma_block_resolved_push(
    nodes: Seq<PreparedNode>,
    i: int,
    a: PreparedNode,
    names: Seq<Seq<char>>,
)
    requires
        0 <= i <= nodes.len(),
        block_resolved(nodes, i, names),
        node_resolved(a, names),
    ensures
        block_resolved(nodes.push(a), i, names),
    decreases nodes.len() - i,
{
    if i < nodes.len() {
        assert(nodes.push(a)[i] == nodes[i]);
        lemma_block_resolved_push(nodes, i + 1, a, names);
    } else {
        assert(nodes.push(a)[i] == a);
        assert(block_resolved(nodes.push(a), i + 1, names));
    }
}

/// Against a table of distinct names, two variables of one name share a slot.
pub proof fn lemma_one_slot_per_name(a: Ident, b: Ident, names: Seq<Seq<char>>)
    requires
        names_distinct(names),
        ident_ok(a, names),
        ident_ok(b, names),
        a.name@ == b.name@,
    ensures
        a.slot == b.slot,
{
}

} // verus!
