use vstd::prelude::*;
use crate::ast::{
    Expr,
    Ident,
    Literal,
    Node,
    PreparedExpr,
    PreparedNode,
    args_resolved,
    block_resolved,
    expr_resolved,
    ident_ok,
    lemma_args_resolved_extend,
    lemma_args_resolved_push,
    lemma_block_resolved_extend,
    lemma_block_resolved_push,
    lemma_expr_resolved_extend,
    names_distinct,
    names_extend,
    node_resolved,
};
use crate::builtins::{Builtins, builtin_name};
use crate::text::str_eq;

verus! {

/// The variable names met so far; a name's slot is its position.
pub struct NameTable {
    pub names: Vec<String>,
}

/// The message of an unknown function.
pub open spec fn unknown_function(name: Seq<char>) -> Seq<char> {
    "unknown function: "@ + name
}

/// `m` reports a call of a function that no builtin is called by.
pub open spec fn is_unknown_function(m: Seq<char>) -> bool {
    exists|name: Seq<char>| m == unknown_function(name) && forall|b: Builtins| builtin_name(b) != name
}

impl NameTable {
    /// The names, as texts.
    pub open spec fn table(&self) -> Seq<Seq<char>> {
        self.names@.map_values(|s: String| s@)
    }

    pub fn new() -> (r: NameTable)
        ensures
            r.names@.len() == 0,
    {
        NameTable { names: Vec::new() }
    }

    /// The slot of `name`: the position where it was first met, or a new one.
    pub fn slot(&mut self, name: &String) -> (r: usize)
        ensures
            r < final(self).names@.len(),
            final(self).names@[r as int]@ == name@,
            forall|i: int| 0 <= i < old(self).names@.len() ==> final(self).names@[i] == old(self).names@[i],
            final(self).names@.len() == old(self).names@.len() || final(self).names@.len() == old(self).names@.len() + 1,
            r < old(self).names@.len() ==> final(self).names@ == old(self).names@,
            r == old(self).names@.len() ==> forall|i: int| 0 <= i < old(self).names@.len() ==> old(self).names@[i]@ != name@,
            names_extend(old(self).table(), final(self).table()),
            final(self).table()[r as int] == name@,
            r < final(self).table().len(),
            names_distinct(old(self).table()) ==> names_distinct(final(self).table()),
    {
        let mut i: usize = 0;
        while i < self.names.len()
            invariant
                i <= self.names@.len(),
                self.names@ == old(self).names@,
                forall|j: int| 0 <= j < i ==> self.names@[j]@ != name@,
            decreases self.names@.len() - i,
        {
            if str_eq(self.names[i].as_str(), name.as_str()) {
                assert(self.table() == old(self).table());
                return i;
            }
            i = i + 1;
        }
        self.names.push(name.clone());
        assert(self.table() =~= old(self).table().push(name@));
        i
    }

    fn ident(&mut self, name: &String) -> (r: Ident)
        ensures
            r.slot < final(self).names@.len(),
            r.name@ == name@,
            final(self).names@.len() >= old(self).names@.len(),
            ident_ok(r, final(self).table()),
            names_extend(old(self).table(), final(self).table()),
            names_distinct(old(self).table()) ==> names_distinct(final(self).table()),
    {
        let slot = self.slot(name);
        Ident { slot, name: name.clone() }
    }

    /// Resolves the names of an expression.
    pub fn prepare_expr(&mut self, e: &Expr<String, String>) -> (r: Result<PreparedExpr, String>)
        requires
            names_distinct(old(self).table()),
        ensures
            final(self).names@.len() >= old(self).names@.len(),
            names_extend(old(self).table(), final(self).table()),
            names_distinct(final(self).table()),
            r matches Ok(p) ==> expr_resolved(p, final(self).table()),
            r matches Err(m) ==> is_unknown_function(m@),
        decreases e,
    {
        match e {
            Expr::Constant(lit) => Ok(
                Expr::Constant(
                    match lit {
                        Literal::PyNone => Literal::PyNone,
                        Literal::Bool(b) => Literal::Bool(*b),
                        Literal::Int(v) => Literal::Int(*v),
                        Literal::Str(s) => Literal::Str(s.clone()),
                    },
                ),
            ),
            Expr::Name(n) => Ok(Expr::Name(self.ident(n))),
            Expr::Call { func, args } => {
                let f = match Builtins::find(func.as_str()) {
                    Ok(f) => f,
                    Err(m) => {
                        assert(m@ == unknown_function(func@));
                        return Err(m);
                    },
                };
                let mut out: Vec<PreparedExpr> = Vec::new();
                let mut i: usize = 0;
                assert(decreases_to!(*e => (*e)->args));
                while i < args.len()
                    invariant
                        decreases_to!(*e => *args),
                        i <= args@.len(),
                        self.names@.len() >= old(self).names@.len(),
                        names_extend(old(self).table(), self.table()),
                        names_distinct(self.table()),
                        args_resolved(out@, 0, self.table()),
                    decreases args@.len() - i,
                {
                    proof {
                        assert(decreases_to!(*args => args[i as int]));
                    }
                    let ghost before = self.table();
                    let a = self.prepare_expr(&args[i])?;
                    proof {
                        lemma_args_resolved_extend(out@, 0, before, self.table());
                        lemma_args_resolved_push(out@, 0, a, self.table());
                    }
                    out.push(a);
                    i = i + 1;
                }
                Ok(Expr::Call { func: f, args: out })
            },
            Expr::Op { left, op, right } => {
                let l = self.prepare_expr(left)?;
                let ghost mid = self.table();
                let r = self.prepare_expr(right)?;
                proof {
                    lemma_expr_resolved_extend(l, mid, self.table());
                }
                Ok(Expr::Op { left: Box::new(l), op: *op, right: Box::new(r) })
            },
            Expr::Cmp { left, op, right } => {
                let l = self.prepare_expr(left)?;
                let ghost mid = self.table();
                let r = self.prepare_expr(right)?;
                proof {
                    lemma_expr_resolved_extend(l, mid, self.table());
                }
                Ok(Expr::Cmp { left: Box::new(l), op: *op, right: Box::new(r) })
            },
        }
    }

    /// Resolves the names of a block of statements.
    pub fn prepare_block(&mut self, nodes: &Vec<Node<String, String>>) -> (r: Result<
        Vec<PreparedNode>,
        String,
    >)
        requires
            names_distinct(old(self).table()),
        ensures
            final(self).names@.len() >= old(self).names@.len(),
            names_extend(old(self).table(), final(self).table()),
            names_distinct(final(self).table()),
            r matches Ok(v) ==> v@.len() == nodes@.len() && block_resolved(v@, 0, final(self).table()),
            r matches Err(m) ==> is_unknown_function(m@),
        decreases nodes, 1int,
    {
        let mut out: Vec<PreparedNode> = Vec::new();
        let mut i: usize = 0;
        while i < nodes.len()
            invariant
                i <= nodes@.len(),
                out@.len() == i,
                self.names@.len() >= old(self).names@.len(),
                names_extend(old(self).table(), self.table()),
                names_distinct(self.table()),
                block_resolved(out@, 0, self.table()),
            decreases nodes@.len() - i,
        {
            proof {
                assert(decreases_to!(*nodes => nodes[i as int]));
            }
            let ghost before = self.table();
            let n = self.prepare_node(&nodes[i])?;
            proof {
                lemma_block_resolved_extend(out@, 0, before, self.table());
                lemma_block_resolved_push(out@, 0, n, self.table());
            }
            out.push(n);
            i = i + 1;
        }
        Ok(out)
    }

    /// Resolves the names of a statement.
    pub fn prepare_node(&mut self, node: &Node<String, String>) -> (r: Result<PreparedNode, String>)
        requires
            names_distinct(old(self).table()),
        ensures
            final(self).names@.len() >= old(self).names@.len(),
            names_extend(old(self).table(), final(self).table()),
            names_distinct(final(self).table()),
            r matches Ok(p) ==> node_resolved(p, final(self).table()),
            r matches Err(m) ==> is_unknown_function(m@),
        decreases node, 0int,
    {
        match node {
            Node::Pass => Ok(Node::Pass),
            Node::Expr(e) => Ok(Node::Expr(self.prepare_expr(e)?)),
            Node::Assign { target, value } => {
                let v = self.prepare_expr(value)?;
                let ghost mid = self.table();
                let t = self.ident(target);
                proof {
                    lemma_expr_resolved_extend(v, mid, self.table());
                }
                Ok(Node::Assign { target: t, value: v })
            },
            Node::For { target, iter, body, or_else } => {
                let t = self.ident(target);
                let ghost t1 = self.table();
                let it = self.prepare_expr(iter)?;
                let ghost t2 = self.table();
                let b = self.prepare_block(body)?;
                let ghost t3 = self.table();
                let o = self.prepare_block(or_else)?;
                proof {
                    lemma_expr_resolved_extend(it, t2, self.table());
                    lemma_block_resolved_extend(b@, 0, t3, self.table());
                    assert(ident_ok(t, t1));
                }
                Ok(Node::For { target: t, iter: it, body: b, or_else: o })
            },
            Node::If { test, body, or_else } => {
                let t = self.prepare_expr(test)?;
                let ghost t1 = self.table();
                let b = self.prepare_block(body)?;
                let ghost t2 = self.table();
                let o = self.prepare_block(or_else)?;
                proof {
                    lemma_expr_resolved_extend(t, t1, self.table());
                    lemma_block_resolved_extend(b@, 0, t2, self.table());
                }
                Ok(Node::If { test: t, body: b, or_else: o })
            },
        }
    }
}

/// Resolves every variable of a program to a slot and every called name to a
/// builtin. Returns the number of slots and the resolved statements, or the
/// message for a call of an unknown function.
///
/// Every slot is below the number returned, and each name has one slot: the
/// resolved program is resolved against a table of distinct names of that size.
pub fn prepare(nodes: &Vec<Node<String, String>>) -> (r: Result<(usize, Vec<PreparedNode>), String>)
    ensures
        r matches Ok((_, v)) ==> v@.len() == nodes@.len(),
        r matches Ok((n, v)) ==> exists|names: Seq<Seq<char>>|
            names.len() == n && names_distinct(names) && block_resolved(v@, 0, names),
        r matches Err(m) ==> is_unknown_function(m@),
{
    let mut table = NameTable::new();
    assert(names_distinct(table.table()));
    let out = table.prepare_block(nodes)?;
    assert(table.table().len() == table.names@.len());
    Ok((table.names.len(), out))
}

} // verus!
