use vstd::prelude::*;
use crate::ast::{Expr, Ident, Literal, Node, PreparedExpr, PreparedNode};
use crate::builtins::call_spec;
use crate::exceptions::{ExcType, Fault};
use crate::heap::{HeapValue, alloc_spec};
use crate::object::{Object, truthy, type_name_of};
use crate::operators::{binop_spec, compare_spec, CmpOutcome};
use crate::resource::{ResourceLimits, counted, instruction_limit, instruction_limit_message, within};

verus! {

/// The state of an execution, as contracts see it.
pub struct Machine {
    /// The variable slots.
    pub ns: Seq<Option<Object>>,
    pub heap: Seq<HeapValue>,
    /// Units of work counted.
    pub instructions: nat,
    /// Bytes charged.
    pub memory: nat,
    /// Text written by `print`.
    pub out: Seq<char>,
}

/// The state before a program runs: `size` unbound slots, nothing else.
pub open spec fn initial_machine(size: nat) -> Machine {
    Machine {
        ns: Seq::new(size, |i: int| None::<Object>),
        heap: Seq::empty(),
        instructions: 0,
        memory: 0,
        out: Seq::empty(),
    }
}

/// The error of a spent instruction budget.
pub open spec fn exhaustion_fault() -> Fault {
    Fault::Exc(ExcType::RuntimeError, Some(instruction_limit_message()))
}

/// Counting one unit of work.
pub open spec fn tick_spec(m: Machine, l: ResourceLimits) -> (Machine, Result<(), Fault>) {
    let n = counted(m.instructions, 1);
    (
        Machine { instructions: n, ..m },
        if within(instruction_limit(l), n as int) {
            Ok(())
        } else {
            Err(exhaustion_fault())
        },
    )
}

/// Binding slot `target` to `v`.
pub open spec fn bind_spec(m: Machine, target: Ident, v: Object) -> (Machine, Result<(), Fault>) {
    if target.slot < m.ns.len() {
        (Machine { ns: m.ns.update(target.slot as int, Some(v)), ..m }, Ok(()))
    } else {
        (m, Err(Fault::Internal("assignment to an unresolved name"@)))
    }
}

/// Looking up a variable.
pub open spec fn name_spec(m: Machine, id: Ident) -> Result<Object, Fault> {
    if id.slot < m.ns.len() {
        match m.ns[id.slot as int] {
            Some(o) => Ok(o),
            None => Err(
                Fault::Exc(ExcType::NameError, Some("name '"@ + id.name@ + "' is not defined"@)),
            ),
        }
    } else {
        Err(Fault::Internal("reference to an unresolved name"@))
    }
}

/// What evaluating `e` from `m` gives: the new state and a value or an error.
/// Calls, operators and comparisons count one unit of work each, before their
/// operands are evaluated from left to right.
pub open spec fn eval_spec(e: PreparedExpr, m: Machine, l: ResourceLimits) -> (
    Machine,
    Result<Object, Fault>,
)
    decreases e, 0int,
{
    match e {
        Expr::Constant(lit) => match lit {
            Literal::PyNone => (m, Ok(Object::PyNone)),
            Literal::Bool(b) => (m, Ok(Object::Bool(b))),
            Literal::Int(v) => (m, Ok(Object::Int(v))),
            Literal::Str(s) => {
                let (h, mem, r) = alloc_spec(m.heap, m.memory, l, s@);
                (Machine { heap: h, memory: mem, ..m }, r)
            },
        },
        Expr::Name(id) => (m, name_spec(m, id)),
        Expr::Call { func, args } => {
            let (m1, t) = tick_spec(m, l);
            if t is Err {
                (m1, Err(t->Err_0))
            } else {
                let (m2, vs) = args_spec(args@, 0, m1, l, Seq::empty());
                match vs {
                    Err(f) => (m2, Err(f)),
                    Ok(values) => {
                        let (h, mem, out, r) = call_spec(
                            func,
                            values,
                            m2.heap,
                            m2.memory,
                            m2.out,
                            l,
                        );
                        (Machine { heap: h, memory: mem, out: out, ..m2 }, r)
                    },
                }
            }
        },
        Expr::Op { left, op, right } => {
            let (m1, t) = tick_spec(m, l);
            if t is Err {
                (m1, Err(t->Err_0))
            } else {
                let (m2, a) = eval_spec(*left, m1, l);
                match a {
                    Err(f) => (m2, Err(f)),
                    Ok(x) => if (op is And && !truthy(x, m2.heap)) || (op is Or && truthy(
                        x,
                        m2.heap,
                    )) {
                        (m2, Ok(x))
                    } else if op is And || op is Or {
                        eval_spec(*right, m2, l)
                    } else {
                        let (m3, b) = eval_spec(*right, m2, l);
                        match b {
                            Err(f) => (m3, Err(f)),
                            Ok(y) => {
                                let (h, mem, r) = binop_spec(op, x, y, m3.heap, m3.memory, l);
                                (Machine { heap: h, memory: mem, ..m3 }, r)
                            },
                        }
                    },
                }
            }
        },
        Expr::Cmp { left, op, right } => {
            let (m1, t) = tick_spec(m, l);
            if t is Err {
                (m1, Err(t->Err_0))
            } else {
                let (m2, a) = eval_spec(*left, m1, l);
                match a {
                    Err(f) => (m2, Err(f)),
                    Ok(x) => {
                        let (m3, b) = eval_spec(*right, m2, l);
                        match b {
                            Err(f) => (m3, Err(f)),
                            Ok(y) => (
                                m3,
                                match compare_spec(op, x, y, m3.heap) {
                                    CmpOutcome::Bool(v) => Ok(Object::Bool(v)),
                                    CmpOutcome::Raise(k, msg) => Err(Fault::Exc(k, Some(msg))),
                                },
                            ),
                        }
                    },
                }
            }
        },
    }
}

/// Evaluating the arguments `args[i..]` in order after the values `acc`,
/// stopping at the first error.
pub open spec fn args_spec(
    args: Seq<PreparedExpr>,
    i: int,
    m: Machine,
    l: ResourceLimits,
    acc: Seq<Object>,
) -> (Machine, Result<Seq<Object>, Fault>)
    decreases args, args.len() - i,
{
    if i < 0 || i >= args.len() {
        (m, Ok(acc))
    } else {
        let (m1, r) = eval_spec(args[i], m, l);
        match r {
            Err(f) => (m1, Err(f)),
            Ok(v) => args_spec(args, i + 1, m1, l, acc.push(v)),
        }
    }
}

/// What running statement `node` from `m` gives. Every statement counts one
/// unit of work first; each iteration of a loop counts one more.
///
/// `Assign` binds its slot to the value; `If` runs `body` exactly when the test
/// is truthy, else `or_else`; `For` over `range(n)` binds its target to
/// `0, 1, .., n - 1` in turn, running `body` after each binding, then runs
/// `or_else` once, unless an error stopped it first.
pub open spec fn node_spec(node: PreparedNode, m: Machine, l: ResourceLimits) -> (
    Machine,
    Result<(), Fault>,
)
    decreases node, 2int, 0int,
{
    let (m0, t) = tick_spec(m, l);
    if t is Err {
        (m0, t)
    } else {
        match node {
            Node::Pass => (m0, Ok(())),
            Node::Expr(e) => {
                let (m1, r) = eval_spec(e, m0, l);
                (m1, unit_of(r))
            },
            Node::Assign { target, value } => {
                let (m1, r) = eval_spec(value, m0, l);
                match r {
                    Err(f) => (m1, Err(f)),
                    Ok(v) => bind_spec(m1, target, v),
                }
            },
            Node::If { test, body, or_else } => {
                let (m1, r) = eval_spec(test, m0, l);
                match r {
                    Err(f) => (m1, Err(f)),
                    Ok(v) => if truthy(v, m1.heap) {
                        block_spec(body@, 0, m1, l)
                    } else {
                        block_spec(or_else@, 0, m1, l)
                    },
                }
            },
            Node::For { target, iter, body, or_else } => {
                let (m1, r) = eval_spec(iter, m0, l);
                match r {
                    Err(f) => (m1, Err(f)),
                    Ok(Object::Range(n)) => {
                        let (m2, r2) = loop_spec(target, body@, n as int, 0, m1, l);
                        if r2 is Err {
                            (m2, r2)
                        } else {
                            block_spec(or_else@, 0, m2, l)
                        }
                    },
                    Ok(v) => (
                        m1,
                        Err(
                            Fault::Exc(
                                ExcType::TypeError,
                                Some("'"@ + type_name_of(v) + "' object is not iterable"@),
                            ),
                        ),
                    ),
                }
            },
        }
    }
}

pub open spec fn unit_of(r: Result<Object, Fault>) -> Result<(), Fault> {
    match r {
        Ok(_) => Ok(()),
        Err(f) => Err(f),
    }
}

/// Running `nodes[i..]` in order, stopping at the first error.
pub open spec fn block_spec(nodes: Seq<PreparedNode>, i: int, m: Machine, l: ResourceLimits) -> (
    Machine,
    Result<(), Fault>,
)
    decreases nodes, nodes.len() - i, 0int,
{
    if i < 0 || i >= nodes.len() {
        (m, Ok(()))
    } else {
        let (m1, r) = node_spec(nodes[i], m, l);
        if r is Err {
            (m1, r)
        } else {
            block_spec(nodes, i + 1, m1, l)
        }
    }
}

/// The iterations `k, k + 1, .., n - 1` of a loop over `range(n)`.
pub open spec fn loop_spec(
    target: Ident,
    body: Seq<PreparedNode>,
    n: int,
    k: int,
    m: Machine,
    l: ResourceLimits,
) -> (Machine, Result<(), Fault>)
    decreases body, body.len() + 1, n - k,
{
    if k < 0 || k >= n {
        (m, Ok(()))
    } else {
        let (m1, t) = tick_spec(m, l);
        if t is Err {
            (m1, t)
        } else {
            let (m2, b) = bind_spec(m1, target, Object::Int(k as i64));
            if b is Err {
                (m2, b)
            } else {
                let (m3, r) = block_spec(body, 0, m2, l);
                if r is Err {
                    (m3, r)
                } else {
                    loop_spec(target, body, n, k + 1, m3, l)
                }
            }
        }
    }
}

/// Running a program's statements `nodes[i..]`. The value of the last
/// statement, where that is an expression, is the result; otherwise `None`.
pub open spec fn run_spec(nodes: Seq<PreparedNode>, i: int, m: Machine, l: ResourceLimits) -> (
    Machine,
    Result<Object, Fault>,
)
    decreases nodes.len() - i,
{
    if i < 0 || i >= nodes.len() {
        (m, Ok(Object::PyNone))
    } else if i < nodes.len() - 1 {
        let (m1, r) = node_spec(nodes[i], m, l);
        match r {
            Err(f) => (m1, Err(f)),
            Ok(_) => run_spec(nodes, i + 1, m1, l),
        }
    } else {
        match nodes[i] {
            Node::Expr(e) => {
                let (m1, t) = tick_spec(m, l);
                if t is Err {
                    (m1, Err(t->Err_0))
                } else {
                    eval_spec(e, m1, l)
                }
            },
            other => {
                let (m1, r) = node_spec(other, m, l);
                match r {
                    Err(f) => (m1, Err(f)),
                    Ok(_) => (m1, Ok(Object::PyNone)),
                }
            },
        }
    }
}

/// What running a program gives from a fresh state with `size` slots.
pub open spec fn program_spec(size: nat, nodes: Seq<PreparedNode>, l: ResourceLimits) -> (
    Machine,
    Result<Object, Fault>,
) {
    run_spec(nodes, 0, initial_machine(size), l)
}

} // verus!
