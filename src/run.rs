use vstd::prelude::*;
use crate::ast::{Expr, Ident, Literal, Node, PreparedExpr, PreparedNode};
use crate::exceptions::{ExcType, RunError};
use crate::heap::{Heap, HeapValue, allocate_str, heap_grows};
use crate::object::{Object, all_valid, lemma_all_valid_grows, lemma_valid_grows, obj_valid};
use crate::operators::{Operator, binary_op, compare};
use crate::resource::{LimitedTracker, ResourceLimits, counted};
use crate::exceptions::{Fault, fault_of, outcome};
use crate::semantics::{Machine, args_spec, block_spec, bind_spec, eval_spec, loop_spec, node_spec, run_spec, tick_spec, exhaustion_fault, initial_machine};

verus! {

/// Every bound slot holds an object valid in `h`.
pub open spec fn slots_valid(ns: Seq<Option<Object>>, h: Seq<HeapValue>) -> bool {
    forall|i: int| 0 <= i < ns.len() ==> (#[trigger] ns[i] matches Some(o) ==> obj_valid(o, h))
}

/// `new` begins with `old`.
pub open spec fn text_extends(old: Seq<char>, new: Seq<char>) -> bool {
    old.len() <= new.len() && forall|i: int| 0 <= i < old.len() ==> new[i] == old[i]
}

/// The state of one execution: its heap, its resource tracker, its variable
/// slots, and the text written by `print`.
#[derive(Debug)]
pub struct Executor {
    pub heap: Heap,
    pub tracker: LimitedTracker,
    pub namespace: Vec<Option<Object>>,
    pub output: String,
}

impl Executor {
    /// The state as contracts see it.
    pub open spec fn machine(&self) -> Machine {
        Machine {
            ns: self.namespace@,
            heap: self.heap@,
            instructions: self.tracker.instructions(),
            memory: self.tracker.memory(),
            out: self.output@,
        }
    }

    /// Every slot refers only to live heap entries.
    pub open spec fn inv(&self) -> bool {
        slots_valid(self.namespace@, self.heap@)
    }

    /// What any step of evaluation keeps from `old` to `self`: the slots, the
    /// heap's entries, the output written so far, the limits; counts only grow.
    pub open spec fn follows(&self, old: &Executor) -> bool {
        &&& self.namespace@.len() == old.namespace@.len()
        &&& heap_grows(old.heap@, self.heap@)
        &&& text_extends(old.output@, self.output@)
        &&& self.tracker.limits() == old.tracker.limits()
        &&& self.tracker.instructions() >= old.tracker.instructions()
        &&& self.tracker.memory() >= old.tracker.memory()
        &&& self.inv()
    }

    /// A fresh execution with `namespace_size` unbound slots.
    pub fn new(namespace_size: usize, limits: ResourceLimits) -> (r: Executor)
        ensures
            r.inv(),
            r.namespace@.len() == namespace_size,
            r.heap@.len() == 0,
            r.output@.len() == 0,
            r.tracker.limits() == limits,
            r.tracker.instructions() == 0,
            r.tracker.memory() == 0,
            r.machine() == initial_machine(namespace_size as nat),
    {
        let mut namespace: Vec<Option<Object>> = Vec::new();
        let mut i: usize = 0;
        while i < namespace_size
            invariant
                i <= namespace_size,
                namespace@.len() == i,
                forall|j: int| 0 <= j < i ==> namespace@[j] is None,
            decreases namespace_size - i,
        {
            namespace.push(None);
            i = i + 1;
        }
        let r = Executor {
            heap: Heap::new(),
            tracker: LimitedTracker::new(limits),
            namespace,
            output: String::new(),
        };
        assert(r.output@.len() == 0);
        assert(r.output@ =~= Seq::<char>::empty());
        assert(r.namespace@ =~= Seq::new(namespace_size as nat, |i: int| None::<Object>));
        assert(r.heap@ =~= Seq::<HeapValue>::empty());
        r
    }

    fn bind(&mut self, target: &Ident, value: Object) -> (r: Result<(), RunError>)
        requires
            old(self).inv(),
            obj_valid(value, old(self).heap@),
        ensures
            final(self).heap == old(self).heap,
            final(self).tracker == old(self).tracker,
            final(self).output == old(self).output,
            final(self).namespace@.len() == old(self).namespace@.len(),
            final(self).inv(),
            r.is_ok() == (target.slot < old(self).namespace@.len()),
            r.is_ok() ==> final(self).namespace@ == old(self).namespace@.update(
                target.slot as int,
                Some(value),
            ),
            bind_spec(old(self).machine(), *target, value) == (final(self).machine(), outcome(r)),
    {
        if target.slot >= self.namespace.len() {
            return Err(RunError::Internal(String::from_str("assignment to an unresolved name")));
        }
        self.namespace.set(target.slot, Some(value));
        Ok(())
    }

    /// Evaluates an expression, as `eval_spec` describes. Calls, operators and
    /// comparisons each count one unit of work.
    pub fn eval_expr(&mut self, e: &PreparedExpr) -> (r: Result<Object, RunError>)
        requires
            old(self).inv(),
            old(self).tracker.within_limits(),
        ensures
            final(self).follows(old(self)),
            final(self).namespace@ == old(self).namespace@,
            r matches Ok(o) ==> obj_valid(o, final(self).heap@),
            r.is_ok() ==> final(self).tracker.within_limits(),
            eval_spec(*e, old(self).machine(), old(self).tracker.limits()) == (
                final(self).machine(),
                outcome(r),
            ),
        decreases e,
    {
        match e {
            Expr::Constant(lit) => match lit {
                Literal::PyNone => Ok(Object::PyNone),
                Literal::Bool(b) => Ok(Object::Bool(*b)),
                Literal::Int(v) => Ok(Object::Int(*v)),
                Literal::Str(s) => {
                    let ghost h0 = self.heap@;
                    let r = allocate_str(&mut self.heap, &mut self.tracker, s.clone());
                    proof {
                        assert(heap_grows(h0, self.heap@));
                        assert forall|i: int| 0 <= i < self.namespace@.len() implies (
                        #[trigger] self.namespace@[i] matches Some(o) ==> obj_valid(o, self.heap@)) by {
                            if let Some(o) = self.namespace@[i] {
                                lemma_valid_grows(o, h0, self.heap@);
                            }
                        }
                    }
                    r
                },
            },
            Expr::Name(id) => {
                if id.slot >= self.namespace.len() {
                    return Err(RunError::Internal(String::from_str("reference to an unresolved name")));
                }
                match self.namespace[id.slot] {
                    Some(o) => Ok(o),
                    None => {
                        let mut m = String::from_str("name '");
                        m.append(id.name.as_str());
                        m.append("' is not defined");
                        Err(RunError::exc(ExcType::NameError, m.as_str()))
                    },
                }
            },
            Expr::Call { func, args } => {
                match self.tracker.tick() {
                    Ok(_) => {},
                    Err(e) => {
                        return Err(e);
                    },
                }
                let ghost m1 = self.machine();
                let ghost lim = self.tracker.limits();
                let mut values: Vec<Object> = Vec::new();
                let mut i: usize = 0;
                assert(decreases_to!(*e => (*e)->args));
                while i < args.len()
                    invariant
                        *e is Call,
                        (*e)->args == *args,
                        (*e)->func == *func,
                        decreases_to!(*e => *args),
                        self.follows(old(self)),
                        self.namespace@ == old(self).namespace@,
                        self.tracker.within_limits(),
                        values@.len() == i,
                        i <= args@.len(),
                        all_valid(values@, self.heap@),
                        lim == old(self).tracker.limits(),
                        m1 == tick_spec(old(self).machine(), lim).0,
                        tick_spec(old(self).machine(), lim).1 is Ok,
                        args_spec(args@, 0, m1, lim, Seq::empty()) == args_spec(
                            args@,
                            i as int,
                            self.machine(),
                            lim,
                            values@,
                        ),
                    decreases args@.len() - i,
                {
                    let ghost h0 = self.heap@;
                    let ghost mi = self.machine();
                    proof {
                        assert(decreases_to!(*args => args[i as int]));
                    }
                    let v = match self.eval_expr(&args[i]) {
                        Ok(v) => v,
                        Err(e) => {
                            assert(args_spec(args@, i as int, mi, lim, values@) == (
                                self.machine(),
                                Err::<Seq<Object>, Fault>(fault_of(e)),
                            ));
                            return Err(e);
                        },
                    };
                    proof {
                        lemma_all_valid_grows(values@, h0, self.heap@);
                    }
                    values.push(v);
                    i = i + 1;
                }
                let ghost h1 = self.heap@;
                let r = func.call(&mut self.heap, &mut self.tracker, values, &mut self.output);
                proof {
                    self.lemma_slots_grow(h1);
                }
                r
            },
            Expr::Op { left, op, right } => {
                match self.tracker.tick() {
                    Ok(_) => {},
                    Err(e) => {
                        return Err(e);
                    },
                }
                let l = match self.eval_expr(left) {
                    Ok(v) => v,
                    Err(e) => {
                        return Err(e);
                    },
                };
                let is_and = *op == Operator::And;
                let is_or = *op == Operator::Or;
                if is_and || is_or {
                    let t = l.bool(&self.heap).unwrap();
                    if is_and && !t || is_or && t {
                        return Ok(l);
                    }
                    return self.eval_expr(right);
                }
                let ghost h0 = self.heap@;
                let rv = match self.eval_expr(right) {
                    Ok(v) => v,
                    Err(e) => {
                        return Err(e);
                    },
                };
                proof {
                    lemma_valid_grows(l, h0, self.heap@);
                }
                let ghost h1 = self.heap@;
                let r = binary_op(*op, l, rv, &mut self.heap, &mut self.tracker);
                proof {
                    self.lemma_slots_grow(h1);
                }
                r
            },
            Expr::Cmp { left, op, right } => {
                match self.tracker.tick() {
                    Ok(_) => {},
                    Err(e) => {
                        return Err(e);
                    },
                }
                let l = match self.eval_expr(left) {
                    Ok(v) => v,
                    Err(e) => {
                        return Err(e);
                    },
                };
                let ghost h0 = self.heap@;
                let rv = match self.eval_expr(right) {
                    Ok(v) => v,
                    Err(e) => {
                        return Err(e);
                    },
                };
                proof {
                    lemma_valid_grows(l, h0, self.heap@);
                }
                let b = match compare(*op, l, rv, &self.heap) {
                    Ok(v) => v,
                    Err(e) => {
                        return Err(e);
                    },
                };
                Ok(Object::Bool(b))
            },
        }
    }

    /// Runs a block of statements in order, stopping at the first error
    /// (`block_spec`).
    pub fn eval_block(&mut self, nodes: &Vec<PreparedNode>) -> (r: Result<(), RunError>)
        requires
            old(self).inv(),
            old(self).tracker.within_limits(),
        ensures
            final(self).follows(old(self)),
            r.is_ok() ==> final(self).tracker.within_limits(),
            r.is_ok() ==> final(self).tracker.instructions() >= counted(
                old(self).tracker.instructions(),
                nodes@.len(),
            ),
            block_spec(nodes@, 0, old(self).machine(), old(self).tracker.limits()) == (
                final(self).machine(),
                outcome(r),
            ),
        decreases nodes, 1int,
    {
        let ghost lim = self.tracker.limits();
        let mut i: usize = 0;
        while i < nodes.len()
            invariant
                i <= nodes@.len(),
                self.follows(old(self)),
                self.tracker.within_limits(),
                self.tracker.instructions() >= counted(old(self).tracker.instructions(), i as nat),
                lim == old(self).tracker.limits(),
                block_spec(nodes@, 0, old(self).machine(), lim) == block_spec(
                    nodes@,
                    i as int,
                    self.machine(),
                    lim,
                ),
            decreases nodes@.len() - i,
        {
            proof {
                assert(decreases_to!(*nodes => nodes[i as int]));
            }
            let ghost mi = self.machine();
            match self.eval_node(&nodes[i]) {
                Ok(_) => {},
                Err(e) => {
                    assert(block_spec(nodes@, i as int, mi, lim) == (
                        self.machine(),
                        Err::<(), Fault>(fault_of(e)),
                    ));
                    return Err(e);
                },
            }
            i = i + 1;
        }
        Ok(())
    }

    /// Runs one statement, as `node_spec` describes. It counts one unit of
    /// work; each iteration of a loop counts one more.
    pub fn eval_node(&mut self, node: &PreparedNode) -> (r: Result<(), RunError>)
        requires
            old(self).inv(),
            old(self).tracker.within_limits(),
        ensures
            final(self).follows(old(self)),
            final(self).tracker.instructions() >= counted(old(self).tracker.instructions(), 1),
            r.is_ok() ==> final(self).tracker.within_limits(),
            *node is Pass || *node is Expr ==> final(self).namespace@ == old(self).namespace@,
            *node matches Node::Assign { target, .. } ==> (r.is_ok() ==> target.slot
                < final(self).namespace@.len() && final(self).namespace@[target.slot as int] is Some),
            node_spec(*node, old(self).machine(), old(self).tracker.limits()) == (
                final(self).machine(),
                outcome(r),
            ),
        decreases node, 0int,
    {
        match self.tracker.tick() {
            Ok(_) => {},
            Err(e) => {
                return Err(e);
            },
        }
        match node {
            Node::Pass => Ok(()),
            Node::Expr(e) => {
                match self.eval_expr(e) {
                    Ok(_) => {},
                    Err(e) => {
                        return Err(e);
                    },
                }
                Ok(())
            },
            Node::Assign { target, value } => {
                let v = match self.eval_expr(value) {
                    Ok(v) => v,
                    Err(e) => {
                        return Err(e);
                    },
                };
                self.bind(target, v)
            },
            Node::If { test, body, or_else } => {
                let t = match self.eval_expr(test) {
                    Ok(v) => v,
                    Err(e) => {
                        return Err(e);
                    },
                };
                if t.bool(&self.heap).unwrap() {
                    self.eval_block(body)
                } else {
                    self.eval_block(or_else)
                }
            },
            Node::For { target, iter, body, or_else } => {
                let it = match self.eval_expr(iter) {
                    Ok(v) => v,
                    Err(e) => {
                        return Err(e);
                    },
                };
                let n = match it {
                    Object::Range(n) => n,
                    _ => {
                        let mut m = String::from_str("'");
                        m.append(it.py_type());
                        m.append("' object is not iterable");
                        return Err(RunError::exc(ExcType::TypeError, m.as_str()));
                    },
                };
                let ghost lim = self.tracker.limits();
                let ghost m1 = self.machine();
                let mut k: i64 = 0;
                assert(decreases_to!(*node => (*node)->For_body));
                while k < n
                    invariant
                        *node is For,
                        (*node)->For_body == *body,
                        (*node)->For_or_else == *or_else,
                        (*node)->For_target == *target,
                        (*node)->For_iter == *iter,
                        lim == old(self).tracker.limits(),
                        tick_spec(old(self).machine(), lim).1 is Ok,
                        eval_spec(*iter, tick_spec(old(self).machine(), lim).0, lim) == (
                            m1,
                            Ok::<Object, Fault>(Object::Range(n)),
                        ),
                        loop_spec(*target, body@, n as int, 0, m1, lim) == loop_spec(
                            *target,
                            body@,
                            n as int,
                            k as int,
                            self.machine(),
                            lim,
                        ),
                        decreases_to!(*node => *body),
                        0 <= k,
                        self.follows(old(self)),
                        self.tracker.within_limits(),
                        self.tracker.instructions() >= counted(old(self).tracker.instructions(), 1),
                    decreases n - k,
                {
                    let ghost mk = self.machine();
                    match self.tracker.tick() {
                        Ok(_) => {},
                        Err(e) => {
                            assert(loop_spec(*target, body@, n as int, k as int, mk, lim) == (
                                self.machine(),
                                Err::<(), Fault>(fault_of(e)),
                            ));
                            return Err(e);
                        },
                    }
                    match self.bind(target, Object::Int(k)) {
                        Ok(_) => {},
                        Err(e) => {
                            assert(loop_spec(*target, body@, n as int, k as int, mk, lim) == (
                                self.machine(),
                                Err::<(), Fault>(fault_of(e)),
                            ));
                            return Err(e);
                        },
                    }
                    match self.eval_block(body) {
                        Ok(_) => {},
                        Err(e) => {
                            assert(loop_spec(*target, body@, n as int, k as int, mk, lim) == (
                                self.machine(),
                                Err::<(), Fault>(fault_of(e)),
                            ));
                            return Err(e);
                        },
                    }
                    k = k + 1;
                }
                self.eval_block(or_else)
            },
        }
    }

    /// Runs a program, as `run_spec` describes. The value of its last
    /// statement, where that is an expression, is the result; otherwise the
    /// result is `None`.
    #[verifier::rlimit(60)]
    pub fn run(&mut self, nodes: &Vec<PreparedNode>) -> (r: Result<Object, RunError>)
        requires
            old(self).inv(),
            old(self).tracker.within_limits(),
        ensures
            final(self).follows(old(self)),
            r matches Ok(o) ==> obj_valid(o, final(self).heap@),
            r.is_ok() ==> final(self).tracker.within_limits(),
            r.is_ok() ==> final(self).tracker.instructions() >= counted(
                old(self).tracker.instructions(),
                nodes@.len(),
            ),
            run_spec(nodes@, 0, old(self).machine(), old(self).tracker.limits()) == (
                final(self).machine(),
                outcome(r),
            ),
            nodes@.len() >= 2 && old(self).tracker.limits().max_instructions == Some(1u64)
                && old(self).tracker.instructions() == 0 && node_spec(
                nodes@[0],
                old(self).machine(),
                old(self).tracker.limits(),
            ).1 is Ok ==> (r matches Err(e) && fault_of(e) == exhaustion_fault()),
    {
        let ghost lim = self.tracker.limits();
        let n = nodes.len();
        if n == 0 {
            return Ok(Object::PyNone);
        }
        let mut i: usize = 0;
        while i < n - 1
            invariant
                n == nodes@.len(),
                i <= n - 1,
                self.follows(old(self)),
                self.tracker.within_limits(),
                self.tracker.instructions() >= counted(old(self).tracker.instructions(), i as nat),
                lim == old(self).tracker.limits(),
                run_spec(nodes@, 0, old(self).machine(), lim) == run_spec(
                    nodes@,
                    i as int,
                    self.machine(),
                    lim,
                ),
                i == 0 ==> self.machine() == old(self).machine(),
            decreases n - 1 - i,
        {
            let ghost mi = self.machine();
            match self.eval_node(&nodes[i]) {
                Ok(_) => {},
                Err(e) => {
                    assert(run_spec(nodes@, i as int, mi, lim) == (
                        self.machine(),
                        Err::<Object, Fault>(fault_of(e)),
                    ));
                    return Err(e);
                },
            }
            i = i + 1;
        }
        let ghost ml = self.machine();
        match &nodes[n - 1] {
            Node::Expr(e) => {
                match self.tracker.tick() {
                    Ok(_) => {},
                    Err(x) => {
                        assert(run_spec(nodes@, n - 1, ml, lim) == (
                            self.machine(),
                            Err::<Object, Fault>(fault_of(x)),
                        ));
                        return Err(x);
                    },
                }
                self.eval_expr(e)
            },
            last => {
                match self.eval_node(last) {
                    Ok(_) => {},
                    Err(x) => {
                        assert(run_spec(nodes@, n - 1, ml, lim) == (
                            self.machine(),
                            Err::<Object, Fault>(fault_of(x)),
                        ));
                        return Err(x);
                    },
                }
                Ok(Object::PyNone)
            },
        }
    }

    proof fn lemma_slots_grow(&self, h0: Seq<HeapValue>)
        requires
            slots_valid(self.namespace@, h0),
            heap_grows(h0, self.heap@),
        ensures
            self.inv(),
    {
        assert forall|i: int| 0 <= i < self.namespace@.len() implies (
        #[trigger] self.namespace@[i] matches Some(o) ==> obj_valid(o, self.heap@)) by {
            if let Some(o) = self.namespace@[i] {
                lemma_valid_grows(o, h0, self.heap@);
            }
        }
    }
}

} // verus!
