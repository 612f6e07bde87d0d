use vstd::prelude::*;
use crate::exceptions::{ExcType, Fault, RunError, opt_text, outcome};
use crate::heap::{Heap, HeapId, HeapValue, alloc_spec, allocate_str, can_charge, entry_cost, heap_grows};
use crate::object::{
    Object,
    all_valid,
    hash_of,
    id_of,
    int_value,
    len_of,
    obj_valid,
    repr_of,
    str_of,
    type_name_of,
};
use crate::resource::{LimitedTracker, ResourceLimits, charged_within, is_memory_exhaustion};
use crate::text::{append_nat, nat_text, str_eq};

verus! {

/// The interpreter-native functions, called by name.
#[derive(Debug, Clone, Copy, PartialEq, Eq, Structural)]
pub enum Builtins {
    Print,
    Len,
    Str,
    Repr,
    Id,
    Range,
    Hash,
}

/// The name under which each builtin is called.
pub open spec fn builtin_name(b: Builtins) -> Seq<char> {
    match b {
        Builtins::Print => "print"@,
        Builtins::Len => "len"@,
        Builtins::Str => "str"@,
        Builtins::Repr => "repr"@,
        Builtins::Id => "id"@,
        Builtins::Range => "range"@,
        Builtins::Hash => "hash"@,
    }
}

/// The text that `print` writes: each argument's display text, separated by
/// spaces, then a newline.
pub open spec fn print_text(args: Seq<Object>, h: Seq<HeapValue>) -> Seq<char> {
    joined(args, h) + "\n"@
}

pub open spec fn joined(args: Seq<Object>, h: Seq<HeapValue>) -> Seq<char>
    decreases args.len(),
{
    if args.len() == 0 {
        Seq::empty()
    } else if args.len() == 1 {
        str_of(args[0], h)
    } else {
        joined(args.drop_last(), h) + " "@ + str_of(args.last(), h)
    }
}

/// The message for a call with the wrong number of arguments.
pub open spec fn arity_message(b: Builtins, given: nat) -> Seq<char> {
    builtin_name(b) + "() takes exactly one argument ("@ + nat_text(given) + " given)"@
}

/// The error is an exception of kind `k` with message `m`.
pub open spec fn raises<T>(r: Result<T, RunError>, k: ExcType, m: Seq<char>) -> bool {
    r matches Err(RunError::Exc(e)) && e.exc_type == k && opt_text(e.message) == Some(m)
}

/// What a builtin call gives, from heap `h` with `mem` bytes charged and
/// output `out`: the new heap, charge and output, and the result.
///
/// `print` writes its arguments; `str` and `repr` store their text on the heap;
/// the others change nothing. All but `print` take exactly one argument, and
/// check that before any work.
pub open spec fn call_spec(
    b: Builtins,
    args: Seq<Object>,
    h: Seq<HeapValue>,
    mem: nat,
    out: Seq<char>,
    l: ResourceLimits,
) -> (Seq<HeapValue>, nat, Seq<char>, Result<Object, Fault>) {
    if b is Print {
        (h, mem, out + print_text(args, h), Ok(Object::PyNone))
    } else if args.len() != 1 {
        (
            h,
            mem,
            out,
            Err(
                if b is Range {
                    Fault::Internal("range() takes exactly one argument"@)
                } else {
                    Fault::Exc(ExcType::TypeError, Some(arity_message(b, args.len())))
                },
            ),
        )
    } else {
        let a = args[0];
        match b {
            Builtins::Str => {
                let (h2, m2, r) = alloc_spec(h, mem, l, str_of(a, h));
                (h2, m2, out, r)
            },
            Builtins::Repr => {
                let (h2, m2, r) = alloc_spec(h, mem, l, repr_of(a, h));
                (h2, m2, out, r)
            },
            _ => (h, mem, out, single_spec(b, a, h)),
        }
    }
}

/// The result of `len`, `id`, `range` or `hash` on one argument.
pub open spec fn single_spec(b: Builtins, a: Object, h: Seq<HeapValue>) -> Result<Object, Fault> {
    match b {
        Builtins::Len => match len_of(a, h) {
            Some(n) => if n <= i64::MAX {
                Ok(Object::Int(n as i64))
            } else {
                Err(Fault::Exc(ExcType::OverflowError, Some("length does not fit in an integer"@)))
            },
            None => Err(
                Fault::Exc(
                    ExcType::TypeError,
                    Some("object of type '"@ + type_name_of(a) + "' has no len()"@),
                ),
            ),
        },
        Builtins::Id => if id_of(a, h) <= i64::MAX {
            Ok(Object::Int(id_of(a, h) as i64))
        } else {
            Err(Fault::Exc(ExcType::OverflowError, Some("identity does not fit in an integer"@)))
        },
        Builtins::Range => match int_value(a) {
            Some(v) => Ok(Object::Range(v as i64)),
            None => Err(
                Fault::Exc(
                    ExcType::TypeError,
                    Some("'"@ + type_name_of(a) + "' object cannot be interpreted as an integer"@),
                ),
            ),
        },
        _ => match hash_of(a, h) {
            Some(v) => Ok(Object::Int(v as i64)),
            None => Err(
                Fault::Exc(ExcType::TypeError, Some("unhashable type: '"@ + type_name_of(a) + "'"@)),
            ),
        },
    }
}

fn exc_with(k: ExcType, m: &String) -> (r: RunError)
    ensures
        r matches RunError::Exc(e) && e.exc_type == k && opt_text(e.message) == Some(m@),
{
    RunError::exc(k, m.as_str())
}

impl Builtins {
    pub fn name(&self) -> (r: &'static str)
        ensures
            r@ == builtin_name(*self),
    {
        match self {
            Builtins::Print => "print",
            Builtins::Len => "len",
            Builtins::Str => "str",
            Builtins::Repr => "repr",
            Builtins::Id => "id",
            Builtins::Range => "range",
            Builtins::Hash => "hash",
        }
    }

    /// The builtin called `name`, or the message `unknown function: <name>`.
    pub fn find(name: &str) -> (r: Result<Builtins, String>)
        ensures
            r matches Ok(b) ==> builtin_name(b) == name@,
            r matches Err(m) ==> m@ == "unknown function: "@ + name@ && forall|b: Builtins|
                builtin_name(b) != name@,
    {
        if str_eq(name, "print") {
            Ok(Builtins::Print)
        } else if str_eq(name, "len") {
            Ok(Builtins::Len)
        } else if str_eq(name, "str") {
            Ok(Builtins::Str)
        } else if str_eq(name, "repr") {
            Ok(Builtins::Repr)
        } else if str_eq(name, "id") {
            Ok(Builtins::Id)
        } else if str_eq(name, "range") {
            Ok(Builtins::Range)
        } else if str_eq(name, "hash") {
            Ok(Builtins::Hash)
        } else {
            let mut m = String::from_str("unknown function: ");
            m.append(name);
            assert forall|b: Builtins| builtin_name(b) != name@ by {
                match b {
                    Builtins::Print => {},
                    Builtins::Len => {},
                    Builtins::Str => {},
                    Builtins::Repr => {},
                    Builtins::Id => {},
                    Builtins::Range => {},
                    Builtins::Hash => {},
                }
            }
            Err(m)
        }
    }
}

fn arity_error(b: Builtins, given: usize) -> (r: RunError)
    ensures
        r matches RunError::Exc(e) && e.exc_type == ExcType::TypeError && opt_text(e.message)
            == Some(arity_message(b, given as nat)),
{
    let mut m = String::from_str(b.name());
    m.append("() takes exactly one argument (");
    append_nat(&mut m, given as u64);
    m.append(" given)");
    exc_with(ExcType::TypeError, &m)
}

fn print_args(args: &Vec<Object>, heap: &Heap, out: &mut String)
    requires
        all_valid(args@, heap@),
    ensures
        final(out)@ == old(out)@ + print_text(args@, heap@),
{
    let mut i: usize = 0;
    while i < args.len()
        invariant
            i <= args@.len(),
            all_valid(args@, heap@),
            out@ == old(out)@ + joined(args@.subrange(0, i as int), heap@),
        decreases args@.len() - i,
    {
        if i > 0 {
            out.append(" ");
        }
        args[i].append_str(heap, out);
        assert(args@.subrange(0, i + 1).drop_last() =~= args@.subrange(0, i as int));
        assert(out@ =~= old(out)@ + joined(args@.subrange(0, i + 1), heap@));
        i = i + 1;
    }
    assert(args@.subrange(0, args@.len() as int) =~= args@);
    out.append("\n");
    assert(final(out)@ =~= old(out)@ + print_text(args@, heap@));
}

impl Builtins {
    /// Calls the builtin on positional arguments.
    ///
    /// `print` writes to `out`; `str` and `repr` charge the tracker and store
    /// their text on the heap; every other builtin leaves heap, tracker and
    /// output alone. All but `print` take exactly one argument.
    pub fn call(
        self,
        heap: &mut Heap,
        tracker: &mut LimitedTracker,
        args: Vec<Object>,
        out: &mut String,
    ) -> (r: Result<Object, RunError>)
        requires
            all_valid(args@, old(heap)@),
        ensures
            final(tracker).limits() == old(tracker).limits(),
            final(tracker).instructions() == old(tracker).instructions(),
            heap_grows(old(heap)@, final(heap)@),
            charged_within(*old(tracker), *final(tracker)),
            r matches Ok(o) ==> obj_valid(o, final(heap)@),
            !(self is Str || self is Repr) ==> final(heap)@ == old(heap)@ && final(tracker).memory()
                == old(tracker).memory(),
            !(self is Print) ==> final(out)@ == old(out)@,
            call_spec(
                self,
                args@,
                old(heap)@,
                old(tracker).memory(),
                old(out)@,
                old(tracker).limits(),
            ) == (final(heap)@, final(tracker).memory(), final(out)@, outcome(r)),
            self is Print ==> r == Ok::<Object, RunError>(Object::PyNone) && final(out)@ == old(
                out,
            )@ + print_text(args@, old(heap)@),
            !(self is Print || self is Range) && args@.len() != 1 ==> raises(
                r,
                ExcType::TypeError,
                arity_message(self, args@.len()),
            ),
            self is Range && args@.len() != 1 ==> r matches Err(RunError::Internal(_)),
            args@.len() == 1 ==> {
                let a = args@[0];
                let h = old(heap)@;
                match self {
                    Builtins::Len => match len_of(a, h) {
                        Some(n) => if n <= i64::MAX {
                            r == Ok::<Object, RunError>(Object::Int(n as i64))
                        } else {
                            r matches Err(RunError::Exc(e)) && e.exc_type == ExcType::OverflowError
                        },
                        None => raises(
                            r,
                            ExcType::TypeError,
                            "object of type '"@ + type_name_of(a) + "' has no len()"@,
                        ),
                    },
                    Builtins::Str => {
                        let v = HeapValue::Str(str_of(a, h));
                        &&& r.is_ok() == can_charge(*old(tracker), entry_cost(v))
                        &&& r.is_ok() ==> r == Ok::<Object, RunError>(
                            Object::Ref(HeapId(h.len() as usize)),
                        ) && final(heap)@ == h.push(v)
                        &&& r matches Err(e) ==> is_memory_exhaustion(e)
                    },
                    Builtins::Repr => {
                        let v = HeapValue::Str(repr_of(a, h));
                        &&& r.is_ok() == can_charge(*old(tracker), entry_cost(v))
                        &&& r.is_ok() ==> r == Ok::<Object, RunError>(
                            Object::Ref(HeapId(h.len() as usize)),
                        ) && final(heap)@ == h.push(v)
                        &&& r matches Err(e) ==> is_memory_exhaustion(e)
                    },
                    Builtins::Id => if id_of(a, h) <= i64::MAX {
                        r == Ok::<Object, RunError>(Object::Int(id_of(a, h) as i64))
                    } else {
                        r matches Err(RunError::Exc(e)) && e.exc_type == ExcType::OverflowError
                    },
                    Builtins::Range => match int_value(a) {
                        Some(v) => r == Ok::<Object, RunError>(Object::Range(v as i64)),
                        None => raises(
                            r,
                            ExcType::TypeError,
                            "'"@ + type_name_of(a) + "' object cannot be interpreted as an integer"@,
                        ),
                    },
                    Builtins::Hash => match hash_of(a, h) {
                        Some(v) => r == Ok::<Object, RunError>(Object::Int(v as i64)),
                        None => raises(
                            r,
                            ExcType::TypeError,
                            "unhashable type: '"@ + type_name_of(a) + "'"@,
                        ),
                    },
                    Builtins::Print => true,
                }
            },
    {
        match self {
            Builtins::Print => {
                print_args(&args, heap, out);
                return Ok(Object::PyNone);
            },
            Builtins::Range => {
                if args.len() != 1 {
                    return Err(
                        RunError::Internal(
                            String::from_str("range() takes exactly one argument"),
                        ),
                    );
                }
            },
            _ => {
                if args.len() != 1 {
                    return Err(arity_error(self, args.len()));
                }
            },
        }
        let a = args[0];
        match self {
            Builtins::Len => match a.py_len(heap) {
                Some(n) => if n <= i64::MAX as u64 {
                    Ok(Object::Int(n as i64))
                } else {
                    Err(RunError::exc(ExcType::OverflowError, "length does not fit in an integer"))
                },
                None => {
                    let mut m = String::from_str("object of type '");
                    m.append(a.py_type());
                    m.append("' has no len()");
                    Err(exc_with(ExcType::TypeError, &m))
                },
            },
            Builtins::Str => {
                let s = a.py_str(heap);
                allocate_str(heap, tracker, s)
            },
            Builtins::Repr => {
                let s = a.py_repr(heap);
                allocate_str(heap, tracker, s)
            },
            Builtins::Id => match a.id(heap) {
                Some(v) => Ok(Object::Int(v)),
                None => Err(RunError::exc(ExcType::OverflowError, "identity does not fit in an integer")),
            },
            Builtins::Range => match a.as_int() {
                Some(v) => Ok(Object::Range(v)),
                None => {
                    let mut m = String::from_str("'");
                    m.append(a.py_type());
                    m.append("' object cannot be interpreted as an integer");
                    Err(exc_with(ExcType::TypeError, &m))
                },
            },
            _ => match a.py_hash(heap) {
                Some(v) => Ok(Object::Int(v)),
                None => {
                    let mut m = String::from_str("unhashable type: '");
                    m.append(a.py_type());
                    m.append("'");
                    Err(exc_with(ExcType::TypeError, &m))
                },
            },
        }
    }
}

} // verus!

verus! {

/// No two builtins share a name, so a name picks at most one builtin.
pub proof fn lemma_builtin_names_distinct(a: Builtins, b: Builtins)
    ensures
        builtin_name(a) == builtin_name(b) ==> a == b,
{
    reveal_strlit("print");
    reveal_strlit("len");
    reveal_strlit("str");
    reveal_strlit("repr");
    reveal_strlit("id");
    reveal_strlit("range");
    reveal_strlit("hash");
    if builtin_name(a) == builtin_name(b) && a != b {
        assert(builtin_name(a)[0] == builtin_name(b)[0]);
        assert(builtin_name(a)[1] == builtin_name(b)[1]);
    }
}

} // verus!
