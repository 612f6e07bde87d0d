use vstd::prelude::*;
use crate::exceptions::{ExcType, MontyException, RunError, opt_text};
use crate::heap::{Heap, HeapId, HeapValue, allocate_str, can_charge, entry_cost, heap_grows};
use crate::object::{Object, obj_valid};
use crate::resource::{LimitedTracker, charged_within, is_memory_exhaustion};

verus! {

/// The host runtime's native exception classes that the mapping knows.
#[derive(Debug, Clone, Copy, PartialEq, Eq, Structural)]
pub enum HostExcClass {
    BaseException,
    Exception,
    SystemExit,
    KeyboardInterrupt,
    ArithmeticError,
    OverflowError,
    ZeroDivisionError,
    LookupError,
    IndexError,
    KeyError,
    RuntimeError,
    NotImplementedError,
    RecursionError,
    AssertionError,
    AttributeError,
    MemoryError,
    NameError,
    SyntaxError,
    TimeoutError,
    TypeError,
    ValueError,
}

/// The nearest known base class of each host class.
pub open spec fn host_parent(c: HostExcClass) -> Option<HostExcClass> {
    match c {
        HostExcClass::BaseException => None,
        HostExcClass::Exception => Some(HostExcClass::BaseException),
        HostExcClass::SystemExit => Some(HostExcClass::BaseException),
        HostExcClass::KeyboardInterrupt => Some(HostExcClass::BaseException),
        HostExcClass::OverflowError => Some(HostExcClass::ArithmeticError),
        HostExcClass::ZeroDivisionError => Some(HostExcClass::ArithmeticError),
        HostExcClass::IndexError => Some(HostExcClass::LookupError),
        HostExcClass::KeyError => Some(HostExcClass::LookupError),
        HostExcClass::NotImplementedError => Some(HostExcClass::RuntimeError),
        HostExcClass::RecursionError => Some(HostExcClass::RuntimeError),
        _ => Some(HostExcClass::Exception),
    }
}

/// The distance of a class from the root of the hierarchy.
pub open spec fn host_depth(c: HostExcClass) -> nat {
    match c {
        HostExcClass::BaseException => 0,
        HostExcClass::Exception => 1,
        HostExcClass::SystemExit => 1,
        HostExcClass::KeyboardInterrupt => 1,
        HostExcClass::OverflowError => 3,
        HostExcClass::ZeroDivisionError => 3,
        HostExcClass::IndexError => 3,
        HostExcClass::KeyError => 3,
        HostExcClass::NotImplementedError => 3,
        HostExcClass::RecursionError => 3,
        _ => 2,
    }
}

/// Whether class `c` is `p` or derives from it.
pub open spec fn is_subclass(c: HostExcClass, p: HostExcClass) -> bool
    decreases host_depth(c),
{
    if c == p {
        true
    } else {
        match host_parent(c) {
            Some(q) => is_subclass(q, p),
            None => false,
        }
    }
}

/// The ordered checks: a host exception is tested against each class in turn,
/// most specific first, and takes the kind of the first that it is an instance of.
pub open spec fn check_order() -> Seq<(HostExcClass, ExcType)> {
    seq![
        (HostExcClass::KeyError, ExcType::KeyError),
        (HostExcClass::IndexError, ExcType::IndexError),
        (HostExcClass::ArithmeticError, ExcType::ZeroDivisionError),
        (HostExcClass::AssertionError, ExcType::AssertionError),
        (HostExcClass::AttributeError, ExcType::AttributeError),
        (HostExcClass::MemoryError, ExcType::MemoryError),
        (HostExcClass::NameError, ExcType::NameError),
        (HostExcClass::SyntaxError, ExcType::SyntaxError),
        (HostExcClass::TimeoutError, ExcType::TimeoutError),
        (HostExcClass::TypeError, ExcType::TypeError),
        (HostExcClass::ValueError, ExcType::ValueError),
        (HostExcClass::RuntimeError, ExcType::RuntimeError),
        (HostExcClass::SystemExit, ExcType::SystemExit),
        (HostExcClass::KeyboardInterrupt, ExcType::KeyboardInterrupt),
        (HostExcClass::Exception, ExcType::Exception),
    ]
}

/// The kind given by the checks from position `i` on, for an exception that is
/// an instance of exactly the classes for which `member` holds.
pub open spec fn classify_from(member: spec_fn(HostExcClass) -> bool, i: int) -> ExcType
    decreases check_order().len() - i,
{
    if i < 0 || i >= check_order().len() {
        ExcType::BaseException
    } else if member(check_order()[i].0) {
        check_order()[i].1
    } else {
        classify_from(member, i + 1)
    }
}

/// The kind of a host exception, from the classes it is an instance of;
/// `BaseException` where no check matches.
pub open spec fn classify(member: spec_fn(HostExcClass) -> bool) -> ExcType {
    classify_from(member, 0)
}

/// The kind of a host exception whose class is `c`.
pub open spec fn classify_class(c: HostExcClass) -> ExcType {
    classify(|x: HostExcClass| is_subclass(c, x))
}

/// The host class that each kind is raised as.
pub open spec fn host_class_of(t: ExcType) -> HostExcClass {
    match t {
        ExcType::Exception => HostExcClass::Exception,
        ExcType::BaseException => HostExcClass::BaseException,
        ExcType::SystemExit => HostExcClass::SystemExit,
        ExcType::KeyboardInterrupt => HostExcClass::KeyboardInterrupt,
        ExcType::ArithmeticError => HostExcClass::ArithmeticError,
        ExcType::OverflowError => HostExcClass::OverflowError,
        ExcType::ZeroDivisionError => HostExcClass::ZeroDivisionError,
        ExcType::LookupError => HostExcClass::LookupError,
        ExcType::IndexError => HostExcClass::IndexError,
        ExcType::KeyError => HostExcClass::KeyError,
        ExcType::RuntimeError => HostExcClass::RuntimeError,
        ExcType::NotImplementedError => HostExcClass::NotImplementedError,
        ExcType::RecursionError => HostExcClass::RecursionError,
        ExcType::AssertionError => HostExcClass::AssertionError,
        ExcType::AttributeError => HostExcClass::AttributeError,
        ExcType::MemoryError => HostExcClass::MemoryError,
        ExcType::NameError => HostExcClass::NameError,
        ExcType::SyntaxError => HostExcClass::SyntaxError,
        ExcType::TimeoutError => HostExcClass::TimeoutError,
        ExcType::TypeError => HostExcClass::TypeError,
        ExcType::ValueError => HostExcClass::ValueError,
    }
}

/// The kinds that the checks give back unchanged: those whose own host class
/// is tested before any of its bases.
pub open spec fn kind_survives_host(t: ExcType) -> bool {
    !(t is ArithmeticError || t is OverflowError || t is LookupError || t is NotImplementedError
        || t is RecursionError)
}

/// An exception as the host sees it: its class and its message.
#[derive(Debug, Clone, PartialEq)]
pub struct HostException {
    pub class: HostExcClass,
    pub message: String,
}

/// Converts an engine exception to a host exception: one class per kind, and
/// the message as is (empty where there is none).
pub fn exc_monty_to_py(exc: MontyException) -> (r: HostException)
    ensures
        r.class == host_class_of(exc.exc_type),
        r.message@ == match opt_text(exc.message) {
            Some(m) => m,
            None => Seq::<char>::empty(),
        },
{
    let class = match exc.exc_type {
        ExcType::Exception => HostExcClass::Exception,
        ExcType::BaseException => HostExcClass::BaseException,
        ExcType::SystemExit => HostExcClass::SystemExit,
        ExcType::KeyboardInterrupt => HostExcClass::KeyboardInterrupt,
        ExcType::ArithmeticError => HostExcClass::ArithmeticError,
        ExcType::OverflowError => HostExcClass::OverflowError,
        ExcType::ZeroDivisionError => HostExcClass::ZeroDivisionError,
        ExcType::LookupError => HostExcClass::LookupError,
        ExcType::IndexError => HostExcClass::IndexError,
        ExcType::KeyError => HostExcClass::KeyError,
        ExcType::RuntimeError => HostExcClass::RuntimeError,
        ExcType::NotImplementedError => HostExcClass::NotImplementedError,
        ExcType::RecursionError => HostExcClass::RecursionError,
        ExcType::AssertionError => HostExcClass::AssertionError,
        ExcType::AttributeError => HostExcClass::AttributeError,
        ExcType::MemoryError => HostExcClass::MemoryError,
        ExcType::NameError => HostExcClass::NameError,
        ExcType::SyntaxError => HostExcClass::SyntaxError,
        ExcType::TimeoutError => HostExcClass::TimeoutError,
        ExcType::TypeError => HostExcClass::TypeError,
        ExcType::ValueError => HostExcClass::ValueError,
    };
    let message = match exc.message {
        Some(m) => m,
        None => String::new(),
    };
    HostException { class, message }
}

fn holds_class(classes: &Vec<HostExcClass>, c: HostExcClass) -> (r: bool)
    ensures
        r == classes@.contains(c),
{
    let mut i: usize = 0;
    while i < classes.len()
        invariant
            i <= classes@.len(),
            forall|j: int| 0 <= j < i ==> classes@[j] != c,
        decreases classes@.len() - i,
    {
        if classes[i] == c {
            assert(classes@[i as int] == c);
            return true;
        }
        i = i + 1;
    }
    false
}

/// The kind of a host exception that is an instance of exactly the known
/// classes in `classes`, by the ordered checks.
pub fn py_err_to_exc_type(classes: &Vec<HostExcClass>) -> (r: ExcType)
    ensures
        r == classify(|x: HostExcClass| classes@.contains(x)),
{
    let ghost member = |x: HostExcClass| classes@.contains(x);
    let order = [
        (HostExcClass::KeyError, ExcType::KeyError),
        (HostExcClass::IndexError, ExcType::IndexError),
        (HostExcClass::ArithmeticError, ExcType::ZeroDivisionError),
        (HostExcClass::AssertionError, ExcType::AssertionError),
        (HostExcClass::AttributeError, ExcType::AttributeError),
        (HostExcClass::MemoryError, ExcType::MemoryError),
        (HostExcClass::NameError, ExcType::NameError),
        (HostExcClass::SyntaxError, ExcType::SyntaxError),
        (HostExcClass::TimeoutError, ExcType::TimeoutError),
        (HostExcClass::TypeError, ExcType::TypeError),
        (HostExcClass::ValueError, ExcType::ValueError),
        (HostExcClass::RuntimeError, ExcType::RuntimeError),
        (HostExcClass::SystemExit, ExcType::SystemExit),
        (HostExcClass::KeyboardInterrupt, ExcType::KeyboardInterrupt),
        (HostExcClass::Exception, ExcType::Exception),
    ];
    assert(order@ == check_order());
    let mut i: usize = 0;
    while i < 15
        invariant
            order@ == check_order(),
            i <= 15,
            member == (|x: HostExcClass| classes@.contains(x)),
            classify_from(member, 0) == classify_from(member, i as int),
        decreases 15 - i,
    {
        let (c, t) = order[i];
        if holds_class(classes, c) {
            return t;
        }
        i = i + 1;
    }
    ExcType::BaseException
}

fn host_parent_of(c: HostExcClass) -> (r: Option<HostExcClass>)
    ensures
        r == host_parent(c),
        r matches Some(p) ==> host_depth(p) < host_depth(c),
{
    match c {
        HostExcClass::BaseException => None,
        HostExcClass::Exception | HostExcClass::SystemExit | HostExcClass::KeyboardInterrupt => Some(
            HostExcClass::BaseException,
        ),
        HostExcClass::OverflowError | HostExcClass::ZeroDivisionError => Some(
            HostExcClass::ArithmeticError,
        ),
        HostExcClass::IndexError | HostExcClass::KeyError => Some(HostExcClass::LookupError),
        HostExcClass::NotImplementedError | HostExcClass::RecursionError => Some(
            HostExcClass::RuntimeError,
        ),
        _ => Some(HostExcClass::Exception),
    }
}

/// The known classes that an exception of class `c` is an instance of: `c`
/// and its bases.
pub fn host_instance_classes(c: HostExcClass) -> (r: Vec<HostExcClass>)
    ensures
        forall|x: HostExcClass| r@.contains(x) <==> is_subclass(c, x),
    decreases host_depth(c),
{
    let parent = host_parent_of(c);
    let mut r = match parent {
        Some(p) => host_instance_classes(p),
        None => Vec::new(),
    };
    let ghost prev = r@;
    assert(forall|x: HostExcClass| prev.contains(x) <==> (parent matches Some(p) && is_subclass(p, x)));
    r.push(c);
    assert forall|x: HostExcClass| r@.contains(x) <==> is_subclass(c, x) by {
        if r@.contains(x) && x != c {
            let j = choose|j: int| 0 <= j < r@.len() && r@[j] == x;
            assert(prev[j] == x);
            assert(prev.contains(x));
        }
        if is_subclass(c, x) && x != c {
            assert(prev.contains(x));
            let j = choose|j: int| 0 <= j < prev.len() && prev[j] == x;
            assert(r@[j] == x);
        }
        if x == c {
            assert(r@[r@.len() - 1] == x);
        }
    }
    r
}

/// Converts a host exception to an engine exception: the kind by the ordered
/// checks over the classes it is an instance of, the message as is.
pub fn exc_py_to_monty(classes: &Vec<HostExcClass>, message: Option<String>) -> (r: MontyException)
    ensures
        r.exc_type == classify(|x: HostExcClass| classes@.contains(x)),
        r.message == message,
{
    MontyException::new(py_err_to_exc_type(classes), message)
}

/// Converts a host exception to an exception object, storing its message on the heap.
pub fn exc_to_monty_object(
    classes: &Vec<HostExcClass>,
    message: Option<String>,
    heap: &mut Heap,
    tracker: &mut LimitedTracker,
) -> (r: Result<Object, RunError>)
    ensures
        heap_grows(old(heap)@, final(heap)@),
        charged_within(*old(tracker), *final(tracker)),
        final(tracker).limits() == old(tracker).limits(),
        final(tracker).instructions() == old(tracker).instructions(),
        r matches Ok(o) ==> obj_valid(o, final(heap)@),
        message is None ==> r == Ok::<Object, RunError>(
            Object::Exception {
                exc_type: classify(|x: HostExcClass| classes@.contains(x)),
                arg: None,
            },
        ) && final(heap)@ == old(heap)@,
        message matches Some(m) ==> {
            let v = HeapValue::Str(m@);
            &&& r.is_ok() == can_charge(*old(tracker), entry_cost(v))
            &&& r.is_ok() ==> r == Ok::<Object, RunError>(
                Object::Exception {
                    exc_type: classify(|x: HostExcClass| classes@.contains(x)),
                    arg: Some(HeapId(old(heap)@.len() as usize)),
                },
            ) && final(heap)@ == old(heap)@.push(v)
            &&& r matches Err(e) ==> is_memory_exhaustion(e)
        },
{
    let exc_type = py_err_to_exc_type(classes);
    match message {
        None => Ok(Object::Exception { exc_type, arg: None }),
        Some(m) => {
            let o = allocate_str(heap, tracker, m)?;
            match o {
                Object::Ref(id) => Ok(Object::Exception { exc_type, arg: Some(id) }),
                _ => Ok(Object::Exception { exc_type, arg: None }),
            }
        },
    }
}

} // verus!

verus! {

/// Classifying by a list of classes is classifying by the class whose instance
/// classes they are.
pub proof fn lemma_classify_instances(classes: Seq<HostExcClass>, c: HostExcClass)
    requires
        forall|x: HostExcClass| classes.contains(x) <==> is_subclass(c, x),
    ensures
        classify(|x: HostExcClass| classes.contains(x)) == classify_class(c),
{
    assert((|x: HostExcClass| classes.contains(x)) =~= (|x: HostExcClass| is_subclass(c, x)));
}

/// Every class that the checks test is classified as its own entry's kind: no
/// earlier check tests one of its bases. In particular a host `KeyError` is a
/// `KeyError`, not a `LookupError` or an `Exception`.
pub proof fn lemma_checks_specific_first(j: int)
    requires
        0 <= j < check_order().len(),
    ensures
        classify_class(check_order()[j].0) == check_order()[j].1,
{
    reveal_with_fuel(classify_from, 16);
    reveal_with_fuel(is_subclass, 4);
}

/// A host `KeyError` is classified as `KeyError`.
pub proof fn lemma_key_error_classified()
    ensures
        classify_class(HostExcClass::KeyError) == ExcType::KeyError,
{
    lemma_checks_specific_first(0);
}

/// Raising a kind in the host and classifying what was raised gives the kind
/// back, for every kind whose host class is tested before its bases.
pub proof fn lemma_host_round_trip(t: ExcType)
    requires
        kind_survives_host(t),
    ensures
        classify_class(host_class_of(t)) == t,
{
    reveal_with_fuel(classify_from, 16);
    reveal_with_fuel(is_subclass, 4);
}

} // verus!
