use vstd::prelude::*;
use crate::exceptions::{ExcType, Fault, RunError, outcome};
use crate::object::Object;
use crate::resource::{LimitedTracker, ResourceLimits, is_memory_exhaustion, memory_limit, memory_limit_message, within};

verus! {

/// The bytes charged for any heap entry, beside its contents.
pub const ENTRY_OVERHEAD: usize = 24;

/// A payload owned by the heap.
#[derive(Debug, Clone)]
pub enum HeapData {
    Str(String),
}

/// The mathematical value of a heap payload.
pub enum HeapValue {
    Str(Seq<char>),
}

impl View for HeapData {
    type V = HeapValue;

    open spec fn view(&self) -> HeapValue {
        match self {
            HeapData::Str(s) => HeapValue::Str(s@),
        }
    }
}

/// What an entry is charged against the memory budget.
pub open spec fn entry_cost(v: HeapValue) -> nat {
    match v {
        HeapValue::Str(s) => (ENTRY_OVERHEAD + s.len()) as nat,
    }
}

impl HeapData {
    /// The memory charge of this payload, or `None` where it does not fit in `usize`.
    pub fn cost(&self) -> (r: Option<usize>)
        ensures
            match r {
                Some(c) => c == entry_cost(self@),
                None => entry_cost(self@) > usize::MAX,
            },
    {
        match self {
            HeapData::Str(s) => {
                let n = s.as_str().unicode_len();
                if n > usize::MAX - ENTRY_OVERHEAD {
                    None
                } else {
                    Some(ENTRY_OVERHEAD + n)
                }
            },
        }
    }
}

/// A handle to a heap entry: its position in the order of allocation.
#[derive(Debug, Clone, Copy, PartialEq, Eq, Hash, Structural)]
pub struct HeapId(pub usize);

/// An append-only arena: handles are issued in order and never reused.
#[derive(Debug)]
pub struct Heap {
    entries: Vec<HeapData>,
}

impl View for Heap {
    type V = Seq<HeapValue>;

    closed spec fn view(&self) -> Seq<HeapValue> {
        self.entries@.map_values(|d: HeapData| d@)
    }
}

impl Heap {
    pub fn new() -> (r: Heap)
        ensures
            r@ == Seq::<HeapValue>::empty(),
    {
        let r = Heap { entries: Vec::new() };
        assert(r@ =~= Seq::<HeapValue>::empty());
        r
    }

    /// The number of entries allocated so far.
    pub fn len(&self) -> (r: usize)
        ensures
            r == self@.len(),
    {
        self.entries.len()
    }

    /// Stores `data` and returns the next handle.
    pub fn allocate(&mut self, data: HeapData) -> (id: HeapId)
        ensures
            final(self)@ == old(self)@.push(data@),
            id.0 == old(self)@.len(),
    {
        let id = HeapId(self.entries.len());
        self.entries.push(data);
        assert(final(self)@ =~= old(self)@.push(data@));
        id
    }

    /// The entry behind a handle that this heap issued.
    pub fn get(&self, id: HeapId) -> (r: &HeapData)
        requires
            id.0 < self@.len(),
        ensures
            r@ == self@[id.0 as int],
    {
        &self.entries[id.0]
    }
}

} // verus!

verus! {

/// Whether `c` more bytes can be charged on top of `mem` under the limits `l`.
pub open spec fn charge_ok(mem: nat, l: ResourceLimits, c: nat) -> bool {
    mem + c <= usize::MAX && within(memory_limit(l), (mem + c) as int)
}

/// Whether the tracker can take `c` more bytes.
pub open spec fn can_charge(t: LimitedTracker, c: nat) -> bool {
    charge_ok(t.memory(), t.limits(), c)
}

/// The error of a refused allocation.
pub open spec fn memory_fault() -> Fault {
    Fault::Exc(ExcType::MemoryError, Some(memory_limit_message()))
}

/// Storing `text` on heap `h` with `mem` bytes charged: the new heap, the new
/// charge, and a handle to the text, or a `MemoryError` that changes nothing.
pub open spec fn alloc_spec(h: Seq<HeapValue>, mem: nat, l: ResourceLimits, text: Seq<char>) -> (
    Seq<HeapValue>,
    nat,
    Result<Object, Fault>,
) {
    let v = HeapValue::Str(text);
    if charge_ok(mem, l, entry_cost(v)) {
        (h.push(v), mem + entry_cost(v), Ok(Object::Ref(HeapId(h.len() as usize))))
    } else {
        (h, mem, Err(memory_fault()))
    }
}

/// Stores a string on the heap after charging its cost; refuses it, changing
/// nothing, where the memory ceiling would be passed.
pub fn allocate_str(heap: &mut Heap, tracker: &mut LimitedTracker, s: String) -> (r: Result<
    Object,
    RunError,
>)
    ensures
        final(tracker).limits() == old(tracker).limits(),
        final(tracker).instructions() == old(tracker).instructions(),
        r.is_ok() == can_charge(*old(tracker), entry_cost(HeapValue::Str(s@))),
        r.is_ok() ==> r == Ok::<Object, RunError>(Object::Ref(HeapId(old(heap)@.len() as usize)))
            && final(heap)@ == old(heap)@.push(HeapValue::Str(s@)) && final(tracker).memory()
            == old(tracker).memory() + entry_cost(HeapValue::Str(s@)),
        r matches Err(e) ==> is_memory_exhaustion(e) && final(heap)@ == old(heap)@
            && final(tracker).memory() == old(tracker).memory(),
        alloc_spec(old(heap)@, old(tracker).memory(), old(tracker).limits(), s@) == (
            final(heap)@,
            final(tracker).memory(),
            outcome(r),
        ),
{
    let data = HeapData::Str(s);
    match data.cost() {
        Some(c) => {
            match tracker.charge_memory(c) {
                Ok(()) => {
                    let id = heap.allocate(data);
                    Ok(Object::Ref(id))
                },
                Err(e) => Err(e),
            }
        },
        None => Err(RunError::exc(ExcType::MemoryError, "memory limit exceeded")),
    }
}

} // verus!

verus! {

/// `new` holds every entry of `old`, unchanged and at the same handle.
pub open spec fn heap_grows(old: Seq<HeapValue>, new: Seq<HeapValue>) -> bool {
    old.len() <= new.len() && forall|i: int| 0 <= i < old.len() ==> new[i] == old[i]
}

} // verus!

verus! {

/// Under a memory ceiling below the charge of one entry, nothing can be
/// allocated: `str` and `repr` then raise `MemoryError`.
pub proof fn lemma_tiny_memory_refuses(t: LimitedTracker, v: HeapValue)
    requires
        t.limits().max_memory matches Some(m) && m < ENTRY_OVERHEAD,
    ensures
        !can_charge(t, entry_cost(v)),
{
}

} // verus!
