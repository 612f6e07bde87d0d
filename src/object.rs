use vstd::prelude::*;
use crate::exceptions::{ExcType, exc_type_name};
use crate::heap::{Heap, HeapData, HeapId, HeapValue, heap_grows};
use crate::text::{append_int, append_quoted, int_text, quoted};

verus! {

/// A runtime value: small data inline, text behind a heap handle.
#[derive(Debug, Clone, Copy, PartialEq, Eq, Structural)]
pub enum Object {
    /// The language's `None`.
    PyNone,
    Bool(bool),
    Int(i64),
    /// The bound of `range(n)`: the integers `0..n`.
    Range(i64),
    Ref(HeapId),
    /// An exception held as data; its argument, if any, is a heap string.
    Exception { exc_type: ExcType, arg: Option<HeapId> },
}

/// The hash of `None`.
pub const NONE_HASH: i64 = 0x1e0f_2a3b;

/// The modulus of string hashes.
pub const STR_HASH_MODULUS: i64 = 0x7fff_ffff;

/// The base of string hashes.
pub const STR_HASH_BASE: i64 = 31;

/// Every handle in `o` names an entry of `h`.
pub open spec fn obj_valid(o: Object, h: Seq<HeapValue>) -> bool {
    match o {
        Object::Ref(id) => id.0 < h.len(),
        Object::Exception { arg: Some(id), .. } => id.0 < h.len(),
        _ => true,
    }
}

/// Every object of `s` is valid in `h`.
pub open spec fn all_valid(s: Seq<Object>, h: Seq<HeapValue>) -> bool {
    forall|i: int| 0 <= i < s.len() ==> obj_valid(#[trigger] s[i], h)
}

/// The text of the heap entry `id`.
pub open spec fn heap_text(h: Seq<HeapValue>, id: HeapId) -> Seq<char> {
    match h[id.0 as int] {
        HeapValue::Str(s) => s,
    }
}

/// The name of an object's type.
pub open spec fn type_name_of(o: Object) -> Seq<char> {
    match o {
        Object::PyNone => "NoneType"@,
        Object::Bool(_) => "bool"@,
        Object::Int(_) => "int"@,
        Object::Range(_) => "range"@,
        Object::Ref(_) => "str"@,
        Object::Exception { exc_type, .. } => exc_type_name(exc_type),
    }
}

/// `range(n)` is shown as `0:n`.
pub open spec fn range_text(n: int) -> Seq<char> {
    "0:"@ + int_text(n)
}

/// The display text of an object (`str`).
pub open spec fn str_of(o: Object, h: Seq<HeapValue>) -> Seq<char> {
    match o {
        Object::PyNone => "None"@,
        Object::Bool(b) => if b {
            "True"@
        } else {
            "False"@
        },
        Object::Int(v) => int_text(v as int),
        Object::Range(n) => range_text(n as int),
        Object::Ref(id) => heap_text(h, id),
        Object::Exception { arg, .. } => match arg {
            Some(id) => heap_text(h, id),
            None => Seq::empty(),
        },
    }
}

/// The debug text of an object (`repr`).
pub open spec fn repr_of(o: Object, h: Seq<HeapValue>) -> Seq<char> {
    match o {
        Object::Ref(id) => quoted(heap_text(h, id)),
        Object::Exception { exc_type, arg } => exc_type_name(exc_type) + "("@ + match arg {
            Some(id) => quoted(heap_text(h, id)),
            None => Seq::empty(),
        } + ")"@,
        _ => str_of(o, h),
    }
}

/// The length of an object, where its type has one.
pub open spec fn len_of(o: Object, h: Seq<HeapValue>) -> Option<int> {
    match o {
        Object::Ref(id) => Some(heap_text(h, id).len() as int),
        Object::Range(n) => Some(if n < 0 {
            0
        } else {
            n as int
        }),
        _ => None,
    }
}

/// Truthiness: false for `None`, `False`, zero, `range(0)` and an empty string.
pub open spec fn truthy(o: Object, h: Seq<HeapValue>) -> bool {
    match o {
        Object::PyNone => false,
        Object::Bool(b) => b,
        Object::Int(v) => v != 0,
        Object::Range(n) => n != 0,
        Object::Ref(id) => heap_text(h, id).len() > 0,
        Object::Exception { .. } => true,
    }
}

/// The polynomial hash of a string's characters.
pub open spec fn str_hash(s: Seq<char>) -> int
    decreases s.len(),
{
    if s.len() == 0 {
        0
    } else {
        (str_hash(s.drop_last()) * STR_HASH_BASE + (s.last() as u32) as int) % (
        STR_HASH_MODULUS as int)
    }
}

/// The hash of an object; `None` for an exception, which is unhashable.
pub open spec fn hash_of(o: Object, h: Seq<HeapValue>) -> Option<int> {
    match o {
        Object::PyNone => Some(NONE_HASH as int),
        Object::Bool(b) => Some(if b {
            1
        } else {
            0
        }),
        Object::Int(v) => Some(v as int),
        Object::Range(n) => Some(n as int),
        Object::Ref(id) => Some(str_hash(heap_text(h, id))),
        Object::Exception { .. } => None,
    }
}

/// The identity of an object: its handle for heap data, its hash for an inline
/// value, and `-1` for an exception held inline.
pub open spec fn id_of(o: Object, h: Seq<HeapValue>) -> int {
    match o {
        Object::Ref(id) => id.0 as int,
        Object::Exception { .. } => -1,
        _ => hash_of(o, h).unwrap(),
    }
}

/// The integer that `o` stands for in arithmetic, where it is a number.
pub open spec fn int_value(o: Object) -> Option<int> {
    match o {
        Object::Int(v) => Some(v as int),
        Object::Bool(b) => Some(if b {
            1
        } else {
            0
        }),
        _ => None,
    }
}

/// The text of a heap string.
pub(crate) fn heap_str(heap: &Heap, id: HeapId) -> (r: &str)
    requires
        id.0 < heap@.len(),
    ensures
        r@ == heap_text(heap@, id),
{
    match heap.get(id) {
        HeapData::Str(s) => s.as_str(),
    }
}

fn append_str_hash(acc: i64, c: char) -> (r: i64)
    requires
        0 <= acc < STR_HASH_MODULUS,
    ensures
        r == (acc * STR_HASH_BASE + (c as u32) as int) % (STR_HASH_MODULUS as int),
        0 <= r < STR_HASH_MODULUS,
{
    (acc * STR_HASH_BASE + (c as u32) as i64) % STR_HASH_MODULUS
}

fn hash_text(s: &str) -> (r: i64)
    ensures
        r == str_hash(s@),
{
    let n = s.unicode_len();
    let mut acc: i64 = 0;
    let mut i: usize = 0;
    while i < n
        invariant
            n == s@.len(),
            i <= n,
            acc == str_hash(s@.subrange(0, i as int)),
            0 <= acc < STR_HASH_MODULUS,
        decreases n - i,
    {
        assert(s@.subrange(0, i + 1).drop_last() =~= s@.subrange(0, i as int));
        acc = append_str_hash(acc, s.get_char(i));
        i = i + 1;
    }
    assert(s@.subrange(0, n as int) =~= s@);
    acc
}

impl Object {
    /// Appends the display text of the object.
    pub fn append_str(&self, heap: &Heap, out: &mut String)
        requires
            obj_valid(*self, heap@),
        ensures
            final(out)@ == old(out)@ + str_of(*self, heap@),
    {
        match self {
            Object::PyNone => out.append("None"),
            Object::Bool(b) => if *b {
                out.append("True")
            } else {
                out.append("False")
            },
            Object::Int(v) => append_int(out, *v),
            Object::Range(n) => {
                out.append("0:");
                append_int(out, *n);
                assert(final(out)@ =~= old(out)@ + str_of(*self, heap@));
            },
            Object::Ref(id) => out.append(heap_str(heap, *id)),
            Object::Exception { arg, .. } => match arg {
                Some(id) => out.append(heap_str(heap, *id)),
                None => {
                    assert(old(out)@ + str_of(*self, heap@) =~= old(out)@);
                },
            },
        }
    }

    /// Appends the debug text of the object.
    pub fn append_repr(&self, heap: &Heap, out: &mut String)
        requires
            obj_valid(*self, heap@),
        ensures
            final(out)@ == old(out)@ + repr_of(*self, heap@),
    {
        match self {
            Object::Ref(id) => append_quoted(out, heap_str(heap, *id)),
            Object::Exception { exc_type, arg } => {
                out.append(exc_type.name());
                out.append("(");
                match arg {
                    Some(id) => append_quoted(out, heap_str(heap, *id)),
                    None => {},
                }
                out.append(")");
                assert(final(out)@ =~= old(out)@ + repr_of(*self, heap@));
            },
            _ => self.append_str(heap, out),
        }
    }

    /// The display text of the object, as a new string.
    pub fn py_str(&self, heap: &Heap) -> (r: String)
        requires
            obj_valid(*self, heap@),
        ensures
            r@ == str_of(*self, heap@),
    {
        let mut r = String::new();
        self.append_str(heap, &mut r);
        assert(r@ =~= str_of(*self, heap@));
        r
    }

    /// The debug text of the object, as a new string.
    pub fn py_repr(&self, heap: &Heap) -> (r: String)
        requires
            obj_valid(*self, heap@),
        ensures
            r@ == repr_of(*self, heap@),
    {
        let mut r = String::new();
        self.append_repr(heap, &mut r);
        assert(r@ =~= repr_of(*self, heap@));
        r
    }

    /// The name of the object's type.
    pub fn py_type(&self) -> (r: &'static str)
        ensures
            r@ == type_name_of(*self),
    {
        match self {
            Object::PyNone => "NoneType",
            Object::Bool(_) => "bool",
            Object::Int(_) => "int",
            Object::Range(_) => "range",
            Object::Ref(_) => "str",
            Object::Exception { exc_type, .. } => exc_type.name(),
        }
    }

    /// The length of the object, or `None` where its type has none.
    pub fn py_len(&self, heap: &Heap) -> (r: Option<u64>)
        requires
            obj_valid(*self, heap@),
        ensures
            match r {
                Some(n) => len_of(*self, heap@) == Some(n as int),
                None => len_of(*self, heap@).is_none(),
            },
    {
        match self {
            Object::Ref(id) => Some(heap_str(heap, *id).unicode_len() as u64),
            Object::Range(n) => if *n < 0 {
                Some(0)
            } else {
                Some(*n as u64)
            },
            _ => None,
        }
    }

    /// Truthiness of the object; every variant defines it.
    pub fn bool(&self, heap: &Heap) -> (r: Option<bool>)
        requires
            obj_valid(*self, heap@),
        ensures
            r == Some(truthy(*self, heap@)),
    {
        match self {
            Object::PyNone => Some(false),
            Object::Bool(b) => Some(*b),
            Object::Int(v) => Some(*v != 0),
            Object::Range(n) => Some(*n != 0),
            Object::Ref(id) => Some(heap_str(heap, *id).unicode_len() > 0),
            Object::Exception { .. } => Some(true),
        }
    }

    /// The hash of the object, or `None` where it is unhashable.
    pub fn py_hash(&self, heap: &Heap) -> (r: Option<i64>)
        requires
            obj_valid(*self, heap@),
        ensures
            match r {
                Some(v) => hash_of(*self, heap@) == Some(v as int),
                None => hash_of(*self, heap@).is_none(),
            },
    {
        match self {
            Object::PyNone => Some(NONE_HASH),
            Object::Bool(b) => if *b {
                Some(1)
            } else {
                Some(0)
            },
            Object::Int(v) => Some(*v),
            Object::Range(n) => Some(*n),
            Object::Ref(id) => Some(hash_text(heap_str(heap, *id))),
            Object::Exception { .. } => None,
        }
    }

    /// The identity of the object (see `id_of`), or `None` where it does not fit in `i64`.
    pub fn id(&self, heap: &Heap) -> (r: Option<i64>)
        requires
            obj_valid(*self, heap@),
        ensures
            match r {
                Some(v) => v == id_of(*self, heap@),
                None => id_of(*self, heap@) > i64::MAX,
            },
    {
        match self {
            Object::Ref(id) => if id.0 as u64 > i64::MAX as u64 {
                None
            } else {
                Some(id.0 as i64)
            },
            Object::Exception { .. } => Some(-1),
            _ => match self.py_hash(heap) {
                Some(v) => Some(v),
                None => Some(-1),
            },
        }
    }

    /// The integer value of a number, or `None` for any other object.
    pub fn as_int(&self) -> (r: Option<i64>)
        ensures
            match r {
                Some(v) => int_value(*self) == Some(v as int),
                None => int_value(*self).is_none(),
            },
    {
        match self {
            Object::Int(v) => Some(*v),
            Object::Bool(b) => if *b {
                Some(1)
            } else {
                Some(0)
            },
            _ => None,
        }
    }
}

} // verus!

verus! {

/// An object valid in a heap stays valid, with the same texts, once the heap grows.
pub proof fn lemma_valid_grows(o: Object, old: Seq<HeapValue>, new: Seq<HeapValue>)
    requires
        obj_valid(o, old),
        heap_grows(old, new),
    ensures
        obj_valid(o, new),
        str_of(o, new) == str_of(o, old),
        repr_of(o, new) == repr_of(o, old),
        truthy(o, new) == truthy(o, old),
{
}

/// Every object of a sequence stays valid once the heap grows.
pub proof fn lemma_all_valid_grows(s: Seq<Object>, old: Seq<HeapValue>, new: Seq<HeapValue>)
    requires
        all_valid(s, old),
        heap_grows(old, new),
    ensures
        all_valid(s, new),
{
    assert forall|i: int| 0 <= i < s.len() implies obj_valid(#[trigger] s[i], new) by {
        lemma_valid_grows(s[i], old, new);
    }
}

} // verus!

verus! {

/// `str` and `repr` of an object give the same text again after any
/// allocation, such as the one that stored the first result.
pub proof fn lemma_render_repeatable(o: Object, h: Seq<HeapValue>, v: HeapValue)
    requires
        obj_valid(o, h),
    ensures
        str_of(o, h.push(v)) == str_of(o, h),
        repr_of(o, h.push(v)) == repr_of(o, h),
{
    lemma_valid_grows(o, h, h.push(v));
}

} // verus!
