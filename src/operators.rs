use vstd::prelude::*;
use crate::exceptions::{ExcType, Fault, RunError, opt_text, outcome};
use crate::heap::{Heap, HeapValue, alloc_spec, allocate_str, heap_grows};
use crate::object::{Object, heap_str, heap_text, int_value, obj_valid, truthy, type_name_of};
use crate::resource::{LimitedTracker, ResourceLimits, charged_within};
use crate::text::{append_int, int_text, str_eq};

verus! {

/// Binary operators: arithmetic, bitwise and boolean.
#[derive(Debug, Clone, Copy, PartialEq, Eq, Structural)]
pub enum Operator {
    Add,
    Sub,
    Mult,
    MatMult,
    Div,
    Mod,
    Pow,
    LShift,
    RShift,
    BitOr,
    BitXor,
    BitAnd,
    FloorDiv,
    And,
    Or,
}

/// The symbol of each operator in source text.
pub open spec fn op_symbol(op: Operator) -> Seq<char> {
    match op {
        Operator::Add => "+"@,
        Operator::Sub => "-"@,
        Operator::Mult => "*"@,
        Operator::MatMult => "@"@,
        Operator::Div => "/"@,
        Operator::Mod => "%"@,
        Operator::Pow => "**"@,
        Operator::LShift => "<<"@,
        Operator::RShift => ">>"@,
        Operator::BitOr => "|"@,
        Operator::BitXor => "^"@,
        Operator::BitAnd => "&"@,
        Operator::FloorDiv => "//"@,
        Operator::And => "and"@,
        Operator::Or => "or"@,
    }
}

impl Operator {
    pub fn symbol(&self) -> (r: &'static str)
        ensures
            r@ == op_symbol(*self),
    {
        match self {
            Operator::Add => "+",
            Operator::Sub => "-",
            Operator::Mult => "*",
            Operator::MatMult => "@",
            Operator::Div => "/",
            Operator::Mod => "%",
            Operator::Pow => "**",
            Operator::LShift => "<<",
            Operator::RShift => ">>",
            Operator::BitOr => "|",
            Operator::BitXor => "^",
            Operator::BitAnd => "&",
            Operator::FloorDiv => "//",
            Operator::And => "and",
            Operator::Or => "or",
        }
    }

    /// The operator written by `s`, if any.
    pub fn from_symbol(s: &str) -> (r: Option<Operator>)
        ensures
            r matches Some(op) ==> op_symbol(op) == s@,
            r is None ==> forall|op: Operator| op_symbol(op) != s@,
    {
        let all = [
            Operator::Add,
            Operator::Sub,
            Operator::Mult,
            Operator::MatMult,
            Operator::Div,
            Operator::Mod,
            Operator::Pow,
            Operator::LShift,
            Operator::RShift,
            Operator::BitOr,
            Operator::BitXor,
            Operator::BitAnd,
            Operator::FloorDiv,
            Operator::And,
            Operator::Or,
        ];
        let mut i: usize = 0;
        while i < 15
            invariant
                all@ == seq![
                    Operator::Add,
                    Operator::Sub,
                    Operator::Mult,
                    Operator::MatMult,
                    Operator::Div,
                    Operator::Mod,
                    Operator::Pow,
                    Operator::LShift,
                    Operator::RShift,
                    Operator::BitOr,
                    Operator::BitXor,
                    Operator::BitAnd,
                    Operator::FloorDiv,
                    Operator::And,
                    Operator::Or,
                ],
                i <= 15,
                forall|j: int| 0 <= j < i ==> op_symbol(#[trigger] all@[j]) != s@,
            decreases 15 - i,
        {
            if str_eq(all[i].symbol(), s) {
                return Some(all[i]);
            }
            i = i + 1;
        }
        assert forall|op: Operator| op_symbol(op) != s@ by {
            let k: int = match op {
                Operator::Add => 0,
                Operator::Sub => 1,
                Operator::Mult => 2,
                Operator::MatMult => 3,
                Operator::Div => 4,
                Operator::Mod => 5,
                Operator::Pow => 6,
                Operator::LShift => 7,
                Operator::RShift => 8,
                Operator::BitOr => 9,
                Operator::BitXor => 10,
                Operator::BitAnd => 11,
                Operator::FloorDiv => 12,
                Operator::And => 13,
                Operator::Or => 14,
            };
            assert(all@[k] == op);
        }
        None
    }
}

/// The result of integer arithmetic: a value, an exception, or a result the
/// engine cannot represent (a float).
pub enum Arith {
    Value(int),
    Raise(ExcType, Seq<char>),
    Unsupported(Seq<char>),
}

pub open spec fn abs(x: int) -> int {
    if x < 0 {
        -x
    } else {
        x
    }
}

/// Floor division, as the language defines `//`.
pub open spec fn floor_div(x: int, y: int) -> int {
    if (x < 0) == (y < 0) {
        abs(x) / abs(y)
    } else {
        -((abs(x) + abs(y) - 1) / abs(y))
    }
}

/// The remainder of floor division, with the sign of the divisor.
pub open spec fn floor_mod(x: int, y: int) -> int {
    let r = abs(x) % abs(y);
    if r == 0 {
        0
    } else if (x < 0) == (y < 0) {
        if y < 0 {
            -r
        } else {
            r
        }
    } else if y < 0 {
        -(abs(y) - r)
    } else {
        abs(y) - r
    }
}

/// `x` raised to the power `e`.
pub open spec fn power(x: int, e: nat) -> int
    decreases e,
{
    if e == 0 {
        1
    } else {
        x * power(x, (e - 1) as nat)
    }
}

pub open spec fn negative_shift_message() -> Seq<char> {
    "negative shift count"@
}

pub open spec fn overflow_message() -> Seq<char> {
    "integer overflow"@
}

/// A value that must fit in 64 bits, else an overflow.
pub open spec fn checked(v: int) -> Arith {
    if i64::MIN <= v <= i64::MAX {
        Arith::Value(v)
    } else {
        Arith::Raise(ExcType::OverflowError, overflow_message())
    }
}

/// Arithmetic on two integers. Overflow of the 64-bit range raises
/// `OverflowError`; `/` is defined where it divides exactly and `**` for a
/// non-negative exponent (other results would be floats); `>>` is the
/// arithmetic shift, by at most 63 places; a shift by a negative count raises
/// `ValueError`.
pub open spec fn int_arith(op: Operator, x: i64, y: i64) -> Arith {
    match op {
        Operator::Add => checked(x + y),
        Operator::Sub => checked(x - y),
        Operator::Mult => checked(x * y),
        Operator::Div => if y == 0 {
            Arith::Raise(ExcType::ZeroDivisionError, "division by zero"@)
        } else if abs(x as int) % abs(y as int) == 0 {
            checked(floor_div(x as int, y as int))
        } else {
            Arith::Unsupported("division with a fractional result"@)
        },
        Operator::FloorDiv => if y == 0 {
            Arith::Raise(ExcType::ZeroDivisionError, "integer division or modulo by zero"@)
        } else {
            checked(floor_div(x as int, y as int))
        },
        Operator::Mod => if y == 0 {
            Arith::Raise(ExcType::ZeroDivisionError, "integer division or modulo by zero"@)
        } else {
            checked(floor_mod(x as int, y as int))
        },
        Operator::Pow => if y < 0 {
            Arith::Unsupported("a negative exponent"@)
        } else {
            checked(power(x as int, y as nat))
        },
        Operator::LShift => if y < 0 {
            Arith::Raise(ExcType::ValueError, negative_shift_message())
        } else {
            checked(x * power(2, y as nat))
        },
        Operator::RShift => if y < 0 {
            Arith::Raise(ExcType::ValueError, negative_shift_message())
        } else if y >= 63 {
            Arith::Value((x >> 63u32) as int)
        } else {
            Arith::Value((x >> (y as u32)) as int)
        },
        Operator::BitAnd => Arith::Value((x & y) as int),
        Operator::BitOr => Arith::Value((x | y) as int),
        Operator::BitXor => Arith::Value((x ^ y) as int),
        _ => Arith::Unsupported(op_symbol(op)),
    }
}

/// Whether `op` is applied by `int_arith` to two numbers.
pub open spec fn is_int_op(op: Operator) -> bool {
    !(op is MatMult || op is And || op is Or)
}

/// The message of the `TypeError` for operands that an operator does not take.
pub open spec fn operand_error_message(op: Operator, a: Object, b: Object) -> Seq<char> {
    "unsupported operand type(s) for "@ + op_symbol(op) + ": '"@ + type_name_of(a) + "' and '"@
        + type_name_of(b) + "'"@
}

/// The error that an arithmetic outcome turns into.
pub open spec fn arith_matches(r: Result<Object, RunError>, a: Arith) -> bool {
    match a {
        Arith::Value(v) => r == Ok::<Object, RunError>(Object::Int(v as i64)),
        Arith::Raise(k, m) => r matches Err(RunError::Exc(e)) && e.exc_type == k && opt_text(
            e.message,
        ) == Some(m),
        Arith::Unsupported(m) => r matches Err(RunError::Internal(x)) && x@ == m,
    }
}

/// The error is a `TypeError` with the given message.
pub open spec fn is_type_error<T>(r: Result<T, RunError>, m: Seq<char>) -> bool {
    r matches Err(RunError::Exc(e)) && e.exc_type == ExcType::TypeError && opt_text(e.message)
        == Some(m)
}

fn magnitude(x: i64) -> (r: u64)
    ensures
        r == abs(x as int),
{
    if x >= 0 {
        x as u64
    } else if x == i64::MIN {
        9223372036854775808u64
    } else {
        (-x) as u64
    }
}

/// `v` when `negative` is false, else `-v`, where that fits in 64 bits.
fn signed(v: u64, negative: bool) -> (r: Option<i64>)
    ensures
        match r {
            Some(x) => x == if negative {
                -(v as int)
            } else {
                v as int
            },
            None => !(i64::MIN <= (if negative {
                -(v as int)
            } else {
                v as int
            }) <= i64::MAX),
        },
{
    if negative {
        if v <= 9223372036854775807u64 {
            Some(-(v as i64))
        } else if v == 9223372036854775808u64 {
            Some(i64::MIN)
        } else {
            None
        }
    } else if v <= 9223372036854775807u64 {
        Some(v as i64)
    } else {
        None
    }
}

fn overflow() -> (r: RunError)
    ensures
        r matches RunError::Exc(e) && e.exc_type == ExcType::OverflowError && opt_text(e.message)
            == Some(overflow_message()),
{
    RunError::exc(ExcType::OverflowError, "integer overflow")
}

fn from_checked(v: Option<i64>) -> (r: Result<i64, RunError>)
    ensures
        v matches Some(x) ==> r == Ok::<i64, RunError>(x),
        v is None ==> (r matches Err(RunError::Exc(e)) && e.exc_type == ExcType::OverflowError
            && opt_text(e.message) == Some(overflow_message())),
{
    match v {
        Some(x) => Ok(x),
        None => Err(overflow()),
    }
}

fn floor_div_i64(x: i64, y: i64) -> (r: Option<i64>)
    requires
        y != 0,
    ensures
        match r {
            Some(q) => q == floor_div(x as int, y as int),
            None => !(i64::MIN <= floor_div(x as int, y as int) <= i64::MAX),
        },
{
    let xa = magnitude(x);
    let ya = magnitude(y);
    if (x < 0) == (y < 0) {
        signed(xa / ya, false)
    } else {
        signed((xa + (ya - 1)) / ya, true)
    }
}

fn floor_mod_i64(x: i64, y: i64) -> (r: Option<i64>)
    requires
        y != 0,
    ensures
        match r {
            Some(q) => q == floor_mod(x as int, y as int),
            None => !(i64::MIN <= floor_mod(x as int, y as int) <= i64::MAX),
        },
{
    let xa = magnitude(x);
    let ya = magnitude(y);
    let m = xa % ya;
    if m == 0 {
        Some(0)
    } else if (x < 0) == (y < 0) {
        signed(m, y < 0)
    } else {
        signed(ya - m, y < 0)
    }
}

proof fn lemma_power_step(x: int, e: nat)
    ensures
        power(x, e + 1) == x * power(x, e),
{
    assert(power(x, e + 1) == x * power(x, ((e + 1) - 1) as nat));
}

proof fn lemma_abs_mul(a: int, b: int)
    ensures
        abs(a * b) == abs(a) * abs(b),
{
    if a < 0 && b < 0 {
        assert(a * b == (-a) * (-b)) by (nonlinear_arith);
        assert((-a) * (-b) >= 0) by (nonlinear_arith)
            requires
                -a > 0,
                -b > 0,
        ;
    } else if a < 0 {
        assert(a * b == -((-a) * b)) by (nonlinear_arith);
        assert((-a) * b >= 0) by (nonlinear_arith)
            requires
                -a > 0,
                b >= 0,
        ;
    } else if b < 0 {
        assert(a * b == -(a * (-b))) by (nonlinear_arith);
        assert(a * (-b) >= 0) by (nonlinear_arith)
            requires
                a >= 0,
                -b > 0,
        ;
    } else {
        assert(a * b >= 0) by (nonlinear_arith)
            requires
                a >= 0,
                b >= 0,
        ;
    }
}

/// Each further factor of magnitude at least two at least doubles a product.
proof fn lemma_product_grows(c: int, x: int, i: nat, j: nat)
    requires
        abs(x) >= 2,
        i < j,
    ensures
        abs(c * power(x, j)) >= 2 * abs(c * power(x, i)),
    decreases j - i,
{
    lemma_power_step(x, (j - 1) as nat);
    assert(c * power(x, j) == x * (c * power(x, (j - 1) as nat))) by (nonlinear_arith)
        requires
            power(x, j) == x * power(x, (j - 1) as nat),
    ;
    lemma_abs_mul(x, c * power(x, (j - 1) as nat));
    let m = abs(c * power(x, (j - 1) as nat));
    assert(abs(x) * m >= 2 * m) by (nonlinear_arith)
        requires
            abs(x) >= 2,
            m >= 0,
    ;
    if i < j - 1 {
        lemma_product_grows(c, x, i, (j - 1) as nat);
    }
}

/// `c * x^k`, one factor at a time, where every partial product fits.
fn scale_power(c: i64, x: i64, e: i64) -> (r: Option<i64>)
    requires
        c != 0,
        abs(x as int) >= 2,
        e >= 0,
    ensures
        match r {
            Some(v) => v == c * power(x as int, e as nat),
            None => !(i64::MIN <= c * power(x as int, e as nat) <= i64::MAX),
        },
{
    let mut acc: i64 = c;
    let mut k: i64 = 0;
    while k < e
        invariant
            c != 0,
            abs(x as int) >= 2,
            0 <= k <= e,
            acc == c * power(x as int, k as nat),
        decreases e - k,
    {
        proof {
            lemma_power_step(x as int, k as nat);
            assert(c * power(x as int, (k + 1) as nat) == acc * x) by (nonlinear_arith)
                requires
                    power(x as int, (k + 1) as nat) == x * power(x as int, k as nat),
                    acc == c * power(x as int, k as nat),
            ;
        }
        match acc.checked_mul(x) {
            Some(v) => {
                acc = v;
            },
            None => {
                proof {
                    let p = c * power(x as int, (k + 1) as nat);
                    assert(abs(p) >= 0x8000_0000_0000_0000);
                    if k + 1 < e {
                        lemma_product_grows(c as int, x as int, (k + 1) as nat, e as nat);
                    }
                }
                return None;
            },
        }
        k = k + 1;
    }
    Some(acc)
}

fn pow_i64(x: i64, y: i64) -> (r: Option<i64>)
    requires
        y >= 0,
    ensures
        match r {
            Some(v) => v == power(x as int, y as nat),
            None => !(i64::MIN <= power(x as int, y as nat) <= i64::MAX),
        },
{
    if x == 0 || x == 1 || x == -1 {
        proof {
            lemma_small_power(x as int, y as nat);
        }
        if x == 0 {
            if y == 0 { Some(1) } else { Some(0) }
        } else if x == 1 {
            Some(1)
        } else if y % 2 == 0 {
            Some(1)
        } else {
            Some(-1)
        }
    } else {
        let r = scale_power(1, x, y);
        assert(1 * power(x as int, y as nat) == power(x as int, y as nat));
        r
    }
}

proof fn lemma_small_power(x: int, e: nat)
    requires
        x == 0 || x == 1 || x == -1,
    ensures
        x == 0 ==> power(x, e) == if e == 0 { 1int } else { 0int },
        x == 1 ==> power(x, e) == 1,
        x == -1 ==> power(x, e) == if e % 2 == 0 { 1int } else { -1int },
    decreases e,
{
    if e > 0 {
        lemma_small_power(x, (e - 1) as nat);
    }
}

fn shl_i64(x: i64, y: i64) -> (r: Option<i64>)
    requires
        y >= 0,
    ensures
        match r {
            Some(v) => v == x * power(2, y as nat),
            None => !(i64::MIN <= x * power(2, y as nat) <= i64::MAX),
        },
{
    if x == 0 {
        assert(x * power(2, y as nat) == 0);
        Some(0)
    } else {
        scale_power(x, 2, y)
    }
}

/// Applies an arithmetic operator to two integers (see `int_arith`).
pub fn int_binary_op(op: Operator, x: i64, y: i64) -> (r: Result<Object, RunError>)
    requires
        is_int_op(op),
    ensures
        arith_matches(r, int_arith(op, x, y)),
{
    match op {
        Operator::Add => {
            let v = from_checked(x.checked_add(y))?;
            Ok(Object::Int(v))
        },
        Operator::Sub => {
            let v = from_checked(x.checked_sub(y))?;
            Ok(Object::Int(v))
        },
        Operator::Mult => {
            let v = from_checked(x.checked_mul(y))?;
            Ok(Object::Int(v))
        },
        Operator::Div => {
            if y == 0 {
                Err(RunError::exc(ExcType::ZeroDivisionError, "division by zero"))
            } else if magnitude(x) % magnitude(y) == 0 {
                let v = from_checked(floor_div_i64(x, y))?;
                Ok(Object::Int(v))
            } else {
                Err(RunError::Internal(String::from_str("division with a fractional result")))
            }
        },
        Operator::FloorDiv => {
            if y == 0 {
                Err(
                    RunError::exc(ExcType::ZeroDivisionError, "integer division or modulo by zero"),
                )
            } else {
                let v = from_checked(floor_div_i64(x, y))?;
                Ok(Object::Int(v))
            }
        },
        Operator::Mod => {
            if y == 0 {
                Err(
                    RunError::exc(ExcType::ZeroDivisionError, "integer division or modulo by zero"),
                )
            } else {
                let v = from_checked(floor_mod_i64(x, y))?;
                Ok(Object::Int(v))
            }
        },
        Operator::BitAnd => Ok(Object::Int(x & y)),
        Operator::BitOr => Ok(Object::Int(x | y)),
        Operator::BitXor => Ok(Object::Int(x ^ y)),
        Operator::Pow => {
            if y < 0 {
                Err(RunError::Internal(String::from_str("a negative exponent")))
            } else {
                let v = from_checked(pow_i64(x, y))?;
                Ok(Object::Int(v))
            }
        },
        Operator::LShift => {
            if y < 0 {
                Err(RunError::exc(ExcType::ValueError, "negative shift count"))
            } else {
                let v = from_checked(shl_i64(x, y))?;
                Ok(Object::Int(v))
            }
        },
        _ => {
            if y < 0 {
                Err(RunError::exc(ExcType::ValueError, "negative shift count"))
            } else if y >= 63 {
                Ok(Object::Int(x >> 63u32))
            } else {
                Ok(Object::Int(x >> (y as u32)))
            }
        },
    }
}

} // verus!

verus! {

/// An arithmetic outcome as a result.
pub open spec fn arith_outcome(a: Arith) -> Result<Object, Fault> {
    match a {
        Arith::Value(v) => Ok(Object::Int(v as i64)),
        Arith::Raise(k, m) => Err(Fault::Exc(k, Some(m))),
        Arith::Unsupported(m) => Err(Fault::Internal(m)),
    }
}

/// What a binary operator gives on two objects, from heap `h` with `mem` bytes
/// charged: the new heap, the new charge and the result.
///
/// `and` / `or` pick an operand by truthiness; two integers go through
/// `int_arith`; two strings concatenate under `+` into a new heap string; any
/// other pairing raises `TypeError` naming both operand types.
pub open spec fn binop_spec(
    op: Operator,
    a: Object,
    b: Object,
    h: Seq<HeapValue>,
    mem: nat,
    l: ResourceLimits,
) -> (Seq<HeapValue>, nat, Result<Object, Fault>) {
    if op is And {
        (h, mem, Ok(if truthy(a, h) { b } else { a }))
    } else if op is Or {
        (h, mem, Ok(if truthy(a, h) { a } else { b }))
    } else if is_int_op(op) && a is Int && b is Int {
        (h, mem, arith_outcome(int_arith(op, a->Int_0, b->Int_0)))
    } else if op is Add && a is Ref && b is Ref {
        alloc_spec(h, mem, l, ref_text(a, h) + ref_text(b, h))
    } else {
        (h, mem, Err(Fault::Exc(ExcType::TypeError, Some(operand_error_message(op, a, b)))))
    }
}

/// The text of a string object.
pub open spec fn ref_text(o: Object, h: Seq<HeapValue>) -> Seq<char> {
    match o {
        Object::Ref(id) => heap_text(h, id),
        _ => Seq::empty(),
    }
}

/// Applies a binary operator to two objects.
///
/// See `binop_spec`.
pub fn binary_op(
    op: Operator,
    a: Object,
    b: Object,
    heap: &mut Heap,
    tracker: &mut LimitedTracker,
) -> (r: Result<Object, RunError>)
    requires
        obj_valid(a, old(heap)@),
        obj_valid(b, old(heap)@),
    ensures
        final(tracker).limits() == old(tracker).limits(),
        final(tracker).instructions() == old(tracker).instructions(),
        heap_grows(old(heap)@, final(heap)@),
        charged_within(*old(tracker), *final(tracker)),
        r matches Ok(o) ==> obj_valid(o, final(heap)@),
        binop_spec(op, a, b, old(heap)@, old(tracker).memory(), old(tracker).limits()) == (
            final(heap)@,
            final(tracker).memory(),
            outcome(r),
        ),
{
    match op {
        Operator::And => {
            return Ok(
                if a.bool(heap).unwrap() {
                    b
                } else {
                    a
                },
            );
        },
        Operator::Or => {
            return Ok(
                if a.bool(heap).unwrap() {
                    a
                } else {
                    b
                },
            );
        },
        _ => {},
    }
    if op != Operator::MatMult {
        match (a, b) {
            (Object::Int(x), Object::Int(y)) => {
                return int_binary_op(op, x, y);
            },
            _ => {},
        }
    }
    match (op, a, b) {
        (Operator::Add, Object::Ref(x), Object::Ref(y)) => {
            let mut s = String::from_str(heap_str(heap, x));
            s.append(heap_str(heap, y));
            let ghost h0 = heap@;
            let r = allocate_str(heap, tracker, s);
            proof {
                assert(heap_grows(h0, heap@));
                match r {
                    Ok(o) => {},
                    Err(_) => {},
                }
            }
            r
        },
        _ => {
            let mut m = String::from_str("unsupported operand type(s) for ");
            m.append(op.symbol());
            m.append(": '");
            m.append(a.py_type());
            m.append("' and '");
            m.append(b.py_type());
            m.append("'");
            Err(RunError::exc(ExcType::TypeError, m.as_str()))
        },
    }
}

} // verus!

verus! {

/// Comparison operators, which always give a boolean.
#[derive(Debug, Clone, Copy, PartialEq, Eq, Structural)]
pub enum CmpOperator {
    Eq,
    NotEq,
    Lt,
    LtE,
    Gt,
    GtE,
    Is,
    IsNot,
    In,
    NotIn,
    /// `left % right == v`.
    ModEq(i64),
}

/// The result of a comparison: a boolean or an exception.
pub enum CmpOutcome {
    Bool(bool),
    Raise(ExcType, Seq<char>),
}

/// Three-way comparison of two strings from position `i`, by code point.
pub open spec fn cmp_from(a: Seq<char>, b: Seq<char>, i: int) -> int
    decreases a.len() - i,
{
    if i >= a.len() && i >= b.len() {
        0
    } else if i >= a.len() {
        -1
    } else if i >= b.len() {
        1
    } else if (a[i] as u32) < (b[i] as u32) {
        -1
    } else if (a[i] as u32) > (b[i] as u32) {
        1
    } else {
        cmp_from(a, b, i + 1)
    }
}

/// Lexicographic three-way comparison of two strings: -1, 0 or 1.
pub open spec fn text_cmp(a: Seq<char>, b: Seq<char>) -> int {
    cmp_from(a, b, 0)
}

/// Whether `needle` occurs in `hay` at position `i`.
pub open spec fn occurs_at(hay: Seq<char>, needle: Seq<char>, i: int) -> bool {
    0 <= i && i + needle.len() <= hay.len() && hay.subrange(i, i + needle.len()) == needle
}

/// Whether `needle` occurs anywhere in `hay`.
pub open spec fn holds_text(hay: Seq<char>, needle: Seq<char>) -> bool {
    exists|i: int| occurs_at(hay, needle, i)
}

/// Equality of two objects: numbers by value, strings by text, ranges by
/// bound, exceptions by identity.
pub open spec fn obj_eq(a: Object, b: Object, h: Seq<HeapValue>) -> bool {
    if int_value(a) is Some && int_value(b) is Some {
        int_value(a) == int_value(b)
    } else {
        match (a, b) {
            (Object::PyNone, Object::PyNone) => true,
            (Object::Range(n), Object::Range(m)) => n == m,
            (Object::Ref(_), Object::Ref(_)) => ref_text(a, h) == ref_text(b, h),
            (Object::Exception { .. }, Object::Exception { .. }) => a == b,
            _ => false,
        }
    }
}

/// The three-way order of two numbers or two strings.
pub open spec fn obj_order(a: Object, b: Object, h: Seq<HeapValue>) -> Option<int> {
    if int_value(a) is Some && int_value(b) is Some {
        let x = int_value(a).unwrap();
        let y = int_value(b).unwrap();
        Some(
            if x < y {
                -1
            } else if x > y {
                1
            } else {
                0
            },
        )
    } else if a is Ref && b is Ref {
        Some(text_cmp(ref_text(a, h), ref_text(b, h)))
    } else {
        None
    }
}

pub open spec fn cmp_symbol(op: CmpOperator) -> Seq<char> {
    match op {
        CmpOperator::Lt => "<"@,
        CmpOperator::LtE => "<="@,
        CmpOperator::Gt => ">"@,
        _ => ">="@,
    }
}

/// Membership: an integer in a range, a string in a string.
pub open spec fn membership(a: Object, b: Object, h: Seq<HeapValue>) -> CmpOutcome {
    match b {
        Object::Range(n) => CmpOutcome::Bool(
            match int_value(a) {
                Some(v) => 0 <= v < n,
                None => false,
            },
        ),
        Object::Ref(_) => if a is Ref {
            CmpOutcome::Bool(holds_text(ref_text(b, h), ref_text(a, h)))
        } else {
            CmpOutcome::Raise(
                ExcType::TypeError,
                "'in <string>' requires string as left operand, not "@ + type_name_of(a),
            )
        },
        _ => CmpOutcome::Raise(
            ExcType::TypeError,
            "argument of type '"@ + type_name_of(b) + "' is not iterable"@,
        ),
    }
}

pub open spec fn negate(o: CmpOutcome) -> CmpOutcome {
    match o {
        CmpOutcome::Bool(v) => CmpOutcome::Bool(!v),
        _ => o,
    }
}

/// What a comparison of two objects gives.
pub open spec fn compare_spec(op: CmpOperator, a: Object, b: Object, h: Seq<HeapValue>) -> CmpOutcome {
    match op {
        CmpOperator::Eq => CmpOutcome::Bool(obj_eq(a, b, h)),
        CmpOperator::NotEq => CmpOutcome::Bool(!obj_eq(a, b, h)),
        CmpOperator::Is => CmpOutcome::Bool(a == b),
        CmpOperator::IsNot => CmpOutcome::Bool(a != b),
        CmpOperator::In => membership(a, b, h),
        CmpOperator::NotIn => negate(membership(a, b, h)),
        CmpOperator::ModEq(v) => if int_value(a) is Some && int_value(b) is Some {
            if int_value(b) == Some(0int) {
                CmpOutcome::Raise(ExcType::ZeroDivisionError, "integer division or modulo by zero"@)
            } else {
                CmpOutcome::Bool(floor_mod(int_value(a).unwrap(), int_value(b).unwrap()) == v)
            }
        } else {
            CmpOutcome::Raise(ExcType::TypeError, operand_error_message(Operator::Mod, a, b))
        },
        _ => match obj_order(a, b, h) {
            Some(c) => CmpOutcome::Bool(
                match op {
                    CmpOperator::Lt => c < 0,
                    CmpOperator::LtE => c <= 0,
                    CmpOperator::Gt => c > 0,
                    _ => c >= 0,
                },
            ),
            None => CmpOutcome::Raise(
                ExcType::TypeError,
                "'"@ + cmp_symbol(op) + "' not supported between instances of '"@ + type_name_of(a)
                    + "' and '"@ + type_name_of(b) + "'"@,
            ),
        },
    }
}

pub open spec fn cmp_matches(r: Result<bool, RunError>, o: CmpOutcome) -> bool {
    match o {
        CmpOutcome::Bool(v) => r == Ok::<bool, RunError>(v),
        CmpOutcome::Raise(k, m) => r matches Err(RunError::Exc(e)) && e.exc_type == k && opt_text(
            e.message,
        ) == Some(m),
    }
}

fn text_compare(a: &str, b: &str) -> (r: i8)
    ensures
        r as int == text_cmp(a@, b@),
{
    let n = a.unicode_len();
    let m = b.unicode_len();
    let mut i: usize = 0;
    while i < n && i < m
        invariant
            n == a@.len(),
            m == b@.len(),
            i <= n,
            i <= m,
            cmp_from(a@, b@, 0) == cmp_from(a@, b@, i as int),
        decreases n - i,
    {
        let x = a.get_char(i);
        let y = b.get_char(i);
        if (x as u32) < (y as u32) {
            return -1;
        }
        if (x as u32) > (y as u32) {
            return 1;
        }
        i = i + 1;
    }
    if i >= n && i >= m {
        0
    } else if i >= n {
        -1
    } else {
        1
    }
}

fn text_holds(hay: &str, needle: &str) -> (r: bool)
    ensures
        r == holds_text(hay@, needle@),
{
    let n = hay.unicode_len();
    let k = needle.unicode_len();
    if k > n {
        return false;
    }
    let mut i: usize = 0;
    loop
        invariant
            n == hay@.len(),
            k == needle@.len(),
            k <= n,
            i <= n - k,
            forall|j: int| 0 <= j < i ==> !occurs_at(hay@, needle@, j),
        decreases n - k - i,
    {
        if str_eq(hay.substring_char(i, i + k), needle) {
            assert(occurs_at(hay@, needle@, i as int));
            return true;
        }
        if i == n - k {
            return false;
        }
        i = i + 1;
    }
}

fn type_error(m: &str) -> (r: RunError)
    ensures
        r matches RunError::Exc(e) && e.exc_type == ExcType::TypeError && opt_text(e.message)
            == Some(m@),
{
    RunError::exc(ExcType::TypeError, m)
}

fn contains(a: Object, b: Object, heap: &Heap) -> (r: Result<bool, RunError>)
    requires
        obj_valid(a, heap@),
        obj_valid(b, heap@),
    ensures
        cmp_matches(r, membership(a, b, heap@)),
{
    match b {
        Object::Range(n) => match a.as_int() {
            Some(v) => Ok(0 <= v && v < n),
            None => Ok(false),
        },
        Object::Ref(y) => match a {
            Object::Ref(x) => Ok(text_holds(heap_str(heap, y), heap_str(heap, x))),
            _ => {
                let mut m = String::from_str("'in <string>' requires string as left operand, not ");
                m.append(a.py_type());
                Err(type_error(m.as_str()))
            },
        },
        _ => {
            let mut m = String::from_str("argument of type '");
            m.append(b.py_type());
            m.append("' is not iterable");
            Err(type_error(m.as_str()))
        },
    }
}

fn objects_equal(a: Object, b: Object, heap: &Heap) -> (r: bool)
    requires
        obj_valid(a, heap@),
        obj_valid(b, heap@),
    ensures
        r == obj_eq(a, b, heap@),
{
    match (a.as_int(), b.as_int()) {
        (Some(x), Some(y)) => {
            return x == y;
        },
        _ => {},
    }
    match (a, b) {
        (Object::PyNone, Object::PyNone) => true,
        (Object::Range(n), Object::Range(m)) => n == m,
        (Object::Ref(x), Object::Ref(y)) => str_eq(heap_str(heap, x), heap_str(heap, y)),
        (Object::Exception { .. }, Object::Exception { .. }) => a == b,
        _ => false,
    }
}

/// Compares two objects (see `compare_spec`).
pub fn compare(op: CmpOperator, a: Object, b: Object, heap: &Heap) -> (r: Result<bool, RunError>)
    requires
        obj_valid(a, heap@),
        obj_valid(b, heap@),
    ensures
        cmp_matches(r, compare_spec(op, a, b, heap@)),
{
    match op {
        CmpOperator::Eq => Ok(objects_equal(a, b, heap)),
        CmpOperator::NotEq => Ok(!objects_equal(a, b, heap)),
        CmpOperator::Is => Ok(a == b),
        CmpOperator::IsNot => Ok(a != b),
        CmpOperator::In => contains(a, b, heap),
        CmpOperator::NotIn => match contains(a, b, heap) {
            Ok(v) => Ok(!v),
            Err(e) => Err(e),
        },
        CmpOperator::ModEq(v) => match (a.as_int(), b.as_int()) {
            (Some(x), Some(y)) => {
                if y == 0 {
                    Err(
                        RunError::exc(
                            ExcType::ZeroDivisionError,
                            "integer division or modulo by zero",
                        ),
                    )
                } else {
                    match floor_mod_i64(x, y) {
                        Some(m) => Ok(m == v),
                        None => Ok(false),
                    }
                }
            },
            _ => {
                let mut m = String::from_str("unsupported operand type(s) for ");
                m.append(Operator::Mod.symbol());
                m.append(": '");
                m.append(a.py_type());
                m.append("' and '");
                m.append(b.py_type());
                m.append("'");
                Err(type_error(m.as_str()))
            },
        },
        _ => {
            let c: i8 = match (a.as_int(), b.as_int(), a, b) {
                (Some(x), Some(y), _, _) => if x < y {
                    -1
                } else if x > y {
                    1
                } else {
                    0
                },
                (_, _, Object::Ref(x), Object::Ref(y)) => text_compare(
                    heap_str(heap, x),
                    heap_str(heap, y),
                ),
                _ => {
                    let mut m = String::from_str("'");
                    let sym = match op {
                        CmpOperator::Lt => "<",
                        CmpOperator::LtE => "<=",
                        CmpOperator::Gt => ">",
                        _ => ">=",
                    };
                    m.append(sym);
                    m.append("' not supported between instances of '");
                    m.append(a.py_type());
                    m.append("' and '");
                    m.append(b.py_type());
                    m.append("'");
                    return Err(type_error(m.as_str()));
                },
            };
            Ok(
                match op {
                    CmpOperator::Lt => c < 0,
                    CmpOperator::LtE => c <= 0,
                    CmpOperator::Gt => c > 0,
                    _ => c >= 0,
                },
            )
        },
    }
}

} // verus!

verus! {

impl Object {
    /// `self + other`. Two integers add exactly, or raise `OverflowError` where
    /// the sum leaves the 64-bit range; two strings concatenate into a new heap
    /// string; any other pairing (a boolean included) raises `TypeError`.
    pub fn add(self, other: Object, heap: &mut Heap, tracker: &mut LimitedTracker) -> (r: Result<
        Object,
        RunError,
    >)
        requires
            obj_valid(self, old(heap)@),
            obj_valid(other, old(heap)@),
        ensures
            heap_grows(old(heap)@, final(heap)@),
            charged_within(*old(tracker), *final(tracker)),
            r matches Ok(o) ==> obj_valid(o, final(heap)@),
            (self, other) matches (Object::Int(a), Object::Int(b)) ==> (if i64::MIN <= a + b
                <= i64::MAX {
                r == Ok::<Object, RunError>(Object::Int((a + b) as i64))
            } else {
                r matches Err(RunError::Exc(e)) && e.exc_type == ExcType::OverflowError
            }),
            (self, other) matches (Object::Ref(_), Object::Ref(_)) ==> alloc_spec(
                old(heap)@,
                old(tracker).memory(),
                old(tracker).limits(),
                ref_text(self, old(heap)@) + ref_text(other, old(heap)@),
            ) == (final(heap)@, final(tracker).memory(), outcome(r)),
            !(self is Int && other is Int) && !(self is Ref && other is Ref) ==> is_type_error(
                r,
                operand_error_message(Operator::Add, self, other),
            ),
            binop_spec(
                Operator::Add,
                self,
                other,
                old(heap)@,
                old(tracker).memory(),
                old(tracker).limits(),
            ) == (final(heap)@, final(tracker).memory(), outcome(r)),
    {
        binary_op(Operator::Add, self, other, heap, tracker)
    }

    /// `self - other`, on two integers; any other pairing raises `TypeError`.
    pub fn sub(self, other: Object, heap: &Heap) -> (r: Result<Object, RunError>)
        requires
            obj_valid(self, heap@),
            obj_valid(other, heap@),
        ensures
            (self, other) matches (Object::Int(a), Object::Int(b)) ==> arith_matches(
                r,
                checked(a - b),
            ),
            !(self is Int && other is Int) ==> is_type_error(
                r,
                operand_error_message(Operator::Sub, self, other),
            ),
    {
        match (self, other) {
            (Object::Int(x), Object::Int(y)) => int_binary_op(Operator::Sub, x, y),
            _ => {
                let mut m = String::from_str("unsupported operand type(s) for ");
                m.append(Operator::Sub.symbol());
                m.append(": '");
                m.append(self.py_type());
                m.append("' and '");
                m.append(other.py_type());
                m.append("'");
                Err(type_error(m.as_str()))
            },
        }
    }

    /// `self == other`, as a boolean object.
    pub fn eq(self, other: Object, heap: &Heap) -> (r: Object)
        requires
            obj_valid(self, heap@),
            obj_valid(other, heap@),
        ensures
            r == Object::Bool(obj_eq(self, other, heap@)),
    {
        Object::Bool(objects_equal(self, other, heap))
    }

    /// The negation of a boolean; `None` for any other object.
    pub fn invert(&self) -> (r: Option<Object>)
        ensures
            match *self {
                Object::Bool(b) => r == Some(Object::Bool(!b)),
                _ => r is None,
            },
    {
        match self {
            Object::Bool(b) => Some(Object::Bool(!*b)),
            _ => None,
        }
    }
}

} // verus!

verus! {

/// The symbol of each comparison in source text; `ModEq(v)` reads `% X == v`.
pub open spec fn cmp_text(op: CmpOperator) -> Seq<char> {
    match op {
        CmpOperator::Eq => "=="@,
        CmpOperator::NotEq => "!="@,
        CmpOperator::Lt => "<"@,
        CmpOperator::LtE => "<="@,
        CmpOperator::Gt => ">"@,
        CmpOperator::GtE => ">="@,
        CmpOperator::Is => "is"@,
        CmpOperator::IsNot => "is not"@,
        CmpOperator::In => "in"@,
        CmpOperator::NotIn => "not in"@,
        CmpOperator::ModEq(v) => "% X == "@ + int_text(v as int),
    }
}

impl CmpOperator {
    /// The operator as source text writes it.
    pub fn text(&self) -> (r: String)
        ensures
            r@ == cmp_text(*self),
    {
        let s = match self {
            CmpOperator::Eq => "==",
            CmpOperator::NotEq => "!=",
            CmpOperator::Lt => "<",
            CmpOperator::LtE => "<=",
            CmpOperator::Gt => ">",
            CmpOperator::GtE => ">=",
            CmpOperator::Is => "is",
            CmpOperator::IsNot => "is not",
            CmpOperator::In => "in",
            CmpOperator::NotIn => "not in",
            CmpOperator::ModEq(v) => {
                let mut r = String::from_str("% X == ");
                append_int(&mut r, *v);
                return r;
            },
        };
        String::from_str(s)
    }
}

} // verus!

verus! {

/// No two operators share a symbol, so a symbol picks at most one operator.
pub proof fn lemma_op_symbols_distinct(a: Operator, b: Operator)
    ensures
        op_symbol(a) == op_symbol(b) ==> a == b,
{
    reveal_strlit("+");
    reveal_strlit("-");
    reveal_strlit("*");
    reveal_strlit("@");
    reveal_strlit("/");
    reveal_strlit("%");
    reveal_strlit("**");
    reveal_strlit("<<");
    reveal_strlit(">>");
    reveal_strlit("|");
    reveal_strlit("^");
    reveal_strlit("&");
    reveal_strlit("//");
    reveal_strlit("and");
    reveal_strlit("or");
    if op_symbol(a) == op_symbol(b) && a != b {
        assert(op_symbol(a).len() == op_symbol(b).len());
        assert(op_symbol(a)[0] == op_symbol(b)[0]);
        assert(op_symbol(a)[1] == op_symbol(b)[1]);
        match a {
            Operator::Add => {},
            Operator::Sub => {},
            Operator::Mult => {},
            Operator::MatMult => {},
            Operator::Div => {},
            Operator::Mod => {},
            Operator::Pow => {},
            Operator::LShift => {},
            Operator::RShift => {},
            Operator::BitOr => {},
            Operator::BitXor => {},
            Operator::BitAnd => {},
            Operator::FloorDiv => {},
            Operator::And => {},
            Operator::Or => {},
        }
    }
}

} // verus!
