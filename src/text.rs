use vstd::prelude::*;

verus! {

/// The decimal digit for `d` in `0..10`.
pub open spec fn digit_char(d: int) -> char {
    if d == 0 {
        '0'
    } else if d == 1 {
        '1'
    } else if d == 2 {
        '2'
    } else if d == 3 {
        '3'
    } else if d == 4 {
        '4'
    } else if d == 5 {
        '5'
    } else if d == 6 {
        '6'
    } else if d == 7 {
        '7'
    } else if d == 8 {
        '8'
    } else {
        '9'
    }
}

/// Decimal text of a natural number, without leading zeros.
pub open spec fn nat_text(n: nat) -> Seq<char>
    decreases n,
{
    if n < 10 {
        seq![digit_char(n as int)]
    } else {
        nat_text(n / 10).push(digit_char((n % 10) as int))
    }
}

/// Decimal text of an integer, with a leading `-` when it is negative.
pub open spec fn int_text(v: int) -> Seq<char> {
    if v < 0 {
        seq!['-'] + nat_text((-v) as nat)
    } else {
        nat_text(v as nat)
    }
}

fn digit_str(d: u64) -> (r: &'static str)
    requires
        d < 10,
    ensures
        r@ == seq![digit_char(d as int)],
{
    proof {
        reveal_strlit("0");
        reveal_strlit("1");
        reveal_strlit("2");
        reveal_strlit("3");
        reveal_strlit("4");
        reveal_strlit("5");
        reveal_strlit("6");
        reveal_strlit("7");
        reveal_strlit("8");
        reveal_strlit("9");
    }
    let r = if d == 0 {
        "0"
    } else if d == 1 {
        "1"
    } else if d == 2 {
        "2"
    } else if d == 3 {
        "3"
    } else if d == 4 {
        "4"
    } else if d == 5 {
        "5"
    } else if d == 6 {
        "6"
    } else if d == 7 {
        "7"
    } else if d == 8 {
        "8"
    } else {
        "9"
    };
    assert(r@ =~= seq![digit_char(d as int)]);
    r
}

/// Appends the decimal text of `n`.
pub fn append_nat(out: &mut String, n: u64)
    ensures
        final(out)@ == old(out)@ + nat_text(n as nat),
    decreases n,
{
    if n >= 10 {
        append_nat(out, n / 10);
    }
    out.append(digit_str(n % 10));
    assert(final(out)@ =~= old(out)@ + nat_text(n as nat));
}

/// Appends the decimal text of `v`.
pub fn append_int(out: &mut String, v: i64)
    ensures
        final(out)@ == old(out)@ + int_text(v as int),
{
    if v < 0 {
        proof {
            reveal_strlit("-");
        }
        out.append("-");
        let n: u64 = if v == i64::MIN {
            9223372036854775808u64
        } else {
            (-v) as u64
        };
        append_nat(out, n);
        assert(final(out)@ =~= old(out)@ + int_text(v as int));
    } else {
        append_nat(out, v as u64);
    }
}

/// Decimal text of `v` as a new string.
pub fn int_to_text(v: i64) -> (r: String)
    ensures
        r@ == int_text(v as int),
{
    let mut r = String::new();
    append_int(&mut r, v);
    assert(r@ =~= int_text(v as int));
    r
}

/// How one character is written inside a quoted literal closed by `q`.
pub open spec fn escape_char(c: char, q: char) -> Seq<char> {
    if c == '\\' {
        seq!['\\', '\\']
    } else if c == q {
        seq!['\\', q]
    } else if c == '\n' {
        seq!['\\', 'n']
    } else if c == '\r' {
        seq!['\\', 'r']
    } else if c == '\t' {
        seq!['\\', 't']
    } else {
        seq![c]
    }
}

/// The characters of `s`, each written as inside a literal closed by `q`.
pub open spec fn escaped(s: Seq<char>, q: char) -> Seq<char>
    decreases s.len(),
{
    if s.len() == 0 {
        Seq::empty()
    } else {
        escaped(s.drop_last(), q) + escape_char(s.last(), q)
    }
}

/// The quote that closes the literal form of `s`: a double quote when `s` holds
/// a single quote and no double quote, else a single quote.
pub open spec fn quote_for(s: Seq<char>) -> char {
    if s.contains('\'') && !s.contains('"') {
        '"'
    } else {
        '\''
    }
}

/// The literal form of a string, as the language's `repr` writes it.
pub open spec fn quoted(s: Seq<char>) -> Seq<char> {
    seq![quote_for(s)] + escaped(s, quote_for(s)) + seq![quote_for(s)]
}

fn holds_char(s: &str, c: char) -> (r: bool)
    ensures
        r == s@.contains(c),
{
    let n = s.unicode_len();
    let mut i: usize = 0;
    while i < n
        invariant
            n == s@.len(),
            i <= n,
            forall|j: int| 0 <= j < i ==> s@[j] != c,
        decreases n - i,
    {
        if s.get_char(i) == c {
            return true;
        }
        i = i + 1;
    }
    false
}

fn escape_str(c: char, q: char) -> (r: Option<&'static str>)
    requires
        q == '\'' || q == '"',
    ensures
        match r {
            Some(e) => e@ == escape_char(c, q),
            None => escape_char(c, q) == seq![c],
        },
{
    proof {
        reveal_strlit("\\\\");
        reveal_strlit("\\'");
        reveal_strlit("\\\"");
        reveal_strlit("\\n");
        reveal_strlit("\\r");
        reveal_strlit("\\t");
    }
    if c == '\\' {
        let e = "\\\\";
        assert(e@ =~= escape_char(c, q));
        Some(e)
    } else if c == q && q == '\'' {
        let e = "\\'";
        assert(e@ =~= escape_char(c, q));
        Some(e)
    } else if c == q && q == '"' {
        let e = "\\\"";
        assert(e@ =~= escape_char(c, q));
        Some(e)
    } else if c == '\n' {
        let e = "\\n";
        assert(e@ =~= escape_char(c, q));
        Some(e)
    } else if c == '\r' {
        let e = "\\r";
        assert(e@ =~= escape_char(c, q));
        Some(e)
    } else if c == '\t' {
        let e = "\\t";
        assert(e@ =~= escape_char(c, q));
        Some(e)
    } else {
        None
    }
}

/// Appends the literal form of `s`.
pub fn append_quoted(out: &mut String, s: &str)
    ensures
        final(out)@ == old(out)@ + quoted(s@),
{
    let q = if holds_char(s, '\'') && !holds_char(s, '"') {
        '"'
    } else {
        '\''
    };
    proof {
        reveal_strlit("'");
        reveal_strlit("\"");
    }
    let qs = if q == '"' {
        "\""
    } else {
        "'"
    };
    assert(qs@ =~= seq![q]);
    out.append(qs);
    let n = s.unicode_len();
    let mut i: usize = 0;
    while i < n
        invariant
            n == s@.len(),
            i <= n,
            q == quote_for(s@),
            out@ == old(out)@ + seq![q] + escaped(s@.subrange(0, i as int), q),
        decreases n - i,
    {
        let c = s.get_char(i);
        match escape_str(c, q) {
            Some(e) => out.append(e),
            None => {
                let piece = s.substring_char(i, i + 1);
                assert(piece@ =~= seq![c]);
                out.append(piece);
            },
        }
        assert(s@.subrange(0, i + 1).drop_last() =~= s@.subrange(0, i as int));
        assert(out@ =~= old(out)@ + seq![q] + escaped(s@.subrange(0, i + 1), q));
        i = i + 1;
    }
    out.append(qs);
    assert(s@.subrange(0, n as int) =~= s@);
    assert(final(out)@ =~= old(out)@ + quoted(s@));
}

} // verus!

verus! {

/// Whether two strings hold the same characters.
pub fn str_eq(a: &str, b: &str) -> (r: bool)
    ensures
        r == (a@ == b@),
{
    let n = a.unicode_len();
    if n != b.unicode_len() {
        return false;
    }
    let mut i: usize = 0;
    while i < n
        invariant
            n == a@.len(),
            n == b@.len(),
            i <= n,
            forall|j: int| 0 <= j < i ==> a@[j] == b@[j],
        decreases n - i,
    {
        if a.get_char(i) != b.get_char(i) {
            return false;
        }
        i = i + 1;
    }
    assert(a@ =~= b@);
    true
}

} // verus!
