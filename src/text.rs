//! Character-sequence helpers shared by the lexer and the IR emitter.
use vstd::prelude::*;

verus! {

/// Copies the characters of `s` into a vector.
pub fn chars_of(s: &str) -> (r: Vec<char>)
    ensures
        r@ == s@,
{
    let mut r: Vec<char> = Vec::new();
    for c in it: s.chars()
        invariant
            r@ == it.seq().take(it.index() as int),
            it.seq() == s@,
    {
        r.push(c);
    }
    r
}

/// Appends the characters of `s` to `out`.
pub fn push_str(out: &mut Vec<char>, s: &str)
    ensures
        final(out)@ == old(out)@ + s@,
{
    let n = s.unicode_len();
    let mut i: usize = 0;
    while i < n
        invariant
            n == s@.len(),
            i <= n,
            out@ == old(out)@ + s@.take(i as int),
        decreases n - i,
    {
        let c = s.get_char(i);
        out.push(c);
        i = i + 1;
        assert(s@.take(i as int) =~= s@.take((i - 1) as int).push(c));
    }
    assert(s@.take(n as int) =~= s@);
}


/// Whether `c` has the Unicode `White_Space` property.
pub open spec fn is_white(c: char) -> bool {
    let u = c as u32;
    (0x09 <= u <= 0x0d) || u == 0x20 || u == 0x85 || u == 0xa0 || u == 0x1680
        || (0x2000 <= u <= 0x200a) || u == 0x2028 || u == 0x2029 || u == 0x202f
        || u == 0x205f || u == 0x3000
}

/// Whitespace test used by the lexer: the Unicode `White_Space` set.
pub fn is_space(c: char) -> (r: bool)
    ensures
        r == is_white(c),
{
    let u = c as u32;
    (0x09 <= u && u <= 0x0d) || u == 0x20 || u == 0x85 || u == 0xa0 || u == 0x1680
        || (0x2000 <= u && u <= 0x200a) || u == 0x2028 || u == 0x2029 || u == 0x202f
        || u == 0x205f || u == 0x3000
}

/// The ASCII character of decimal digit `d`.
pub open spec fn digit_char(d: nat) -> char {
    ((d + 48) as u8) as char
}

/// The hexadecimal digit of `d` (upper case).
pub open spec fn hex_char(d: nat) -> char {
    if d < 10 {
        ((d + 48) as u8) as char
    } else {
        ((d + 55) as u8) as char
    }
}

/// Decimal text of a natural number, without leading zeros.
pub open spec fn dec_nat(n: nat) -> Seq<char>
    decreases n,
{
    if n < 10 {
        seq![digit_char(n)]
    } else {
        dec_nat(n / 10).push(digit_char(n % 10))
    }
}

/// Decimal text of an integer, with a leading `-` when negative.
pub open spec fn dec_int(i: int) -> Seq<char> {
    if i < 0 {
        seq!['-'] + dec_nat((-i) as nat)
    } else {
        dec_nat(i as nat)
    }
}

/// Two upper-case hexadecimal digits of a byte.
pub open spec fn hex2(b: u8) -> Seq<char> {
    seq![hex_char((b / 16) as nat), hex_char((b % 16) as nat)]
}

/// Appends the decimal text of `n`.
pub fn push_u64(out: &mut Vec<char>, n: u64)
    ensures
        final(out)@ == old(out)@ + dec_nat(n as nat),
    decreases n,
{
    if n >= 10 {
        push_u64(out, n / 10);
    }
    let d = (n % 10) as u8;
    out.push((d + 48) as char);
}

/// Appends the decimal text of `v`, signed.
pub fn push_i64(out: &mut Vec<char>, v: i64)
    requires
        v > i64::MIN,
    ensures
        final(out)@ == old(out)@ + dec_int(v as int),
{
    if v < 0 {
        out.push('-');
        push_u64(out, (-v) as u64);
        assert(final(out)@ =~= old(out)@ + dec_int(v as int));
    } else {
        push_u64(out, v as u64);
    }
}

/// Appends the two upper-case hexadecimal digits of a byte.
pub fn push_hex2(out: &mut Vec<char>, b: u8)
    ensures
        final(out)@ == old(out)@ + hex2(b),
{
    let hi = b / 16;
    let lo = b % 16;
    out.push(if hi < 10 { (hi + 48) as char } else { (hi + 55) as char });
    out.push(if lo < 10 { (lo + 48) as char } else { (lo + 55) as char });
    assert(final(out)@ =~= old(out)@ + hex2(b));
}

/// Whether the characters of `w` are exactly those of `lit`.
pub fn eq_str(w: &Vec<char>, lit: &str) -> (r: bool)
    ensures
        r == (w@ == lit@),
{
    let n = w.len();
    let mut i: usize = 0;
    while i < n
        invariant
            n == w@.len(),
            i <= n,
            i <= lit@.len(),
            w@.take(i as int) == lit@.take(i as int),
        decreases n - i,
    {
        if i >= lit.unicode_len() {
            return false;
        }
        if w[i] != lit.get_char(i) {
            assert(w@[i as int] != lit@[i as int]);
            return false;
        }
        i = i + 1;
        assert(w@.take(i as int) =~= w@.take((i - 1) as int).push(w@[i - 1]));
        assert(lit@.take(i as int) =~= lit@.take((i - 1) as int).push(lit@[i - 1]));
    }
    if lit.unicode_len() != n {
        return false;
    }
    assert(w@ =~= w@.take(n as int));
    assert(lit@ =~= lit@.take(n as int));
    true
}

/// Whether two character vectors are equal.
pub fn eq_chars(a: &Vec<char>, b: &Vec<char>) -> (r: bool)
    ensures
        r == (a@ == b@),
{
    if a.len() != b.len() {
        return false;
    }
    let mut i: usize = 0;
    while i < a.len()
        invariant
            a@.len() == b@.len(),
            i <= a@.len(),
            forall|j: int| 0 <= j < i ==> a@[j] == b@[j],
        decreases a.len() - i,
    {
        if a[i] != b[i] {
            return false;
        }
        i = i + 1;
    }
    assert(a@ =~= b@);
    true
}

/// Appends the characters of `s` to `out`.
pub fn push_all(out: &mut Vec<char>, s: &Vec<char>)
    ensures
        final(out)@ == old(out)@ + s@,
{
    let mut i: usize = 0;
    while i < s.len()
        invariant
            i <= s@.len(),
            out@ == old(out)@ + s@.take(i as int),
        decreases s@.len() - i,
    {
        out.push(s[i]);
        i = i + 1;
        assert(s@.take(i as int) =~= s@.take((i - 1) as int).push(s@[i - 1]));
    }
    assert(s@.take(i as int) =~= s@);
}

} // verus!
