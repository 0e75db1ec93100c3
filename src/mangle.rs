//! Symbol names of compiled words: `w` followed by the escaped UTF-8 bytes.
use vstd::prelude::*;
use vstd::utf8::*;
use crate::text::{hex2, push_hex2};

verus! {

/// Whether a byte is copied unchanged: ASCII letters, digits and `_`.
pub open spec fn is_plain_byte(b: u8) -> bool {
    (48 <= b <= 57) || (65 <= b <= 90) || (97 <= b <= 122) || b == 95
}

/// The text that stands for one byte.
pub open spec fn byte_piece(b: u8) -> Seq<char> {
    if is_plain_byte(b) {
        seq![b as char]
    } else {
        seq!['_', 'x'] + hex2(b)
    }
}

/// The escaped text of a byte sequence.
pub open spec fn escape_bytes(b: Seq<u8>) -> Seq<char>
    decreases b.len(),
{
    if b.len() == 0 {
        seq![]
    } else {
        escape_bytes(b.drop_last()) + byte_piece(b.last())
    }
}

/// The symbol of the word named `w`.
pub open spec fn mangle(w: Seq<char>) -> Seq<char> {
    seq!['w'] + escape_bytes(encode_utf8(w))
}

pub proof fn lemma_escape_concat(a: Seq<u8>, b: Seq<u8>)
    ensures
        escape_bytes(a + b) == escape_bytes(a) + escape_bytes(b),
    decreases b.len(),
{
    if b.len() == 0 {
        assert(a + b =~= a);
        assert(escape_bytes(a) + escape_bytes(b) =~= escape_bytes(a));
    } else {
        lemma_escape_concat(a, b.drop_last());
        assert((a + b).drop_last() =~= a + b.drop_last());
        assert(escape_bytes(a) + escape_bytes(b) =~= escape_bytes(a) + escape_bytes(b.drop_last())
            + byte_piece(b.last()));
    }
}

pub proof fn lemma_encode_utf8_push(w: Seq<char>, c: char)
    ensures
        encode_utf8(w.push(c)) == encode_utf8(w) + encode_scalar(c as u32),
    decreases w.len(),
{
    if w.len() == 0 {
        assert(w.push(c).drop_first() =~= seq![]);
        assert(encode_utf8(seq![]) == Seq::<u8>::empty());
        assert(encode_scalar(c as u32) + Seq::<u8>::empty() =~= encode_scalar(c as u32));
        assert(Seq::<u8>::empty() + encode_scalar(c as u32) =~= encode_scalar(c as u32));
    } else {
        lemma_encode_utf8_push(w.drop_first(), c);
        assert(w.push(c).drop_first() =~= w.drop_first().push(c));
        assert(encode_scalar(w[0] as u32) + (encode_utf8(w.drop_first()) + encode_scalar(c as u32))
            =~= (encode_scalar(w[0] as u32) + encode_utf8(w.drop_first())) + encode_scalar(c as u32));
    }
}

/// The UTF-8 bytes of one character.
pub fn encode_char(c: char) -> (r: Vec<u8>)
    ensures
        r@ == encode_scalar(c as u32),
{
    let u = c as u32;
    proof {
        char_is_scalar(c);
    }
    let mut r: Vec<u8> = Vec::new();
    if u <= 0x7f {
        r.push((u & 0x7f) as u8);
    } else if u <= 0x7ff {
        r.push(0xc0 | ((u >> 6) & 0x1f) as u8);
        r.push(0x80 | (u & 0x3f) as u8);
    } else if u <= 0xffff {
        r.push(0xe0 | ((u >> 12) & 0x0f) as u8);
        r.push(0x80 | ((u >> 6) & 0x3f) as u8);
        r.push(0x80 | (u & 0x3f) as u8);
    } else {
        r.push(0xf0 | ((u >> 18) & 0x7) as u8);
        r.push(0x80 | ((u >> 12) & 0x3f) as u8);
        r.push(0x80 | ((u >> 6) & 0x3f) as u8);
        r.push(0x80 | (u & 0x3f) as u8);
    }
    assert(r@ =~= encode_scalar(c as u32));
    r
}

/// Appends the text that stands for byte `b`.
pub fn push_byte_piece(out: &mut Vec<char>, b: u8)
    ensures
        final(out)@ == old(out)@ + byte_piece(b),
{
    if (48 <= b && b <= 57) || (65 <= b && b <= 90) || (97 <= b && b <= 122) || b == 95 {
        out.push(b as char);
        assert(final(out)@ =~= old(out)@ + byte_piece(b));
    } else {
        out.push('_');
        out.push('x');
        push_hex2(out, b);
        assert(final(out)@ =~= old(out)@ + byte_piece(b));
    }
}

/// Appends the symbol of the word named `word`.
pub fn push_word_sym(out: &mut Vec<char>, word: &Vec<char>)
    ensures
        final(out)@ == old(out)@ + mangle(word@),
{
    out.push('w');
    let ghost start = old(out)@.push('w');
    let mut i: usize = 0;
    assert(encode_utf8(word@.take(0)) =~= seq![]) by {
        assert(word@.take(0) =~= seq![]);
    }
    while i < word.len()
        invariant
            i <= word@.len(),
            out@ == start + escape_bytes(encode_utf8(word@.take(i as int))),
            start == old(out)@.push('w'),
        decreases word@.len() - i,
    {
        let c = word[i];
        let bytes = encode_char(c);
        let ghost before = out@;
        let mut k: usize = 0;
        while k < bytes.len()
            invariant
                k <= bytes@.len(),
                out@ == before + escape_bytes(bytes@.take(k as int)),
            decreases bytes@.len() - k,
        {
            push_byte_piece(out, bytes[k]);
            proof {
                assert(bytes@.take(k + 1).drop_last() =~= bytes@.take(k as int));
            }
            k = k + 1;
        }
        proof {
            assert(bytes@.take(k as int) =~= bytes@);
            lemma_encode_utf8_push(word@.take(i as int), c);
            assert(word@.take(i + 1) =~= word@.take(i as int).push(c));
            lemma_escape_concat(encode_utf8(word@.take(i as int)), bytes@);
        }
        i = i + 1;
    }
    assert(word@.take(i as int) =~= word@);
    assert(out@ =~= old(out)@ + mangle(word@));
}

/// The symbol of the word named `word`.
pub fn llvm_word_sym(word: &Vec<char>) -> (r: Vec<char>)
    ensures
        r@ == mangle(word@),
{
    let mut r: Vec<char> = Vec::new();
    push_word_sym(&mut r, word);
    assert(r@ =~= mangle(word@));
    r
}

} // verus!
