//! Routine-alias pragmas: lines `( ROUTINE <alias> => <word> )` that bind a
//! definition to a native runtime kernel.
use vstd::prelude::*;
use crate::lexer::{find_char, lemma_find_char_bounds, slice_chars};
use crate::symbols::assoc_get;
use crate::text::{chars_of, eq_chars, is_space, is_white};

verus! {

/// First index at or after `i` that is not whitespace, or `s.len()`.
pub open spec fn skip_white(s: Seq<char>, i: int) -> int
    decreases s.len() - i,
{
    if i >= s.len() {
        s.len() as int
    } else if is_white(s[i]) {
        skip_white(s, i + 1)
    } else {
        i
    }
}

/// The end of `s[lo..j]` once trailing whitespace is dropped.
pub open spec fn back_white(s: Seq<char>, j: int, lo: int) -> int
    decreases j - lo,
{
    if j <= lo {
        lo
    } else if is_white(s[j - 1]) {
        back_white(s, j - 1, lo)
    } else {
        j
    }
}

/// `s` without leading and trailing whitespace.
pub open spec fn trim(s: Seq<char>) -> Seq<char> {
    let a = skip_white(s, 0);
    s.subrange(a, back_white(s, s.len() as int, a))
}

proof fn lemma_skip_white_bounds(s: Seq<char>, i: int)
    requires
        0 <= i <= s.len(),
    ensures
        i <= skip_white(s, i) <= s.len(),
    decreases s.len() - i,
{
    if i < s.len() && is_white(s[i]) {
        lemma_skip_white_bounds(s, i + 1);
    }
}

proof fn lemma_back_white_bounds(s: Seq<char>, j: int, lo: int)
    requires
        0 <= lo <= j <= s.len(),
    ensures
        lo <= back_white(s, j, lo) <= j,
    decreases j - lo,
{
    if j > lo && is_white(s[j - 1]) {
        lemma_back_white_bounds(s, j - 1, lo);
    }
}

/// `s` without leading and trailing whitespace.
pub fn trim_chars(s: &Vec<char>) -> (r: Vec<char>)
    ensures
        r@ == trim(s@),
{
    let mut a: usize = 0;
    while a < s.len() && is_space(s[a])
        invariant
            a <= s@.len(),
            skip_white(s@, 0) == skip_white(s@, a as int),
        decreases s@.len() - a,
    {
        a = a + 1;
    }
    let mut b: usize = s.len();
    while b > a && is_space(s[b - 1])
        invariant
            a <= b <= s@.len(),
            back_white(s@, s@.len() as int, a as int) == back_white(s@, b as int, a as int),
        decreases b,
    {
        b = b - 1;
    }
    slice_chars(s, a, b)
}

/// The characters of `( ROUTINE `.
pub open spec fn pragma_lead() -> Seq<char> {
    seq!['(', ' ', 'R', 'O', 'U', 'T', 'I', 'N', 'E', ' ']
}

/// The characters of `ROUTINE `.
pub open spec fn routine_kw() -> Seq<char> {
    seq!['R', 'O', 'U', 'T', 'I', 'N', 'E', ' ']
}

/// The characters of ` => `.
pub open spec fn arrow() -> Seq<char> {
    seq![' ', '=', '>', ' ']
}

/// Whether `s` begins with `p`.
pub open spec fn starts_with(s: Seq<char>, p: Seq<char>) -> bool {
    p.len() <= s.len() && s.take(p.len() as int) == p
}

/// First index at or after `i` where `p` occurs in `s`.
pub open spec fn find_sub(s: Seq<char>, p: Seq<char>, i: int) -> Option<int>
    decreases s.len() + 1 - i,
{
    if i < 0 || i + p.len() > s.len() {
        None
    } else if s.subrange(i, i + p.len()) == p {
        Some(i)
    } else {
        find_sub(s, p, i + 1)
    }
}

/// The `(word, alias)` pair that one line binds, if it is a routine pragma.
pub open spec fn routine_entry(line: Seq<char>) -> Option<(Seq<char>, Seq<char>)> {
    let t = trim(line);
    if !(starts_with(t, pragma_lead()) && t.last() == ')') {
        None
    } else {
        let body = trim(t.subrange(2, t.len() - 1));
        if !starts_with(body, routine_kw()) {
            None
        } else {
            let rest = body.skip(8);
            match find_sub(rest, arrow(), 0) {
                None => None,
                Some(k) => {
                    let alias = trim(rest.take(k));
                    let word = trim(rest.skip(k + 4));
                    if alias.len() > 0 && word.len() > 0 {
                        Some((word, alias))
                    } else {
                        None
                    }
                },
            }
        }
    }
}

/// The bindings of the lines of `s` from index `i` on, after `acc`.
pub open spec fn aliases_from(
    s: Seq<char>,
    i: int,
    acc: Seq<(Seq<char>, Seq<char>)>,
) -> Seq<(Seq<char>, Seq<char>)>
    decreases s.len() + 1 - i,
{
    if i < 0 || i > s.len() {
        acc
    } else {
        let j = find_char(s, i, '\n');
        proof {
            lemma_find_char_bounds(s, i, '\n');
        }
        let acc2 = match routine_entry(s.subrange(i, j)) {
            Some(p) => acc.push(p),
            None => acc,
        };
        aliases_from(s, j + 1, acc2)
    }
}

/// All routine bindings of a source text, in line order (later lines win).
pub open spec fn routine_aliases(s: Seq<char>) -> Seq<(Seq<char>, Seq<char>)> {
    aliases_from(s, 0, seq![])
}

/// A map from definition names to routine aliases; later bindings win.
pub struct AliasMap {
    pub entries: Vec<(Vec<char>, Vec<char>)>,
}

impl View for AliasMap {
    type V = Seq<(Seq<char>, Seq<char>)>;

    open spec fn view(&self) -> Seq<(Seq<char>, Seq<char>)> {
        self.entries@.map_values(|e: (Vec<char>, Vec<char>)| (e.0@, e.1@))
    }
}

impl AliasMap {
    /// The alias bound to definition `k`, if any.
    pub fn get(&self, k: &Vec<char>) -> (r: Option<Vec<char>>)
        ensures
            match assoc_get(self@, k@) {
                Some(a) => r matches Some(x) && x@ == a,
                None => r is None,
            },
    {
        let mut i = self.entries.len();
        assert(self@.take(i as int) =~= self@);
        while i > 0
            invariant
                i <= self@.len(),
                self@.len() == self.entries@.len(),
                assoc_get(self@, k@) == assoc_get(self@.take(i as int), k@),
            decreases i,
        {
            let e = &self.entries[i - 1];
            assert(self@.take(i as int).drop_last() =~= self@.take(i - 1));
            assert(self@.take(i as int).last() == self@[i - 1]);
            if eq_chars(&e.0, k) {
                return Some(e.1.clone());
            }
            i = i - 1;
        }
        None
    }
}

/// Whether `s` begins with the characters of `p`.
fn starts_with_exec(s: &Vec<char>, p: &Vec<char>) -> (r: bool)
    ensures
        r == starts_with(s@, p@),
{
    if p.len() > s.len() {
        return false;
    }
    let head = slice_chars(s, 0, p.len());
    assert(head@ =~= s@.take(p@.len() as int));
    eq_chars(&head, p)
}

/// First index at or after `i` where `p` occurs in `s`.
fn find_sub_exec(s: &Vec<char>, p: &Vec<char>, i: usize) -> (r: Option<usize>)
    ensures
        match find_sub(s@, p@, i as int) {
            Some(k) => r == Some(k as usize),
            None => r is None,
        },
{
    let mut k = i;
    while k <= s.len() && p.len() <= s.len() - k
        invariant
            i <= k,
            find_sub(s@, p@, i as int) == find_sub(s@, p@, k as int),
        decreases s@.len() + 1 - k,
    {
        let piece = slice_chars(s, k, k + p.len());
        if eq_chars(&piece, p) {
            return Some(k);
        }
        assert(find_sub(s@, p@, k as int) == find_sub(s@, p@, k + 1));
        if k >= s.len() {
            assert(find_sub(s@, p@, k + 1) is None);
            return None;
        }
        k = k + 1;
    }
    None
}

/// The `(word, alias)` pair that one line binds, if it is a routine pragma.
pub fn routine_entry_exec(line: &Vec<char>) -> (r: Option<(Vec<char>, Vec<char>)>)
    ensures
        match routine_entry(line@) {
            Some((w, a)) => r matches Some(x) && x.0@ == w && x.1@ == a,
            None => r is None,
        },
{
    let t = trim_chars(line);
    let lead = vec!['(', ' ', 'R', 'O', 'U', 'T', 'I', 'N', 'E', ' '];
    assert(lead@ =~= pragma_lead());
    if !starts_with_exec(&t, &lead) || t[t.len() - 1] != ')' {
        return None;
    }
    let inner = slice_chars(&t, 2, t.len() - 1);
    let body = trim_chars(&inner);
    let kw = vec!['R', 'O', 'U', 'T', 'I', 'N', 'E', ' '];
    assert(kw@ =~= routine_kw());
    if !starts_with_exec(&body, &kw) {
        return None;
    }
    let rest = slice_chars(&body, 8, body.len());
    assert(rest@ =~= body@.skip(8));
    let arr = vec![' ', '=', '>', ' '];
    assert(arr@ =~= arrow());
    match find_sub_exec(&rest, &arr, 0) {
        None => None,
        Some(k) => {
            proof {
                lemma_find_sub_bounds(rest@, arrow(), 0);
            }
            let lhs = slice_chars(&rest, 0, k);
            assert(lhs@ =~= rest@.take(k as int));
            let rhs = slice_chars(&rest, k + 4, rest.len());
            assert(rhs@ =~= rest@.skip(k + 4));
            let alias = trim_chars(&lhs);
            let word = trim_chars(&rhs);
            if alias.len() > 0 && word.len() > 0 {
                Some((word, alias))
            } else {
                None
            }
        },
    }
}

proof fn lemma_find_sub_bounds(s: Seq<char>, p: Seq<char>, i: int)
    ensures
        find_sub(s, p, i) matches Some(k) ==> i <= k && k + p.len() <= s.len(),
    decreases s.len() + 1 - i,
{
    if !(i < 0 || i + p.len() > s.len()) && s.subrange(i, i + p.len()) != p {
        lemma_find_sub_bounds(s, p, i + 1);
    }
}

/// Collects the routine bindings of a source text.
pub fn extract_routine_aliases(text: &str) -> (r: AliasMap)
    ensures
        r@ == routine_aliases(text@),
{
    let src = chars_of(text);
    let src = &src;
    let mut m = AliasMap { entries: Vec::new() };
    assert(m@ =~= Seq::<(Seq<char>, Seq<char>)>::empty());
    let mut i: usize = 0;
    let mut done = false;
    while !done
        invariant
            i <= src@.len(),
            !done ==> routine_aliases(src@) == aliases_from(src@, i as int, m@),
            done ==> routine_aliases(src@) == m@,
        decreases src@.len() + 1 - i, (if done { 0int } else { 1int }),
    {
        let mut j = i;
        while j < src.len() && src[j] != '\n'
            invariant
                i <= j <= src@.len(),
                find_char(src@, i as int, '\n') == find_char(src@, j as int, '\n'),
            decreases src@.len() - j,
        {
            j = j + 1;
        }
        let line = slice_chars(src, i, j);
        let ghost before = m@;
        match routine_entry_exec(&line) {
            Some(p) => {
                m.entries.push(p);
                assert(m@ =~= before.push((p.0@, p.1@)));
            },
            None => {},
        }
        proof {
            let acc2 = match routine_entry(src@.subrange(i as int, j as int)) {
                Some(p) => before.push(p),
                None => before,
            };
            assert(find_char(src@, j as int, '\n') == j);
            assert(aliases_from(src@, i as int, before) == aliases_from(src@, j + 1, acc2));
            assert(m@ == acc2);
        }
        if j >= src.len() {
            done = true;
        } else {
            i = j + 1;
        }
    }
    m
}

} // verus!
