//! Lexical analysis: source characters to tokens.
use vstd::prelude::*;
use crate::text::{chars_of, is_space, is_white};

verus! {

/// A token as the analyzer and the code generator see it.
pub enum Token {
    Word(Vec<char>),
    Num(i32),
    Str(Vec<char>),
    Colon,
    Semi,
}

/// The mathematical model of a token.
pub enum Lexeme {
    Word(Seq<char>),
    Num(i32),
    Str(Seq<char>),
    Colon,
    Semi,
}

impl View for Token {
    type V = Lexeme;

    open spec fn view(&self) -> Lexeme {
        match self {
            Token::Word(w) => Lexeme::Word(w@),
            Token::Num(v) => Lexeme::Num(*v),
            Token::Str(s) => Lexeme::Str(s@),
            Token::Colon => Lexeme::Colon,
            Token::Semi => Lexeme::Semi,
        }
    }
}

impl Clone for Token {
    fn clone(&self) -> (r: Token)
        ensures
            r@ == self@,
    {
        match self {
            Token::Word(w) => Token::Word(w.clone()),
            Token::Num(v) => Token::Num(*v),
            Token::Str(s) => Token::Str(s.clone()),
            Token::Colon => Token::Colon,
            Token::Semi => Token::Semi,
        }
    }
}

/// The models of a token vector.
pub open spec fn lexemes(t: Seq<Token>) -> Seq<Lexeme> {
    t.map_values(|x: Token| x@)
}

/// Why the lexer stopped.
#[derive(Debug, Clone, Copy, PartialEq, Eq)]
pub enum LexError {
    UnterminatedComment,
    UnterminatedString,
}

/// Whether `c` is an ASCII decimal digit.
pub open spec fn is_digit(c: char) -> bool {
    48 <= (c as u32) <= 57
}

/// Value of a run of decimal digits.
pub open spec fn digits_value(d: Seq<char>) -> int
    decreases d.len(),
{
    if d.len() == 0 {
        0
    } else {
        digits_value(d.drop_last()) * 10 + ((d.last() as u32) - 48)
    }
}

/// Whether every character of `d` is a decimal digit.
pub open spec fn all_digits(d: Seq<char>) -> bool {
    forall|k: int| 0 <= k < d.len() ==> is_digit(#[trigger] d[k])
}

/// `w` without its leading sign, if it has one.
pub open spec fn unsigned_part(w: Seq<char>) -> Seq<char> {
    if w.len() > 0 && (w[0] == '-' || w[0] == '+') {
        w.skip(1)
    } else {
        w
    }
}

/// The signed 32-bit decimal integer that `w` spells, if any: an optional
/// `+` or `-`, then one or more digits, with the value in range.
pub open spec fn parse_i32_spec(w: Seq<char>) -> Option<i32> {
    let d = unsigned_part(w);
    if d.len() == 0 || !all_digits(d) {
        None
    } else {
        let v = if w[0] == '-' {
            -digits_value(d)
        } else {
            digits_value(d)
        };
        if i32::MIN <= v <= i32::MAX {
            Some(v as i32)
        } else {
            None
        }
    }
}

proof fn lemma_digits_value_nonneg(d: Seq<char>)
    requires
        forall|k: int| 0 <= k < d.len() ==> is_digit(#[trigger] d[k]),
    ensures
        digits_value(d) >= 0,
    decreases d.len(),
{
    if d.len() > 0 {
        lemma_digits_value_nonneg(d.drop_last());
    }
}

proof fn lemma_digits_prefix_le(d: Seq<char>, k: int)
    requires
        0 <= k <= d.len(),
        forall|j: int| 0 <= j < d.len() ==> is_digit(#[trigger] d[j]),
    ensures
        digits_value(d.take(k)) <= digits_value(d),
    decreases d.len(),
{
    if k < d.len() {
        lemma_digits_prefix_le(d.drop_last(), k);
        assert(d.drop_last().take(k) =~= d.take(k));
        lemma_digits_value_nonneg(d.drop_last());
    } else {
        assert(d.take(k) =~= d);
    }
}

/// Reads `w` as a signed 32-bit decimal integer.
pub fn parse_i32(w: &Vec<char>) -> (r: Option<i32>)
    ensures
        r == parse_i32_spec(w@),
{
    let n = w.len();
    let neg = n > 0 && w[0] == '-';
    let start: usize = if n > 0 && (w[0] == '-' || w[0] == '+') { 1 } else { 0 };
    let ghost d = unsigned_part(w@);
    assert(d =~= w@.skip(start as int));
    if start >= n {
        return None;
    }
    let mut acc: i64 = 0;
    let mut i: usize = start;
    while i < n
        invariant
            start <= i <= n,
            n == w@.len(),
            d == w@.skip(start as int),
            d == unsigned_part(w@),
            neg == (w@.len() > 0 && w@[0] == '-'),
            forall|k: int| start <= k < i ==> is_digit(#[trigger] w@[k]),
            acc == digits_value(d.take(i - start)),
            0 <= acc <= 0x8000_0000,
        decreases n - i,
    {
        let c = w[i];
        let u = c as u32;
        if u < 48 || u > 57 {
            assert(d[i - start] == w@[i as int]);
            assert(!is_digit(d[i - start]));
            return None;
        }
        assert(d.take(i + 1 - start).drop_last() =~= d.take(i - start));
        acc = acc * 10 + (u - 48) as i64;
        i = i + 1;
        if acc > 0x8000_0000 {
            proof {
                if all_digits(d) {
                    lemma_digits_prefix_le(d, i - start);
                }
            }
            return None;
        }
    }
    assert(d.take(n - start) =~= d);
    assert forall|k: int| 0 <= k < d.len() implies is_digit(#[trigger] d[k]) by {
        assert(w@[k + start] == d[k]);
    }
    assert(all_digits(d));
    if neg {
        if acc > 0x8000_0000 {
            None
        } else {
            Some((-acc) as i32)
        }
    } else {
        if acc > 0x7fff_ffff {
            None
        } else {
            Some(acc as i32)
        }
    }
}

/// First index at or after `i` holding `c`, or `s.len()` when there is none.
pub open spec fn find_char(s: Seq<char>, i: int, c: char) -> int
    decreases s.len() - i,
{
    if i >= s.len() {
        s.len() as int
    } else if s[i] == c {
        i
    } else {
        find_char(s, i + 1, c)
    }
}

/// Whether `c` ends a word: whitespace, `(`, `:` or `;`.
pub open spec fn is_delim(c: char) -> bool {
    is_white(c) || c == '(' || c == ':' || c == ';'
}

/// First index at or after `i` holding a word delimiter, or `s.len()`.
pub open spec fn word_end(s: Seq<char>, i: int) -> int
    decreases s.len() - i,
{
    if i >= s.len() {
        s.len() as int
    } else if is_delim(s[i]) {
        i
    } else {
        word_end(s, i + 1)
    }
}

pub proof fn lemma_find_char_bounds(s: Seq<char>, i: int, c: char)
    requires
        0 <= i <= s.len(),
    ensures
        i <= find_char(s, i, c) <= s.len(),
        find_char(s, i, c) < s.len() ==> s[find_char(s, i, c)] == c,
    decreases s.len() - i,
{
    if i < s.len() && s[i] != c {
        lemma_find_char_bounds(s, i + 1, c);
    }
}

pub proof fn lemma_word_end_bounds(s: Seq<char>, i: int)
    requires
        0 <= i <= s.len(),
    ensures
        i <= word_end(s, i) <= s.len(),
        i < s.len() && !is_delim(s[i]) ==> i < word_end(s, i),
    decreases s.len() - i,
{
    if i < s.len() && !is_delim(s[i]) {
        lemma_word_end_bounds(s, i + 1);
    }
}

/// The token that a word spells: a number when it reads as one.
pub open spec fn classify(w: Seq<char>) -> Lexeme {
    match parse_i32_spec(w) {
        Some(v) => Lexeme::Num(v),
        None => Lexeme::Word(w),
    }
}

/// Where the payload of an immediate string that starts at `i` (at `S"`)
/// begins: one whitespace character after the lead is skipped.
pub open spec fn str_start(s: Seq<char>, i: int) -> int {
    if i + 2 < s.len() && is_white(s[i + 2]) {
        i + 3
    } else {
        i + 2
    }
}

/// `r` with `pre` put in front of its tokens.
pub open spec fn prefixed(
    pre: Seq<Lexeme>,
    r: Result<Seq<Lexeme>, LexError>,
) -> Result<Seq<Lexeme>, LexError> {
    match r {
        Ok(t) => Ok(pre + t),
        Err(e) => Err(e),
    }
}

/// The tokens of `s` from index `i` on.
pub open spec fn lex_from(s: Seq<char>, i: int) -> Result<Seq<Lexeme>, LexError>
    decreases s.len() - i,
{
    if i < 0 || i >= s.len() {
        Ok(seq![])
    } else {
        let c = s[i];
        if is_white(c) {
            lex_from(s, i + 1)
        } else if c == '(' {
            let j = find_char(s, i + 1, ')');
            proof {
                lemma_find_char_bounds(s, i + 1, ')');
            }
            if j >= s.len() {
                Err(LexError::UnterminatedComment)
            } else {
                lex_from(s, j + 1)
            }
        } else if c == ':' {
            prefixed(seq![Lexeme::Colon], lex_from(s, i + 1))
        } else if c == ';' {
            prefixed(seq![Lexeme::Semi], lex_from(s, i + 1))
        } else if c == 'S' && i + 1 < s.len() && s[i + 1] == '"' {
            let k = str_start(s, i);
            let j = find_char(s, k, '"');
            proof {
                lemma_find_char_bounds(s, k, '"');
            }
            if j >= s.len() {
                Err(LexError::UnterminatedString)
            } else {
                prefixed(seq![Lexeme::Str(s.subrange(k, j))], lex_from(s, j + 1))
            }
        } else {
            let j = word_end(s, i);
            proof {
                lemma_word_end_bounds(s, i);
            }
            prefixed(seq![classify(s.subrange(i, j))], lex_from(s, j))
        }
    }
}

/// The tokens of a whole source text.
pub open spec fn lex(s: Seq<char>) -> Result<Seq<Lexeme>, LexError> {
    lex_from(s, 0)
}

proof fn lemma_prefixed_push(pre: Seq<Lexeme>, x: Lexeme, r: Result<Seq<Lexeme>, LexError>)
    ensures
        prefixed(pre, prefixed(seq![x], r)) == prefixed(pre.push(x), r),
{
    if let Ok(q) = r {
        assert(pre + (seq![x] + q) =~= pre.push(x) + q);
    }
}

fn find_char_exec(s: &Vec<char>, i: usize, c: char) -> (r: usize)
    requires
        i <= s@.len(),
    ensures
        r == find_char(s@, i as int, c),
{
    let mut j = i;
    while j < s.len()
        invariant
            i <= j <= s@.len(),
            find_char(s@, i as int, c) == find_char(s@, j as int, c),
        decreases s@.len() - j,
    {
        if s[j] == c {
            return j;
        }
        j = j + 1;
    }
    j
}

fn word_end_exec(s: &Vec<char>, i: usize) -> (r: usize)
    requires
        i <= s@.len(),
    ensures
        r == word_end(s@, i as int),
{
    let mut j = i;
    while j < s.len()
        invariant
            i <= j <= s@.len(),
            word_end(s@, i as int) == word_end(s@, j as int),
        decreases s@.len() - j,
    {
        let cc = s[j];
        if is_space(cc) || cc == '(' || cc == ':' || cc == ';' {
            return j;
        }
        j = j + 1;
    }
    j
}

/// Copies `s[from..to]`.
pub fn slice_chars(s: &Vec<char>, from: usize, to: usize) -> (r: Vec<char>)
    requires
        from <= to <= s@.len(),
    ensures
        r@ == s@.subrange(from as int, to as int),
{
    let mut r: Vec<char> = Vec::new();
    let mut k = from;
    while k < to
        invariant
            from <= k <= to <= s@.len(),
            r@ == s@.subrange(from as int, k as int),
        decreases to - k,
    {
        r.push(s[k]);
        k = k + 1;
        assert(r@ =~= s@.subrange(from as int, k as int));
    }
    r
}

/// Splits source text into tokens.
pub fn tokenize(src: &str) -> (r: Result<Vec<Token>, LexError>)
    ensures
        match r {
            Ok(t) => lex(src@) == Ok::<Seq<Lexeme>, LexError>(lexemes(t@)),
            Err(e) => lex(src@) == Err::<Seq<Lexeme>, LexError>(e),
        },
{
    let chars = chars_of(src);
    let ghost s = chars@;
    let mut t: Vec<Token> = Vec::new();
    let mut i: usize = 0;
    assert(lexemes(t@) =~= seq![]);
    assert(lex(s) == prefixed(lexemes(t@), lex_from(s, 0))) by {
        match lex(s) {
            Ok(x) => assert(seq![] + x =~= x),
            Err(_) => {},
        }
    }
    while i < chars.len()
        invariant
            s == chars@,
            s == src@,
            i <= s.len(),
            lex(s) == prefixed(lexemes(t@), lex_from(s, i as int)),
        decreases s.len() - i,
    {
        let c = chars[i];
        let ghost pre = t@;
        if is_space(c) {
            i = i + 1;
        } else if c == '(' {
            let j = find_char_exec(&chars, i + 1, ')');
            proof {
                lemma_find_char_bounds(s, i + 1, ')');
            }
            if j >= chars.len() {
                return Err(LexError::UnterminatedComment);
            }
            i = j + 1;
        } else if c == ':' || c == ';' {
            let tok = if c == ':' { Token::Colon } else { Token::Semi };
            proof {
                lemma_prefixed_push(lexemes(pre), tok@, lex_from(s, i + 1));
            }
            t.push(tok);
            assert(lexemes(t@) =~= lexemes(pre).push(tok@));
            i = i + 1;
        } else if c == 'S' && i + 1 < chars.len() && chars[i + 1] == '"' {
            let mut k = i + 2;
            if k < chars.len() && is_space(chars[k]) {
                k = k + 1;
            }
            assert(k == str_start(s, i as int));
            let j = find_char_exec(&chars, k, '"');
            proof {
                lemma_find_char_bounds(s, k as int, '"');
            }
            if j >= chars.len() {
                return Err(LexError::UnterminatedString);
            }
            let payload = slice_chars(&chars, k, j);
            let tok = Token::Str(payload);
            proof {
                lemma_prefixed_push(lexemes(pre), tok@, lex_from(s, j + 1));
            }
            t.push(tok);
            assert(lexemes(t@) =~= lexemes(pre).push(tok@));
            i = j + 1;
        } else {
            let j = word_end_exec(&chars, i);
            proof {
                lemma_word_end_bounds(s, i as int);
            }
            let w = slice_chars(&chars, i, j);
            let tok = match parse_i32(&w) {
                Some(v) => Token::Num(v),
                None => Token::Word(w),
            };
            assert(tok@ == classify(s.subrange(i as int, j as int)));
            proof {
                lemma_prefixed_push(lexemes(pre), tok@, lex_from(s, j as int));
            }
            t.push(tok);
            assert(lexemes(t@) =~= lexemes(pre).push(tok@));
            i = j;
        }
    }
    assert(lexemes(t@) + seq![] =~= lexemes(t@));
    Ok(t)
}

} // verus!
