//! Top-level program analysis: definitions, heap layout, constants and the
//! entry point.
use vstd::prelude::*;
use vstd::wrapping::i32_specs::wrapping_add;
use crate::compile::{prev_value, resolve_prev_compile_time_value};
use crate::error::{CompileError, Fault};
use crate::lexer::{lexemes, Lexeme, Token};
use crate::symbols::SymTab;
use crate::text::eq_str;

verus! {

/// What the analyzer extracts from a program.
pub struct ParsedProgram {
    pub defs: Vec<(Vec<char>, Vec<Token>)>,
    pub created_words: SymTab,
    pub constant_words: SymTab,
    pub here: i32,
    pub entry_call: Option<Vec<char>>,
}

/// The model of a `ParsedProgram`.
pub struct ProgramModel {
    pub defs: Seq<(Seq<char>, Seq<Lexeme>)>,
    pub created: Seq<(Seq<char>, i32)>,
    pub consts: Seq<(Seq<char>, i32)>,
    pub here: i32,
    pub entry: Option<Seq<char>>,
}

/// The model of one definition.
pub open spec fn def_view(d: (Vec<char>, Vec<Token>)) -> (Seq<char>, Seq<Lexeme>) {
    (d.0@, lexemes(d.1@))
}

impl View for ParsedProgram {
    type V = ProgramModel;

    open spec fn view(&self) -> ProgramModel {
        ProgramModel {
            defs: self.defs@.map_values(|d: (Vec<char>, Vec<Token>)| def_view(d)),
            created: self.created_words@,
            consts: self.constant_words@,
            here: self.here,
            entry: match self.entry_call {
                Some(e) => Some(e@),
                None => None,
            },
        }
    }
}

/// The analysis state before the first token.
pub open spec fn empty_program() -> ProgramModel {
    ProgramModel { defs: seq![], created: seq![], consts: seq![], here: 0, entry: None }
}

/// First index at or after `i` holding `;`, or `toks.len()`.
pub open spec fn find_semi(toks: Seq<Lexeme>, i: int) -> int
    decreases toks.len() - i,
{
    if i >= toks.len() {
        toks.len() as int
    } else if toks[i] is Semi {
        i
    } else {
        find_semi(toks, i + 1)
    }
}

pub proof fn lemma_find_semi_bounds(toks: Seq<Lexeme>, i: int)
    requires
        0 <= i <= toks.len(),
    ensures
        i <= find_semi(toks, i) <= toks.len(),
        forall|k: int| i <= k < find_semi(toks, i) ==> !(#[trigger] toks[k] is Semi),
        find_semi(toks, i) < toks.len() ==> toks[find_semi(toks, i)] is Semi,
    decreases toks.len() - i,
{
    if i < toks.len() && !(toks[i] is Semi) {
        lemma_find_semi_bounds(toks, i + 1);
    }
}

/// Whether the token at `i` is a name (a word).
pub open spec fn is_name_at(toks: Seq<Lexeme>, i: int) -> bool {
    0 <= i < toks.len() && toks[i] is Word
}

/// The name at `i`.
pub open spec fn name_at(toks: Seq<Lexeme>, i: int) -> Seq<char> {
    toks[i]->Word_0
}

/// One top-level step at index `i`: the new state and the index of the
/// next top-level token.
pub open spec fn parse_step(toks: Seq<Lexeme>, i: int, st: ProgramModel) -> Result<(ProgramModel, int), Fault> {
    match toks[i] {
        Lexeme::Colon => if !is_name_at(toks, i + 1) {
            Err(Fault::MissingDefinitionName)
        } else {
            let name = name_at(toks, i + 1);
            let j = find_semi(toks, i + 2);
            if j >= toks.len() {
                Err(Fault::MissingSemicolon(name))
            } else {
                Ok(
                    (
                        ProgramModel {
                            defs: st.defs.push((name, toks.subrange(i + 2, j))),
                            ..st
                        },
                        j + 1,
                    ),
                )
            }
        },
        Lexeme::Word(w) => if w == "CREATE"@ {
            if is_name_at(toks, i + 1) {
                Ok(
                    (
                        ProgramModel {
                            created: st.created.push((name_at(toks, i + 1), st.here)),
                            ..st
                        },
                        i + 2,
                    ),
                )
            } else {
                Err(Fault::MissingCreateName)
            }
        } else if w == "VARIABLE"@ {
            if is_name_at(toks, i + 1) {
                Ok(
                    (
                        ProgramModel {
                            created: st.created.push((name_at(toks, i + 1), st.here)),
                            here: wrapping_add(st.here, 4),
                            ..st
                        },
                        i + 2,
                    ),
                )
            } else {
                Err(Fault::MissingVariableName)
            }
        } else if w == ","@ {
            Ok((ProgramModel { here: wrapping_add(st.here, 4), ..st }, i + 1))
        } else if w == "HERE"@ {
            Ok((st, i + 1))
        } else if w == "ALLOT"@ {
            match prev_value(toks, i, st.here, st.consts, st.created) {
                Some(n) => Ok((ProgramModel { here: wrapping_add(st.here, n), ..st }, i + 1)),
                None => Err(Fault::MissingAllotValue),
            }
        } else if w == "CONSTANT"@ {
            match prev_value(toks, i, st.here, st.consts, st.created) {
                Some(v) => if is_name_at(toks, i + 1) {
                    Ok(
                        (
                            ProgramModel {
                                consts: st.consts.push((name_at(toks, i + 1), v)),
                                ..st
                            },
                            i + 2,
                        ),
                    )
                } else {
                    Err(Fault::MissingConstantName)
                },
                None => Err(Fault::MissingConstantValue),
            }
        } else {
            Ok((ProgramModel { entry: Some(w), ..st }, i + 1))
        },
        _ => Ok((st, i + 1)),
    }
}

pub proof fn lemma_parse_step_advances(toks: Seq<Lexeme>, i: int, st: ProgramModel)
    requires
        0 <= i < toks.len(),
    ensures
        parse_step(toks, i, st) matches Ok((_, j)) ==> i < j <= toks.len(),
{
    if toks[i] is Colon && is_name_at(toks, i + 1) {
        lemma_find_semi_bounds(toks, i + 2);
    }
}

/// The analysis of the top-level tokens from index `i` on.
pub open spec fn parse_from(toks: Seq<Lexeme>, i: int, st: ProgramModel) -> Result<ProgramModel, Fault>
    decreases toks.len() - i,
{
    if i < 0 || i >= toks.len() {
        Ok(st)
    } else {
        proof {
            lemma_parse_step_advances(toks, i, st);
        }
        match parse_step(toks, i, st) {
            Ok((st2, j)) => parse_from(toks, j, st2),
            Err(f) => Err(f),
        }
    }
}

/// The analysis of a whole token sequence.
pub open spec fn analyze(toks: Seq<Lexeme>) -> Result<ProgramModel, Fault> {
    parse_from(toks, 0, empty_program())
}

/// The entry word: the last bare top-level word, else `MAIN` when it is
/// defined, else the only definition.
pub open spec fn select_entry(p: ProgramModel) -> Option<Seq<char>> {
    match p.entry {
        Some(e) => Some(e),
        None => if p.defs.map_values(|d: (Seq<char>, Seq<Lexeme>)| d.0).contains("MAIN"@) {
            Some("MAIN"@)
        } else if p.defs.len() == 1 {
            Some(p.defs[0].0)
        } else {
            None
        },
    }
}

/// Copies the name at index `i`, if the token there is a word.
fn name_token(toks: &Vec<Token>, i: usize) -> (r: Option<Vec<char>>)
    ensures
        match r {
            Some(n) => is_name_at(lexemes(toks@), i as int) && n@ == name_at(lexemes(toks@), i as int),
            None => !is_name_at(lexemes(toks@), i as int),
        },
{
    if i < toks.len() {
        match &toks[i] {
            Token::Word(w) => Some(w.clone()),
            _ => None,
        }
    } else {
        None
    }
}

impl ParsedProgram {
    /// The analysis state before the first token.
    pub fn new() -> (r: ParsedProgram)
        ensures
            r@ == empty_program(),
    {
        let r = ParsedProgram {
            defs: Vec::new(),
            created_words: SymTab::new(),
            constant_words: SymTab::new(),
            here: 0,
            entry_call: None,
        };
        assert(r@.defs =~= Seq::<(Seq<char>, Seq<Lexeme>)>::empty());
        r
    }
}

/// Whether a token is `;`.
fn is_semi_token(t: &Token) -> (r: bool)
    ensures
        r == (t@ is Semi),
{
    match t {
        Token::Semi => true,
        _ => false,
    }
}

/// Collects the body of a definition: the tokens from `start` up to the
/// next `;`.
fn collect_body(toks: &Vec<Token>, start: usize) -> (r: (Vec<Token>, usize))
    requires
        start <= toks@.len(),
    ensures
        r.1 == find_semi(lexemes(toks@), start as int),
        r.1 <= toks@.len(),
        r.1 < toks@.len() ==> lexemes(r.0@) == lexemes(toks@).subrange(start as int, r.1 as int),
{
    let ghost l = lexemes(toks@);
    let mut body: Vec<Token> = Vec::new();
    let mut k = start;
    while k < toks.len() && !is_semi_token(&toks[k])
        invariant
            start <= k <= toks@.len(),
            l == lexemes(toks@),
            find_semi(l, start as int) == find_semi(l, k as int),
            lexemes(body@) == l.subrange(start as int, k as int),
        decreases toks@.len() - k,
    {
        let t = toks[k].clone();
        assert(t@ == l[k as int]);
        let ghost prev = body@;
        body.push(t);
        assert(lexemes(body@) =~= lexemes(prev).push(t@));
        k = k + 1;
        assert(lexemes(body@) =~= l.subrange(start as int, k as int));
    }
    (body, k)
}

/// Analyzes the top-level tokens of a program.
pub fn parse_program(toks: &Vec<Token>) -> (r: Result<ParsedProgram, CompileError>)
    ensures
        match analyze(lexemes(toks@)) {
            Ok(p) => r matches Ok(q) && q@ == p,
            Err(f) => r matches Err(e) && e@ == f,
        },
{
    let ghost l = lexemes(toks@);
    let mut st = ParsedProgram::new();
    let mut i: usize = 0;
    while i < toks.len()
        invariant
            i <= toks@.len(),
            l == lexemes(toks@),
            analyze(l) == parse_from(l, i as int, st@),
        decreases toks@.len() - i,
    {
        proof {
            lemma_parse_step_advances(l, i as int, st@);
        }
        let ghost before = st@;
        match &toks[i] {
            Token::Colon => {
                let name = match name_token(toks, i + 1) {
                    Some(n) => n,
                    None => {
                        return Err(CompileError::MissingDefinitionName);
                    },
                };
                let (body, j) = collect_body(toks, i + 2);
                if j >= toks.len() {
                    return Err(CompileError::MissingSemicolon(name));
                }
                st.defs.push((name, body));
                assert(st@.defs =~= before.defs.push(
                    (name_at(l, i + 1), l.subrange(i + 2, j as int)),
                ));
                i = j + 1;
            },
            Token::Word(w) => {
                if eq_str(w, "CREATE") {
                    match name_token(toks, i + 1) {
                        Some(n) => {
                            st.created_words.insert(n, st.here);
                            i = i + 2;
                        },
                        None => {
                            return Err(CompileError::MissingCreateName);
                        },
                    }
                } else if eq_str(w, "VARIABLE") {
                    match name_token(toks, i + 1) {
                        Some(n) => {
                            st.created_words.insert(n, st.here);
                            st.here = st.here.wrapping_add(4);
                            i = i + 2;
                        },
                        None => {
                            return Err(CompileError::MissingVariableName);
                        },
                    }
                } else if eq_str(w, ",") {
                    st.here = st.here.wrapping_add(4);
                    i = i + 1;
                } else if eq_str(w, "HERE") {
                    i = i + 1;
                } else if eq_str(w, "ALLOT") {
                    match resolve_prev_compile_time_value(
                        toks,
                        i,
                        st.here,
                        &st.constant_words,
                        &st.created_words,
                    ) {
                        Some(n) => {
                            st.here = st.here.wrapping_add(n);
                            i = i + 1;
                        },
                        None => {
                            return Err(CompileError::MissingAllotValue);
                        },
                    }
                } else if eq_str(w, "CONSTANT") {
                    let v = match resolve_prev_compile_time_value(
                        toks,
                        i,
                        st.here,
                        &st.constant_words,
                        &st.created_words,
                    ) {
                        Some(v) => v,
                        None => {
                            return Err(CompileError::MissingConstantValue);
                        },
                    };
                    match name_token(toks, i + 1) {
                        Some(n) => {
                            st.constant_words.insert(n, v);
                            i = i + 2;
                        },
                        None => {
                            return Err(CompileError::MissingConstantName);
                        },
                    }
                } else {
                    st.entry_call = Some(w.clone());
                    i = i + 1;
                }
            },
            _ => {
                i = i + 1;
            },
        }
    }
    Ok(st)
}

/// Picks the entry word of an analyzed program.
pub fn select_entry_exec(p: &ParsedProgram) -> (r: Option<Vec<char>>)
    ensures
        match select_entry(p@) {
            Some(e) => r matches Some(x) && x@ == e,
            None => r is None,
        },
{
    if let Some(e) = &p.entry_call {
        return Some(e.clone());
    }
    let ghost names = p@.defs.map_values(|d: (Seq<char>, Seq<Lexeme>)| d.0);
    let mut k: usize = 0;
    while k < p.defs.len()
        invariant
            k <= p.defs@.len(),
            names == p@.defs.map_values(|d: (Seq<char>, Seq<Lexeme>)| d.0),
            p@.entry is None,
            forall|j: int| 0 <= j < k ==> names[j] != "MAIN"@,
        decreases p.defs@.len() - k,
    {
        if eq_str(&p.defs[k].0, "MAIN") {
            assert(names[k as int] == "MAIN"@);
            let mut m: Vec<char> = Vec::new();
            crate::text::push_str(&mut m, "MAIN");
            assert(m@ =~= "MAIN"@);
            return Some(m);
        }
        k = k + 1;
    }
    assert(!names.contains("MAIN"@));
    if p.defs.len() == 1 {
        Some(p.defs[0].0.clone())
    } else {
        None
    }
}

} // verus!
