//! Compilation of definition bodies, token by token.
use vstd::prelude::*;
use vstd::wrapping::i32_specs::wrapping_add;
use crate::builder::{Emit, TOKEN_ROOM};
use crate::codegen::{
    begin_begin_ir, begin_if_ir, begin_while_ir, binop_ir, cmp_ir, cmp_zero_ir, do_else_ir,
    dup_ir, end_repeat_ir, end_then_ir, end_until_ir, negate_ir, outcome, over_ir, pop_ir, push_ir,
    r_fetch_ir, r_from_ir, shift_ir, slash_mod_ir, swap_ir, to_r_ir, CgModel, Codegen,
};
use crate::dispatch::{kernel_of, lookup_kernel, lookup_prim, prim_of, Prim};
use crate::emit::{call_extern_ir, call_str_ir, call_word_ir};
use crate::error::{CompileError, Fault};
use crate::lexer::{lexemes, Lexeme, Token};
use crate::symbols::{assoc_get, SymTab};
use crate::text::{chars_of, dec_int, eq_str, push_i64};

verus! {

/// The compile-time value of the token just before index `i`: a literal,
/// `HERE` (the heap cursor), a known constant, or a known created word.
pub open spec fn prev_value(
    toks: Seq<Lexeme>,
    i: int,
    here: i32,
    consts: Seq<(Seq<char>, i32)>,
    created: Seq<(Seq<char>, i32)>,
) -> Option<i32> {
    if i < 1 || i > toks.len() {
        None
    } else {
        match toks[i - 1] {
            Lexeme::Num(v) => Some(v),
            Lexeme::Word(w) => if w == "HERE"@ {
                Some(here)
            } else {
                match assoc_get(consts, w) {
                    Some(v) => Some(v),
                    None => assoc_get(created, w),
                }
            },
            _ => None,
        }
    }
}

/// Looks up the compile-time value of the token just before index `i`.
pub fn resolve_prev_compile_time_value(
    toks: &Vec<Token>,
    i: usize,
    here: i32,
    constant_words: &SymTab,
    created_words: &SymTab,
) -> (r: Option<i32>)
    ensures
        r == prev_value(lexemes(toks@), i as int, here, constant_words@, created_words@),
{
    if i < 1 || i > toks.len() {
        return None;
    }
    match &toks[i - 1] {
        Token::Num(v) => Some(*v),
        Token::Word(w) => {
            if eq_str(w, "HERE") {
                Some(here)
            } else {
                match constant_words.get(w) {
                    Some(v) => Some(v),
                    None => created_words.get(w),
                }
            }
        },
        _ => None,
    }
}

/// ASCII lower case of one character.
pub open spec fn ascii_lower(c: char) -> char {
    if 65 <= (c as u32) <= 90 {
        (((c as u32) + 32) as u8) as char
    } else {
        c
    }
}

/// ASCII lower case of a text.
pub open spec fn lower_ascii(s: Seq<char>) -> Seq<char> {
    s.map_values(|c: char| ascii_lower(c))
}

/// The raw bits of the 32-bit float that `s` spells: the infinities and
/// NaN by name in any case, otherwise as `floats` records the payload.
pub open spec fn f32_token_bits(s: Seq<char>, floats: Seq<(Seq<char>, i32)>) -> Option<i32> {
    let l = lower_ascii(s);
    if l == "inf"@ || l == "+inf"@ {
        Some(0x7f80_0000i32)
    } else if l == "-inf"@ {
        Some(-0x80_0000i32)
    } else if l == "nan"@ || l == "+nan"@ || l == "-nan"@ {
        Some(0x7fc0_0000i32)
    } else {
        assoc_get(floats, s)
    }
}

/// Reads `s` as a 32-bit float literal and returns its raw bits.
pub fn parse_f32_token_bits(s: &Vec<char>, float_literals: &SymTab) -> (r: Option<i32>)
    ensures
        r == f32_token_bits(s@, float_literals@),
{
    let mut lower: Vec<char> = Vec::new();
    let mut i: usize = 0;
    while i < s.len()
        invariant
            i <= s@.len(),
            lower@ == lower_ascii(s@.take(i as int)),
        decreases s@.len() - i,
    {
        let c = s[i];
        let u = c as u32;
        let lc = if 65 <= u && u <= 90 { ((u + 32) as u8) as char } else { c };
        lower.push(lc);
        i = i + 1;
        assert(lower@ =~= lower_ascii(s@.take(i as int)));
    }
    assert(s@.take(i as int) =~= s@);
    if eq_str(&lower, "inf") || eq_str(&lower, "+inf") {
        Some(0x7f80_0000i32)
    } else if eq_str(&lower, "-inf") {
        Some(-0x80_0000i32)
    } else if eq_str(&lower, "nan") || eq_str(&lower, "+nan") || eq_str(&lower, "-nan") {
        Some(0x7fc0_0000i32)
    } else {
        float_literals.get(s)
    }
}

/// Pushes the float bits and `-1`, or `0` alone when the text is no float.
pub open spec fn float_push_ir(m: CgModel, bits: Option<i32>) -> CgModel {
    match bits {
        Some(b) => m.with_e(push_ir(push_ir(m.e, dec_int(b as int)), "-1"@)),
        None => m.with_e(push_ir(m.e, "0"@)),
    }
}

/// A control-flow step that consumes one token.
pub open spec fn one(r: Result<CgModel, Fault>) -> Result<(CgModel, bool), Fault> {
    match r {
        Ok(m) => Ok((m, false)),
        Err(f) => Err(f),
    }
}

/// Whether `p` opens or closes a control-flow construct.
pub open spec fn is_control(p: Prim) -> bool {
    p is If || p is Else || p is Then || p is Begin || p is Until || p is While || p is Repeat
}

/// Whether `p` is a dictionary word (`CONSTANT`, `CREATE`, `,`).
pub open spec fn is_dictionary(p: Prim) -> bool {
    p is Constant || p is Create || p is Comma
}

/// The code of a built-in that only emits instructions.
pub open spec fn emit_prim_ir(e: Emit, p: Prim) -> Emit {
    match p {
        Prim::Dup => dup_ir(e),
        Prim::Drop => pop_ir(e).0,
        Prim::Swap => swap_ir(e),
        Prim::Over => over_ir(e),
        Prim::ToR => to_r_ir(e),
        Prim::RFrom => r_from_ir(e),
        Prim::RFetch => r_fetch_ir(e),
        Prim::Bin(op) => binop_ir(e, op@),
        Prim::DivMod(is_mod) => binop_ir(e, if is_mod { "srem"@ } else { "sdiv"@ }),
        Prim::Negate => negate_ir(e),
        Prim::And => binop_ir(e, "and"@),
        Prim::Shift(op) => shift_ir(e, op@),
        Prim::SlashMod => slash_mod_ir(e),
        Prim::Cmp(pred) => cmp_ir(e, pred@),
        Prim::ZeroEq => cmp_zero_ir(e, "eq"@),
        Prim::ZeroLt => cmp_zero_ir(e, "slt"@),
        Prim::Service(callee, mode) => call_extern_ir(e, callee@, mode),
        Prim::PushBits(v) => push_ir(e, dec_int(v as int)),
        _ => e,
    }
}

/// The effect of a control-flow built-in.
pub open spec fn control_step(m: CgModel, p: Prim) -> Result<CgModel, Fault> {
    match p {
        Prim::If => Ok(begin_if_ir(m)),
        Prim::Else => do_else_ir(m),
        Prim::Then => end_then_ir(m),
        Prim::Begin => Ok(begin_begin_ir(m)),
        Prim::Until => end_until_ir(m),
        Prim::While => begin_while_ir(m),
        _ => end_repeat_ir(m),
    }
}

/// The effect of a dictionary word at index `i`; the flag says whether the
/// following name was consumed too.
pub open spec fn dictionary_step(m: CgModel, toks: Seq<Lexeme>, i: int, p: Prim) -> Result<(CgModel, bool), Fault> {
    match p {
        Prim::Constant => match prev_value(toks, i, m.here, m.consts, m.created) {
            None => Err(Fault::MissingConstantValue),
            Some(val) => if i + 1 < toks.len() && toks[i + 1] is Word {
                Ok(
                    (
                        CgModel {
                            e: pop_ir(m.e).0,
                            consts: m.consts.push((toks[i + 1]->Word_0, val)),
                            ..m
                        },
                        true,
                    ),
                )
            } else {
                Err(Fault::MissingConstantName)
            },
        },
        Prim::Create => if i + 1 < toks.len() && toks[i + 1] is Word {
            Ok((CgModel { created: m.created.push((toks[i + 1]->Word_0, m.here)), ..m }, true))
        } else {
            Err(Fault::MissingCreateName)
        },
        _ => Ok((CgModel { e: pop_ir(m.e).0, here: wrapping_add(m.here, 4), ..m }, false)),
    }
}

/// The effect of the built-in `p` at index `i`; the flag says whether the
/// following token (a name) was consumed too.
pub open spec fn prim_step(m: CgModel, toks: Seq<Lexeme>, i: int, p: Prim) -> Result<(CgModel, bool), Fault> {
    if is_control(p) {
        one(control_step(m, p))
    } else if is_dictionary(p) {
        dictionary_step(m, toks, i, p)
    } else {
        Ok((m.with_e(emit_prim_ir(m.e, p)), false))
    }
}

/// The effect of word `w` at index `i`: a constant or a created word pushes
/// its value, then built-ins, then a call of a defined word.
pub open spec fn word_step(m: CgModel, toks: Seq<Lexeme>, i: int, w: Seq<char>) -> Result<(CgModel, bool), Fault> {
    match assoc_get(m.consts, w) {
        Some(v) => Ok((m.with_e(push_ir(m.e, dec_int(v as int))), false)),
        None => match assoc_get(m.created, w) {
            Some(a) => Ok((m.with_e(push_ir(m.e, dec_int(a as int))), false)),
            None => match prim_of(w) {
                Some(p) => prim_step(m, toks, i, p),
                None => if m.defs.contains(w) {
                    Ok((m.with_e(call_word_ir(m.e, w)), false))
                } else {
                    Err(Fault::UnknownWord(w))
                },
            },
        },
    }
}

/// The effect of an immediate string `s` at index `i`, which the next
/// token consumes.
pub open spec fn string_step(m: CgModel, toks: Seq<Lexeme>, i: int, s: Seq<char>) -> Result<(CgModel, bool), Fault> {
    if i + 1 >= toks.len() {
        Err(Fault::StringWithoutConsumer)
    } else {
        match toks[i + 1] {
            Lexeme::Word(w) => if w == "PWRITE-STR"@ {
                Ok((m.with_e(call_str_ir(m.e, "pwrite_str"@, s)), true))
            } else if w == "READ-F32"@ || w == "FNUMBER?"@ {
                Ok((float_push_ir(m, f32_token_bits(s, m.floats)), true))
            } else {
                Err(Fault::UnsupportedStringConsumer)
            },
            _ => Err(Fault::UnsupportedStringConsumer),
        }
    }
}

/// The effect of the token at index `i` of a body.
pub open spec fn token_step(m: CgModel, toks: Seq<Lexeme>, i: int) -> Result<(CgModel, bool), Fault> {
    match toks[i] {
        Lexeme::Num(v) => Ok((m.with_e(push_ir(m.e, dec_int(v as int))), false)),
        Lexeme::Str(s) => string_step(m, toks, i, s),
        Lexeme::Word(w) => word_step(m, toks, i, w),
        Lexeme::Colon => Err(Fault::NestedDefinition),
        Lexeme::Semi => Err(Fault::NestedDefinition),
    }
}

/// Whether both counters leave room for one more token.
pub open spec fn token_room(m: CgModel) -> bool {
    m.e.tmp <= TOKEN_ROOM && m.e.lbl <= TOKEN_ROOM
}

/// The state after compiling the body tokens from index `i` on; the
/// control-flow stack must be empty at the end.
pub open spec fn body_ir(m: CgModel, toks: Seq<Lexeme>, i: int) -> Result<CgModel, Fault>
    decreases toks.len() - i,
{
    if i < 0 || i >= toks.len() {
        if m.ctrl.len() == 0 {
            Ok(m)
        } else {
            Err(Fault::UnclosedControl)
        }
    } else if !token_room(m) {
        Err(Fault::TooLarge)
    } else {
        match token_step(m, toks, i) {
            Ok((m2, skip)) => body_ir(m2, toks, if skip { i + 2 } else { i + 1 }),
            Err(f) => Err(f),
        }
    }
}

/// A successful body leaves no open control-flow frame.
pub proof fn lemma_body_closes_frames(m: CgModel, toks: Seq<Lexeme>, i: int)
    ensures
        body_ir(m, toks, i) matches Ok(m2) ==> m2.ctrl.len() == 0,
    decreases toks.len() - i,
{
    if 0 <= i < toks.len() && token_room(m) {
        if let Ok((m2, skip)) = token_step(m, toks, i) {
            lemma_body_closes_frames(m2, toks, if skip { i + 2 } else { i + 1 });
        }
    }
}

/// How an exec step result matches a spec step result.
pub open spec fn step_outcome(
    r: Result<bool, CompileError>,
    after: CgModel,
    expected: Result<(CgModel, bool), Fault>,
) -> bool {
    match expected {
        Ok((m, skip)) => r == Ok::<bool, CompileError>(skip) && after == m,
        Err(f) => r matches Err(x) && x@ == f,
    }
}

/// Whether `p` opens or closes a control-flow construct.
pub fn is_control_prim(p: Prim) -> (r: bool)
    ensures
        r == is_control(p),
{
    match p {
        Prim::If | Prim::Else | Prim::Then | Prim::Begin | Prim::Until | Prim::While
        | Prim::Repeat => true,
        _ => false,
    }
}

/// Whether `p` is a dictionary word.
pub fn is_dictionary_prim(p: Prim) -> (r: bool)
    ensures
        r == is_dictionary(p),
{
    match p {
        Prim::Constant | Prim::Create | Prim::Comma => true,
        _ => false,
    }
}

/// The routine-alias substitution for a definition: the call of the
/// selected kernel, when the alias names one.
pub open spec fn native_ir(m: CgModel, alias: Option<Seq<char>>) -> Option<CgModel> {
    match alias {
        Some(a) => match kernel_of(a) {
            Some((callee, mode)) => Some(m.with_e(call_extern_ir(m.e, callee@, mode))),
            None => None,
        },
        None => None,
    }
}

impl Codegen {
    /// Pushes the decimal literal `v`.
    pub fn push_literal(&mut self, v: i32)
        requires
            old(self)@.room(3),
        ensures
            final(self)@ == old(self)@.with_e(push_ir(old(self)@.e, dec_int(v as int))),
    {
        let mut t: Vec<char> = Vec::new();
        push_i64(&mut t, v as i64);
        self.push_i32(&t);
    }

    /// Emits the code of a built-in that only emits instructions.
    #[verifier::rlimit(40)]
    pub fn apply_emit_prim(&mut self, p: Prim)
        requires
            !is_control(p),
            !is_dictionary(p),
            old(self)@.room(64),
        ensures
            final(self)@ == old(self)@.with_e(emit_prim_ir(old(self)@.e, p)),
    {
        match p {
            Prim::Dup => self.dup(),
            Prim::Drop => self.drop(),
            Prim::Swap => self.swap(),
            Prim::Over => self.over(),
            Prim::ToR => self.to_r(),
            Prim::RFrom => self.r_from(),
            Prim::RFetch => self.r_fetch(),
            Prim::Bin(op) => self.binop(op),
            Prim::DivMod(is_mod) => self.div_mod(is_mod),
            Prim::Negate => self.unary_negate(),
            Prim::And => self.and(),
            Prim::Shift(op) => self.shift(op),
            Prim::SlashMod => self.slash_mod(),
            Prim::Cmp(pred) => self.cmp_to_bool_minus1(pred),
            Prim::ZeroEq => self.zero_eq(),
            Prim::ZeroLt => self.zero_lt(),
            Prim::Service(callee, mode) => self.call_extern(callee, mode),
            Prim::PushBits(v) => self.push_literal(v),
            _ => {},
        }
    }

    /// Applies a control-flow built-in.
    pub fn apply_control(&mut self, p: Prim) -> (r: Result<(), CompileError>)
        requires
            is_control(p),
            old(self)@.room(64),
        ensures
            outcome(r, final(self)@, control_step(old(self)@, p)),
    {
        match p {
            Prim::If => {
                self.begin_if();
                Ok(())
            },
            Prim::Else => self.do_else(),
            Prim::Then => self.end_then(),
            Prim::Begin => {
                self.begin_begin();
                Ok(())
            },
            Prim::Until => self.end_until(),
            Prim::While => self.begin_while(),
            _ => self.end_repeat(),
        }
    }

    /// Applies a dictionary word found at index `i`.
    pub fn apply_dictionary(&mut self, toks: &Vec<Token>, i: usize, p: Prim) -> (r: Result<bool, CompileError>)
        requires
            i < toks@.len(),
            is_dictionary(p),
            old(self)@.room(64),
        ensures
            step_outcome(r, final(self)@, dictionary_step(old(self)@, lexemes(toks@), i as int, p)),
            r == Ok::<bool, CompileError>(true) ==> i + 1 < toks@.len(),
    {
        match p {
            Prim::Constant => {
                let val = match resolve_prev_compile_time_value(
                    toks,
                    i,
                    self.here,
                    &self.constant_words,
                    &self.created_words,
                ) {
                    Some(v) => v,
                    None => {
                        return Err(CompileError::MissingConstantValue);
                    },
                };
                let _ = self.pop_i32();
                if toks.len() - i > 1 {
                    match &toks[i + 1] {
                        Token::Word(name) => {
                            self.constant_words.insert(name.clone(), val);
                            Ok(true)
                        },
                        _ => Err(CompileError::MissingConstantName),
                    }
                } else {
                    Err(CompileError::MissingConstantName)
                }
            },
            Prim::Create => {
                if toks.len() - i > 1 {
                    match &toks[i + 1] {
                        Token::Word(name) => {
                            self.created_words.insert(name.clone(), self.here);
                            Ok(true)
                        },
                        _ => Err(CompileError::MissingCreateName),
                    }
                } else {
                    Err(CompileError::MissingCreateName)
                }
            },
            _ => {
                let _ = self.pop_i32();
                self.here = self.here.wrapping_add(4);
                Ok(false)
            },
        }
    }

    /// Applies the built-in `p` found at index `i`.
    pub fn apply_prim(&mut self, toks: &Vec<Token>, i: usize, p: Prim) -> (r: Result<bool, CompileError>)
        requires
            i < toks@.len(),
            old(self)@.room(64),
        ensures
            step_outcome(r, final(self)@, prim_step(old(self)@, lexemes(toks@), i as int, p)),
            r == Ok::<bool, CompileError>(true) ==> i + 1 < toks@.len(),
    {
        if is_control_prim(p) {
            match self.apply_control(p) {
                Ok(()) => Ok(false),
                Err(e) => Err(e),
            }
        } else if is_dictionary_prim(p) {
            self.apply_dictionary(toks, i, p)
        } else {
            self.apply_emit_prim(p);
            Ok(false)
        }
    }

    /// Compiles the word `w` found at index `i`.
    pub fn compile_word(&mut self, toks: &Vec<Token>, i: usize, w: &Vec<char>) -> (r: Result<bool, CompileError>)
        requires
            i < toks@.len(),
            old(self)@.room(64),
        ensures
            step_outcome(r, final(self)@, word_step(old(self)@, lexemes(toks@), i as int, w@)),
            r == Ok::<bool, CompileError>(true) ==> i + 1 < toks@.len(),
    {
        if let Some(v) = self.constant_words.get(w) {
            self.push_literal(v);
            return Ok(false);
        }
        if let Some(addr) = self.created_words.get(w) {
            self.push_literal(addr);
            return Ok(false);
        }
        match lookup_prim(w) {
            Some(p) => self.apply_prim(toks, i, p),
            None => {
                if self.known_defs.contains(w) {
                    self.call_word(w);
                    Ok(false)
                } else {
                    Err(CompileError::UnknownWord(w.clone()))
                }
            },
        }
    }

    /// Compiles an immediate string at index `i` with its consumer.
    pub fn compile_string(&mut self, toks: &Vec<Token>, i: usize, s: &Vec<char>) -> (r: Result<bool, CompileError>)
        requires
            i < toks@.len(),
            old(self)@.room(64),
        ensures
            step_outcome(r, final(self)@, string_step(old(self)@, lexemes(toks@), i as int, s@)),
            r == Ok::<bool, CompileError>(true) ==> i + 1 < toks@.len(),
    {
        if toks.len() - i <= 1 {
            return Err(CompileError::StringWithoutConsumer);
        }
        match &toks[i + 1] {
            Token::Word(w) => {
                if eq_str(w, "PWRITE-STR") {
                    self.call_extern_str("pwrite_str", s);
                    Ok(true)
                } else if eq_str(w, "READ-F32") || eq_str(w, "FNUMBER?") {
                    match parse_f32_token_bits(s, &self.float_literals) {
                        Some(bits) => {
                            self.push_literal(bits);
                            let t = chars_of("-1");
                            self.push_i32(&t);
                        },
                        None => {
                            let t = chars_of("0");
                            self.push_i32(&t);
                        },
                    }
                    Ok(true)
                } else {
                    Err(CompileError::UnsupportedStringConsumer)
                }
            },
            _ => Err(CompileError::UnsupportedStringConsumer),
        }
    }

    /// Compiles the token at index `i`.
    pub fn compile_token(&mut self, toks: &Vec<Token>, i: usize) -> (r: Result<bool, CompileError>)
        requires
            i < toks@.len(),
            old(self)@.room(64),
        ensures
            step_outcome(r, final(self)@, token_step(old(self)@, lexemes(toks@), i as int)),
            r == Ok::<bool, CompileError>(true) ==> i + 1 < toks@.len(),
    {
        match &toks[i] {
            Token::Num(v) => {
                self.push_literal(*v);
                Ok(false)
            },
            Token::Str(s) => self.compile_string(toks, i, s),
            Token::Word(w) => self.compile_word(toks, i, w),
            Token::Colon => Err(CompileError::NestedDefinition),
            Token::Semi => Err(CompileError::NestedDefinition),
        }
    }

    /// Compiles a definition body. On success the control-flow stack is
    /// empty.
    pub fn compile_body(&mut self, toks: &Vec<Token>) -> (r: Result<(), CompileError>)
        ensures
            outcome(r, final(self)@, body_ir(old(self)@, lexemes(toks@), 0)),
            r is Ok ==> final(self)@.ctrl.len() == 0,
    {
        proof {
            lemma_body_closes_frames(self@, lexemes(toks@), 0);
        }
        let mut i: usize = 0;
        while i < toks.len()
            invariant
                i <= toks@.len(),
                body_ir(old(self)@, lexemes(toks@), 0) == body_ir(self@, lexemes(toks@), i as int),
            decreases toks@.len() - i,
        {
            if self.b.tmp > TOKEN_ROOM || self.b.lbl > TOKEN_ROOM {
                return Err(CompileError::TooLarge);
            }
            match self.compile_token(toks, i) {
                Ok(skip) => {
                    i = if skip { i + 2 } else { i + 1 };
                },
                Err(e) => {
                    return Err(e);
                },
            }
        }
        if self.ctrl.len() != 0 {
            return Err(CompileError::UnclosedControl);
        }
        Ok(())
    }

    /// Replaces the body of a definition whose routine alias names a known
    /// kernel by a call of that kernel; tells whether it did.
    pub fn try_emit_native_pascal_routine(&mut self, alias: Option<&Vec<char>>) -> (r: bool)
        requires
            old(self)@.room(32),
        ensures
            match native_ir(old(self)@, opt_ref_view(alias)) {
                Some(m) => r && final(self)@ == m,
                None => !r && final(self)@ == old(self)@,
            },
    {
        match alias {
            Some(a) => match lookup_kernel(a) {
                Some((callee, mode)) => {
                    self.call_extern(callee, mode);
                    true
                },
                None => false,
            },
            None => false,
        }
    }
}

/// The model of an optional borrowed name.
pub open spec fn opt_ref_view(o: Option<&Vec<char>>) -> Option<Seq<char>> {
    match o {
        Some(v) => Some(v@),
        None => None,
    }
}

} // verus!
