//! The whole pipeline: source text to an IR module.
use vstd::prelude::*;
use crate::aliases::{extract_routine_aliases, routine_aliases};
use crate::analyzer::{analyze, parse_program, select_entry, select_entry_exec, ProgramModel};
use crate::builder::{Emit, LlvmBuilder, TOKEN_ROOM};
use crate::codegen::{outcome, CgModel, Codegen};
use crate::compile::{body_ir, native_ir, opt_ref_view, token_room};
use crate::emit::{begin_func_ir, end_func_ir, main_wrapper_ir, PRELUDE};
use crate::error::{CompileError, Fault};
use crate::lexer::{lex, lexemes, tokenize, LexError, Lexeme, Token};
use crate::symbols::{assoc_get, NameSet, SymTab};
use crate::text::push_all;

verus! {

/// The fault of a lexical error.
pub open spec fn lex_fault(e: LexError) -> Fault {
    match e {
        LexError::UnterminatedComment => Fault::UnterminatedComment,
        LexError::UnterminatedString => Fault::UnterminatedString,
    }
}

/// The names of the definitions, in order.
pub open spec fn def_names(defs: Seq<(Seq<char>, Seq<Lexeme>)>) -> Seq<Seq<char>> {
    defs.map_values(|d: (Seq<char>, Seq<Lexeme>)| d.0)
}

/// The code generator after the prelude, holding the analyzed symbols.
pub open spec fn start_model(p: ProgramModel, floats: Seq<(Seq<char>, i32)>) -> CgModel {
    CgModel {
        e: Emit { out: PRELUDE@, globals: seq![], tmp: 0, lbl: 0 },
        ctrl: seq![],
        created: p.created,
        consts: p.consts,
        defs: def_names(p.defs),
        here: p.here,
        floats,
    }
}

/// The state after emitting the functions of definitions `k..`: each one
/// is a kernel call when its routine alias names a kernel, else its body.
pub open spec fn defs_ir(
    m: CgModel,
    defs: Seq<(Seq<char>, Seq<Lexeme>)>,
    k: int,
    aliases: Seq<(Seq<char>, Seq<char>)>,
) -> Result<CgModel, Fault>
    decreases defs.len() - k,
{
    if k < 0 || k >= defs.len() {
        Ok(m)
    } else if !token_room(m) {
        Err(Fault::TooLarge)
    } else {
        match def_ir(m, defs[k].0, defs[k].1, assoc_get(aliases, defs[k].0)) {
            Ok(m2) => defs_ir(m2, defs, k + 1, aliases),
            Err(f) => Err(f),
        }
    }
}

/// The function of one definition: a kernel call when `alias` names a
/// kernel, else the compiled body.
#[verifier::opaque]
pub open spec fn def_ir(m: CgModel, name: Seq<char>, body: Seq<Lexeme>, alias: Option<Seq<char>>) -> Result<CgModel, Fault> {
    let m1 = m.with_e(begin_func_ir(m.e, name));
    let m2 = match native_ir(m1, alias) {
        Some(n) => Ok(n),
        None => body_ir(m1, body, 0),
    };
    match m2 {
        Ok(m3) => Ok(m3.with_e(end_func_ir(m3.e))),
        Err(f) => Err(f),
    }
}

/// The IR module compiled from source `src`, or why there is none.
/// `floats` gives the raw bits of the string payloads that read as floats.
pub open spec fn compile_spec(src: Seq<char>, floats: Seq<(Seq<char>, i32)>) -> Result<Seq<char>, Fault> {
    match lex(src) {
        Err(e) => Err(lex_fault(e)),
        Ok(toks) => match analyze(toks) {
            Err(f) => Err(f),
            Ok(p) => match defs_ir(start_model(p, floats), p.defs, 0, routine_aliases(src)) {
                Err(f) => Err(f),
                Ok(m) => match select_entry(p) {
                    None => Err(Fault::NoEntryPoint),
                    Some(entry) => {
                        let e = main_wrapper_ir(m.e, m.here, entry);
                        Ok(e.out + seq!['\n'] + e.globals)
                    },
                },
            },
        },
    }
}

impl Codegen {
    /// A code generator with an empty builder and empty tables.
    pub fn new(float_literals: SymTab) -> (r: Codegen)
        ensures
            r@ == (CgModel {
                e: Emit { out: seq![], globals: seq![], tmp: 0, lbl: 0 },
                ctrl: seq![],
                created: seq![],
                consts: seq![],
                defs: seq![],
                here: 0,
                floats: float_literals@,
            }),
    {
        let r = Codegen {
            b: LlvmBuilder::new(),
            ctrl: Vec::new(),
            created_words: SymTab::new(),
            constant_words: SymTab::new(),
            known_defs: NameSet::new(),
            here: 0,
            float_literals,
        };
        assert(r@.ctrl =~= Seq::<crate::codegen::FrameModel>::empty());
        r
    }

    /// Emits the function of one definition.
    pub fn compile_definition(&mut self, name: &Vec<char>, body: &Vec<Token>, alias: Option<&Vec<char>>) -> (r: Result<(), CompileError>)
        requires
            token_room(old(self)@),
        ensures
            outcome(r, final(self)@, def_ir(old(self)@, name@, lexemes(body@), opt_ref_view(alias))),
    {
        proof {
            reveal(def_ir);
        }
        self.begin_func(name);
        if !self.try_emit_native_pascal_routine(alias) {
            match self.compile_body(body) {
                Ok(()) => {},
                Err(e) => {
                    return Err(e);
                },
            }
        }
        self.end_func();
        Ok(())
    }

    /// Installs the symbols found by the analyzer.
    pub fn set_program_symbols(
        &mut self,
        created_words: SymTab,
        constant_words: SymTab,
        known_defs: NameSet,
        here: i32,
    )
        ensures
            final(self)@ == (CgModel {
                created: created_words@,
                consts: constant_words@,
                defs: known_defs@,
                here,
                ..old(self)@
            }),
    {
        self.created_words = created_words;
        self.constant_words = constant_words;
        self.known_defs = known_defs;
        self.here = here;
    }
}

/// Compiles source text to an IR module. `float_literals` gives the raw bits
/// of the string payloads that read as 32-bit floats.
pub fn compile_source(src: &str, float_literals: SymTab) -> (r: Result<Vec<char>, CompileError>)
    ensures
        match compile_spec(src@, float_literals@) {
            Ok(t) => r matches Ok(x) && x@ == t,
            Err(f) => r matches Err(e) && e@ == f,
        },
{
    let ghost floats = float_literals@;
    let aliases = extract_routine_aliases(src);
    let toks = match tokenize(src) {
        Ok(t) => t,
        Err(LexError::UnterminatedComment) => {
            return Err(CompileError::UnterminatedComment);
        },
        Err(LexError::UnterminatedString) => {
            return Err(CompileError::UnterminatedString);
        },
    };
    let parsed = match parse_program(&toks) {
        Ok(p) => p,
        Err(e) => {
            return Err(e);
        },
    };
    let ghost p = parsed@;
    let mut known = NameSet::new();
    let mut k: usize = 0;
    while k < parsed.defs.len()
        invariant
            k <= parsed.defs@.len(),
            p == parsed@,
            known@ == def_names(p.defs).take(k as int),
        decreases parsed.defs@.len() - k,
    {
        known.insert(parsed.defs[k].0.clone());
        k = k + 1;
        assert(known@ =~= def_names(p.defs).take(k as int));
    }
    assert(known@ =~= def_names(p.defs));
    let entry_call = select_entry_exec(&parsed);
    let mut cg = Codegen::new(float_literals);
    cg.emit_prelude();
    cg.set_program_symbols(
        parsed.created_words,
        parsed.constant_words,
        known,
        parsed.here,
    );
    assert(cg@.e.out =~= PRELUDE@);
    assert(cg@ == start_model(p, floats));
    let mut d: usize = 0;
    while d < parsed.defs.len()
        invariant
            d <= parsed.defs@.len(),
            p.defs == parsed@.defs,
            defs_ir(start_model(p, floats), p.defs, 0, routine_aliases(src@))
                == defs_ir(cg@, p.defs, d as int, aliases@),
            aliases@ == routine_aliases(src@),
            lex(src@) == Ok::<Seq<Lexeme>, LexError>(lexemes(toks@)),
            analyze(lexemes(toks@)) == Ok::<ProgramModel, Fault>(p),
            floats == float_literals@,
        decreases parsed.defs@.len() - d,
    {
        if cg.b.tmp > TOKEN_ROOM || cg.b.lbl > TOKEN_ROOM {
            return Err(CompileError::TooLarge);
        }
        let name = &parsed.defs[d].0;
        let alias = aliases.get(name);
        let res = match &alias {
            Some(a) => cg.compile_definition(name, &parsed.defs[d].1, Some(a)),
            None => cg.compile_definition(name, &parsed.defs[d].1, None),
        };
        if let Err(e) = res {
            return Err(e);
        }
        d = d + 1;
    }
    let entry = match entry_call {
        Some(e) => e,
        None => {
            return Err(CompileError::NoEntryPoint);
        },
    };
    cg.emit_main_wrapper(&entry);
    let mut module: Vec<char> = Vec::new();
    push_all(&mut module, &cg.b.out);
    module.push('\n');
    push_all(&mut module, &cg.b.globals);
    assert(module@ =~= cg.b.out@ + seq!['\n'] + cg.b.globals@);
    Ok(module)
}

} // verus!
