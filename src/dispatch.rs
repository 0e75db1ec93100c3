//! The built-in vocabulary: primitive words, runtime services, and the
//! native kernels that routine aliases select.
use vstd::prelude::*;
use crate::emit::ExternArgMode;
use crate::text::eq_str;

verus! {

/// What a built-in word does.
#[derive(Clone, Copy, Debug)]
pub enum Prim {
    Dup,
    Drop,
    Swap,
    Over,
    ToR,
    RFrom,
    RFetch,
    /// A two-operand integer instruction.
    Bin(&'static str),
    /// `MOD` when true, `/` when false.
    DivMod(bool),
    Negate,
    And,
    /// A shift instruction with the count masked to five bits.
    Shift(&'static str),
    SlashMod,
    /// A comparison by the given `icmp` predicate.
    Cmp(&'static str),
    ZeroEq,
    ZeroLt,
    If,
    Else,
    Then,
    Begin,
    Until,
    While,
    Repeat,
    /// A call of a runtime function.
    Service(&'static str, ExternArgMode),
    /// Pushes a fixed cell (the float constants).
    PushBits(i32),
    Constant,
    Create,
    Comma,
}

/// Built-in words: stack, arithmetic, comparison, control flow, output.
pub open spec fn prim_of_a(w: Seq<char>) -> Option<Prim> {
    if w == "DUP"@ {
        Some(Prim::Dup)
    } else if w == "DROP"@ {
        Some(Prim::Drop)
    } else if w == "SWAP"@ {
        Some(Prim::Swap)
    } else if w == "OVER"@ {
        Some(Prim::Over)
    } else if w == ">R"@ {
        Some(Prim::ToR)
    } else if w == "R>"@ {
        Some(Prim::RFrom)
    } else if w == "R@"@ {
        Some(Prim::RFetch)
    } else if w == "+"@ {
        Some(Prim::Bin("add"))
    } else if w == "-"@ {
        Some(Prim::Bin("sub"))
    } else if w == "*"@ {
        Some(Prim::Bin("mul"))
    } else if w == "/"@ {
        Some(Prim::DivMod(false))
    } else if w == "MOD"@ {
        Some(Prim::DivMod(true))
    } else if w == "NEGATE"@ {
        Some(Prim::Negate)
    } else if w == "AND"@ {
        Some(Prim::And)
    } else if w == "OR"@ {
        Some(Prim::Bin("or"))
    } else if w == "XOR"@ {
        Some(Prim::Bin("xor"))
    } else if w == "LSHIFT"@ {
        Some(Prim::Shift("shl"))
    } else if w == "RSHIFT"@ {
        Some(Prim::Shift("lshr"))
    } else if w == "/MOD"@ {
        Some(Prim::SlashMod)
    } else if w == "="@ {
        Some(Prim::Cmp("eq"))
    } else if w == "<>"@ {
        Some(Prim::Cmp("ne"))
    } else if w == "<"@ {
        Some(Prim::Cmp("slt"))
    } else if w == "<="@ {
        Some(Prim::Cmp("sle"))
    } else if w == ">"@ {
        Some(Prim::Cmp("sgt"))
    } else if w == ">="@ {
        Some(Prim::Cmp("sge"))
    } else if w == "0="@ {
        Some(Prim::ZeroEq)
    } else if w == "0<"@ {
        Some(Prim::ZeroLt)
    } else if w == "IF"@ {
        Some(Prim::If)
    } else if w == "ELSE"@ {
        Some(Prim::Else)
    } else if w == "THEN"@ {
        Some(Prim::Then)
    } else if w == "BEGIN"@ {
        Some(Prim::Begin)
    } else if w == "UNTIL"@ {
        Some(Prim::Until)
    } else if w == "WHILE"@ {
        Some(Prim::While)
    } else if w == "REPEAT"@ {
        Some(Prim::Repeat)
    } else if w == "PWRITE-I32"@ {
        Some(Prim::Service("pwrite_i32", ExternArgMode::PopI32Void))
    } else if w == "."@ {
        Some(Prim::Service("pwrite_i32", ExternArgMode::PopI32Void))
    } else if w == "PWRITE-BOOL"@ {
        Some(Prim::Service("pwrite_bool", ExternArgMode::PopI32Void))
    } else if w == "PWRITE-CHAR"@ {
        Some(Prim::Service("pwrite_char", ExternArgMode::PopI32Void))
    } else if w == "EMIT"@ {
        Some(Prim::Service("pwrite_char", ExternArgMode::PopI32Void))
    } else if w == "PWRITELN"@ {
        Some(Prim::Service("pwriteln", ExternArgMode::Void))
    } else {
        None
    }
}

/// Built-in words: input, storage, floats, dictionary words.
pub open spec fn prim_of_b(w: Seq<char>) -> Option<Prim> {
    if w == "PWRITE-HEX"@ {
        Some(Prim::Service("pwrite_hex", ExternArgMode::PopI32Void))
    } else if w == "PREAD-I32"@ {
        Some(Prim::Service("pread_i32", ExternArgMode::RetI32Push))
    } else if w == "PREAD-BOOL"@ {
        Some(Prim::Service("pread_bool", ExternArgMode::RetI32Push))
    } else if w == "PREAD-CHAR"@ {
        Some(Prim::Service("pread_char", ExternArgMode::RetI32Push))
    } else if w == "PREADLN"@ {
        Some(Prim::Service("preadln", ExternArgMode::Void))
    } else if w == "PBOOL"@ {
        Some(Prim::Service("pbool", ExternArgMode::PopI32RetI32Push))
    } else if w == "PVAR!"@ {
        Some(Prim::Service("pvar_set", ExternArgMode::Pop2I32Void))
    } else if w == "PVAR@"@ {
        Some(Prim::Service("pvar_get", ExternArgMode::PopI32RetI32Push))
    } else if w == "PFIELD!"@ {
        Some(Prim::Service("pfield_set", ExternArgMode::Pop3I32Void))
    } else if w == "PFIELD@"@ {
        Some(Prim::Service("pfield_get", ExternArgMode::Pop2I32RetI32Push))
    } else if w == "PREAD-F32"@ {
        Some(Prim::Service("pread_f32_bits", ExternArgMode::RetI32Push))
    } else if w == "FADD"@ {
        Some(Prim::Service("fadd_bits", ExternArgMode::Pop2I32RetI32Push))
    } else if w == "FSUB"@ {
        Some(Prim::Service("fsub_bits", ExternArgMode::Pop2I32RetI32Push))
    } else if w == "FMUL"@ {
        Some(Prim::Service("fmul_bits", ExternArgMode::Pop2I32RetI32Push))
    } else if w == "FDIV"@ {
        Some(Prim::Service("fdiv_bits", ExternArgMode::Pop2I32RetI32Push))
    } else if w == "FNEGATE"@ {
        Some(Prim::Service("fnegate_bits", ExternArgMode::PopI32RetI32Push))
    } else if w == "FABS"@ {
        Some(Prim::Service("fabs_bits", ExternArgMode::PopI32RetI32Push))
    } else if w == "F="@ {
        Some(Prim::Service("feq_bits", ExternArgMode::Pop2I32RetI32Push))
    } else if w == "F<"@ {
        Some(Prim::Service("flt_bits", ExternArgMode::Pop2I32RetI32Push))
    } else if w == "F<="@ {
        Some(Prim::Service("fle_bits", ExternArgMode::Pop2I32RetI32Push))
    } else if w == "FZERO?"@ {
        Some(Prim::Service("fzero_bits", ExternArgMode::PopI32RetI32Push))
    } else if w == "F0="@ {
        Some(Prim::Service("fzero_bits", ExternArgMode::PopI32RetI32Push))
    } else if w == "FINF?"@ {
        Some(Prim::Service("finf_bits", ExternArgMode::PopI32RetI32Push))
    } else if w == "FNAN?"@ {
        Some(Prim::Service("fnan_bits", ExternArgMode::PopI32RetI32Push))
    } else if w == "FFINITE?"@ {
        Some(Prim::Service("ffinite_bits", ExternArgMode::PopI32RetI32Push))
    } else if w == "S>F"@ {
        Some(Prim::Service("s_to_f_bits", ExternArgMode::PopI32RetI32Push))
    } else if w == "F>S"@ {
        Some(Prim::Service("f_bits_to_s", ExternArgMode::PopI32RetI32Push))
    } else if w == "Q16.16>F"@ {
        Some(Prim::Service("q16_16_to_f_bits", ExternArgMode::PopI32RetI32Push))
    } else if w == "F>Q16.16"@ {
        Some(Prim::Service("f_bits_to_q16_16", ExternArgMode::PopI32RetI32Push))
    } else if w == "FROUND-I32"@ {
        Some(Prim::Service("fround_i32_bits", ExternArgMode::PopI32RetI32Push))
    } else if w == "F."@ {
        Some(Prim::Service("pwrite_f32_bits", ExternArgMode::PopI32Void))
    } else if w == "WRITE-F32"@ {
        Some(Prim::Service("pwrite_f32_bits", ExternArgMode::PopI32Void))
    } else if w == "PWRITE-F32"@ {
        Some(Prim::Service("pwrite_f32_bits", ExternArgMode::PopI32Void))
    } else if w == "F+INF"@ {
        Some(Prim::PushBits(0x7f80_0000i32))
    } else if w == "F-INF"@ {
        Some(Prim::PushBits(-0x80_0000i32))
    } else if w == "FNAN"@ {
        Some(Prim::PushBits(0x7fc0_0000i32))
    } else if w == "CONSTANT"@ {
        Some(Prim::Constant)
    } else if w == "CREATE"@ {
        Some(Prim::Create)
    } else if w == "HERE"@ {
        Some(Prim::Service("rt_here", ExternArgMode::RetI32Push))
    } else if w == ","@ {
        Some(Prim::Comma)
    } else if w == "ALLOT"@ {
        Some(Prim::Service("rt_allot", ExternArgMode::PopI32Void))
    } else {
        None
    }
}

/// The built-in meaning of word `w`, if it has one.
pub open spec fn prim_of(w: Seq<char>) -> Option<Prim> {
    match prim_of_a(w) {
        Some(p) => Some(p),
        None => prim_of_b(w),
    }
}

/// Looks `w` up in the first half of the built-in words.
pub fn lookup_prim_a(w: &Vec<char>) -> (r: Option<Prim>)
    ensures
        r == prim_of_a(w@),
{
    if eq_str(w, "DUP") {
        return Some(Prim::Dup);
    }
    if eq_str(w, "DROP") {
        return Some(Prim::Drop);
    }
    if eq_str(w, "SWAP") {
        return Some(Prim::Swap);
    }
    if eq_str(w, "OVER") {
        return Some(Prim::Over);
    }
    if eq_str(w, ">R") {
        return Some(Prim::ToR);
    }
    if eq_str(w, "R>") {
        return Some(Prim::RFrom);
    }
    if eq_str(w, "R@") {
        return Some(Prim::RFetch);
    }
    if eq_str(w, "+") {
        return Some(Prim::Bin("add"));
    }
    if eq_str(w, "-") {
        return Some(Prim::Bin("sub"));
    }
    if eq_str(w, "*") {
        return Some(Prim::Bin("mul"));
    }
    if eq_str(w, "/") {
        return Some(Prim::DivMod(false));
    }
    if eq_str(w, "MOD") {
        return Some(Prim::DivMod(true));
    }
    if eq_str(w, "NEGATE") {
        return Some(Prim::Negate);
    }
    if eq_str(w, "AND") {
        return Some(Prim::And);
    }
    if eq_str(w, "OR") {
        return Some(Prim::Bin("or"));
    }
    if eq_str(w, "XOR") {
        return Some(Prim::Bin("xor"));
    }
    if eq_str(w, "LSHIFT") {
        return Some(Prim::Shift("shl"));
    }
    if eq_str(w, "RSHIFT") {
        return Some(Prim::Shift("lshr"));
    }
    if eq_str(w, "/MOD") {
        return Some(Prim::SlashMod);
    }
    if eq_str(w, "=") {
        return Some(Prim::Cmp("eq"));
    }
    if eq_str(w, "<>") {
        return Some(Prim::Cmp("ne"));
    }
    if eq_str(w, "<") {
        return Some(Prim::Cmp("slt"));
    }
    if eq_str(w, "<=") {
        return Some(Prim::Cmp("sle"));
    }
    if eq_str(w, ">") {
        return Some(Prim::Cmp("sgt"));
    }
    if eq_str(w, ">=") {
        return Some(Prim::Cmp("sge"));
    }
    if eq_str(w, "0=") {
        return Some(Prim::ZeroEq);
    }
    if eq_str(w, "0<") {
        return Some(Prim::ZeroLt);
    }
    if eq_str(w, "IF") {
        return Some(Prim::If);
    }
    if eq_str(w, "ELSE") {
        return Some(Prim::Else);
    }
    if eq_str(w, "THEN") {
        return Some(Prim::Then);
    }
    if eq_str(w, "BEGIN") {
        return Some(Prim::Begin);
    }
    if eq_str(w, "UNTIL") {
        return Some(Prim::Until);
    }
    if eq_str(w, "WHILE") {
        return Some(Prim::While);
    }
    if eq_str(w, "REPEAT") {
        return Some(Prim::Repeat);
    }
    if eq_str(w, "PWRITE-I32") {
        return Some(Prim::Service("pwrite_i32", ExternArgMode::PopI32Void));
    }
    if eq_str(w, ".") {
        return Some(Prim::Service("pwrite_i32", ExternArgMode::PopI32Void));
    }
    if eq_str(w, "PWRITE-BOOL") {
        return Some(Prim::Service("pwrite_bool", ExternArgMode::PopI32Void));
    }
    if eq_str(w, "PWRITE-CHAR") {
        return Some(Prim::Service("pwrite_char", ExternArgMode::PopI32Void));
    }
    if eq_str(w, "EMIT") {
        return Some(Prim::Service("pwrite_char", ExternArgMode::PopI32Void));
    }
    if eq_str(w, "PWRITELN") {
        return Some(Prim::Service("pwriteln", ExternArgMode::Void));
    }
    None
}

/// Looks `w` up in the second half of the built-in words.
pub fn lookup_prim_b(w: &Vec<char>) -> (r: Option<Prim>)
    ensures
        r == prim_of_b(w@),
{
    if eq_str(w, "PWRITE-HEX") {
        return Some(Prim::Service("pwrite_hex", ExternArgMode::PopI32Void));
    }
    if eq_str(w, "PREAD-I32") {
        return Some(Prim::Service("pread_i32", ExternArgMode::RetI32Push));
    }
    if eq_str(w, "PREAD-BOOL") {
        return Some(Prim::Service("pread_bool", ExternArgMode::RetI32Push));
    }
    if eq_str(w, "PREAD-CHAR") {
        return Some(Prim::Service("pread_char", ExternArgMode::RetI32Push));
    }
    if eq_str(w, "PREADLN") {
        return Some(Prim::Service("preadln", ExternArgMode::Void));
    }
    if eq_str(w, "PBOOL") {
        return Some(Prim::Service("pbool", ExternArgMode::PopI32RetI32Push));
    }
    if eq_str(w, "PVAR!") {
        return Some(Prim::Service("pvar_set", ExternArgMode::Pop2I32Void));
    }
    if eq_str(w, "PVAR@") {
        return Some(Prim::Service("pvar_get", ExternArgMode::PopI32RetI32Push));
    }
    if eq_str(w, "PFIELD!") {
        return Some(Prim::Service("pfield_set", ExternArgMode::Pop3I32Void));
    }
    if eq_str(w, "PFIELD@") {
        return Some(Prim::Service("pfield_get", ExternArgMode::Pop2I32RetI32Push));
    }
    if eq_str(w, "PREAD-F32") {
        return Some(Prim::Service("pread_f32_bits", ExternArgMode::RetI32Push));
    }
    if eq_str(w, "FADD") {
        return Some(Prim::Service("fadd_bits", ExternArgMode::Pop2I32RetI32Push));
    }
    if eq_str(w, "FSUB") {
        return Some(Prim::Service("fsub_bits", ExternArgMode::Pop2I32RetI32Push));
    }
    if eq_str(w, "FMUL") {
        return Some(Prim::Service("fmul_bits", ExternArgMode::Pop2I32RetI32Push));
    }
    if eq_str(w, "FDIV") {
        return Some(Prim::Service("fdiv_bits", ExternArgMode::Pop2I32RetI32Push));
    }
    if eq_str(w, "FNEGATE") {
        return Some(Prim::Service("fnegate_bits", ExternArgMode::PopI32RetI32Push));
    }
    if eq_str(w, "FABS") {
        return Some(Prim::Service("fabs_bits", ExternArgMode::PopI32RetI32Push));
    }
    if eq_str(w, "F=") {
        return Some(Prim::Service("feq_bits", ExternArgMode::Pop2I32RetI32Push));
    }
    if eq_str(w, "F<") {
        return Some(Prim::Service("flt_bits", ExternArgMode::Pop2I32RetI32Push));
    }
    if eq_str(w, "F<=") {
        return Some(Prim::Service("fle_bits", ExternArgMode::Pop2I32RetI32Push));
    }
    if eq_str(w, "FZERO?") {
        return Some(Prim::Service("fzero_bits", ExternArgMode::PopI32RetI32Push));
    }
    if eq_str(w, "F0=") {
        return Some(Prim::Service("fzero_bits", ExternArgMode::PopI32RetI32Push));
    }
    if eq_str(w, "FINF?") {
        return Some(Prim::Service("finf_bits", ExternArgMode::PopI32RetI32Push));
    }
    if eq_str(w, "FNAN?") {
        return Some(Prim::Service("fnan_bits", ExternArgMode::PopI32RetI32Push));
    }
    if eq_str(w, "FFINITE?") {
        return Some(Prim::Service("ffinite_bits", ExternArgMode::PopI32RetI32Push));
    }
    if eq_str(w, "S>F") {
        return Some(Prim::Service("s_to_f_bits", ExternArgMode::PopI32RetI32Push));
    }
    if eq_str(w, "F>S") {
        return Some(Prim::Service("f_bits_to_s", ExternArgMode::PopI32RetI32Push));
    }
    if eq_str(w, "Q16.16>F") {
        return Some(Prim::Service("q16_16_to_f_bits", ExternArgMode::PopI32RetI32Push));
    }
    if eq_str(w, "F>Q16.16") {
        return Some(Prim::Service("f_bits_to_q16_16", ExternArgMode::PopI32RetI32Push));
    }
    if eq_str(w, "FROUND-I32") {
        return Some(Prim::Service("fround_i32_bits", ExternArgMode::PopI32RetI32Push));
    }
    if eq_str(w, "F.") {
        return Some(Prim::Service("pwrite_f32_bits", ExternArgMode::PopI32Void));
    }
    if eq_str(w, "WRITE-F32") {
        return Some(Prim::Service("pwrite_f32_bits", ExternArgMode::PopI32Void));
    }
    if eq_str(w, "PWRITE-F32") {
        return Some(Prim::Service("pwrite_f32_bits", ExternArgMode::PopI32Void));
    }
    if eq_str(w, "F+INF") {
        return Some(Prim::PushBits(0x7f80_0000i32));
    }
    if eq_str(w, "F-INF") {
        return Some(Prim::PushBits(-0x80_0000i32));
    }
    if eq_str(w, "FNAN") {
        return Some(Prim::PushBits(0x7fc0_0000i32));
    }
    if eq_str(w, "CONSTANT") {
        return Some(Prim::Constant);
    }
    if eq_str(w, "CREATE") {
        return Some(Prim::Create);
    }
    if eq_str(w, "HERE") {
        return Some(Prim::Service("rt_here", ExternArgMode::RetI32Push));
    }
    if eq_str(w, ",") {
        return Some(Prim::Comma);
    }
    if eq_str(w, "ALLOT") {
        return Some(Prim::Service("rt_allot", ExternArgMode::PopI32Void));
    }
    None
}

/// The built-in meaning of word `w`, if it has one.
pub fn lookup_prim(w: &Vec<char>) -> (r: Option<Prim>)
    ensures
        r == prim_of(w@),
{
    match lookup_prim_a(w) {
        Some(p) => Some(p),
        None => lookup_prim_b(w),
    }
}

/// The runtime kernel, and how it takes its arguments, that a routine alias selects.
pub open spec fn kernel_of(alias: Seq<char>) -> Option<(&'static str, ExternArgMode)> {
    if alias == "program::abs"@ {
        Some(("kp_fabs_f32_bits", ExternArgMode::PopI32RetI32Push))
    } else if alias == "program::sqrt"@ {
        Some(("kp_fsqrt_f32_bits", ExternArgMode::PopI32RetI32Push))
    } else if alias == "program::sin"@ {
        Some(("kp_fsin_f32_bits", ExternArgMode::PopI32RetI32Push))
    } else if alias == "program::cos"@ {
        Some(("kp_fcos_f32_bits", ExternArgMode::PopI32RetI32Push))
    } else if alias == "program::pow"@ {
        Some(("kp_fpow_f32_i32_bits", ExternArgMode::Pop2I32RetI32Push))
    } else if alias == "program::floor"@ {
        Some(("kp_ffloor_f32_bits", ExternArgMode::PopI32RetI32Push))
    } else if alias == "program::ceil"@ {
        Some(("kp_fceil_f32_bits", ExternArgMode::PopI32RetI32Push))
    } else if alias == "program::fx_sqrt"@ {
        Some(("kp_fx_sqrt_i32", ExternArgMode::PopI32RetI32Push))
    } else if alias == "program::fx_sin"@ {
        Some(("kp_fx_sin_deg_i32", ExternArgMode::PopI32RetI32Push))
    } else if alias == "program::fx_cos"@ {
        Some(("kp_fx_cos_deg_i32", ExternArgMode::PopI32RetI32Push))
    } else if alias == "program::fx_tan"@ {
        Some(("kp_fx_tan_deg_i32", ExternArgMode::PopI32RetI32Push))
    } else if alias == "program::fx_asin"@ {
        Some(("kp_fx_asin_fixed_i32", ExternArgMode::PopI32RetI32Push))
    } else if alias == "program::fx_acos"@ {
        Some(("kp_fx_acos_fixed_i32", ExternArgMode::PopI32RetI32Push))
    } else if alias == "program::fx_atan"@ {
        Some(("kp_fx_atan_fixed_i32", ExternArgMode::PopI32RetI32Push))
    } else if alias == "program::fx_ln"@ {
        Some(("kp_fx_ln_i32", ExternArgMode::PopI32RetI32Push))
    } else if alias == "program::fx_log"@ {
        Some(("kp_fx_log_i32", ExternArgMode::PopI32RetI32Push))
    } else {
        None
    }
}

/// The runtime kernel that a routine alias selects.
pub fn lookup_kernel(alias: &Vec<char>) -> (r: Option<(&'static str, ExternArgMode)>)
    ensures
        r == kernel_of(alias@),
{
    if eq_str(alias, "program::abs") {
        return Some(("kp_fabs_f32_bits", ExternArgMode::PopI32RetI32Push));
    }
    if eq_str(alias, "program::sqrt") {
        return Some(("kp_fsqrt_f32_bits", ExternArgMode::PopI32RetI32Push));
    }
    if eq_str(alias, "program::sin") {
        return Some(("kp_fsin_f32_bits", ExternArgMode::PopI32RetI32Push));
    }
    if eq_str(alias, "program::cos") {
        return Some(("kp_fcos_f32_bits", ExternArgMode::PopI32RetI32Push));
    }
    if eq_str(alias, "program::pow") {
        return Some(("kp_fpow_f32_i32_bits", ExternArgMode::Pop2I32RetI32Push));
    }
    if eq_str(alias, "program::floor") {
        return Some(("kp_ffloor_f32_bits", ExternArgMode::PopI32RetI32Push));
    }
    if eq_str(alias, "program::ceil") {
        return Some(("kp_fceil_f32_bits", ExternArgMode::PopI32RetI32Push));
    }
    if eq_str(alias, "program::fx_sqrt") {
        return Some(("kp_fx_sqrt_i32", ExternArgMode::PopI32RetI32Push));
    }
    if eq_str(alias, "program::fx_sin") {
        return Some(("kp_fx_sin_deg_i32", ExternArgMode::PopI32RetI32Push));
    }
    if eq_str(alias, "program::fx_cos") {
        return Some(("kp_fx_cos_deg_i32", ExternArgMode::PopI32RetI32Push));
    }
    if eq_str(alias, "program::fx_tan") {
        return Some(("kp_fx_tan_deg_i32", ExternArgMode::PopI32RetI32Push));
    }
    if eq_str(alias, "program::fx_asin") {
        return Some(("kp_fx_asin_fixed_i32", ExternArgMode::PopI32RetI32Push));
    }
    if eq_str(alias, "program::fx_acos") {
        return Some(("kp_fx_acos_fixed_i32", ExternArgMode::PopI32RetI32Push));
    }
    if eq_str(alias, "program::fx_atan") {
        return Some(("kp_fx_atan_fixed_i32", ExternArgMode::PopI32RetI32Push));
    }
    if eq_str(alias, "program::fx_ln") {
        return Some(("kp_fx_ln_i32", ExternArgMode::PopI32RetI32Push));
    }
    if eq_str(alias, "program::fx_log") {
        return Some(("kp_fx_log_i32", ExternArgMode::PopI32RetI32Push));
    }
    None
}


} // verus!
