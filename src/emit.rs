//! Runtime calls, string constants, function frames, the module prelude and
//! the `main` wrapper.
use vstd::prelude::*;
use vstd::utf8::encode_utf8;
use crate::builder::Emit;
use crate::codegen::{fresh, fresh_label, pop_ir, push_ir, Codegen};
use crate::ir::{
    arg1, arg1_text, arg2, arg2_text, arg3, arg3_text, i32_call_line, i32_call_text,
    void_call_line, void_call_text,
};
use crate::mangle::{encode_char, lemma_encode_utf8_push, mangle, push_word_sym};
use crate::text::{chars_of, dec_int, dec_nat, hex2, push_all, push_hex2, push_i64, push_str, push_u64};

verus! {

/// How a runtime function takes its arguments from the data stack and
/// gives back its result.
#[derive(Clone, Copy, PartialEq, Eq, Debug)]
pub enum ExternArgMode {
    PopI32Void,
    Void,
    RetI32Push,
    PopI32RetI32Push,
    Pop2I32Void,
    Pop2I32RetI32Push,
    Pop3I32Void,
}

/// A call of the runtime function `callee` in the given argument mode.
pub open spec fn call_extern_ir(e: Emit, callee: Seq<char>, mode: ExternArgMode) -> Emit {
    match mode {
        ExternArgMode::PopI32Void => {
            let (e1, v) = pop_ir(e);
            e1.line(void_call_line(callee, arg1(v)))
        },
        ExternArgMode::Void => e.line(void_call_line(callee, seq![])),
        ExternArgMode::RetI32Push => {
            let (e1, r) = fresh(e);
            push_ir(e1.line(i32_call_line(r, callee, seq![])), r)
        },
        ExternArgMode::PopI32RetI32Push => {
            let (e1, v) = pop_ir(e);
            let (e2, r) = fresh(e1);
            push_ir(e2.line(i32_call_line(r, callee, arg1(v))), r)
        },
        ExternArgMode::Pop2I32Void => {
            let (e1, b) = pop_ir(e);
            let (e2, a) = pop_ir(e1);
            e2.line(void_call_line(callee, arg2(a, b)))
        },
        ExternArgMode::Pop2I32RetI32Push => {
            let (e1, b) = pop_ir(e);
            let (e2, a) = pop_ir(e1);
            let (e3, r) = fresh(e2);
            push_ir(e3.line(i32_call_line(r, callee, arg2(a, b))), r)
        },
        ExternArgMode::Pop3I32Void => {
            let (e1, c) = pop_ir(e);
            let (e2, b) = pop_ir(e1);
            let (e3, a) = pop_ir(e2);
            e3.line(void_call_line(callee, arg3(a, b, c)))
        },
    }
}

/// Each byte written as `\HH`.
pub open spec fn hex_escape(b: Seq<u8>) -> Seq<char>
    decreases b.len(),
{
    if b.len() == 0 {
        seq![]
    } else {
        hex_escape(b.drop_last()) + seq!['\\'] + hex2(b.last())
    }
}

/// The bytes of a string constant: its UTF-8 encoding and a trailing NUL.
pub open spec fn cstring_bytes(s: Seq<char>) -> Seq<u8> {
    encode_utf8(s).push(0u8)
}

/// A private constant holding `s` and a pointer temporary to its first byte.
pub open spec fn string_global_ir(e: Emit, s: Seq<char>) -> (Emit, Seq<char>) {
    let bytes = cstring_bytes(s);
    let n = dec_nat(bytes.len());
    let (e1, name) = fresh_label(e, "str"@);
    let e2 = e1.global_line(
        "@"@ + name + " = private constant ["@ + n + " x i8] c\""@ + hex_escape(bytes) + "\""@,
    );
    let (e3, ptr) = fresh(e2);
    (
        e3.line(
            "  "@ + ptr + " = getelementptr inbounds ["@ + n + " x i8], ["@ + n + " x i8]* @"@ + name
                + ", i32 0, i32 0"@,
        ),
        ptr,
    )
}

/// A call of `callee` with a pointer to a new string constant holding `s`.
pub open spec fn call_str_ir(e: Emit, callee: Seq<char>, s: Seq<char>) -> Emit {
    let (e1, p) = string_global_ir(e, s);
    e1.line(void_call_line(callee, "i8* "@ + p))
}

/// A call of the compiled word `w` with the current stack pair.
pub open spec fn call_word_ir(e: Emit, w: Seq<char>) -> Emit {
    e.line(void_call_line(mangle(w), "i32* %stack_base, i32* %sp_ptr"@))
}

/// The opening of the function of word `name`: signature, entry block and
/// a zeroed local return stack.
pub open spec fn begin_func_ir(e: Emit, name: Seq<char>) -> Emit {
    e.line("define void @"@ + mangle(name) + "(i32* %stack_base, i32* %sp_ptr) {"@)
        .line("entry:"@)
        .line("  %rstack = alloca [1024 x i32], align 16"@)
        .line("  %rsp_ptr = alloca i32, align 4"@)
        .line("  store i32 0, i32* %rsp_ptr, align 4"@)
        .line("  %rstack_base = getelementptr inbounds [1024 x i32], [1024 x i32]* %rstack, i32 0, i32 0"@)
}

/// The closing of a function.
pub open spec fn end_func_ir(e: Emit) -> Emit {
    e.line("  ret void"@).line("}"@).line(seq![])
}

/// The `main` wrapper: a zeroed data stack, the heap reset to `here`, and
/// a call of the entry word.
pub open spec fn main_wrapper_ir(e: Emit, here: i32, entry: Seq<char>) -> Emit {
    e.line("define i32 @main() {"@)
        .line("entry:"@)
        .line("  %stack = alloca [1024 x i32], align 16"@)
        .line("  %sp = alloca i32, align 4"@)
        .line("  store i32 0, i32* %sp, align 4"@)
        .line("  %base = getelementptr inbounds [1024 x i32], [1024 x i32]* %stack, i32 0, i32 0"@)
        .line("  call void @rt_heap_reset(i32 "@ + dec_int(here as int) + ")"@)
        .line("  call void @"@ + mangle(entry) + "(i32* %base, i32* %sp)"@)
        .line("  ret i32 0"@)
        .line("}"@)
        .line(seq![])
}

/// The module header and the declarations of every runtime function.
pub const PRELUDE: &'static str = "; ModuleID = 'forthc'

declare void @pwrite_i32(i32)
declare void @pwrite_bool(i32)
declare void @pwrite_char(i32)
declare void @pwrite_hex(i32)
declare void @pwriteln()
declare void @pwrite_str(i8*)
declare i32 @pread_i32()
declare i32 @pread_bool()
declare i32 @pread_char()
declare i32 @pread_f32_bits()
declare void @preadln()
declare i32 @rt_here()
declare void @rt_allot(i32)
declare void @rt_heap_reset(i32)
declare i32 @pvar_get(i32)
declare void @pvar_set(i32, i32)
declare i32 @pfield_get(i32, i32)
declare void @pfield_set(i32, i32, i32)
declare i32 @pbool(i32)
declare void @pwrite_f32_bits(i32)
declare i32 @fadd_bits(i32, i32)
declare i32 @fsub_bits(i32, i32)
declare i32 @fmul_bits(i32, i32)
declare i32 @fdiv_bits(i32, i32)
declare i32 @fnegate_bits(i32)
declare i32 @fabs_bits(i32)
declare i32 @feq_bits(i32, i32)
declare i32 @flt_bits(i32, i32)
declare i32 @fle_bits(i32, i32)
declare i32 @fzero_bits(i32)
declare i32 @finf_bits(i32)
declare i32 @fnan_bits(i32)
declare i32 @ffinite_bits(i32)
declare i32 @s_to_f_bits(i32)
declare i32 @f_bits_to_s(i32)
declare i32 @q16_16_to_f_bits(i32)
declare i32 @f_bits_to_q16_16(i32)
declare i32 @fround_i32_bits(i32)
declare i32 @kp_fabs_f32_bits(i32)
declare i32 @kp_fsqrt_f32_bits(i32)
declare i32 @kp_fsin_f32_bits(i32)
declare i32 @kp_fcos_f32_bits(i32)
declare i32 @kp_fpow_f32_i32_bits(i32, i32)
declare i32 @kp_ffloor_f32_bits(i32)
declare i32 @kp_fceil_f32_bits(i32)
declare i32 @kp_fx_sqrt_i32(i32)
declare i32 @kp_fx_sin_deg_i32(i32)
declare i32 @kp_fx_cos_deg_i32(i32)
declare i32 @kp_fx_tan_deg_i32(i32)
declare i32 @kp_fx_asin_fixed_i32(i32)
declare i32 @kp_fx_acos_fixed_i32(i32)
declare i32 @kp_fx_atan_fixed_i32(i32)
declare i32 @kp_fx_ln_i32(i32)
declare i32 @kp_fx_log_i32(i32)

";

/// The UTF-8 bytes of `s` followed by a NUL.
pub fn cstring_of(s: &Vec<char>) -> (r: Vec<u8>)
    ensures
        r@ == cstring_bytes(s@),
{
    let mut bytes: Vec<u8> = Vec::new();
    let mut i: usize = 0;
    assert(s@.take(0) =~= seq![]);
    while i < s.len()
        invariant
            i <= s@.len(),
            bytes@ == encode_utf8(s@.take(i as int)),
        decreases s@.len() - i,
    {
        let enc = encode_char(s[i]);
        let ghost before = bytes@;
        let mut k: usize = 0;
        while k < enc.len()
            invariant
                k <= enc@.len(),
                bytes@ == before + enc@.take(k as int),
            decreases enc@.len() - k,
        {
            bytes.push(enc[k]);
            k = k + 1;
            assert(enc@.take(k as int) =~= enc@.take(k - 1).push(enc@[k - 1]));
        }
        proof {
            assert(enc@.take(k as int) =~= enc@);
            lemma_encode_utf8_push(s@.take(i as int), s@[i as int]);
            assert(s@.take(i + 1) =~= s@.take(i as int).push(s@[i as int]));
        }
        i = i + 1;
    }
    assert(s@.take(i as int) =~= s@);
    bytes.push(0u8);
    bytes
}

impl Codegen {
    /// Calls the runtime function `callee` in the given argument mode.
    pub fn call_extern(&mut self, callee: &str, arg_mode: ExternArgMode)
        requires
            old(self)@.room(32),
        ensures
            final(self)@ == old(self)@.with_e(call_extern_ir(old(self)@.e, callee@, arg_mode)),
    {
        let callee = chars_of(callee);
        match arg_mode {
            ExternArgMode::PopI32Void => {
                let v = self.pop_i32();
                let a = arg1_text(&v);
                let l = void_call_text(&callee, &a);
                self.b.emit_line(&l);
            },
            ExternArgMode::Void => {
                let a: Vec<char> = Vec::new();
                let l = void_call_text(&callee, &a);
                self.b.emit_line(&l);
            },
            ExternArgMode::RetI32Push => {
                let r = self.b.fresh_tmp();
                let a: Vec<char> = Vec::new();
                let l = i32_call_text(&r, &callee, &a);
                self.b.emit_line(&l);
                self.push_i32(&r);
            },
            ExternArgMode::PopI32RetI32Push => {
                let v = self.pop_i32();
                let r = self.b.fresh_tmp();
                let a = arg1_text(&v);
                let l = i32_call_text(&r, &callee, &a);
                self.b.emit_line(&l);
                self.push_i32(&r);
            },
            ExternArgMode::Pop2I32Void => {
                let b = self.pop_i32();
                let a = self.pop_i32();
                let args = arg2_text(&a, &b);
                let l = void_call_text(&callee, &args);
                self.b.emit_line(&l);
            },
            ExternArgMode::Pop2I32RetI32Push => {
                let b = self.pop_i32();
                let a = self.pop_i32();
                let r = self.b.fresh_tmp();
                let args = arg2_text(&a, &b);
                let l = i32_call_text(&r, &callee, &args);
                self.b.emit_line(&l);
                self.push_i32(&r);
            },
            ExternArgMode::Pop3I32Void => {
                let c = self.pop_i32();
                let b = self.pop_i32();
                let a = self.pop_i32();
                let args = arg3_text(&a, &b, &c);
                let l = void_call_text(&callee, &args);
                self.b.emit_line(&l);
            },
        }
    }

    /// Emits a new string constant holding `s`; returns a pointer to its
    /// first byte.
    pub fn emit_string_global(&mut self, s: &Vec<char>) -> (r: Vec<char>)
        requires
            old(self)@.room(2),
        ensures
            final(self)@ == old(self)@.with_e(string_global_ir(old(self)@.e, s@).0),
            r@ == string_global_ir(old(self)@.e, s@).1,
    {
        let bytes = cstring_of(s);
        let name = self.b.fresh_lbl("str");
        let mut n: Vec<char> = Vec::new();
        push_u64(&mut n, bytes.len() as u64);
        let mut body: Vec<char> = Vec::new();
        let mut k: usize = 0;
        while k < bytes.len()
            invariant
                k <= bytes@.len(),
                body@ == hex_escape(bytes@.take(k as int)),
            decreases bytes@.len() - k,
        {
            body.push('\\');
            push_hex2(&mut body, bytes[k]);
            assert(bytes@.take(k + 1).drop_last() =~= bytes@.take(k as int));
            k = k + 1;
        }
        assert(bytes@.take(k as int) =~= bytes@);
        let mut g: Vec<char> = Vec::new();
        push_str(&mut g, "@");
        push_all(&mut g, &name);
        push_str(&mut g, " = private constant [");
        push_all(&mut g, &n);
        push_str(&mut g, " x i8] c\"");
        push_all(&mut g, &body);
        push_str(&mut g, "\"");
        self.b.emit_global_line(&g);
        let ptr = self.b.fresh_tmp();
        let mut l: Vec<char> = Vec::new();
        push_str(&mut l, "  ");
        push_all(&mut l, &ptr);
        push_str(&mut l, " = getelementptr inbounds [");
        push_all(&mut l, &n);
        push_str(&mut l, " x i8], [");
        push_all(&mut l, &n);
        push_str(&mut l, " x i8]* @");
        push_all(&mut l, &name);
        push_str(&mut l, ", i32 0, i32 0");
        self.b.emit_line(&l);
        ptr
    }

    /// Calls `callee` with a pointer to a new string constant holding `s`.
    pub fn call_extern_str(&mut self, callee: &str, s: &Vec<char>)
        requires
            old(self)@.room(2),
        ensures
            final(self)@ == old(self)@.with_e(call_str_ir(old(self)@.e, callee@, s@)),
    {
        let p = self.emit_string_global(s);
        let callee = chars_of(callee);
        let mut a: Vec<char> = Vec::new();
        push_str(&mut a, "i8* ");
        push_all(&mut a, &p);
        let l = void_call_text(&callee, &a);
        self.b.emit_line(&l);
    }

    /// Calls the compiled word `word`.
    pub fn call_word(&mut self, word: &Vec<char>)
        ensures
            final(self)@ == old(self)@.with_e(call_word_ir(old(self)@.e, word@)),
    {
        let mut sym: Vec<char> = Vec::new();
        push_word_sym(&mut sym, word);
        let args = chars_of("i32* %stack_base, i32* %sp_ptr");
        let l = void_call_text(&sym, &args);
        self.b.emit_line(&l);
    }

    /// Opens the function of word `name`.
    pub fn begin_func(&mut self, name: &Vec<char>)
        ensures
            final(self)@ == old(self)@.with_e(begin_func_ir(old(self)@.e, name@)),
    {
        let mut l: Vec<char> = Vec::new();
        push_str(&mut l, "define void @");
        push_word_sym(&mut l, name);
        push_str(&mut l, "(i32* %stack_base, i32* %sp_ptr) {");
        self.b.emit_line(&l);
        self.b.emit_text("entry:");
        self.b.emit_text("  %rstack = alloca [1024 x i32], align 16");
        self.b.emit_text("  %rsp_ptr = alloca i32, align 4");
        self.b.emit_text("  store i32 0, i32* %rsp_ptr, align 4");
        self.b.emit_text(
            "  %rstack_base = getelementptr inbounds [1024 x i32], [1024 x i32]* %rstack, i32 0, i32 0",
        );
    }

    /// Closes the current function.
    pub fn end_func(&mut self)
        ensures
            final(self)@ == old(self)@.with_e(end_func_ir(old(self)@.e)),
    {
        self.b.emit_text("  ret void");
        self.b.emit_text("}");
        let empty: Vec<char> = Vec::new();
        self.b.emit_line(&empty);
    }

    /// Writes the module header and the runtime declarations.
    pub fn emit_prelude(&mut self)
        ensures
            final(self)@ == old(self)@.with_e(
                Emit { out: old(self)@.e.out + PRELUDE@, ..old(self)@.e },
            ),
    {
        push_str(&mut self.b.out, PRELUDE);
    }

    /// Writes the `main` wrapper that calls the word `entry`.
    pub fn emit_main_wrapper(&mut self, entry: &Vec<char>)
        ensures
            final(self)@ == old(self)@.with_e(main_wrapper_ir(old(self)@.e, old(self)@.here, entry@)),
    {
        self.b.emit_text("define i32 @main() {");
        self.b.emit_text("entry:");
        self.b.emit_text("  %stack = alloca [1024 x i32], align 16");
        self.b.emit_text("  %sp = alloca i32, align 4");
        self.b.emit_text("  store i32 0, i32* %sp, align 4");
        self.b.emit_text(
            "  %base = getelementptr inbounds [1024 x i32], [1024 x i32]* %stack, i32 0, i32 0",
        );
        let mut l1: Vec<char> = Vec::new();
        push_str(&mut l1, "  call void @rt_heap_reset(i32 ");
        push_i64(&mut l1, self.here as i64);
        push_str(&mut l1, ")");
        self.b.emit_line(&l1);
        let mut l2: Vec<char> = Vec::new();
        push_str(&mut l2, "  call void @");
        push_word_sym(&mut l2, entry);
        push_str(&mut l2, "(i32* %base, i32* %sp)");
        self.b.emit_line(&l2);
        self.b.emit_text("  ret i32 0");
        self.b.emit_text("}");
        let empty: Vec<char> = Vec::new();
        self.b.emit_line(&empty);
    }
}

} // verus!
