//! The shapes of the IR lines the code generator writes.
use vstd::prelude::*;
use crate::text::{push_all, push_str};

verus! {

/// `  DST = load i32, i32* PTR, align 4`
pub open spec fn load_line(dst: Seq<char>, ptr: Seq<char>) -> Seq<char> {
    "  "@ + dst + " = load i32, i32* "@ + ptr + ", align 4"@
}

/// `  store i32 VAL, i32* PTR, align 4`
pub open spec fn store_line(val: Seq<char>, ptr: Seq<char>) -> Seq<char> {
    "  store i32 "@ + val + ", i32* "@ + ptr + ", align 4"@
}

/// `  DST = getelementptr inbounds i32, i32* BASE, i32 IDX`
pub open spec fn gep_line(dst: Seq<char>, base: Seq<char>, idx: Seq<char>) -> Seq<char> {
    "  "@ + dst + " = getelementptr inbounds i32, i32* "@ + base + ", i32 "@ + idx
}

/// `  DST = OP i32 A, B` (also `icmp PRED` as the operation)
pub open spec fn op_line(dst: Seq<char>, op: Seq<char>, a: Seq<char>, b: Seq<char>) -> Seq<char> {
    "  "@ + dst + " = "@ + op + " i32 "@ + a + ", "@ + b
}

/// `  DST = zext i1 C to i32`
pub open spec fn zext_line(dst: Seq<char>, c: Seq<char>) -> Seq<char> {
    "  "@ + dst + " = zext i1 "@ + c + " to i32"@
}

/// `  br i1 C, label %IF_TRUE, label %IF_FALSE`
pub open spec fn br_cond_line(c: Seq<char>, t: Seq<char>, f: Seq<char>) -> Seq<char> {
    "  br i1 "@ + c + ", label %"@ + t + ", label %"@ + f
}

/// `  br label %L`
pub open spec fn br_line(l: Seq<char>) -> Seq<char> {
    "  br label %"@ + l
}

/// `L:`
pub open spec fn label_line(l: Seq<char>) -> Seq<char> {
    l + seq![':']
}

/// `  call void @CALLEE(ARGS)`
pub open spec fn void_call_line(callee: Seq<char>, args: Seq<char>) -> Seq<char> {
    "  call void @"@ + callee + "("@ + args + ")"@
}

/// `  DST = call i32 @CALLEE(ARGS)`
pub open spec fn i32_call_line(dst: Seq<char>, callee: Seq<char>, args: Seq<char>) -> Seq<char> {
    "  "@ + dst + " = call i32 @"@ + callee + "("@ + args + ")"@
}

/// One `i32` argument.
pub open spec fn arg1(a: Seq<char>) -> Seq<char> {
    "i32 "@ + a
}

/// Two `i32` arguments.
pub open spec fn arg2(a: Seq<char>, b: Seq<char>) -> Seq<char> {
    arg1(a) + ", "@ + arg1(b)
}

/// Three `i32` arguments.
pub open spec fn arg3(a: Seq<char>, b: Seq<char>, c: Seq<char>) -> Seq<char> {
    arg2(a, b) + ", "@ + arg1(c)
}

pub fn load_text(dst: &Vec<char>, ptr: &str) -> (r: Vec<char>)
    ensures
        r@ == load_line(dst@, ptr@),
{
    let mut l: Vec<char> = Vec::new();
    push_str(&mut l, "  ");
    push_all(&mut l, dst);
    push_str(&mut l, " = load i32, i32* ");
    push_str(&mut l, ptr);
    push_str(&mut l, ", align 4");
    assert(l@ =~= load_line(dst@, ptr@));
    l
}

pub fn load_text_v(dst: &Vec<char>, ptr: &Vec<char>) -> (r: Vec<char>)
    ensures
        r@ == load_line(dst@, ptr@),
{
    let mut l: Vec<char> = Vec::new();
    push_str(&mut l, "  ");
    push_all(&mut l, dst);
    push_str(&mut l, " = load i32, i32* ");
    push_all(&mut l, ptr);
    push_str(&mut l, ", align 4");
    assert(l@ =~= load_line(dst@, ptr@));
    l
}

pub fn store_text(val: &Vec<char>, ptr: &str) -> (r: Vec<char>)
    ensures
        r@ == store_line(val@, ptr@),
{
    let mut l: Vec<char> = Vec::new();
    push_str(&mut l, "  store i32 ");
    push_all(&mut l, val);
    push_str(&mut l, ", i32* ");
    push_str(&mut l, ptr);
    push_str(&mut l, ", align 4");
    assert(l@ =~= store_line(val@, ptr@));
    l
}

pub fn store_text_v(val: &Vec<char>, ptr: &Vec<char>) -> (r: Vec<char>)
    ensures
        r@ == store_line(val@, ptr@),
{
    let mut l: Vec<char> = Vec::new();
    push_str(&mut l, "  store i32 ");
    push_all(&mut l, val);
    push_str(&mut l, ", i32* ");
    push_all(&mut l, ptr);
    push_str(&mut l, ", align 4");
    assert(l@ =~= store_line(val@, ptr@));
    l
}

pub fn gep_text(dst: &Vec<char>, base: &str, idx: &Vec<char>) -> (r: Vec<char>)
    ensures
        r@ == gep_line(dst@, base@, idx@),
{
    let mut l: Vec<char> = Vec::new();
    push_str(&mut l, "  ");
    push_all(&mut l, dst);
    push_str(&mut l, " = getelementptr inbounds i32, i32* ");
    push_str(&mut l, base);
    push_str(&mut l, ", i32 ");
    push_all(&mut l, idx);
    assert(l@ =~= gep_line(dst@, base@, idx@));
    l
}

pub fn op_text(dst: &Vec<char>, op: &str, a: &Vec<char>, b: &Vec<char>) -> (r: Vec<char>)
    ensures
        r@ == op_line(dst@, op@, a@, b@),
{
    let mut l: Vec<char> = Vec::new();
    push_str(&mut l, "  ");
    push_all(&mut l, dst);
    push_str(&mut l, " = ");
    push_str(&mut l, op);
    push_str(&mut l, " i32 ");
    push_all(&mut l, a);
    push_str(&mut l, ", ");
    push_all(&mut l, b);
    assert(l@ =~= op_line(dst@, op@, a@, b@));
    l
}

pub fn zext_text(dst: &Vec<char>, c: &Vec<char>) -> (r: Vec<char>)
    ensures
        r@ == zext_line(dst@, c@),
{
    let mut l: Vec<char> = Vec::new();
    push_str(&mut l, "  ");
    push_all(&mut l, dst);
    push_str(&mut l, " = zext i1 ");
    push_all(&mut l, c);
    push_str(&mut l, " to i32");
    assert(l@ =~= zext_line(dst@, c@));
    l
}

pub fn br_cond_text(c: &Vec<char>, t: &Vec<char>, f: &Vec<char>) -> (r: Vec<char>)
    ensures
        r@ == br_cond_line(c@, t@, f@),
{
    let mut l: Vec<char> = Vec::new();
    push_str(&mut l, "  br i1 ");
    push_all(&mut l, c);
    push_str(&mut l, ", label %");
    push_all(&mut l, t);
    push_str(&mut l, ", label %");
    push_all(&mut l, f);
    assert(l@ =~= br_cond_line(c@, t@, f@));
    l
}

pub fn br_text(lbl: &Vec<char>) -> (r: Vec<char>)
    ensures
        r@ == br_line(lbl@),
{
    let mut l: Vec<char> = Vec::new();
    push_str(&mut l, "  br label %");
    push_all(&mut l, lbl);
    assert(l@ =~= br_line(lbl@));
    l
}

pub fn label_text(lbl: &Vec<char>) -> (r: Vec<char>)
    ensures
        r@ == label_line(lbl@),
{
    let mut l: Vec<char> = Vec::new();
    push_all(&mut l, lbl);
    l.push(':');
    assert(l@ =~= label_line(lbl@));
    l
}

pub fn void_call_text(callee: &Vec<char>, args: &Vec<char>) -> (r: Vec<char>)
    ensures
        r@ == void_call_line(callee@, args@),
{
    let mut l: Vec<char> = Vec::new();
    push_str(&mut l, "  call void @");
    push_all(&mut l, callee);
    push_str(&mut l, "(");
    push_all(&mut l, args);
    push_str(&mut l, ")");
    assert(l@ =~= void_call_line(callee@, args@));
    l
}

pub fn i32_call_text(dst: &Vec<char>, callee: &Vec<char>, args: &Vec<char>) -> (r: Vec<char>)
    ensures
        r@ == i32_call_line(dst@, callee@, args@),
{
    let mut l: Vec<char> = Vec::new();
    push_str(&mut l, "  ");
    push_all(&mut l, dst);
    push_str(&mut l, " = call i32 @");
    push_all(&mut l, callee);
    push_str(&mut l, "(");
    push_all(&mut l, args);
    push_str(&mut l, ")");
    assert(l@ =~= i32_call_line(dst@, callee@, args@));
    l
}

pub fn arg1_text(a: &Vec<char>) -> (r: Vec<char>)
    ensures
        r@ == arg1(a@),
{
    let mut l: Vec<char> = Vec::new();
    push_str(&mut l, "i32 ");
    push_all(&mut l, a);
    assert(l@ =~= arg1(a@));
    l
}

pub fn arg2_text(a: &Vec<char>, b: &Vec<char>) -> (r: Vec<char>)
    ensures
        r@ == arg2(a@, b@),
{
    let mut l = arg1_text(a);
    push_str(&mut l, ", ");
    let tail = arg1_text(b);
    push_all(&mut l, &tail);
    l
}

pub fn arg3_text(a: &Vec<char>, b: &Vec<char>, c: &Vec<char>) -> (r: Vec<char>)
    ensures
        r@ == arg3(a@, b@, c@),
{
    let mut l = arg2_text(a, b);
    push_str(&mut l, ", ");
    let tail = arg1_text(c);
    push_all(&mut l, &tail);
    l
}

pub fn icmp_text(dst: &Vec<char>, pred: &str, a: &Vec<char>, b: &Vec<char>) -> (r: Vec<char>)
    ensures
        r@ == op_line(dst@, "icmp "@ + pred@, a@, b@),
{
    let mut l: Vec<char> = Vec::new();
    push_str(&mut l, "  ");
    push_all(&mut l, dst);
    push_str(&mut l, " = icmp ");
    push_str(&mut l, pred);
    push_str(&mut l, " i32 ");
    push_all(&mut l, a);
    push_str(&mut l, ", ");
    push_all(&mut l, b);
    proof {
        reveal_strlit(" = icmp ");
        reveal_strlit(" = ");
        reveal_strlit("icmp ");
    }
    assert(l@ =~= op_line(dst@, "icmp "@ + pred@, a@, b@));
    l
}

} // verus!
