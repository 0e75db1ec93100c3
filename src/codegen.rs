//! Lowering of definition bodies to IR: the two-stack memory model, the
//! primitive operations and the structured control flow.
use vstd::prelude::*;
use crate::error::{CompileError, Fault};
use crate::builder::{label_name, tmp_name, Emit, LlvmBuilder};
use crate::ir::{
    br_cond_line, br_cond_text, br_line, br_text, gep_line, gep_text, icmp_text, label_line,
    label_text, load_line, load_text, load_text_v, op_line, op_text, store_line, store_text,
    store_text_v, zext_line, zext_text,
};
use crate::symbols::{NameSet, SymTab};
use crate::text::chars_of;

verus! {

/// A compile-time control-flow frame.
pub enum Frame {
    If { else_lbl: Vec<char>, end_lbl: Vec<char>, has_else: bool },
    Begin {
        begin_lbl: Vec<char>,
        while_false_lbl: Option<Vec<char>>,
        while_true_lbl: Option<Vec<char>>,
    },
}

/// The model of a frame.
pub enum FrameModel {
    If { else_lbl: Seq<char>, end_lbl: Seq<char>, has_else: bool },
    Begin {
        begin_lbl: Seq<char>,
        while_false_lbl: Option<Seq<char>>,
        while_true_lbl: Option<Seq<char>>,
    },
}

/// The model of an optional label.
pub open spec fn opt_view(o: Option<Vec<char>>) -> Option<Seq<char>> {
    match o {
        Some(v) => Some(v@),
        None => None,
    }
}

impl View for Frame {
    type V = FrameModel;

    open spec fn view(&self) -> FrameModel {
        match self {
            Frame::If { else_lbl, end_lbl, has_else } => FrameModel::If {
                else_lbl: else_lbl@,
                end_lbl: end_lbl@,
                has_else: *has_else,
            },
            Frame::Begin { begin_lbl, while_false_lbl, while_true_lbl } => FrameModel::Begin {
                begin_lbl: begin_lbl@,
                while_false_lbl: opt_view(*while_false_lbl),
                while_true_lbl: opt_view(*while_true_lbl),
            },
        }
    }
}

/// The code generator: the IR builder, the control-flow stack, and the
/// symbol tables of the program.
pub struct Codegen {
    pub b: LlvmBuilder,
    pub ctrl: Vec<Frame>,
    pub created_words: SymTab,
    pub constant_words: SymTab,
    pub known_defs: NameSet,
    pub here: i32,
    /// Raw bit patterns of the string payloads that read as 32-bit floats.
    pub float_literals: SymTab,
}

/// The model of the code generator.
pub struct CgModel {
    pub e: Emit,
    pub ctrl: Seq<FrameModel>,
    pub created: Seq<(Seq<char>, i32)>,
    pub consts: Seq<(Seq<char>, i32)>,
    pub defs: Seq<Seq<char>>,
    pub here: i32,
    pub floats: Seq<(Seq<char>, i32)>,
}

impl CgModel {
    /// The same state with the builder replaced.
    pub open spec fn with_e(self, e: Emit) -> CgModel {
        CgModel { e, ..self }
    }

    /// Whether both counters leave at least `k` fresh names.
    pub open spec fn room(self, k: int) -> bool {
        self.e.tmp + k <= u64::MAX && self.e.lbl + k <= u64::MAX
    }
}

impl View for Codegen {
    type V = CgModel;

    open spec fn view(&self) -> CgModel {
        CgModel {
            e: self.b@,
            ctrl: self.ctrl@.map_values(|f: Frame| f@),
            created: self.created_words@,
            consts: self.constant_words@,
            defs: self.known_defs@,
            here: self.here,
            floats: self.float_literals@,
        }
    }
}

/// A fresh temporary: the builder after taking it, and its name.
pub open spec fn fresh(e: Emit) -> (Emit, Seq<char>) {
    (e.next_tmp(), tmp_name(e.tmp + 1))
}

/// Loads a stack pointer slot into a fresh temporary.
pub open spec fn load_slot(e: Emit, slot: Seq<char>) -> (Emit, Seq<char>) {
    let (e1, t) = fresh(e);
    (e1.line(load_line(t, slot)), t)
}

/// Pushes `v` on the stack held at `base` with its pointer in `slot`.
pub open spec fn push_on(e: Emit, slot: Seq<char>, base: Seq<char>, v: Seq<char>) -> Emit {
    let (e1, sp) = load_slot(e, slot);
    let (e2, ptr) = fresh(e1);
    let e3 = e2.line(gep_line(ptr, base, sp)).line(store_line(v, ptr));
    let (e4, sp2) = fresh(e3);
    e4.line(op_line(sp2, "add"@, sp, "1"@)).line(store_line(sp2, slot))
}

/// Pops the top of the stack at `base` into a fresh temporary.
pub open spec fn pop_on(e: Emit, slot: Seq<char>, base: Seq<char>) -> (Emit, Seq<char>) {
    let (e1, sp) = load_slot(e, slot);
    let (e2, sp2) = fresh(e1);
    let e3 = e2.line(op_line(sp2, "sub"@, sp, "1"@)).line(store_line(sp2, slot));
    let (e4, ptr) = fresh(e3);
    let e5 = e4.line(gep_line(ptr, base, sp2));
    let (e6, v) = fresh(e5);
    (e6.line(load_line(v, ptr)), v)
}

/// Reads the top of the stack at `base` without moving its pointer.
pub open spec fn peek_on(e: Emit, slot: Seq<char>, base: Seq<char>) -> (Emit, Seq<char>) {
    let (e1, sp) = load_slot(e, slot);
    let (e2, sp2) = fresh(e1);
    let e3 = e2.line(op_line(sp2, "sub"@, sp, "1"@));
    let (e4, ptr) = fresh(e3);
    let e5 = e4.line(gep_line(ptr, base, sp2));
    let (e6, v) = fresh(e5);
    (e6.line(load_line(v, ptr)), v)
}

/// Data-stack push.
pub open spec fn push_ir(e: Emit, v: Seq<char>) -> Emit {
    push_on(e, "%sp_ptr"@, "%stack_base"@, v)
}

/// Data-stack pop.
pub open spec fn pop_ir(e: Emit) -> (Emit, Seq<char>) {
    pop_on(e, "%sp_ptr"@, "%stack_base"@)
}

/// `a b -> a OP b`.
pub open spec fn binop_ir(e: Emit, op: Seq<char>) -> Emit {
    let (e1, b) = pop_ir(e);
    let (e2, a) = pop_ir(e1);
    let (e3, r) = fresh(e2);
    push_ir(e3.line(op_line(r, op, a, b)), r)
}

/// Turns an `i1` into a Forth boolean (`0` or `-1`) and pushes it.
pub open spec fn push_bool_ir(e: Emit, c: Seq<char>) -> Emit {
    let (e1, z) = fresh(e);
    let e2 = e1.line(zext_line(z, c));
    let (e3, n) = fresh(e2);
    push_ir(e3.line(op_line(n, "sub"@, "0"@, z)), n)
}

/// `a b -> flag` for the comparison `PRED`.
pub open spec fn cmp_ir(e: Emit, pred: Seq<char>) -> Emit {
    let (e1, b) = pop_ir(e);
    let (e2, a) = pop_ir(e1);
    let (e3, c) = fresh(e2);
    push_bool_ir(e3.line(op_line(c, "icmp "@ + pred, a, b)), c)
}

/// `a -> flag` comparing `a` with zero by `PRED`.
pub open spec fn cmp_zero_ir(e: Emit, pred: Seq<char>) -> Emit {
    let (e1, a) = pop_ir(e);
    let (e2, c) = fresh(e1);
    push_bool_ir(e2.line(op_line(c, "icmp "@ + pred, a, "0"@)), c)
}

/// `a -> -a`.
pub open spec fn negate_ir(e: Emit) -> Emit {
    let (e1, a) = pop_ir(e);
    let (e2, r) = fresh(e1);
    push_ir(e2.line(op_line(r, "sub"@, "0"@, a)), r)
}

/// `a b -> a OP (b & 31)` for the shifts.
pub open spec fn shift_ir(e: Emit, op: Seq<char>) -> Emit {
    let (e1, b) = pop_ir(e);
    let (e2, a) = pop_ir(e1);
    let (e3, sh) = fresh(e2);
    let e4 = e3.line(op_line(sh, "and"@, b, "31"@));
    let (e5, r) = fresh(e4);
    push_ir(e5.line(op_line(r, op, a, sh)), r)
}

/// `a b -> rem quot`.
pub open spec fn slash_mod_ir(e: Emit) -> Emit {
    let (e1, b) = pop_ir(e);
    let (e2, a) = pop_ir(e1);
    let (e3, rem) = fresh(e2);
    let (e4, quo) = fresh(e3);
    let e5 = e4.line(op_line(rem, "srem"@, a, b)).line(op_line(quo, "sdiv"@, a, b));
    push_ir(push_ir(e5, rem), quo)
}

/// `a -> a a`.
pub open spec fn dup_ir(e: Emit) -> Emit {
    let (e1, v) = pop_ir(e);
    push_ir(push_ir(e1, v), v)
}

/// `a b -> b a`.
pub open spec fn swap_ir(e: Emit) -> Emit {
    let (e1, b) = pop_ir(e);
    let (e2, a) = pop_ir(e1);
    push_ir(push_ir(e2, b), a)
}

/// `a b -> a b a`.
pub open spec fn over_ir(e: Emit) -> Emit {
    let (e1, b) = pop_ir(e);
    let (e2, a) = pop_ir(e1);
    push_ir(push_ir(push_ir(e2, a), b), a)
}

/// `>R`: data stack to return stack.
pub open spec fn to_r_ir(e: Emit) -> Emit {
    let (e1, v) = pop_ir(e);
    push_on(e1, "%rsp_ptr"@, "%rstack_base"@, v)
}

/// `R>`: return stack to data stack.
pub open spec fn r_from_ir(e: Emit) -> Emit {
    let (e1, v) = pop_on(e, "%rsp_ptr"@, "%rstack_base"@);
    push_ir(e1, v)
}

/// `R@`: copy of the top of the return stack to the data stack.
pub open spec fn r_fetch_ir(e: Emit) -> Emit {
    let (e1, v) = peek_on(e, "%rsp_ptr"@, "%rstack_base"@);
    push_ir(e1, v)
}

/// A fresh label with the given prefix: the builder after taking it, and its name.
pub open spec fn fresh_label(e: Emit, prefix: Seq<char>) -> (Emit, Seq<char>) {
    (e.next_lbl(), label_name(prefix, e.lbl + 1))
}

/// Branches to `if_zero` when `cond` is zero and to `if_nz` otherwise.
pub open spec fn br_zero_ir(e: Emit, cond: Seq<char>, if_zero: Seq<char>, if_nz: Seq<char>) -> Emit {
    let (e1, c) = fresh(e);
    e1.line(op_line(c, "icmp "@ + "eq"@, cond, "0"@)).line(br_cond_line(c, if_zero, if_nz))
}

/// `IF`: pops the condition, branches on zero to the `else` label and
/// otherwise to the `then` label, and opens the `then` block.
pub open spec fn begin_if_ir(m: CgModel) -> CgModel {
    let (e1, cond) = pop_ir(m.e);
    let (e2, th) = fresh_label(e1, "then"@);
    let (e3, el) = fresh_label(e2, "else"@);
    let (e4, en) = fresh_label(e3, "endif"@);
    CgModel {
        e: br_zero_ir(e4, cond, el, th).line(label_line(th)),
        ctrl: m.ctrl.push(FrameModel::If { else_lbl: el, end_lbl: en, has_else: false }),
        ..m
    }
}

/// `ELSE`: closes the `then` block with a jump to the end and opens the
/// `else` block.
pub open spec fn do_else_ir(m: CgModel) -> Result<CgModel, Fault> {
    if m.ctrl.len() == 0 {
        Err(Fault::ElseWithoutIf)
    } else {
        match m.ctrl.last() {
            FrameModel::If { else_lbl, end_lbl, has_else } => Ok(
                CgModel {
                    e: m.e.line(br_line(end_lbl)).line(label_line(else_lbl)),
                    ctrl: m.ctrl.drop_last().push(
                        FrameModel::If { else_lbl, end_lbl, has_else: true },
                    ),
                    ..m
                },
            ),
            FrameModel::Begin { .. } => Err(Fault::ElseWithoutIf),
        }
    }
}

/// `THEN`: closes the open block with a jump to the end (giving an empty
/// `else` block when there was no `ELSE`) and opens the end label.
pub open spec fn end_then_ir(m: CgModel) -> Result<CgModel, Fault> {
    if m.ctrl.len() == 0 {
        Err(Fault::ThenWithoutIf)
    } else {
        match m.ctrl.last() {
            FrameModel::If { else_lbl, end_lbl, has_else } => {
                let e1 = if !has_else {
                    m.e.line(br_line(end_lbl)).line(label_line(else_lbl)).line(br_line(end_lbl))
                } else {
                    m.e.line(br_line(end_lbl))
                };
                Ok(CgModel { e: e1.line(label_line(end_lbl)), ctrl: m.ctrl.drop_last(), ..m })
            },
            FrameModel::Begin { .. } => Err(Fault::ThenWithoutIf),
        }
    }
}

/// `BEGIN`: jumps to a fresh `begin` label and opens it.
pub open spec fn begin_begin_ir(m: CgModel) -> CgModel {
    let (e1, bl) = fresh_label(m.e, "begin"@);
    CgModel {
        e: e1.line(br_line(bl)).line(label_line(bl)),
        ctrl: m.ctrl.push(
            FrameModel::Begin { begin_lbl: bl, while_false_lbl: None, while_true_lbl: None },
        ),
        ..m
    }
}

/// `WHILE`: pops the condition, leaves through `while_false` on zero and
/// otherwise enters the `while_true` block.
pub open spec fn begin_while_ir(m: CgModel) -> Result<CgModel, Fault> {
    let (e1, cond) = pop_ir(m.e);
    if m.ctrl.len() == 0 {
        Err(Fault::WhileWithoutBegin)
    } else {
        match m.ctrl.last() {
            FrameModel::Begin { begin_lbl, .. } => {
                let (e2, t) = fresh_label(e1, "while_true"@);
                let (e3, f) = fresh_label(e2, "while_false"@);
                Ok(
                    CgModel {
                        e: br_zero_ir(e3, cond, f, t).line(label_line(t)),
                        ctrl: m.ctrl.drop_last().push(
                            FrameModel::Begin {
                                begin_lbl,
                                while_false_lbl: Some(f),
                                while_true_lbl: Some(t),
                            },
                        ),
                        ..m
                    },
                )
            },
            FrameModel::If { .. } => Err(Fault::WhileWithoutBegin),
        }
    }
}

/// `REPEAT`: jumps back to `begin`, then opens the `while_false` exit when
/// the loop has a `WHILE`.
pub open spec fn end_repeat_ir(m: CgModel) -> Result<CgModel, Fault> {
    if m.ctrl.len() == 0 {
        Err(Fault::RepeatWithoutBegin)
    } else {
        match m.ctrl.last() {
            FrameModel::Begin { begin_lbl, while_false_lbl, .. } => {
                let e1 = match while_false_lbl {
                    Some(f) => m.e.line(br_line(begin_lbl)).line(label_line(f)),
                    None => m.e.line(br_line(begin_lbl)),
                };
                Ok(CgModel { e: e1, ctrl: m.ctrl.drop_last(), ..m })
            },
            FrameModel::If { .. } => Err(Fault::RepeatWithoutBegin),
        }
    }
}

/// `UNTIL`: pops the condition, jumps back to `begin` on zero and otherwise
/// to a fresh `until_done` label, which it opens.
pub open spec fn end_until_ir(m: CgModel) -> Result<CgModel, Fault> {
    let (e1, cond) = pop_ir(m.e);
    if m.ctrl.len() == 0 {
        Err(Fault::UntilWithoutBegin)
    } else {
        match m.ctrl.last() {
            FrameModel::Begin { begin_lbl, .. } => {
                let (e2, done) = fresh_label(e1, "until_done"@);
                let (e3, c) = fresh(e2);
                let e4 = e3.line(op_line(c, "icmp "@ + "eq"@, cond, "0"@)).line(
                    br_cond_line(c, begin_lbl, done),
                ).line(label_line(done));
                Ok(CgModel { e: e4, ctrl: m.ctrl.drop_last(), ..m })
            },
            FrameModel::If { .. } => Err(Fault::UntilWithoutBegin),
        }
    }
}

/// Whether an exec outcome `r`, with the state `after`, is the one `expected`.
pub open spec fn outcome(r: Result<(), CompileError>, after: CgModel, expected: Result<CgModel, Fault>) -> bool {
    match expected {
        Ok(m) => r is Ok && after == m,
        Err(f) => r matches Err(x) && x@ == f,
    }
}

impl Codegen {
    /// Loads the data-stack pointer.
    pub fn load_sp(&mut self) -> (r: Vec<char>)
        requires
            old(self)@.room(1),
        ensures
            final(self)@ == old(self)@.with_e(load_slot(old(self)@.e, "%sp_ptr"@).0),
            r@ == load_slot(old(self)@.e, "%sp_ptr"@).1,
    {
        let t = self.b.fresh_tmp();
        let l = load_text(&t, "%sp_ptr");
        self.b.emit_line(&l);
        t
    }

    /// Stores the data-stack pointer.
    pub fn store_sp(&mut self, sp: &Vec<char>)
        ensures
            final(self)@ == old(self)@.with_e(old(self)@.e.line(store_line(sp@, "%sp_ptr"@))),
    {
        let l = store_text(sp, "%sp_ptr");
        self.b.emit_line(&l);
    }

    /// Loads the return-stack pointer.
    pub fn load_rsp(&mut self) -> (r: Vec<char>)
        requires
            old(self)@.room(1),
        ensures
            final(self)@ == old(self)@.with_e(load_slot(old(self)@.e, "%rsp_ptr"@).0),
            r@ == load_slot(old(self)@.e, "%rsp_ptr"@).1,
    {
        let t = self.b.fresh_tmp();
        let l = load_text(&t, "%rsp_ptr");
        self.b.emit_line(&l);
        t
    }

    /// Stores the return-stack pointer.
    pub fn store_rsp(&mut self, rsp: &Vec<char>)
        ensures
            final(self)@ == old(self)@.with_e(old(self)@.e.line(store_line(rsp@, "%rsp_ptr"@))),
    {
        let l = store_text(rsp, "%rsp_ptr");
        self.b.emit_line(&l);
    }

    /// Pushes `v` on the data stack.
    pub fn push_i32(&mut self, v: &Vec<char>)
        requires
            old(self)@.room(3),
        ensures
            final(self)@ == old(self)@.with_e(push_ir(old(self)@.e, v@)),
    {
        let sp = self.load_sp();
        let ptr = self.b.fresh_tmp();
        let l1 = gep_text(&ptr, "%stack_base", &sp);
        self.b.emit_line(&l1);
        let l2 = store_text_v(v, &ptr);
        self.b.emit_line(&l2);
        let sp2 = self.b.fresh_tmp();
        let one = chars_of("1");
        let l3 = op_text(&sp2, "add", &sp, &one);
        self.b.emit_line(&l3);
        self.store_sp(&sp2);
    }

    /// Pops the data stack into a fresh temporary.
    pub fn pop_i32(&mut self) -> (r: Vec<char>)
        requires
            old(self)@.room(4),
        ensures
            final(self)@ == old(self)@.with_e(pop_ir(old(self)@.e).0),
            r@ == pop_ir(old(self)@.e).1,
    {
        let sp = self.load_sp();
        let sp2 = self.b.fresh_tmp();
        let one = chars_of("1");
        let l1 = op_text(&sp2, "sub", &sp, &one);
        self.b.emit_line(&l1);
        self.store_sp(&sp2);
        let ptr = self.b.fresh_tmp();
        let l2 = gep_text(&ptr, "%stack_base", &sp2);
        self.b.emit_line(&l2);
        let v = self.b.fresh_tmp();
        let l3 = load_text_v(&v, &ptr);
        self.b.emit_line(&l3);
        v
    }

    /// Pushes `v` on the return stack.
    pub fn rpush_i32(&mut self, v: &Vec<char>)
        requires
            old(self)@.room(3),
        ensures
            final(self)@ == old(self)@.with_e(
                push_on(old(self)@.e, "%rsp_ptr"@, "%rstack_base"@, v@),
            ),
    {
        let rsp = self.load_rsp();
        let ptr = self.b.fresh_tmp();
        let l1 = gep_text(&ptr, "%rstack_base", &rsp);
        self.b.emit_line(&l1);
        let l2 = store_text_v(v, &ptr);
        self.b.emit_line(&l2);
        let rsp2 = self.b.fresh_tmp();
        let one = chars_of("1");
        let l3 = op_text(&rsp2, "add", &rsp, &one);
        self.b.emit_line(&l3);
        self.store_rsp(&rsp2);
    }

    /// Pops the return stack into a fresh temporary.
    pub fn rpop_i32(&mut self) -> (r: Vec<char>)
        requires
            old(self)@.room(4),
        ensures
            final(self)@ == old(self)@.with_e(
                pop_on(old(self)@.e, "%rsp_ptr"@, "%rstack_base"@).0,
            ),
            r@ == pop_on(old(self)@.e, "%rsp_ptr"@, "%rstack_base"@).1,
    {
        let rsp = self.load_rsp();
        let rsp2 = self.b.fresh_tmp();
        let one = chars_of("1");
        let l1 = op_text(&rsp2, "sub", &rsp, &one);
        self.b.emit_line(&l1);
        self.store_rsp(&rsp2);
        let ptr = self.b.fresh_tmp();
        let l2 = gep_text(&ptr, "%rstack_base", &rsp2);
        self.b.emit_line(&l2);
        let v = self.b.fresh_tmp();
        let l3 = load_text_v(&v, &ptr);
        self.b.emit_line(&l3);
        v
    }

    /// Reads the top of the return stack into a fresh temporary.
    pub fn rpeek_i32(&mut self) -> (r: Vec<char>)
        requires
            old(self)@.room(4),
        ensures
            final(self)@ == old(self)@.with_e(
                peek_on(old(self)@.e, "%rsp_ptr"@, "%rstack_base"@).0,
            ),
            r@ == peek_on(old(self)@.e, "%rsp_ptr"@, "%rstack_base"@).1,
    {
        let rsp = self.load_rsp();
        let rsp2 = self.b.fresh_tmp();
        let one = chars_of("1");
        let l1 = op_text(&rsp2, "sub", &rsp, &one);
        self.b.emit_line(&l1);
        let ptr = self.b.fresh_tmp();
        let l2 = gep_text(&ptr, "%rstack_base", &rsp2);
        self.b.emit_line(&l2);
        let v = self.b.fresh_tmp();
        let l3 = load_text_v(&v, &ptr);
        self.b.emit_line(&l3);
        v
    }

    /// `DUP`.
    pub fn dup(&mut self)
        requires
            old(self)@.room(32),
        ensures
            final(self)@ == old(self)@.with_e(dup_ir(old(self)@.e)),
    {
        let v = self.pop_i32();
        self.push_i32(&v);
        self.push_i32(&v);
    }

    /// `DROP`.
    pub fn drop(&mut self)
        requires
            old(self)@.room(32),
        ensures
            final(self)@ == old(self)@.with_e(pop_ir(old(self)@.e).0),
    {
        let _ = self.pop_i32();
    }

    /// `SWAP`.
    pub fn swap(&mut self)
        requires
            old(self)@.room(32),
        ensures
            final(self)@ == old(self)@.with_e(swap_ir(old(self)@.e)),
    {
        let b = self.pop_i32();
        let a = self.pop_i32();
        self.push_i32(&b);
        self.push_i32(&a);
    }

    /// `OVER`.
    pub fn over(&mut self)
        requires
            old(self)@.room(32),
        ensures
            final(self)@ == old(self)@.with_e(over_ir(old(self)@.e)),
    {
        let b = self.pop_i32();
        let a = self.pop_i32();
        self.push_i32(&a);
        self.push_i32(&b);
        self.push_i32(&a);
    }

    /// `>R`.
    pub fn to_r(&mut self)
        requires
            old(self)@.room(32),
        ensures
            final(self)@ == old(self)@.with_e(to_r_ir(old(self)@.e)),
    {
        let v = self.pop_i32();
        self.rpush_i32(&v);
    }

    /// `R>`.
    pub fn r_from(&mut self)
        requires
            old(self)@.room(32),
        ensures
            final(self)@ == old(self)@.with_e(r_from_ir(old(self)@.e)),
    {
        let v = self.rpop_i32();
        self.push_i32(&v);
    }

    /// `R@`.
    pub fn r_fetch(&mut self)
        requires
            old(self)@.room(32),
        ensures
            final(self)@ == old(self)@.with_e(r_fetch_ir(old(self)@.e)),
    {
        let v = self.rpeek_i32();
        self.push_i32(&v);
    }

    /// A two-operand operation `OP` on the top two cells.
    pub fn binop(&mut self, op: &str)
        requires
            old(self)@.room(32),
        ensures
            final(self)@ == old(self)@.with_e(binop_ir(old(self)@.e, op@)),
    {
        let b = self.pop_i32();
        let a = self.pop_i32();
        let r = self.b.fresh_tmp();
        let l = op_text(&r, op, &a, &b);
        self.b.emit_line(&l);
        self.push_i32(&r);
    }

    /// Widens the `i1` in `c` to a Forth boolean and pushes it.
    pub fn push_bool(&mut self, c: &Vec<char>)
        requires
            old(self)@.room(8),
        ensures
            final(self)@ == old(self)@.with_e(push_bool_ir(old(self)@.e, c@)),
    {
        let z = self.b.fresh_tmp();
        let l1 = zext_text(&z, c);
        self.b.emit_line(&l1);
        let neg = self.b.fresh_tmp();
        let zero = chars_of("0");
        let l2 = op_text(&neg, "sub", &zero, &z);
        self.b.emit_line(&l2);
        self.push_i32(&neg);
    }

    /// A comparison of the top two cells, giving `-1` or `0`.
    pub fn cmp_to_bool_minus1(&mut self, pred: &str)
        requires
            old(self)@.room(32),
        ensures
            final(self)@ == old(self)@.with_e(cmp_ir(old(self)@.e, pred@)),
    {
        let b = self.pop_i32();
        let a = self.pop_i32();
        let c = self.b.fresh_tmp();
        let l = icmp_text(&c, pred, &a, &b);
        self.b.emit_line(&l);
        self.push_bool(&c);
    }

    /// `NEGATE`.
    pub fn unary_negate(&mut self)
        requires
            old(self)@.room(32),
        ensures
            final(self)@ == old(self)@.with_e(negate_ir(old(self)@.e)),
    {
        let a = self.pop_i32();
        let r = self.b.fresh_tmp();
        let zero = chars_of("0");
        let l = op_text(&r, "sub", &zero, &a);
        self.b.emit_line(&l);
        self.push_i32(&r);
    }

    /// `AND`.
    pub fn and(&mut self)
        requires
            old(self)@.room(32),
        ensures
            final(self)@ == old(self)@.with_e(binop_ir(old(self)@.e, "and"@)),
    {
        self.binop("and");
    }

    /// `MOD` (`srem`) or `/` (`sdiv`), both truncating toward zero.
    pub fn div_mod(&mut self, is_mod: bool)
        requires
            old(self)@.room(32),
        ensures
            final(self)@ == old(self)@.with_e(
                binop_ir(old(self)@.e, if is_mod { "srem"@ } else { "sdiv"@ }),
            ),
    {
        if is_mod {
            self.binop("srem");
        } else {
            self.binop("sdiv");
        }
    }

    /// A comparison of the top cell with zero, giving `-1` or `0`.
    pub fn cmp_zero(&mut self, pred: &str)
        requires
            old(self)@.room(32),
        ensures
            final(self)@ == old(self)@.with_e(cmp_zero_ir(old(self)@.e, pred@)),
    {
        let a = self.pop_i32();
        let c = self.b.fresh_tmp();
        let zero = chars_of("0");
        let l = icmp_text(&c, pred, &a, &zero);
        self.b.emit_line(&l);
        self.push_bool(&c);
    }

    /// `0=`.
    pub fn zero_eq(&mut self)
        requires
            old(self)@.room(32),
        ensures
            final(self)@ == old(self)@.with_e(cmp_zero_ir(old(self)@.e, "eq"@)),
    {
        self.cmp_zero("eq");
    }

    /// `0<`.
    pub fn zero_lt(&mut self)
        requires
            old(self)@.room(32),
        ensures
            final(self)@ == old(self)@.with_e(cmp_zero_ir(old(self)@.e, "slt"@)),
    {
        self.cmp_zero("slt");
    }

    /// `LSHIFT` (`shl`) or `RSHIFT` (`lshr`), the count masked to five bits.
    pub fn shift(&mut self, op: &str)
        requires
            old(self)@.room(32),
        ensures
            final(self)@ == old(self)@.with_e(shift_ir(old(self)@.e, op@)),
    {
        let b = self.pop_i32();
        let a = self.pop_i32();
        let sh = self.b.fresh_tmp();
        let mask = chars_of("31");
        let l1 = op_text(&sh, "and", &b, &mask);
        self.b.emit_line(&l1);
        let r = self.b.fresh_tmp();
        let l2 = op_text(&r, op, &a, &sh);
        self.b.emit_line(&l2);
        self.push_i32(&r);
    }

    /// `/MOD`: pushes the remainder, then the quotient.
    pub fn slash_mod(&mut self)
        requires
            old(self)@.room(32),
        ensures
            final(self)@ == old(self)@.with_e(slash_mod_ir(old(self)@.e)),
    {
        let b = self.pop_i32();
        let a = self.pop_i32();
        let rem = self.b.fresh_tmp();
        let quo = self.b.fresh_tmp();
        let l1 = op_text(&rem, "srem", &a, &b);
        self.b.emit_line(&l1);
        let l2 = op_text(&quo, "sdiv", &a, &b);
        self.b.emit_line(&l2);
        self.push_i32(&rem);
        self.push_i32(&quo);
    }

    /// Branches to `if_zero_lbl` when `cond_i32` is zero, else to `if_nz_lbl`.
    pub fn emit_br_cond_zero_to(&mut self, cond_i32: &Vec<char>, if_zero_lbl: &Vec<char>, if_nz_lbl: &Vec<char>)
        requires
            old(self)@.room(1),
        ensures
            final(self)@ == old(self)@.with_e(
                br_zero_ir(old(self)@.e, cond_i32@, if_zero_lbl@, if_nz_lbl@),
            ),
    {
        let c = self.b.fresh_tmp();
        let zero = chars_of("0");
        let l1 = icmp_text(&c, "eq", cond_i32, &zero);
        self.b.emit_line(&l1);
        let l2 = br_cond_text(&c, if_zero_lbl, if_nz_lbl);
        self.b.emit_line(&l2);
    }

    /// `IF`.
    pub fn begin_if(&mut self)
        requires
            old(self)@.room(32),
        ensures
            final(self)@ == begin_if_ir(old(self)@),
    {
        let cond = self.pop_i32();
        let then_lbl = self.b.fresh_lbl("then");
        let else_lbl = self.b.fresh_lbl("else");
        let end_lbl = self.b.fresh_lbl("endif");
        self.emit_br_cond_zero_to(&cond, &else_lbl, &then_lbl);
        let l = label_text(&then_lbl);
        self.b.emit_line(&l);
        self.ctrl.push(Frame::If { else_lbl, end_lbl, has_else: false });
        assert(self@.ctrl =~= old(self)@.ctrl.push(
            FrameModel::If { else_lbl: else_lbl@, end_lbl: end_lbl@, has_else: false },
        ));
    }

    /// `ELSE`.
    pub fn do_else(&mut self) -> (r: Result<(), CompileError>)
        ensures
            outcome(r, final(self)@, do_else_ir(old(self)@)),
    {
        match self.ctrl.pop() {
            Some(Frame::If { else_lbl, end_lbl, has_else: _ }) => {
                assert(old(self)@.ctrl.drop_last() =~= self@.ctrl);
                let l1 = br_text(&end_lbl);
                self.b.emit_line(&l1);
                let l2 = label_text(&else_lbl);
                self.b.emit_line(&l2);
                self.ctrl.push(Frame::If { else_lbl, end_lbl, has_else: true });
                assert(self@.ctrl =~= old(self)@.ctrl.drop_last().push(
                    FrameModel::If { else_lbl: else_lbl@, end_lbl: end_lbl@, has_else: true },
                ));
                Ok(())
            },
            _ => Err(CompileError::ElseWithoutIf),
        }
    }

    /// `THEN`.
    pub fn end_then(&mut self) -> (r: Result<(), CompileError>)
        ensures
            outcome(r, final(self)@, end_then_ir(old(self)@)),
    {
        match self.ctrl.pop() {
            Some(Frame::If { else_lbl, end_lbl, has_else }) => {
                assert(old(self)@.ctrl.drop_last() =~= self@.ctrl);
                let l1 = br_text(&end_lbl);
                if !has_else {
                    self.b.emit_line(&l1);
                    let l2 = label_text(&else_lbl);
                    self.b.emit_line(&l2);
                    self.b.emit_line(&l1);
                } else {
                    self.b.emit_line(&l1);
                }
                let l3 = label_text(&end_lbl);
                self.b.emit_line(&l3);
                Ok(())
            },
            _ => Err(CompileError::ThenWithoutIf),
        }
    }

    /// `BEGIN`.
    pub fn begin_begin(&mut self)
        requires
            old(self)@.room(1),
        ensures
            final(self)@ == begin_begin_ir(old(self)@),
    {
        let begin_lbl = self.b.fresh_lbl("begin");
        let l1 = br_text(&begin_lbl);
        self.b.emit_line(&l1);
        let l2 = label_text(&begin_lbl);
        self.b.emit_line(&l2);
        self.ctrl.push(Frame::Begin { begin_lbl, while_false_lbl: None, while_true_lbl: None });
        assert(self@.ctrl =~= old(self)@.ctrl.push(
            FrameModel::Begin { begin_lbl: begin_lbl@, while_false_lbl: None, while_true_lbl: None },
        ));
    }

    /// `WHILE`.
    pub fn begin_while(&mut self) -> (r: Result<(), CompileError>)
        requires
            old(self)@.room(32),
        ensures
            outcome(r, final(self)@, begin_while_ir(old(self)@)),
    {
        let cond = self.pop_i32();
        match self.ctrl.pop() {
            Some(Frame::Begin { begin_lbl, while_false_lbl: _, while_true_lbl: _ }) => {
                assert(old(self)@.ctrl.drop_last() =~= self@.ctrl);
                let true_lbl = self.b.fresh_lbl("while_true");
                let false_lbl = self.b.fresh_lbl("while_false");
                self.emit_br_cond_zero_to(&cond, &false_lbl, &true_lbl);
                let l = label_text(&true_lbl);
                self.b.emit_line(&l);
                let ghost t = true_lbl@;
                let ghost f = false_lbl@;
                self.ctrl.push(
                    Frame::Begin {
                        begin_lbl,
                        while_false_lbl: Some(false_lbl),
                        while_true_lbl: Some(true_lbl),
                    },
                );
                assert(self@.ctrl =~= old(self)@.ctrl.drop_last().push(
                    FrameModel::Begin {
                        begin_lbl: begin_lbl@,
                        while_false_lbl: Some(f),
                        while_true_lbl: Some(t),
                    },
                ));
                Ok(())
            },
            _ => Err(CompileError::WhileWithoutBegin),
        }
    }

    /// `REPEAT`.
    pub fn end_repeat(&mut self) -> (r: Result<(), CompileError>)
        ensures
            outcome(r, final(self)@, end_repeat_ir(old(self)@)),
    {
        match self.ctrl.pop() {
            Some(Frame::Begin { begin_lbl, while_false_lbl, while_true_lbl: _ }) => {
                assert(old(self)@.ctrl.drop_last() =~= self@.ctrl);
                let l1 = br_text(&begin_lbl);
                self.b.emit_line(&l1);
                match while_false_lbl {
                    Some(false_lbl) => {
                        let l2 = label_text(&false_lbl);
                        self.b.emit_line(&l2);
                    },
                    None => {},
                }
                Ok(())
            },
            _ => Err(CompileError::RepeatWithoutBegin),
        }
    }

    /// `UNTIL`.
    pub fn end_until(&mut self) -> (r: Result<(), CompileError>)
        requires
            old(self)@.room(32),
        ensures
            outcome(r, final(self)@, end_until_ir(old(self)@)),
    {
        let cond = self.pop_i32();
        match self.ctrl.pop() {
            Some(Frame::Begin { begin_lbl, while_false_lbl: _, while_true_lbl: _ }) => {
                assert(old(self)@.ctrl.drop_last() =~= self@.ctrl);
                let done_lbl = self.b.fresh_lbl("until_done");
                let is_zero = self.b.fresh_tmp();
                let zero = chars_of("0");
                let l1 = icmp_text(&is_zero, "eq", &cond, &zero);
                self.b.emit_line(&l1);
                let l2 = br_cond_text(&is_zero, &begin_lbl, &done_lbl);
                self.b.emit_line(&l2);
                let l3 = label_text(&done_lbl);
                self.b.emit_line(&l3);
                Ok(())
            },
            _ => Err(CompileError::UntilWithoutBegin),
        }
    }
}

} // verus!
