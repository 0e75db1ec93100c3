//! The IR text accumulator: function bodies, module globals, and the
//! counters that make temporaries and labels fresh.
use vstd::prelude::*;
use crate::text::{dec_nat, push_all, push_str, push_u64};

verus! {

/// Counters stay at or below this value before a body token is compiled.
pub const TOKEN_ROOM: u64 = 0xffff_ffff_ffff_0000;

/// The name of the `n`-th temporary: `%tN`.
pub open spec fn tmp_name(n: nat) -> Seq<char> {
    seq!['%', 't'] + dec_nat(n)
}

/// The name of the `n`-th label with the given prefix: `prefix.N`.
pub open spec fn label_name(prefix: Seq<char>, n: nat) -> Seq<char> {
    prefix + seq!['.'] + dec_nat(n)
}

/// The model of the builder.
pub struct Emit {
    pub out: Seq<char>,
    pub globals: Seq<char>,
    pub tmp: nat,
    pub lbl: nat,
}

impl Emit {
    /// `l` and a newline appended to the function stream.
    pub open spec fn line(self, l: Seq<char>) -> Emit {
        Emit { out: self.out + l + seq!['\n'], ..self }
    }

    /// `l` and a newline appended to the globals stream.
    pub open spec fn global_line(self, l: Seq<char>) -> Emit {
        Emit { globals: self.globals + l + seq!['\n'], ..self }
    }

    /// One more temporary taken.
    pub open spec fn next_tmp(self) -> Emit {
        Emit { tmp: self.tmp + 1, ..self }
    }

    /// One more label taken.
    pub open spec fn next_lbl(self) -> Emit {
        Emit { lbl: self.lbl + 1, ..self }
    }

    /// Whether `self` extends `before`: text only appended, counters not decreased.
    pub open spec fn extends(self, before: Emit) -> bool {
        &&& before.out.is_prefix_of(self.out)
        &&& before.globals.is_prefix_of(self.globals)
        &&& before.tmp <= self.tmp
        &&& before.lbl <= self.lbl
    }
}

/// Two streams of IR text and two counters.
pub struct LlvmBuilder {
    pub out: Vec<char>,
    pub globals: Vec<char>,
    pub tmp: u64,
    pub lbl: u64,
}

impl View for LlvmBuilder {
    type V = Emit;

    open spec fn view(&self) -> Emit {
        Emit { out: self.out@, globals: self.globals@, tmp: self.tmp as nat, lbl: self.lbl as nat }
    }
}

impl LlvmBuilder {
    /// An empty builder with both counters at zero.
    pub fn new() -> (r: LlvmBuilder)
        ensures
            r@ == (Emit { out: seq![], globals: seq![], tmp: 0, lbl: 0 }),
    {
        LlvmBuilder { out: Vec::new(), globals: Vec::new(), tmp: 0, lbl: 0 }
    }

    /// A new temporary name, `%tN` with `N` one above every earlier one.
    pub fn fresh_tmp(&mut self) -> (r: Vec<char>)
        requires
            old(self).tmp < u64::MAX,
        ensures
            final(self)@ == old(self)@.next_tmp(),
            r@ == tmp_name(final(self)@.tmp),
    {
        self.tmp = self.tmp + 1;
        let mut r: Vec<char> = Vec::new();
        r.push('%');
        r.push('t');
        push_u64(&mut r, self.tmp);
        assert(r@ =~= tmp_name(self.tmp as nat));
        r
    }

    /// A new label name, `prefix.N` with `N` one above every earlier one.
    pub fn fresh_lbl(&mut self, prefix: &str) -> (r: Vec<char>)
        requires
            old(self).lbl < u64::MAX,
        ensures
            final(self)@ == old(self)@.next_lbl(),
            r@ == label_name(prefix@, final(self)@.lbl),
    {
        self.lbl = self.lbl + 1;
        let mut r: Vec<char> = Vec::new();
        push_str(&mut r, prefix);
        r.push('.');
        push_u64(&mut r, self.lbl);
        assert(r@ =~= label_name(prefix@, self.lbl as nat));
        r
    }

    /// Appends a line to the function stream.
    pub fn emit_line(&mut self, s: &Vec<char>)
        ensures
            final(self)@ == old(self)@.line(s@),
    {
        push_all(&mut self.out, s);
        self.out.push('\n');
        assert(self.out@ =~= old(self).out@ + s@ + seq!['\n']);
    }

    /// Appends a line to the globals stream.
    pub fn emit_global_line(&mut self, s: &Vec<char>)
        ensures
            final(self)@ == old(self)@.global_line(s@),
    {
        push_all(&mut self.globals, s);
        self.globals.push('\n');
        assert(self.globals@ =~= old(self).globals@ + s@ + seq!['\n']);
    }

    /// Appends a line given as a literal to the function stream.
    pub fn emit_text(&mut self, s: &str)
        ensures
            final(self)@ == old(self)@.line(s@),
    {
        push_str(&mut self.out, s);
        self.out.push('\n');
        assert(self.out@ =~= old(self).out@ + s@ + seq!['\n']);
    }
}

} // verus!
