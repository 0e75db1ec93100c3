//! Properties of the compiler, stated over the specifications and proved.
use vstd::prelude::*;
use crate::analyzer::{
    analyze, empty_program, find_semi, parse_from, parse_step, select_entry, ProgramModel,
};
use crate::builder::{label_name, tmp_name};
use crate::codegen::{begin_while_ir, end_repeat_ir, pop_ir, CgModel, FrameModel};
use crate::builder::Emit;
use crate::compile::{
    body_ir, control_step, emit_prim_ir, is_control, is_dictionary, prev_value, prim_step,
    token_room, token_step,
};
use crate::dispatch::{kernel_of, prim_of, Prim};
use crate::emit::ExternArgMode;
use crate::driver::{compile_spec, def_ir, defs_ir};
use crate::emit::begin_func_ir;
use crate::symbols::assoc_get;
use crate::lexer::Lexeme;
use crate::mangle::{byte_piece, escape_bytes, is_plain_byte, lemma_escape_concat, mangle};
use crate::text::{dec_int, dec_nat, digit_char, hex2, hex_char};
use vstd::utf8::{encode_utf8, encode_utf8_decode_utf8};

verus! {

proof fn lemma_dec_nat_shape(n: nat)
    ensures
        dec_nat(n).len() >= 1,
        dec_nat(n).len() == 1 <==> n < 10,
        forall|k: int| 0 <= k < dec_nat(n).len() ==> 48 <= (#[trigger] dec_nat(n)[k] as u32) <= 57,
    decreases n,
{
    if n >= 10 {
        lemma_dec_nat_shape(n / 10);
        let d = dec_nat(n / 10);
        assert(dec_nat(n) == d.push(digit_char(n % 10)));
        assert forall|k: int| 0 <= k < dec_nat(n).len() implies 48 <= (#[trigger] dec_nat(n)[k] as u32) <= 57 by {
            if k < d.len() {
                assert(dec_nat(n)[k] == d[k]);
            }
        }
    }
}

proof fn lemma_digit_char_injective(a: nat, b: nat)
    requires
        a < 10,
        b < 10,
        digit_char(a) == digit_char(b),
    ensures
        a == b,
{
    assert(((a + 48) as u8) as char == ((b + 48) as u8) as char);
    assert((((a + 48) as u8) as char) as u32 == (a + 48));
    assert((((b + 48) as u8) as char) as u32 == (b + 48));
}

/// Decimal text is injective: different numbers have different text.
pub proof fn lemma_dec_nat_injective(a: nat, b: nat)
    requires
        dec_nat(a) == dec_nat(b),
    ensures
        a == b,
    decreases a,
{
    lemma_dec_nat_shape(a);
    lemma_dec_nat_shape(b);
    if a < 10 {
        if b >= 10 {
            assert(dec_nat(b).len() > 1);
        }
        assert(dec_nat(a)[0] == digit_char(a));
        assert(dec_nat(b)[0] == digit_char(b));
        lemma_digit_char_injective(a, b);
    } else {
        assert(b >= 10);
        let da = dec_nat(a / 10);
        let db = dec_nat(b / 10);
        assert(dec_nat(a) == da.push(digit_char(a % 10)));
        assert(dec_nat(b) == db.push(digit_char(b % 10)));
        assert(da =~= dec_nat(a).drop_last());
        assert(db =~= dec_nat(b).drop_last());
        lemma_dec_nat_injective(a / 10, b / 10);
        assert(dec_nat(a).last() == digit_char(a % 10));
        assert(dec_nat(b).last() == digit_char(b % 10));
        lemma_digit_char_injective(a % 10, b % 10);
    }
}

/// Temporaries with different counter values have different names; since
/// the builder raises its counter by one for each fresh temporary, no name
/// is given out twice.
pub proof fn lemma_tmp_names_unique(a: nat, b: nat)
    requires
        a != b,
    ensures
        tmp_name(a) != tmp_name(b),
{
    if tmp_name(a) == tmp_name(b) {
        assert(dec_nat(a) =~= tmp_name(a).skip(2));
        assert(dec_nat(b) =~= tmp_name(b).skip(2));
        lemma_dec_nat_injective(a, b);
    }
}

/// Labels with different counter values have different names, whatever
/// their prefixes; the label counter is shared by all prefixes and raised
/// by one for each fresh label, so no label is given out twice.
pub proof fn lemma_label_names_unique(p: Seq<char>, q: Seq<char>, a: nat, b: nat)
    requires
        a != b,
    ensures
        label_name(p, a) != label_name(q, b),
{
    if label_name(p, a) == label_name(q, b) {
        let s = label_name(p, a);
        let da = dec_nat(a);
        let db = dec_nat(b);
        lemma_dec_nat_shape(a);
        lemma_dec_nat_shape(b);
        assert(s == p + seq!['.'] + da);
        assert(s == q + seq!['.'] + db);
        if da.len() < db.len() {
            let k = s.len() - da.len() - 1;
            assert(s[k] == '.');
            assert(s[k] == db[db.len() - da.len() - 1]);
        } else if db.len() < da.len() {
            let k = s.len() - db.len() - 1;
            assert(s[k] == '.');
            assert(s[k] == da[da.len() - db.len() - 1]);
        } else {
            assert(da =~= s.skip(s.len() - da.len()));
            assert(db =~= s.skip(s.len() - db.len()));
            lemma_dec_nat_injective(a, b);
        }
    }
}

/// Whether no counter went down from `a` to `b`.
pub open spec fn counters_grow(a: CgModel, b: CgModel) -> bool {
    a.e.tmp <= b.e.tmp && a.e.lbl <= b.e.lbl
}

proof fn lemma_emit_prim_grows(e: Emit, p: Prim)
    ensures
        e.tmp <= emit_prim_ir(e, p).tmp && e.lbl <= emit_prim_ir(e, p).lbl,
{
    match p {
        Prim::Dup => {},
        Prim::Drop => {},
        Prim::Swap => {},
        Prim::Over => {},
        Prim::ToR => {},
        Prim::RFrom => {},
        Prim::RFetch => {},
        Prim::Bin(_) => {},
        Prim::DivMod(_) => {},
        Prim::Negate => {},
        Prim::And => {},
        Prim::Shift(_) => {},
        Prim::SlashMod => {},
        Prim::Cmp(_) => {},
        Prim::ZeroEq => {},
        Prim::ZeroLt => {},
        Prim::Service(_, mode) => {
            match mode {
                ExternArgMode::PopI32Void => {},
                ExternArgMode::Void => {},
                ExternArgMode::RetI32Push => {},
                ExternArgMode::PopI32RetI32Push => {},
                ExternArgMode::Pop2I32Void => {},
                ExternArgMode::Pop2I32RetI32Push => {},
                ExternArgMode::Pop3I32Void => {},
            }
        },
        Prim::PushBits(_) => {},
        _ => {},
    }
}

proof fn lemma_control_grows(m: CgModel, p: Prim)
    ensures
        control_step(m, p) matches Ok(m2) ==> counters_grow(m, m2),
{
    match p {
        Prim::If => {},
        Prim::Else => {},
        Prim::Then => {},
        Prim::Begin => {},
        Prim::Until => {},
        Prim::While => {},
        _ => {},
    }
}

proof fn lemma_prim_grows(m: CgModel, toks: Seq<Lexeme>, i: int, p: Prim)
    ensures
        prim_step(m, toks, i, p) matches Ok((m2, _)) ==> counters_grow(m, m2),
{
    if is_control(p) {
        lemma_control_grows(m, p);
    } else if is_dictionary(p) {
    } else {
        lemma_emit_prim_grows(m.e, p);
    }
}

/// One body token never lowers a counter.
pub proof fn lemma_token_counters_grow(m: CgModel, toks: Seq<Lexeme>, i: int)
    requires
        0 <= i < toks.len(),
    ensures
        token_step(m, toks, i) matches Ok((m2, _)) ==> counters_grow(m, m2),
{
    match toks[i] {
        Lexeme::Word(w) => {
            if let Some(p) = prim_of(w) {
                lemma_prim_grows(m, toks, i, p);
            }
        },
        _ => {},
    }
}

/// Compiling a body never lowers a counter, so every temporary and label
/// taken while compiling it comes after all earlier ones.
pub proof fn lemma_body_counters_grow(m: CgModel, toks: Seq<Lexeme>, i: int)
    ensures
        body_ir(m, toks, i) matches Ok(m2) ==> counters_grow(m, m2),
    decreases toks.len() - i,
{
    if 0 <= i < toks.len() && token_room(m) {
        lemma_token_counters_grow(m, toks, i);
        if let Ok((m2, skip)) = token_step(m, toks, i) {
            lemma_body_counters_grow(m2, toks, if skip { i + 2 } else { i + 1 });
        }
    }
}

/// Emitting all definitions never lowers a counter: over a whole run each
/// temporary and label is taken at a counter value above all earlier ones.
pub proof fn lemma_defs_counters_grow(
    m: CgModel,
    defs: Seq<(Seq<char>, Seq<Lexeme>)>,
    k: int,
    aliases: Seq<(Seq<char>, Seq<char>)>,
)
    ensures
        defs_ir(m, defs, k, aliases) matches Ok(m2) ==> counters_grow(m, m2),
    decreases defs.len() - k,
{
    if 0 <= k < defs.len() && token_room(m) {
        reveal(def_ir);
        let alias = assoc_get(aliases, defs[k].0);
        let m1 = m.with_e(begin_func_ir(m.e, defs[k].0));
        lemma_body_counters_grow(m1, defs[k].1, 0);
        if let Some(a) = alias {
            if let Some((callee, mode)) = kernel_of(a) {
                lemma_emit_prim_grows(m1.e, Prim::Service(callee, mode));
            }
        }
        if let Ok(m2) = def_ir(m, defs[k].0, defs[k].1, alias) {
            lemma_defs_counters_grow(m2, defs, k + 1, aliases);
        }
    }
}

/// A successfully compiled body leaves the control-flow stack empty.
pub proof fn lemma_frames_closed(m: CgModel, toks: Seq<Lexeme>)
    ensures
        body_ir(m, toks, 0) matches Ok(m2) ==> m2.ctrl.len() == 0,
{
    crate::compile::lemma_body_closes_frames(m, toks, 0);
}

/// How far one top-level analysis step moves the heap cursor.
pub open spec fn here_increment(toks: Seq<Lexeme>, i: int, st: ProgramModel) -> int {
    match toks[i] {
        Lexeme::Word(w) => if w == "VARIABLE"@ || w == ","@ {
            4
        } else if w == "ALLOT"@ {
            match prev_value(toks, i, st.here, st.consts, st.created) {
                Some(n) => n as int,
                None => 0,
            }
        } else {
            0
        },
        _ => 0,
    }
}

/// The heap cursor never decreases during analysis: each top-level step
/// moves it forward by its increment (a cell for `VARIABLE` and `,`, the
/// count for `ALLOT`). This holds when that count is not negative and the
/// cursor does not pass the largest 32-bit value.
pub proof fn lemma_here_never_decreases(toks: Seq<Lexeme>, i: int, st: ProgramModel)
    requires
        0 <= i < toks.len(),
        parse_step(toks, i, st) is Ok,
        0 <= here_increment(toks, i, st),
        st.here + here_increment(toks, i, st) <= i32::MAX,
    ensures
        parse_step(toks, i, st) matches Ok((st2, _)) && st2.here == st.here + here_increment(
            toks,
            i,
            st,
        ) && st2.here >= st.here,
{
    reveal_strlit("CREATE");
    reveal_strlit("VARIABLE");
    reveal_strlit(",");
    reveal_strlit("HERE");
    reveal_strlit("ALLOT");
    reveal_strlit("CONSTANT");
    assert("CREATE"@.len() == 6 && "VARIABLE"@.len() == 8 && ","@.len() == 1);
    assert("HERE"@.len() == 4 && "ALLOT"@.len() == 5 && "CONSTANT"@.len() == 8);
    assert("VARIABLE"@[0] == 'V' && "CONSTANT"@[0] == 'C');
    if let Lexeme::Word(w) = toks[i] {
        if w == "CREATE"@ {
            assert(w != "VARIABLE"@ && w != ","@ && w != "ALLOT"@);
        } else if w == "VARIABLE"@ {
            assert(w != ","@);
        } else if w == "HERE"@ {
            assert(w != "ALLOT"@);
        }
    }
}

/// The output depends on the input alone: the same source text and float
/// table give the same module, byte for byte.
pub proof fn lemma_deterministic(
    a: Seq<char>,
    b: Seq<char>,
    fa: Seq<(Seq<char>, i32)>,
    fb: Seq<(Seq<char>, i32)>,
)
    requires
        a == b,
        fa == fb,
    ensures
        compile_spec(a, fa) == compile_spec(b, fb),
{
}

/// A body made of one literal `n` compiles to exactly one push of `n`.
pub proof fn lemma_literal_body(m: CgModel, n: i32)
    requires
        token_room(m),
        m.ctrl.len() == 0,
    ensures
        body_ir(m, seq![Lexeme::Num(n)], 0) == Ok::<CgModel, crate::error::Fault>(
            m.with_e(crate::codegen::push_ir(m.e, dec_int(n as int))),
        ),
{
    let toks = seq![Lexeme::Num(n)];
    let m2 = m.with_e(crate::codegen::push_ir(m.e, dec_int(n as int)));
    assert(body_ir(m2, toks, 1) == Ok::<CgModel, crate::error::Fault>(m2));
}

/// Whether `a` is a word the analyzer treats specially at top level.
pub open spec fn is_top_level_keyword(a: Seq<char>) -> bool {
    a == "CREATE"@ || a == "VARIABLE"@ || a == ","@ || a == "HERE"@ || a == "ALLOT"@
        || a == "CONSTANT"@
}

proof fn lemma_find_semi_skips(toks: Seq<Lexeme>, i: int, j: int)
    requires
        0 <= i <= j < toks.len(),
        toks[j] is Semi,
        forall|k: int| i <= k < j ==> !(#[trigger] toks[k] is Semi),
    ensures
        find_semi(toks, i) == j,
    decreases j - i,
{
    if i < j {
        lemma_find_semi_skips(toks, i + 1, j);
    }
}

/// A definition `: A ... ;` followed by the bare word `A` makes `A` the
/// entry, so the `main` wrapper calls `A`'s function.
pub proof fn lemma_trailing_entry(a: Seq<char>, body: Seq<Lexeme>)
    requires
        forall|k: int| 0 <= k < body.len() ==> !(#[trigger] body[k] is Semi),
        !is_top_level_keyword(a),
    ensures
        ({
            let toks = seq![Lexeme::Colon, Lexeme::Word(a)] + body + seq![
                Lexeme::Semi,
                Lexeme::Word(a),
            ];
            analyze(toks) matches Ok(p) && select_entry(p) == Some(a)
        }),
{
    let toks = seq![Lexeme::Colon, Lexeme::Word(a)] + body + seq![Lexeme::Semi, Lexeme::Word(a)];
    let n = body.len() as int;
    assert(toks[0] == Lexeme::Colon);
    assert(toks[1] == Lexeme::Word(a));
    assert(toks[n + 2] == Lexeme::Semi);
    assert(toks[n + 3] == Lexeme::Word(a));
    assert forall|k: int| 2 <= k < n + 2 implies !(#[trigger] toks[k] is Semi) by {
        assert(toks[k] == body[k - 2]);
    }
    lemma_find_semi_skips(toks, 2, n + 2);
    let st0 = empty_program();
    let st1 = ProgramModel { defs: st0.defs.push((a, toks.subrange(2, n + 2))), ..st0 };
    assert(parse_step(toks, 0, st0) == Ok::<(ProgramModel, int), crate::error::Fault>((st1, n + 3)));
    let st2 = ProgramModel { entry: Some(a), ..st1 };
    assert(parse_step(toks, n + 3, st1) == Ok::<(ProgramModel, int), crate::error::Fault>((st2, n + 4)));
    assert(parse_from(toks, n + 4, st2) == Ok::<ProgramModel, crate::error::Fault>(st2));
    assert(parse_from(toks, n + 3, st1) == Ok::<ProgramModel, crate::error::Fault>(st2));
    assert(parse_from(toks, 0, st0) == Ok::<ProgramModel, crate::error::Fault>(st2));
}

/// In `BEGIN cond WHILE body REPEAT`, the loop is left only through the
/// `while_false` label: `WHILE` branches there on zero, and `REPEAT`
/// jumps back to `begin` and opens that same label, and no other.
pub proof fn lemma_while_repeat_exit(m: CgModel, after_body: CgModel)
    requires
        m.ctrl.len() > 0,
        m.ctrl.last() is Begin,
        begin_while_ir(m) is Ok,
        after_body.ctrl == begin_while_ir(m)->Ok_0.ctrl,
    ensures
        ({
            let e1 = pop_ir(m.e).0;
            let t = label_name("while_true"@, e1.lbl + 1);
            let f = label_name("while_false"@, e1.lbl + 2);
            let bl = m.ctrl.last()->Begin_begin_lbl;
            &&& begin_while_ir(m)->Ok_0.ctrl.last() == FrameModel::Begin {
                begin_lbl: bl,
                while_false_lbl: Some(f),
                while_true_lbl: Some(t),
            }
            &&& end_repeat_ir(after_body) == Ok::<CgModel, crate::error::Fault>(
                CgModel {
                    e: after_body.e.line(crate::ir::br_line(bl)).line(crate::ir::label_line(f)),
                    ctrl: m.ctrl.drop_last(),
                    ..after_body
                },
            )
        }),
{
    let m2 = begin_while_ir(m)->Ok_0;
    assert(m2.ctrl.drop_last() =~= m.ctrl.drop_last());
}

/// Whether no `_` byte is directly followed by an `x` byte: the one shape
/// that a plain name shares with an escape.
pub open spec fn no_escape_lookalike(b: Seq<u8>) -> bool {
    forall|k: int| 0 <= k < b.len() - 1 ==> !(#[trigger] b[k] == 95u8 && b[k + 1] == 120u8)
}

proof fn lemma_escape_front(b: Seq<u8>)
    requires
        b.len() > 0,
    ensures
        escape_bytes(b) == byte_piece(b[0]) + escape_bytes(b.drop_first()),
{
    let one = seq![b[0]];
    lemma_escape_concat(one, b.drop_first());
    assert(one + b.drop_first() =~= b);
    assert(one.drop_last() =~= Seq::<u8>::empty());
    assert(escape_bytes(Seq::<u8>::empty()) =~= Seq::<char>::empty());
    assert(one.last() == b[0]);
    assert(escape_bytes(one) == escape_bytes(one.drop_last()) + byte_piece(one.last()));
    assert(escape_bytes(one) =~= byte_piece(b[0]));
}

proof fn lemma_byte_char(x: u8)
    ensures
        (x as char) as u32 == x as u32,
{
}

proof fn lemma_hex_char_values(d: nat)
    requires
        d < 16,
    ensures
        (hex_char(d) as u32) == if d < 10 { d + 48 } else { d + 55 },
{
}

proof fn lemma_hex2_injective(a: u8, b: u8)
    requires
        hex2(a) == hex2(b),
    ensures
        a == b,
{
    assert(hex2(a)[0] == hex2(b)[0]);
    assert(hex2(a)[1] == hex2(b)[1]);
    lemma_hex_char_values((a / 16) as nat);
    lemma_hex_char_values((b / 16) as nat);
    lemma_hex_char_values((a % 16) as nat);
    lemma_hex_char_values((b % 16) as nat);
    assert(a / 16 == b / 16);
    assert(a % 16 == b % 16);
}

proof fn lemma_piece_nonempty(x: u8)
    ensures
        byte_piece(x).len() >= 1,
        is_plain_byte(x) ==> byte_piece(x).len() == 1 && byte_piece(x)[0] == x as char,
        !is_plain_byte(x) ==> byte_piece(x).len() == 4 && byte_piece(x)[0] == '_'
            && byte_piece(x)[1] == 'x' && byte_piece(x).subrange(2, 4) =~= hex2(x),
{
}

proof fn lemma_escape_nonempty(b: Seq<u8>)
    requires
        b.len() > 0,
    ensures
        escape_bytes(b).len() >= 1,
{
    lemma_escape_front(b);
    lemma_piece_nonempty(b[0]);
}

proof fn lemma_no_lookalike_tail(b: Seq<u8>)
    requires
        b.len() > 0,
        no_escape_lookalike(b),
    ensures
        no_escape_lookalike(b.drop_first()),
{
    assert forall|k: int| 0 <= k < b.drop_first().len() - 1 implies !(#[trigger] b.drop_first()[k] == 95u8
        && b.drop_first()[k + 1] == 120u8) by {
        assert(b.drop_first()[k] == b[k + 1]);
        assert(b.drop_first()[k + 1] == b[k + 2]);
    }
}

/// A plain first byte against an escaped one: the plain side must spell
/// `_x`, which the condition rules out.
proof fn lemma_plain_not_escape(a: Seq<u8>, b: Seq<u8>)
    requires
        a.len() > 0,
        b.len() > 0,
        is_plain_byte(a[0]),
        !is_plain_byte(b[0]),
        no_escape_lookalike(a),
    ensures
        escape_bytes(a) != escape_bytes(b),
{
    if escape_bytes(a) == escape_bytes(b) {
    lemma_escape_front(a);
    lemma_escape_front(b);
    lemma_piece_nonempty(a[0]);
    lemma_piece_nonempty(b[0]);
    let e = escape_bytes(a);
    assert(e[0] == escape_bytes(b)[0]);
    assert(escape_bytes(b)[0] == '_');
    assert(e[0] == a[0] as char);
    lemma_byte_char(a[0]);
    assert(a[0] == 95u8);
    assert(e.len() >= 4);
    let rest = a.drop_first();
    if rest.len() == 0 {
        assert(escape_bytes(rest) =~= Seq::<char>::empty());
        assert(e.len() == 1);
    } else {
        lemma_escape_front(rest);
        lemma_piece_nonempty(rest[0]);
        assert(e[1] == escape_bytes(rest)[0]);
        assert(e[1] == 'x');
        if is_plain_byte(rest[0]) {
            lemma_byte_char(rest[0]);
            assert(rest[0] == 120u8);
            assert(a[1] == rest[0]);
            assert(!(a[0int] == 95u8 && a[0int + 1] == 120u8));
        } else {
            assert(escape_bytes(rest)[0] == '_');
        }
    }
    }
}

/// Escaping is injective on byte sequences without an `_x` pair.
pub proof fn lemma_escape_injective(a: Seq<u8>, b: Seq<u8>)
    requires
        escape_bytes(a) == escape_bytes(b),
        no_escape_lookalike(a),
        no_escape_lookalike(b),
    ensures
        a == b,
    decreases a.len() + b.len(),
{
    if a.len() == 0 || b.len() == 0 {
        if a.len() > 0 {
            lemma_escape_nonempty(a);
            assert(escape_bytes(b) =~= Seq::<char>::empty());
        } else if b.len() > 0 {
            lemma_escape_nonempty(b);
            assert(escape_bytes(a) =~= Seq::<char>::empty());
        } else {
            assert(a =~= b);
        }
    } else {
        lemma_escape_front(a);
        lemma_escape_front(b);
        lemma_piece_nonempty(a[0]);
        lemma_piece_nonempty(b[0]);
        let e = escape_bytes(a);
        let pa = byte_piece(a[0]);
        let pb = byte_piece(b[0]);
        if is_plain_byte(a[0]) && !is_plain_byte(b[0]) {
            lemma_plain_not_escape(a, b);
        } else if !is_plain_byte(a[0]) && is_plain_byte(b[0]) {
            lemma_plain_not_escape(b, a);
        } else {
            assert(pa.len() == pb.len());
            assert(pa =~= e.take(pa.len() as int));
            assert(pb =~= e.take(pb.len() as int));
            if is_plain_byte(a[0]) {
                lemma_byte_char(a[0]);
                lemma_byte_char(b[0]);
                assert(a[0] as char == b[0] as char);
            } else {
                assert(pa.subrange(2, 4) == pb.subrange(2, 4));
                lemma_hex2_injective(a[0], b[0]);
            }
            assert(a[0] == b[0]);
            assert(escape_bytes(a.drop_first()) =~= e.skip(pa.len() as int));
            assert(escape_bytes(b.drop_first()) =~= e.skip(pb.len() as int));
            lemma_no_lookalike_tail(a);
            lemma_no_lookalike_tail(b);
            lemma_escape_injective(a.drop_first(), b.drop_first());
            assert(a =~= seq![a[0]] + a.drop_first());
            assert(b =~= seq![b[0]] + b.drop_first());
        }
    }
}

/// Name mangling is injective: distinct source names get distinct symbols,
/// for names in which no `_` is directly followed by `x` (`-` and `_x2D`
/// both give `w_x2D`).
pub proof fn lemma_mangle_injective(a: Seq<char>, b: Seq<char>)
    requires
        no_escape_lookalike(encode_utf8(a)),
        no_escape_lookalike(encode_utf8(b)),
        a != b,
    ensures
        mangle(a) != mangle(b),
{
    if mangle(a) == mangle(b) {
        assert(escape_bytes(encode_utf8(a)) =~= mangle(a).drop_first());
        assert(escape_bytes(encode_utf8(b)) =~= mangle(b).drop_first());
        lemma_escape_injective(encode_utf8(a), encode_utf8(b));
        encode_utf8_decode_utf8(a);
        encode_utf8_decode_utf8(b);
    }
}

} // verus!
