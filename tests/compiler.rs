use forthc::aliases::extract_routine_aliases;
use forthc::analyzer::{parse_program, select_entry_exec};
use forthc::builder::LlvmBuilder;
use forthc::driver::compile_source;
use forthc::error::CompileError;
use forthc::lexer::{parse_i32, tokenize, LexError, Token};
use forthc::mangle::llvm_word_sym;
use forthc::symbols::SymTab;

fn chars(s: &str) -> Vec<char> {
    s.chars().collect()
}

fn text(v: &[char]) -> String {
    v.iter().collect()
}

fn compile(src: &str) -> Result<String, CompileError> {
    compile_source(src, SymTab::new()).map(|v| text(&v))
}

fn compile_ok(src: &str) -> String {
    match compile(src) {
        Ok(s) => s,
        Err(_) => panic!("compilation failed for {:?}", src),
    }
}

fn count(hay: &str, needle: &str) -> usize {
    hay.matches(needle).count()
}

fn function_body<'a>(module: &'a str, sym: &str) -> &'a str {
    let head = format!("define void @{}(", sym);
    let start = module.find(&head).expect("function present");
    let rest = &module[start..];
    let end = rest.find("\n}\n").expect("function end");
    &rest[..end]
}

#[test]
fn add_and_print() {
    let m = compile_ok(": MAIN 1 2 + . ;");
    assert!(m.starts_with("; ModuleID = 'forthc'\n"));
    let f = function_body(&m, "wMAIN");
    assert!(f.contains("  store i32 1, i32* %t2, align 4"));
    assert!(f.contains("  store i32 2, i32* %t5, align 4"));
    assert!(f.contains("  %t15 = add i32 %t14, %t10"));
    assert!(f.contains("call void @pwrite_i32(i32 %t22)"));
    assert!(m.contains("  call void @wMAIN(i32* %base, i32* %sp)"));
    assert!(m.contains("define i32 @main() {"));
}

#[test]
fn exact_push_sequence() {
    let m = compile_ok(": MAIN 7 ;");
    let f = function_body(&m, "wMAIN");
    let expected = "  %t1 = load i32, i32* %sp_ptr, align 4\n\
                    \x20 %t2 = getelementptr inbounds i32, i32* %stack_base, i32 %t1\n\
                    \x20 store i32 7, i32* %t2, align 4\n\
                    \x20 %t3 = add i32 %t1, 1\n\
                    \x20 store i32 %t3, i32* %sp_ptr, align 4\n";
    assert!(f.contains(expected));
}

#[test]
fn if_else_labels() {
    let m = compile_ok(": MAIN 5 0 = IF 1 . ELSE 2 . THEN ;");
    assert_eq!(count(&m, "then.1:"), 1);
    assert_eq!(count(&m, "else.2:"), 1);
    assert_eq!(count(&m, "endif.3:"), 1);
    assert!(m.contains(", label %else.2, label %then.1"));
    assert!(!m.contains("then.4"));
}

#[test]
fn while_loop_labels() {
    let m = compile_ok(": MAIN 0 BEGIN DUP 3 < WHILE DUP . 1 + REPEAT DROP ;");
    assert_eq!(count(&m, "begin.1:"), 1);
    assert_eq!(count(&m, "while_true.2:"), 1);
    assert_eq!(count(&m, "while_false.3:"), 1);
    assert!(m.contains(", label %while_false.3, label %while_true.2"));
    assert!(m.contains("  br label %begin.1\nwhile_false.3:"));
}

#[test]
fn variable_layout() {
    let toks = tokenize("VARIABLE X 42 X PVAR! X PVAR@ .").ok().unwrap();
    let p = parse_program(&toks).ok().unwrap();
    assert_eq!(p.here, 4);
    assert_eq!(p.created_words.get(&chars("X")), Some(0));
    let m = compile_ok("VARIABLE X : MAIN 42 X PVAR! X PVAR@ . ;");
    assert!(m.contains("  call void @rt_heap_reset(i32 4)"));
    let f = function_body(&m, "wMAIN");
    assert!(f.contains("store i32 42,"));
    assert!(f.contains("store i32 0,"));
    assert!(f.contains("call void @pvar_set(i32 "));
    assert!(f.contains(" = call i32 @pvar_get(i32 "));
    assert!(f.contains("call void @pwrite_i32(i32 "));
}

#[test]
fn routine_alias_substitution() {
    let src = "( ROUTINE program::sqrt => SQRT )\n: SQRT ;\n: MAIN 4 S>F SQRT F. ;\n";
    let m = compile_ok(src);
    let sqrt = function_body(&m, "wSQRT");
    assert!(sqrt.contains(" = call i32 @kp_fsqrt_f32_bits(i32 "));
    let main = function_body(&m, "wMAIN");
    assert!(main.contains(" = call i32 @s_to_f_bits(i32 "));
    assert!(main.contains("  call void @wSQRT(i32* %stack_base, i32* %sp_ptr)"));
    assert!(main.contains("call void @pwrite_f32_bits(i32 "));
    assert!(m.contains("  call void @wMAIN(i32* %base, i32* %sp)"));
}

#[test]
fn string_global() {
    let m = compile_ok(": MAIN S\" hello\" PWRITE-STR ;");
    assert!(m.contains("@str.1 = private constant [6 x i8] c\"\\68\\65\\6C\\6C\\6F\\00\""));
    assert!(m.contains(
        "  %t1 = getelementptr inbounds [6 x i8], [6 x i8]* @str.1, i32 0, i32 0\n  call void @pwrite_str(i8* %t1)"
    ));
    assert_eq!(count(&m, "private constant"), 1);
}

#[test]
fn literal_body_pushes_that_literal() {
    for n in [0i32, -1, 42, i32::MAX, i32::MIN] {
        let m = compile_ok(&format!(": T {} ;", n));
        let f = function_body(&m, "wT");
        assert!(f.contains(&format!("  store i32 {}, i32* %t2, align 4", n)));
    }
}

#[test]
fn trailing_entry_is_called() {
    let m = compile_ok(": A-B 1 ; : C 2 ; A-B");
    assert!(m.contains("  call void @wA_x2DB(i32* %base, i32* %sp)"));
}

#[test]
fn if_else_then_branches_on_zero() {
    let m = compile_ok(": T IF 1 ELSE 2 THEN ;");
    assert_eq!(count(&m, "then.1:"), 1);
    assert_eq!(count(&m, "else.2:"), 1);
    assert_eq!(count(&m, "endif.3:"), 1);
    assert!(m.contains("  %t5 = icmp eq i32 %t4, 0\n  br i1 %t5, label %else.2, label %then.1\nthen.1:"));
}

#[test]
fn begin_zero_until_loops_back() {
    let m = compile_ok(": T BEGIN 0 UNTIL ;");
    let f = function_body(&m, "wT");
    assert!(f.contains("  br label %begin.1\nbegin.1:"));
    assert!(f.contains("  store i32 0, i32* %t2, align 4"));
    assert!(f.contains("  %t8 = icmp eq i32 %t7, 0\n  br i1 %t8, label %begin.1, label %until_done.2\nuntil_done.2:"));
}

#[test]
fn while_repeat_exits_through_while_false() {
    let m = compile_ok(": T BEGIN 1 WHILE 2 DROP REPEAT ;");
    let f = function_body(&m, "wT");
    assert_eq!(count(f, "while_false.3:"), 1);
    assert_eq!(count(f, "label %while_false.3"), 1);
    assert!(f.contains("  br label %begin.1\nwhile_false.3:\n  ret void"));
}

#[test]
fn plain_begin_repeat_is_infinite() {
    let m = compile_ok(": T BEGIN 1 DROP REPEAT ;");
    let f = function_body(&m, "wT");
    assert!(f.ends_with("  br label %begin.1\n  ret void"));
}

#[test]
fn fresh_names_never_repeat() {
    let m = compile_ok(": A 1 2 + IF 3 THEN ; : B BEGIN 0 UNTIL A ; B");
    let mut tmps: Vec<String> = Vec::new();
    for line in m.lines() {
        let t = line.trim_start();
        if t.starts_with("%t") {
            let name = t.split(' ').next().unwrap().to_string();
            assert!(!tmps.contains(&name), "temporary {} defined twice", name);
            tmps.push(name);
        }
    }
    let mut labels: Vec<String> = Vec::new();
    for line in m.lines() {
        if line.ends_with(':') && !line.starts_with(' ') && line != "entry:" {
            assert!(!labels.contains(&line.to_string()));
            labels.push(line.to_string());
        }
    }
    assert!(tmps.len() > 10);
    assert!(labels.len() >= 5);
}

#[test]
fn deterministic_output() {
    let src = ": MAIN S\" hi\" PWRITE-STR 1 2 < IF 3 . THEN ;";
    assert_eq!(compile_ok(src), compile_ok(src));
}

#[test]
fn heap_cursor_grows_in_analysis() {
    let toks = tokenize("VARIABLE A , 8 ALLOT CREATE B HERE ALLOT VARIABLE C").ok().unwrap();
    let p = parse_program(&toks).ok().unwrap();
    assert_eq!(p.created_words.get(&chars("A")), Some(0));
    assert_eq!(p.created_words.get(&chars("B")), Some(16));
    assert_eq!(p.created_words.get(&chars("C")), Some(32));
    assert_eq!(p.here, 36);
}

#[test]
fn negative_allot_moves_cursor_back() {
    let toks = tokenize("VARIABLE A -4 ALLOT").ok().unwrap();
    let p = parse_program(&toks).ok().unwrap();
    assert_eq!(p.here, 0);
}

#[test]
fn constants_and_created_words_push_values() {
    let m = compile_ok("7 CONSTANT SEVEN CREATE BUF 4 ALLOT : MAIN SEVEN BUF + . ;");
    let f = function_body(&m, "wMAIN");
    assert!(f.contains("store i32 7,"));
    assert!(f.contains("store i32 0,"));
    assert!(m.contains("rt_heap_reset(i32 4)"));
}

#[test]
fn constant_inside_body() {
    let m = compile_ok(": MAIN 5 CONSTANT FIVE FIVE . ;");
    let f = function_body(&m, "wMAIN");
    assert_eq!(count(f, "store i32 5,"), 2);
}

#[test]
fn comma_in_body_advances_heap() {
    let m = compile_ok(": MAIN 1 , ;");
    assert!(m.contains("rt_heap_reset(i32 4)"));
}

#[test]
fn mangling_escapes_bytes() {
    assert_eq!(text(&llvm_word_sym(&chars("MAIN"))), "wMAIN");
    assert_eq!(text(&llvm_word_sym(&chars("a_b9"))), "wa_b9");
    assert_eq!(text(&llvm_word_sym(&chars("2DUP+"))), "w2DUP_x2B");
    assert_eq!(text(&llvm_word_sym(&chars("é"))), "w_xC3_xA9");
    assert_eq!(text(&llvm_word_sym(&chars(""))), "w");
}

#[test]
fn mangling_distinct_names() {
    let names = ["+", "-", "A+", "A-", "R>", ">R", "é", "e"];
    for a in names.iter() {
        for b in names.iter() {
            let ma = text(&llvm_word_sym(&chars(a)));
            let mb = text(&llvm_word_sym(&chars(b)));
            assert_eq!(a == b, ma == mb);
        }
    }
}

#[test]
fn mangling_lookalike_collides() {
    let a = text(&llvm_word_sym(&chars("-")));
    let b = text(&llvm_word_sym(&chars("_x2D")));
    assert_eq!(a, b);
}

#[test]
fn tokenize_shapes() {
    let t = tokenize(": SQ DUP * ; ( note ) S\" a b\" -12 +7 x:y").ok().unwrap();
    assert_eq!(t.len(), 11);
    assert!(matches!(t[0], Token::Colon));
    assert!(matches!(&t[1], Token::Word(w) if text(w) == "SQ"));
    assert!(matches!(t[4], Token::Semi));
    assert!(matches!(&t[5], Token::Str(s) if text(s) == "a b"));
    assert!(matches!(t[6], Token::Num(-12)));
    assert!(matches!(t[7], Token::Num(7)));
    assert!(matches!(&t[8], Token::Word(w) if text(w) == "x"));
    assert!(matches!(t[9], Token::Colon));
    assert!(matches!(&t[10], Token::Word(w) if text(w) == "y"));
}

#[test]
fn tokenize_unicode_whitespace() {
    let t = tokenize("A\u{3000}B\u{a0}C").ok().unwrap();
    assert_eq!(t.len(), 3);
}

#[test]
fn tokenize_errors() {
    assert!(matches!(tokenize("( open"), Err(LexError::UnterminatedComment)));
    assert!(matches!(tokenize("S\" open"), Err(LexError::UnterminatedString)));
    assert!(matches!(tokenize(""), Ok(ref v) if v.is_empty()));
}

#[test]
fn integer_parsing() {
    assert_eq!(parse_i32(&chars("2147483647")), Some(i32::MAX));
    assert_eq!(parse_i32(&chars("-2147483648")), Some(i32::MIN));
    assert_eq!(parse_i32(&chars("2147483648")), None);
    assert_eq!(parse_i32(&chars("-2147483649")), None);
    assert_eq!(parse_i32(&chars("+5")), Some(5));
    assert_eq!(parse_i32(&chars("007")), Some(7));
    assert_eq!(parse_i32(&chars("-")), None);
    assert_eq!(parse_i32(&chars("+")), None);
    assert_eq!(parse_i32(&chars("")), None);
    assert_eq!(parse_i32(&chars("1a")), None);
    assert_eq!(parse_i32(&chars("99999999999999999999")), None);
}

#[test]
fn routine_alias_lines() {
    let src = "( ROUTINE program::sin => SIN )\n  ( ROUTINE  program::cos  =>  COS  )  \r\n( ROUTINE x )\n( ROUTINE => Y )\n( ROUTINE program::ln => SIN )";
    let m = extract_routine_aliases(src);
    assert_eq!(m.entries.len(), 3);
    assert_eq!(text(&m.get(&chars("SIN")).unwrap()), "program::ln");
    assert_eq!(text(&m.get(&chars("COS")).unwrap()), "program::cos");
    assert!(m.get(&chars("Y")).is_none());
}

#[test]
fn unknown_alias_compiles_body() {
    let m = compile_ok("( ROUTINE program::nope => F )\n: F 1 ;\n: MAIN F ;");
    let f = function_body(&m, "wF");
    assert!(f.contains("store i32 1,"));
}

#[test]
fn pow_kernel_takes_two_cells() {
    let m = compile_ok("( ROUTINE program::pow => P )\n: P ;\n: MAIN 2 3 P ;");
    let f = function_body(&m, "wP");
    assert!(f.contains(" = call i32 @kp_fpow_f32_i32_bits(i32 "));
    assert!(f.contains(", i32 "));
}

#[test]
fn float_literals() {
    let m = compile_ok(": MAIN S\" -INF\" READ-F32 S\" NaN\" FNUMBER? S\" what\" FNUMBER? F+INF ;");
    let f = function_body(&m, "wMAIN");
    assert!(f.contains("store i32 -8388608,"));
    assert!(f.contains("store i32 2143289344,"));
    assert!(f.contains("store i32 2139095040,"));
    assert_eq!(count(f, "store i32 -1,"), 2);
    assert!(f.contains("store i32 0,"));
}

#[test]
fn float_table_lookup() {
    let mut t = SymTab::new();
    t.insert(chars("1.5"), 0x3fc0_0000);
    let m = compile_source(": MAIN S\" 1.5\" READ-F32 ;", t).ok().unwrap();
    let m = text(&m);
    assert!(m.contains("store i32 1069547520,"));
}

#[test]
fn arithmetic_lowering() {
    let m = compile_ok(": MAIN 1 2 / 3 MOD 4 LSHIFT 5 RSHIFT NEGATE 6 /MOD 0= 0< SWAP OVER >R R@ R> AND OR XOR ;");
    for needle in [" = sdiv i32 ", " = srem i32 ", " = shl i32 ", " = lshr i32 ", " = and i32 ", ", 31", " = icmp slt i32 ", " = icmp eq i32 ", " = or i32 ", " = xor i32 ", "%rstack_base, i32 "] {
        assert!(m.contains(needle), "missing {}", needle);
    }
}

#[test]
fn comparisons_give_forth_booleans() {
    let m = compile_ok(": MAIN 1 2 <> ;");
    assert!(m.contains(" = icmp ne i32 "));
    assert!(m.contains(" = zext i1 "));
    assert!(m.contains(" = sub i32 0, "));
}

#[test]
fn services_dispatch() {
    let m = compile_ok(": MAIN PREAD-I32 PWRITE-HEX PWRITELN 1 2 3 PFIELD! 1 2 PFIELD@ FADD HERE ALLOT PREADLN ;");
    assert!(m.contains(" = call i32 @pread_i32()"));
    assert!(m.contains("call void @pwrite_hex(i32 "));
    assert!(m.contains("  call void @pwriteln()"));
    assert!(m.contains("call void @pfield_set(i32 "));
    assert!(m.contains(" = call i32 @pfield_get(i32 "));
    assert!(m.contains(" = call i32 @fadd_bits(i32 "));
    assert!(m.contains(" = call i32 @rt_here()"));
    assert!(m.contains("call void @rt_allot(i32 "));
    assert!(m.contains("  call void @preadln()"));
}

#[test]
fn prelude_declares_runtime() {
    let m = compile_ok(": MAIN ;");
    assert!(m.contains("declare void @pwrite_str(i8*)\n"));
    assert!(m.contains("declare i32 @kp_fx_log_i32(i32)\n"));
    assert!(m.contains("declare void @pfield_set(i32, i32, i32)\n"));
}

#[test]
fn entry_rules() {
    let m = compile_ok(": A ; : MAIN ;");
    assert!(m.contains("call void @wMAIN(i32* %base, i32* %sp)"));
    let m = compile_ok(": ONLY ;");
    assert!(m.contains("call void @wONLY(i32* %base, i32* %sp)"));
    let m = compile_ok(": A ; : B ; A B");
    assert!(m.contains("call void @wB(i32* %base, i32* %sp)"));
    let toks = tokenize(": A ; : B ;").ok().unwrap();
    let p = parse_program(&toks).ok().unwrap();
    assert!(select_entry_exec(&p).is_none());
}

#[test]
fn duplicate_definition_both_emitted() {
    let m = compile_ok(": A 1 ; : A 2 ; : MAIN A ;");
    assert_eq!(count(&m, "define void @wA("), 2);
}

#[test]
fn builder_counters() {
    let mut b = LlvmBuilder::new();
    assert_eq!(text(&b.fresh_tmp()), "%t1");
    assert_eq!(text(&b.fresh_tmp()), "%t2");
    assert_eq!(text(&b.fresh_lbl("then")), "then.1");
    assert_eq!(text(&b.fresh_lbl("else")), "else.2");
    b.emit_line(&chars("x"));
    b.emit_global_line(&chars("g"));
    assert_eq!(text(&b.out), "x\n");
    assert_eq!(text(&b.globals), "g\n");
}

#[test]
fn error_unterminated_comment() {
    assert!(matches!(compile(": MAIN ( 1 ;"), Err(CompileError::UnterminatedComment)));
}

#[test]
fn error_unterminated_string() {
    assert!(matches!(compile(": MAIN S\" x ;"), Err(CompileError::UnterminatedString)));
}

#[test]
fn error_missing_definition_name() {
    assert!(matches!(compile(": 1 ;"), Err(CompileError::MissingDefinitionName)));
}

#[test]
fn error_missing_semicolon() {
    match compile(": MAIN 1") {
        Err(CompileError::MissingSemicolon(n)) => assert_eq!(text(&n), "MAIN"),
        _ => panic!("expected a missing-semicolon error"),
    }
}

#[test]
fn error_missing_create_name() {
    assert!(matches!(compile("CREATE"), Err(CompileError::MissingCreateName)));
    assert!(matches!(compile(": MAIN CREATE ;"), Err(CompileError::MissingCreateName)));
}

#[test]
fn error_missing_variable_name() {
    assert!(matches!(compile("VARIABLE 3"), Err(CompileError::MissingVariableName)));
}

#[test]
fn error_missing_constant_name() {
    assert!(matches!(compile("3 CONSTANT"), Err(CompileError::MissingConstantName)));
}

#[test]
fn error_missing_allot_value() {
    assert!(matches!(compile("ALLOT"), Err(CompileError::MissingAllotValue)));
    assert!(matches!(compile("1 2 + ALLOT"), Err(CompileError::MissingAllotValue)));
}

#[test]
fn error_missing_constant_value() {
    assert!(matches!(compile("CONSTANT X"), Err(CompileError::MissingConstantValue)));
    assert!(matches!(compile(": MAIN DUP CONSTANT X ;"), Err(CompileError::MissingConstantValue)));
}

#[test]
fn error_unknown_word() {
    match compile(": MAIN FROB ;") {
        Err(CompileError::UnknownWord(w)) => assert_eq!(text(&w), "FROB"),
        _ => panic!("expected an unknown-word error"),
    }
}

#[test]
fn error_unmatched_control() {
    assert!(matches!(compile(": MAIN ELSE ;"), Err(CompileError::ElseWithoutIf)));
    assert!(matches!(compile(": MAIN THEN ;"), Err(CompileError::ThenWithoutIf)));
    assert!(matches!(compile(": MAIN 1 UNTIL ;"), Err(CompileError::UntilWithoutBegin)));
    assert!(matches!(compile(": MAIN 1 WHILE ;"), Err(CompileError::WhileWithoutBegin)));
    assert!(matches!(compile(": MAIN REPEAT ;"), Err(CompileError::RepeatWithoutBegin)));
    assert!(matches!(compile(": MAIN BEGIN THEN ;"), Err(CompileError::ThenWithoutIf)));
}

#[test]
fn error_unclosed_control() {
    assert!(matches!(compile(": MAIN 1 IF ;"), Err(CompileError::UnclosedControl)));
    assert!(matches!(compile(": MAIN BEGIN ;"), Err(CompileError::UnclosedControl)));
}

#[test]
fn error_string_consumers() {
    assert!(matches!(compile(": MAIN S\" x\" ;"), Err(CompileError::StringWithoutConsumer)));
    assert!(matches!(compile(": MAIN S\" x\" DUP ;"), Err(CompileError::UnsupportedStringConsumer)));
}

#[test]
fn error_nested_definition() {
    assert!(matches!(compile(": A : B ;"), Err(CompileError::NestedDefinition)));
}

#[test]
fn error_no_entry_point() {
    assert!(matches!(compile(": A ; : B ;"), Err(CompileError::NoEntryPoint)));
    assert!(matches!(compile(""), Err(CompileError::NoEntryPoint)));
}

#[test]
fn whole_module_for_empty_main() {
    let m = compile_ok(": MAIN ;");
    let prelude_end = m.find("declare i32 @kp_fx_log_i32(i32)\n\n").unwrap()
        + "declare i32 @kp_fx_log_i32(i32)\n\n".len();
    let rest = &m[prelude_end..];
    let expected = "define void @wMAIN(i32* %stack_base, i32* %sp_ptr) {\n\
entry:\n\
\x20 %rstack = alloca [1024 x i32], align 16\n\
\x20 %rsp_ptr = alloca i32, align 4\n\
\x20 store i32 0, i32* %rsp_ptr, align 4\n\
\x20 %rstack_base = getelementptr inbounds [1024 x i32], [1024 x i32]* %rstack, i32 0, i32 0\n\
\x20 ret void\n\
}\n\
\n\
define i32 @main() {\n\
entry:\n\
\x20 %stack = alloca [1024 x i32], align 16\n\
\x20 %sp = alloca i32, align 4\n\
\x20 store i32 0, i32* %sp, align 4\n\
\x20 %base = getelementptr inbounds [1024 x i32], [1024 x i32]* %stack, i32 0, i32 0\n\
\x20 call void @rt_heap_reset(i32 0)\n\
\x20 call void @wMAIN(i32* %base, i32* %sp)\n\
\x20 ret i32 0\n\
}\n\
\n\
\n";
    assert_eq!(rest, expected);
}

#[test]
fn utf8_string_constant() {
    let m = compile_ok(": MAIN S\" é\" PWRITE-STR ;");
    assert!(m.contains("@str.1 = private constant [3 x i8] c\"\\C3\\A9\\00\""));
}

#[test]
fn empty_string_constant() {
    let m = compile_ok(": MAIN S\" \" PWRITE-STR ;");
    assert!(m.contains("@str.1 = private constant [1 x i8] c\"\\00\""));
}
