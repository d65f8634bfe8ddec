use wati2wat::compile;
use wati2wat::pipeline::{apply, compile_text, PATTERN_ERROR};
use wati2wat::rules::Rule;

fn chars(s: &str) -> Vec<char> {
    s.chars().collect()
}

fn ok(s: &str) -> Result<String, String> {
    Ok(String::from(s))
}

#[test]
fn compile_unchanged() {
    let input = String::from("(module)");
    // should remain unchanged
    assert_eq!(compile(input), ok("(module)"));
}

#[test]
fn canonical_text_is_unchanged() {
    let text = "(module\n  (func (param $a i32) (result i32)\n    (local.get $a)\n    call $f))";
    assert_eq!(compile(String::from(text)), ok(text));
}

#[test]
fn empty_document_is_unchanged() {
    assert_eq!(compile(String::new()), ok(""));
}

#[test]
fn non_ascii_text_is_kept() {
    assert_eq!(compile(String::from(";; caf\u{e9} \u{2603}\n(module)")), ok(";; caf\u{e9} \u{2603}\n(module)"));
    assert_eq!(
        compile(String::from("\u{2603} 5i32 \u{e9}")),
        ok("\u{2603} (i32.const 5) \u{e9}")
    );
}

#[test]
fn call_arguments_keep_their_order() {
    assert_eq!(
        compile(String::from("call $f($a, $b)")),
        ok("(local.get $a)\n(local.get $b)\ncall $f")
    );
}

#[test]
fn call_flattening_alone() {
    let out = apply(Rule::Call, &chars("call $f($a, $b)"));
    assert_eq!(out, Some(chars("$a\n$b\ncall $f")));
}

#[test]
fn call_arguments_are_trimmed() {
    let out = apply(Rule::Call, &chars("x call $f(  1i32 ,\t2i32  ,3i32) y"));
    assert_eq!(out, Some(chars("x 1i32\n2i32\n3i32\ncall $f y")));
}

#[test]
fn call_without_arguments() {
    assert_eq!(apply(Rule::Call, &chars("call $f()")), Some(chars("\ncall $f")));
    assert_eq!(compile(String::from("call $f()")), ok("\ncall $f"));
}

#[test]
fn call_with_literals() {
    assert_eq!(
        compile(String::from("call $add(1i32, 2i32)")),
        ok("(i32.const 1)\n(i32.const 2)\ncall $add")
    );
}

#[test]
fn nested_call_is_rejected() {
    let r = compile(String::from("call $f(call $g(1i32))"));
    assert_eq!(
        r,
        Err(String::from(
            "Cannot nest calls to functions inside calls to functions. (near ..call $f(call $g(1i32))..)"
        ))
    );
}

#[test]
fn nested_call_inside_a_document_is_rejected() {
    let r = compile(String::from("(module\n  call $f(1i32, call $g(2i32))\n  5i32)"));
    assert_eq!(
        r,
        Err(String::from(
            "Cannot nest calls to functions inside calls to functions. (near ..call $f(1i32, call $g(2i32))..)"
        ))
    );
    let r = compile_text(&chars("$x = call $f(call $g())"));
    assert!(r.is_err());
}

#[test]
fn pattern_error_is_not_the_outcome_of_a_compile() {
    let r = compile(String::from("call $f(call $g(1i32))"));
    assert_ne!(r, Err(String::from(PATTERN_ERROR)));
    assert!(compile(String::from("5i32")).is_ok());
}

#[test]
fn stack_shortcut_set() {
    assert_eq!(compile(String::from("$x = stack")), ok("local.set $x"));
    assert_eq!(compile(String::from("$x =   stack  ")), ok("local.set $x"));
}

#[test]
fn set_with_operand() {
    assert_eq!(compile(String::from("$x = 5i32")), ok("(local.set $x (i32.const 5))"));
    assert_eq!(compile(String::from("$x = stacks")), ok("(local.set $x stacks)"));
}

#[test]
fn literal_annotation_for_each_type() {
    for ty in ["i32", "i64", "f32", "f64"] {
        for num in ["0", "5", "3.14"] {
            let input = format!("{}{}", num, ty);
            let want = format!("({}.const {})", ty, num);
            assert_eq!(compile(input), Ok(want));
        }
    }
}

#[test]
fn literal_with_leading_dot() {
    assert_eq!(compile(String::from(".5f32")), ok("(f32.const .5)"));
    assert_eq!(compile(String::from("1.f32")), ok("1.f32"));
    assert_eq!(compile(String::from("5 i32")), ok("5 i32"));
}

#[test]
fn get_and_set_exclude_each_other() {
    assert_eq!(compile(String::from("$x = 5i32")), ok("(local.set $x (i32.const 5))"));
    assert_eq!(
        compile(String::from("$x = 5i32\n$x")),
        ok("(local.set $x (i32.const 5))\n(local.get $x)")
    );
}

#[test]
fn bare_name_is_read() {
    assert_eq!(compile(String::from("$abc")), ok("(local.get $abc)"));
    assert_eq!(apply(Rule::Read, &chars("a $x b $y")), Some(chars("a (local.get $x) b (local.get $y)")));
}

#[test]
fn operands_are_not_wrapped() {
    for text in [
        "global.set $g",
        "global.get $g",
        "local.set $x",
        "local.get $x",
        "call $f",
        "call_indirect $t",
        "br $l",
        "br_if $l",
        "br_table $l",
        "block $b",
        "loop $l",
        "if $i",
        "(func $main",
        "(export $e",
    ] {
        assert_eq!(compile(String::from(text)), ok(text));
    }
}

#[test]
fn declaration_expansion() {
    assert_eq!(compile(String::from("($p i32)")), ok("(param $p i32)"));
    assert_eq!(compile(String::from("(l $v f64)")), ok("(local $v f64)"));
    assert_eq!(compile(String::from("(l$v f64)")), ok("(local $v f64)"));
}

#[test]
fn declaration_expansion_for_each_type() {
    for ty in ["i32", "i64", "f32", "f64"] {
        assert_eq!(
            apply(Rule::Param, &chars(&format!("(func ($a {}) ($b {}))", ty, ty))),
            Some(chars(&format!("(func (param $a {}) (param $b {}))", ty, ty)))
        );
        assert_eq!(
            apply(Rule::Local, &chars(&format!("(l $a {})(l$b {})", ty, ty))),
            Some(chars(&format!("(local $a {})(local $b {})", ty, ty)))
        );
    }
    assert_eq!(apply(Rule::Param, &chars("($a i16)")), Some(chars("($a i16)")));
    assert_eq!(apply(Rule::Local, &chars("(l  $a i32)")), Some(chars("(l  $a i32)")));
}

#[test]
fn declaration_is_expanded_wherever_it_stands() {
    assert_eq!(
        compile(String::from("(module (memory ($p i32)))")),
        ok("(module (memory (param $p i32)))")
    );
}

#[test]
fn whole_function() {
    let src = "(func $add ($a i32) ($b i32) (result i32)\n  (l $sum i32)\n  $sum = stack\n  call $log($a, 1i32)\n  $sum)";
    let want = "(func $add (param $a i32) (param $b i32) (result i32)\n  (local $sum i32)\n  local.set $sum\n  (local.get $a)\n(i32.const 1)\ncall $log\n  (local.get $sum))";
    assert_eq!(compile(String::from(src)), ok(want));
}

#[test]
fn unmatched_text_passes_through() {
    let text = chars("nothing to see here, 12 + 7; (a b c)");
    for rule in [Rule::Call, Rule::Param, Rule::Local, Rule::Literal, Rule::Read, Rule::Assign] {
        assert_eq!(apply(rule, &text), Some(text.clone()));
    }
}
