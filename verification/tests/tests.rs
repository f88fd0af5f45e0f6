use numeric_literals::ast::{
    Block, Expr, FieldValue, Item, MacroBody, MacroCall, MacroDelimiter, MatchArm, Member, Path,
    Stmt,
};
use numeric_literals::attribute::{AttributeError, MacroParameters};
use numeric_literals::literal::{LitKind, Literal};
use numeric_literals::{replace_float_literals, replace_int_literals, replace_numeric_literals};

fn lit(kind: LitKind, text: &str) -> Expr {
    Expr::Lit(Literal::new(kind, text.to_string()))
}

fn num(text: &str) -> Expr {
    Expr::Lit(Literal::numeric(text.to_string()))
}

fn ident(name: &str) -> Expr {
    Expr::Path(Path { leading_colon: false, segments: vec![name.to_string()] })
}

fn path2(a: &str, b: &str) -> Expr {
    Expr::Path(Path { leading_colon: false, segments: vec![a.to_string(), b.to_string()] })
}

fn call(func: Expr, args: Vec<Expr>) -> Expr {
    Expr::Call { func: Box::new(func), args }
}

fn cast(e: Expr, ty: &str) -> Expr {
    Expr::Cast { operand: Box::new(e), ty: ty.to_string() }
}

fn binary(op: &str, left: Expr, right: Expr) -> Expr {
    Expr::Binary { op: op.to_string(), left: Box::new(left), right: Box::new(right) }
}

fn unit() -> Expr {
    Expr::Tuple(vec![])
}

fn pair(a: Expr, b: Expr) -> Expr {
    Expr::Tuple(vec![a, b])
}

fn vec_macro(elems: Vec<Expr>, trailing_comma: bool) -> Expr {
    Expr::Macro(MacroCall {
        path: Path { leading_colon: false, segments: vec!["vec".to_string()] },
        delimiter: MacroDelimiter::Bracket,
        body: MacroBody::CommaList { elems, trailing_comma },
    })
}

fn vec_repeat(value: Expr, count: Expr) -> Expr {
    Expr::Macro(MacroCall {
        path: Path { leading_colon: false, segments: vec!["vec".to_string()] },
        delimiter: MacroDelimiter::Bracket,
        body: MacroBody::SemiPair { value: Box::new(value), count: Box::new(count) },
    })
}

fn assert_macro(e: Expr) -> Expr {
    Expr::Macro(MacroCall {
        path: Path { leading_colon: false, segments: vec!["assert".to_string()] },
        delimiter: MacroDelimiter::Paren,
        body: MacroBody::Single(Box::new(e)),
    })
}

fn assert_eq_macro(a: Expr, b: Expr) -> Expr {
    Expr::Macro(MacroCall {
        path: Path { leading_colon: false, segments: vec!["assert_eq".to_string()] },
        delimiter: MacroDelimiter::Paren,
        body: MacroBody::CommaList { elems: vec![a, b], trailing_comma: false },
    })
}

fn assert_ne_macro(a: Expr, b: Expr) -> Expr {
    Expr::Macro(MacroCall {
        path: Path { leading_colon: false, segments: vec!["assert_ne".to_string()] },
        delimiter: MacroDelimiter::Paren,
        body: MacroBody::CommaList { elems: vec![a, b], trailing_comma: false },
    })
}

fn expr_item(sig: &str, e: Expr) -> Item {
    Item::Fn {
        signature: sig.to_string(),
        body: Block { stmts: vec![Stmt::Expr { expr: e, semicolon: false }] },
    }
}

fn stmts_item(sig: &str, exprs: Vec<Expr>) -> Item {
    Item::Fn {
        signature: sig.to_string(),
        body: Block {
            stmts: exprs.into_iter().map(|e| Stmt::Expr { expr: e, semicolon: true }).collect(),
        },
    }
}

fn flag(name: &str, value: bool) -> Expr {
    Expr::Assign {
        left: Box::new(ident(name)),
        right: Box::new(lit(LitKind::Bool, if value { "true" } else { "false" })),
    }
}

fn from_template() -> Expr {
    call(path2("T", "from"), vec![ident("literal")])
}

#[test]
fn leaves_string_untouched() {
    let item = expr_item("fn gen_str() -> &'static str", lit(LitKind::Str, "\"test\""));
    let expected = expr_item("fn gen_str() -> &'static str", lit(LitKind::Str, "\"test\""));
    let out = replace_numeric_literals(vec![unit()], &item).unwrap();
    assert_eq!(out, expected);
    assert_eq!("test", "test");
}

#[test]
fn leaves_byte_string_untouched() {
    let item = expr_item("fn gen_byte_str() -> &'static [u8]", lit(LitKind::ByteStr, "b\"test\""));
    let expected = expr_item(
        "fn gen_byte_str() -> &'static [u8]",
        lit(LitKind::ByteStr, "b\"test\""),
    );
    let out = replace_numeric_literals(vec![unit()], &item).unwrap();
    assert_eq!(out, expected);
    assert_eq!(b"test", b"test");
}

#[test]
fn leaves_byte_untouched() {
    let item = expr_item("fn gen_byte() -> u8", lit(LitKind::Byte, "b'a'"));
    let expected = expr_item("fn gen_byte() -> u8", lit(LitKind::Byte, "b'a'"));
    let out = replace_numeric_literals(vec![unit()], &item).unwrap();
    assert_eq!(out, expected);
    assert_eq!(b'a', b'a');
}

#[test]
fn leaves_char_untouched() {
    let item = expr_item("fn gen_char() -> char", lit(LitKind::Char, "'a'"));
    let expected = expr_item("fn gen_char() -> char", lit(LitKind::Char, "'a'"));
    let out = replace_numeric_literals(vec![unit()], &item).unwrap();
    assert_eq!(out, expected);
    assert_eq!('a', 'a');
}

#[test]
fn leaves_raw_untouched() {
    let item = expr_item("fn gen_raw() -> &'static str", lit(LitKind::Str, "r#\"test\"#"));
    let expected = expr_item("fn gen_raw() -> &'static str", lit(LitKind::Str, "r#\"test\"#"));
    let out = replace_numeric_literals(vec![unit()], &item).unwrap();
    assert_eq!(out, expected);
    assert_eq!(r#"test"#, r#"test"#);
}

#[test]
fn leaves_float_alone_when_integers_transformed() {
    let item = expr_item("fn gen() -> ((), f32)", pair(num("3"), num("3.0")));
    let expected = expr_item("fn gen() -> ((), f32)", pair(unit(), num("3.0")));
    let out = replace_int_literals(vec![unit()], &item).unwrap();
    assert_eq!(out, expected);
    assert_eq!(((), 3.0f32), ((), 3.0f32));
}

#[test]
fn leaves_integers_alone_when_floats_transformed() {
    let item = expr_item("fn gen() -> (i32, ())", pair(num("3"), num("3.0")));
    let expected = expr_item("fn gen() -> (i32, ())", pair(num("3"), unit()));
    let out = replace_float_literals(vec![unit()], &item).unwrap();
    assert_eq!(out, expected);
    assert_eq!((3i32, ()), (3i32, ()));
}

#[test]
fn converts_integers_to_f32() {
    let item = expr_item("fn gen_f32() -> f32", num("3"));
    let expected = expr_item("fn gen_f32() -> f32", cast(num("3"), "f32"));
    let out = replace_numeric_literals(vec![cast(ident("literal"), "f32")], &item).unwrap();
    assert_eq!(out, expected);
    assert_eq!(3 as f32, 3.0);
}

#[test]
fn converts_floats_to_i32() {
    let item = expr_item("fn gen_i32() -> i32", num("3.2"));
    let expected = expr_item("fn gen_i32() -> i32", cast(num("3.2"), "i32"));
    let out = replace_numeric_literals(vec![cast(ident("literal"), "i32")], &item).unwrap();
    assert_eq!(out, expected);
    assert_eq!(3.2 as i32, 3);
}

#[test]
fn converts_vec_floats_to_i32() {
    let item_1 = expr_item(
        "fn gen_i32_vec_1() -> Vec<i32>",
        vec_macro(vec![num("3.2"), num("5.7"), num("10.1")], false),
    );
    let expected_1 = expr_item(
        "fn gen_i32_vec_1() -> Vec<i32>",
        vec_macro(
            vec![
                cast(num("3.2"), "i32"),
                cast(num("5.7"), "i32"),
                cast(num("10.1"), "i32"),
            ],
            false,
        ),
    );
    let out_1 = replace_float_literals(vec![cast(ident("literal"), "i32")], &item_1).unwrap();
    assert_eq!(out_1, expected_1);
    assert_eq!(vec![3.2 as i32, 5.7 as i32, 10.1 as i32], vec![3, 5, 10]);

    let item_2 = expr_item("fn gen_i32_vec_2() -> Vec<i32>", vec_repeat(num("2.99"), num("4")));
    let expected_2 = expr_item(
        "fn gen_i32_vec_2() -> Vec<i32>",
        vec_repeat(cast(num("2.99"), "i32"), num("4")),
    );
    let out_2 = replace_float_literals(vec![cast(ident("literal"), "i32")], &item_2).unwrap();
    assert_eq!(out_2, expected_2);
    assert_eq!(vec![2.99 as i32; 4], vec![2, 2, 2, 2]);
}

#[test]
fn converts_vec_integers_to_f64() {
    let item = expr_item(
        "fn gen_f64_vec() -> Vec<f64>",
        vec_macro(
            vec![
                binary("/", num("3"), num("2")),
                binary("/", num("1"), num("2")),
                binary("/", num("9"), num("2")),
            ],
            false,
        ),
    );
    let expected = expr_item(
        "fn gen_f64_vec() -> Vec<f64>",
        vec_macro(
            vec![
                binary("/", cast(num("3"), "f64"), cast(num("2"), "f64")),
                binary("/", cast(num("1"), "f64"), cast(num("2"), "f64")),
                binary("/", cast(num("9"), "f64"), cast(num("2"), "f64")),
            ],
            false,
        ),
    );
    let out = replace_int_literals(vec![cast(ident("literal"), "f64")], &item).unwrap();
    assert_eq!(out, expected);
    assert_eq!(
        vec![3 as f64 / 2 as f64, 1 as f64 / 2 as f64, 9 as f64 / 2 as f64],
        vec![1.5, 0.5, 4.5],
    );
}

#[test]
fn converts_vec_numeric() {
    let item_1 = expr_item(
        "fn gen_i32_vec() -> Vec<i32>",
        vec_macro(vec![num("3.2"), num("5.7"), num("10.1")], false),
    );
    let expected_1 = expr_item(
        "fn gen_i32_vec() -> Vec<i32>",
        vec_macro(
            vec![
                cast(num("3.2"), "i32"),
                cast(num("5.7"), "i32"),
                cast(num("10.1"), "i32"),
            ],
            false,
        ),
    );
    let out_1 = replace_numeric_literals(vec![cast(ident("literal"), "i32")], &item_1).unwrap();
    assert_eq!(out_1, expected_1);
    assert_eq!(vec![3.2 as i32, 5.7 as i32, 10.1 as i32], vec![3, 5, 10]);

    let item_2 = expr_item(
        "fn gen_f64_vec() -> Vec<f64>",
        vec_macro(
            vec![
                binary("/", num("3"), num("2")),
                binary("/", num("1"), num("2")),
                binary("/", num("9"), num("2")),
            ],
            false,
        ),
    );
    let expected_2 = expr_item(
        "fn gen_f64_vec() -> Vec<f64>",
        vec_macro(
            vec![
                binary("/", cast(num("3"), "f64"), cast(num("2"), "f64")),
                binary("/", cast(num("1"), "f64"), cast(num("2"), "f64")),
                binary("/", cast(num("9"), "f64"), cast(num("2"), "f64")),
            ],
            false,
        ),
    );
    let out_2 = replace_numeric_literals(vec![cast(ident("literal"), "f64")], &item_2).unwrap();
    assert_eq!(out_2, expected_2);
    assert_eq!(
        vec![3 as f64 / 2 as f64, 1 as f64 / 2 as f64, 9 as f64 / 2 as f64],
        vec![1.5, 0.5, 4.5],
    );
}

#[test]
fn converts_vec_trailing_comma() {
    let item_1 = expr_item(
        "fn gen_i32_vec() -> Vec<i32>",
        vec_macro(vec![num("3.2"), num("5.7"), num("10.1")], true),
    );
    let expected_1 = expr_item(
        "fn gen_i32_vec() -> Vec<i32>",
        vec_macro(
            vec![
                cast(num("3.2"), "i32"),
                cast(num("5.7"), "i32"),
                cast(num("10.1"), "i32"),
            ],
            true,
        ),
    );
    let out_1 = replace_numeric_literals(vec![cast(ident("literal"), "i32")], &item_1).unwrap();
    assert_eq!(out_1, expected_1);
    assert_eq!(vec![3.2 as i32, 5.7 as i32, 10.1 as i32,], vec![3, 5, 10]);

    let item_2 = expr_item(
        "fn gen_f64_vec() -> Vec<f64>",
        vec_macro(
            vec![
                binary("/", num("3"), num("2")),
                binary("/", num("1"), num("2")),
                binary("/", num("9"), num("2")),
            ],
            true,
        ),
    );
    let expected_2 = expr_item(
        "fn gen_f64_vec() -> Vec<f64>",
        vec_macro(
            vec![
                binary("/", cast(num("3"), "f64"), cast(num("2"), "f64")),
                binary("/", cast(num("1"), "f64"), cast(num("2"), "f64")),
                binary("/", cast(num("9"), "f64"), cast(num("2"), "f64")),
            ],
            true,
        ),
    );
    let out_2 = replace_numeric_literals(vec![cast(ident("literal"), "f64")], &item_2).unwrap();
    assert_eq!(out_2, expected_2);
    assert_eq!(
        vec![3 as f64 / 2 as f64, 1 as f64 / 2 as f64, 9 as f64 / 2 as f64,],
        vec![1.5, 0.5, 4.5],
    );
}

#[test]
fn converts_assert_eq_floats_to_i32() {
    let item = stmts_item(
        "fn assert_eq_test()",
        vec![
            assert_eq_macro(num("1.1"), num("1")),
            assert_eq_macro(num("2.6"), num("2")),
            assert_eq_macro(num("10.99"), num("10")),
        ],
    );
    let expected = stmts_item(
        "fn assert_eq_test()",
        vec![
            assert_eq_macro(cast(num("1.1"), "i32"), num("1")),
            assert_eq_macro(cast(num("2.6"), "i32"), num("2")),
            assert_eq_macro(cast(num("10.99"), "i32"), num("10")),
        ],
    );
    let out = replace_float_literals(vec![cast(ident("literal"), "i32")], &item).unwrap();
    assert_eq!(out, expected);
    assert_eq!(1.1 as i32, 1);
    assert_eq!(2.6 as i32, 2);
    assert_eq!(10.99 as i32, 10);
}

#[test]
fn converts_assert_floats_to_i32() {
    let item = stmts_item(
        "fn assert_test()",
        vec![
            assert_macro(binary("==", num("1.1"), num("1"))),
            assert_macro(binary("==", num("2.6"), num("2"))),
            assert_macro(binary("==", num("10.99"), num("10"))),
        ],
    );
    let expected = stmts_item(
        "fn assert_test()",
        vec![
            assert_macro(binary("==", cast(num("1.1"), "i32"), num("1"))),
            assert_macro(binary("==", cast(num("2.6"), "i32"), num("2"))),
            assert_macro(binary("==", cast(num("10.99"), "i32"), num("10"))),
        ],
    );
    let out = replace_float_literals(vec![cast(ident("literal"), "i32")], &item).unwrap();
    assert_eq!(out, expected);
    assert!(1.1 as i32 == 1);
    assert!(2.6 as i32 == 2);
    assert!(10.99 as i32 == 10);
}

#[test]
fn disable_macro_visiting() {
    let item_1 = stmts_item(
        "fn assert_test()",
        vec![
            assert_macro(binary("!=", num("1.1"), num("1.0"))),
            assert_macro(binary("!=", num("2.6"), num("2.0"))),
            assert_macro(binary("!=", num("10.99"), num("10.0"))),
        ],
    );
    let expected_1 = stmts_item(
        "fn assert_test()",
        vec![
            assert_macro(binary("!=", num("1.1"), num("1.0"))),
            assert_macro(binary("!=", num("2.6"), num("2.0"))),
            assert_macro(binary("!=", num("10.99"), num("10.0"))),
        ],
    );
    let out_1 = replace_float_literals(
        vec![cast(ident("literal"), "i32"), flag("visit_macros", false)],
        &item_1,
    )
    .unwrap();
    assert_eq!(out_1, expected_1);
    assert!(1.1 != 1.0);
    assert!(2.6 != 2.0);
    assert!(10.99 != 10.0);

    let item_2 = expr_item(
        "fn gen_i32_vec() -> Vec<f64>",
        vec_macro(vec![num("3.2"), num("5.7"), num("10.1")], false),
    );
    let expected_2 = expr_item(
        "fn gen_i32_vec() -> Vec<f64>",
        vec_macro(vec![num("3.2"), num("5.7"), num("10.1")], false),
    );
    let out_2 = replace_numeric_literals(
        vec![cast(ident("literal"), "i32"), flag("visit_macros", false)],
        &item_2,
    )
    .unwrap();
    assert_eq!(out_2, expected_2);
    assert_eq!(vec![3.2, 5.7, 10.1], vec![3.2, 5.7, 10.1]);
}

#[test]
fn enable_macro_visiting() {
    let item_1 = stmts_item(
        "fn assert_test()",
        vec![
            assert_macro(binary("==", num("1.1"), num("1"))),
            assert_macro(binary("==", num("2.6"), num("2"))),
            assert_macro(binary("==", num("10.99"), num("10"))),
        ],
    );
    let expected_1 = stmts_item(
        "fn assert_test()",
        vec![
            assert_macro(binary("==", cast(num("1.1"), "i32"), num("1"))),
            assert_macro(binary("==", cast(num("2.6"), "i32"), num("2"))),
            assert_macro(binary("==", cast(num("10.99"), "i32"), num("10"))),
        ],
    );
    let out_1 = replace_float_literals(
        vec![cast(ident("literal"), "i32"), flag("visit_macros", true)],
        &item_1,
    )
    .unwrap();
    assert_eq!(out_1, expected_1);
    assert!(1.1 as i32 == 1);
    assert!(2.6 as i32 == 2);
    assert!(10.99 as i32 == 10);

    let item_2 = expr_item(
        "fn gen_i32_vec() -> Vec<i32>",
        vec_macro(vec![num("3.2"), num("5.7"), num("10.1")], false),
    );
    let expected_2 = expr_item(
        "fn gen_i32_vec() -> Vec<i32>",
        vec_macro(
            vec![
                cast(num("3.2"), "i32"),
                cast(num("5.7"), "i32"),
                cast(num("10.1"), "i32"),
            ],
            false,
        ),
    );
    let out_2 = replace_numeric_literals(
        vec![cast(ident("literal"), "i32"), flag("visit_macros", true)],
        &item_2,
    )
    .unwrap();
    assert_eq!(out_2, expected_2);
    assert_eq!(vec![3.2 as i32, 5.7 as i32, 10.1 as i32], vec![3, 5, 10]);
}

#[test]
fn converts_generic_with_from() {
    let item = expr_item("fn gen<T: From<i8>>() -> T", num("3"));
    let expected = expr_item("fn gen<T: From<i8>>() -> T", call(path2("T", "from"), vec![num("3")]));
    let out = replace_numeric_literals(vec![from_template()], &item).unwrap();
    assert_eq!(out, expected);
    assert_eq!(f32::from(3i8), 3.0);
    assert_eq!(f64::from(3i8), 3.0);
    assert_eq!(i8::from(3i8), 3);
    assert_eq!(i16::from(3i8), 3);
    assert_eq!(i32::from(3i8), 3);
    assert_eq!(i64::from(3i8), 3);
    assert_eq!(i128::from(3i8), 3);
}

#[test]
fn converts_generic_arithmetic_with_from() {
    let item = expr_item("fn gen<T>() -> T", binary("+", num("3"), num("2")));
    let expected = expr_item(
        "fn gen<T>() -> T",
        binary(
            "+",
            call(path2("T", "from"), vec![num("3")]),
            call(path2("T", "from"), vec![num("2")]),
        ),
    );
    let out = replace_numeric_literals(vec![from_template()], &item).unwrap();
    assert_eq!(out, expected);
    assert_eq!(f32::from(3i8) + f32::from(2i8), 5.0);
    assert_eq!(f64::from(3i8) + f64::from(2i8), 5.0);
    assert_eq!(i8::from(3i8) + i8::from(2i8), 5);
    assert_eq!(i16::from(3i8) + i16::from(2i8), 5);
    assert_eq!(i32::from(3i8) + i32::from(2i8), 5);
    assert_eq!(i64::from(3i8) + i64::from(2i8), 5);
    assert_eq!(i128::from(3i8) + i128::from(2i8), 5);
}

fn add_10_f64(value: f64) -> i32 {
    value as i32 + 10
}

fn add_10_5_i32(value: i32) -> f64 {
    value as f64 + 10.5
}

fn wrap_add_10(e: Expr) -> Expr {
    call(ident("add_10_f64"), vec![e])
}

fn wrap_add_10_5(e: Expr) -> Expr {
    call(ident("add_10_5_i32"), vec![e])
}

#[test]
fn converts_suffixed_floats() {
    let template = call(ident("add_10_f64"), vec![ident("literal")]);

    let item_float = stmts_item(
        "fn test_float()",
        vec![
            assert_eq_macro(num("20f64"), num("30")),
            assert_eq_macro(num("21_f64"), num("31")),
            assert_eq_macro(num("22.0f64"), num("32")),
            assert_eq_macro(num("23.0_f64"), num("33")),
        ],
    );
    let expected_float = stmts_item(
        "fn test_float()",
        vec![
            assert_eq_macro(wrap_add_10(num("20f64")), num("30")),
            assert_eq_macro(wrap_add_10(num("21_f64")), num("31")),
            assert_eq_macro(wrap_add_10(num("22.0f64")), num("32")),
            assert_eq_macro(wrap_add_10(num("23.0_f64")), num("33")),
        ],
    );
    let out_float = replace_float_literals(vec![template], &item_float).unwrap();
    assert_eq!(out_float, expected_float);
    assert_eq!(add_10_f64(20f64), 30);
    assert_eq!(add_10_f64(21_f64), 31);
    assert_eq!(add_10_f64(22.0f64), 32);
    assert_eq!(add_10_f64(23.0_f64), 33);

    let template_mixed = call(ident("add_10_f64"), vec![ident("literal")]);
    let item_mixed = stmts_item(
        "fn test_mixed()",
        vec![
            assert_eq_macro(num("20f64"), num("20.0")),
            assert_eq_macro(num("21_f64"), num("21.0")),
            assert_eq_macro(num("22.0f64"), num("22.0")),
            assert_eq_macro(num("23.0_f64"), num("23.0")),
        ],
    );
    let expected_mixed = stmts_item(
        "fn test_mixed()",
        vec![
            assert_eq_macro(wrap_add_10(num("20f64")), wrap_add_10(num("20.0"))),
            assert_eq_macro(wrap_add_10(num("21_f64")), wrap_add_10(num("21.0"))),
            assert_eq_macro(wrap_add_10(num("22.0f64")), wrap_add_10(num("22.0"))),
            assert_eq_macro(wrap_add_10(num("23.0_f64")), wrap_add_10(num("23.0"))),
        ],
    );
    let out_mixed = replace_numeric_literals(vec![template_mixed], &item_mixed).unwrap();
    assert_eq!(out_mixed, expected_mixed);
    assert_eq!(add_10_f64(20f64), add_10_f64(20.0));
    assert_eq!(add_10_f64(21_f64), add_10_f64(21.0));
    assert_eq!(add_10_f64(22.0f64), add_10_f64(22.0));
    assert_eq!(add_10_f64(23.0_f64), add_10_f64(23.0));
}

#[test]
fn converts_suffixed_ints() {
    let item_int = stmts_item(
        "fn test_int()",
        vec![
            assert_eq_macro(num("20i32"), num("30.5")),
            assert_eq_macro(num("21_i32"), num("31.5")),
        ],
    );
    let expected_int = stmts_item(
        "fn test_int()",
        vec![
            assert_eq_macro(wrap_add_10_5(num("20i32")), num("30.5")),
            assert_eq_macro(wrap_add_10_5(num("21_i32")), num("31.5")),
        ],
    );
    let out_int = replace_int_literals(
        vec![call(ident("add_10_5_i32"), vec![ident("literal")])],
        &item_int,
    )
    .unwrap();
    assert_eq!(out_int, expected_int);
    assert_eq!(add_10_5_i32(20i32), 30.5);
    assert_eq!(add_10_5_i32(21_i32), 31.5);

    // Integer-only rewriting must not touch literals with a float suffix.
    let item_float = stmts_item(
        "fn test_float()",
        vec![
            assert_ne_macro(num("20f64"), num("30.5")),
            assert_ne_macro(num("21_f64"), num("31.5")),
        ],
    );
    let expected_float = stmts_item(
        "fn test_float()",
        vec![
            assert_ne_macro(num("20f64"), num("30.5")),
            assert_ne_macro(num("21_f64"), num("31.5")),
        ],
    );
    let out_float = replace_int_literals(
        vec![call(ident("add_10_f64"), vec![ident("literal")])],
        &item_float,
    )
    .unwrap();
    assert_eq!(out_float, expected_float);
    assert_ne!(20f64, 30.5);
    assert_ne!(21_f64, 31.5);

    let item_mixed = stmts_item(
        "fn test_mixed()",
        vec![
            assert_eq_macro(num("20i32"), num("20")),
            assert_eq_macro(num("21_i32"), num("21")),
        ],
    );
    let expected_mixed = stmts_item(
        "fn test_mixed()",
        vec![
            assert_eq_macro(wrap_add_10_5(num("20i32")), wrap_add_10_5(num("20"))),
            assert_eq_macro(wrap_add_10_5(num("21_i32")), wrap_add_10_5(num("21"))),
        ],
    );
    let out_mixed = replace_numeric_literals(
        vec![call(ident("add_10_5_i32"), vec![ident("literal")])],
        &item_mixed,
    )
    .unwrap();
    assert_eq!(out_mixed, expected_mixed);
    assert_eq!(add_10_5_i32(20i32), add_10_5_i32(20));
    assert_eq!(add_10_5_i32(21_i32), add_10_5_i32(21));
}

#[test]
fn divides_generic_from_template() {
    let item = expr_item(
        "fn gen<T: From<i8> + Div>() -> T",
        binary("/", binary("/", num("3"), num("2")), num("2")),
    );
    let expected = expr_item(
        "fn gen<T: From<i8> + Div>() -> T",
        binary(
            "/",
            binary(
                "/",
                call(path2("T", "from"), vec![num("3")]),
                call(path2("T", "from"), vec![num("2")]),
            ),
            call(path2("T", "from"), vec![num("2")]),
        ),
    );
    let out = replace_numeric_literals(vec![from_template()], &item).unwrap();
    assert_eq!(out, expected);
    assert_eq!(f64::from(3i8) / f64::from(2i8) / f64::from(2i8), 0.75);
}

#[test]
fn float_only_cast_keeps_sibling_integer() {
    let item = expr_item("fn gen() -> (i32, i32)", pair(num("3.2"), num("3")));
    let expected = expr_item("fn gen() -> (i32, i32)", pair(cast(num("3.2"), "i32"), num("3")));
    let out = replace_float_literals(vec![cast(ident("literal"), "i32")], &item).unwrap();
    assert_eq!(out, expected);
    assert_eq!(3.2 as i32, 3);
}

#[test]
fn empty_attribute_arguments_fail() {
    let item = expr_item("fn gen() -> i32", num("3"));
    let numeric = replace_numeric_literals(vec![], &item);
    assert_eq!(numeric, Err(AttributeError::MissingReplacement));
    let float = replace_float_literals(vec![], &item);
    assert_eq!(float, Err(AttributeError::MissingReplacement));
    let int = replace_int_literals(vec![], &item);
    assert_eq!(int, Err(AttributeError::MissingReplacement));
    assert_eq!(
        AttributeError::MissingReplacement.message(),
        "No replacement provided".to_string(),
    );
}

#[test]
fn unknown_and_malformed_flags_are_ignored() {
    let item = expr_item("fn gen() -> i32", num("3.5"));
    let expected = expr_item("fn gen() -> i32", cast(num("3.5"), "i32"));
    let out = replace_float_literals(
        vec![
            cast(ident("literal"), "i32"),
            flag("some_future_option", false),
            ident("visit_macros"),
            lit(LitKind::Bool, "true"),
        ],
        &item,
    )
    .unwrap();
    assert_eq!(out, expected);
}

#[test]
fn later_flag_assignment_overrides_earlier() {
    let item = expr_item(
        "fn gen() -> Vec<i32>",
        vec_macro(vec![num("3.2")], false),
    );
    let expected = expr_item(
        "fn gen() -> Vec<i32>",
        vec_macro(vec![cast(num("3.2"), "i32")], false),
    );
    let out = replace_float_literals(
        vec![
            cast(ident("literal"), "i32"),
            flag("visit_macros", false),
            flag("visit_macros", true),
        ],
        &item,
    )
    .unwrap();
    assert_eq!(out, expected);
}

#[test]
fn unrecognized_macro_content_passes_through() {
    let opaque = Expr::Macro(MacroCall {
        path: Path { leading_colon: false, segments: vec!["concat".to_string()] },
        delimiter: MacroDelimiter::Paren,
        body: MacroBody::Unparsed("a => 3.5 ; ; b".to_string()),
    });
    let item = expr_item("fn gen()", opaque);
    let expected = expr_item(
        "fn gen()",
        Expr::Macro(MacroCall {
            path: Path { leading_colon: false, segments: vec!["concat".to_string()] },
            delimiter: MacroDelimiter::Paren,
            body: MacroBody::Unparsed("a => 3.5 ; ; b".to_string()),
        }),
    );
    let out = replace_numeric_literals(vec![cast(ident("literal"), "i32")], &item).unwrap();
    assert_eq!(out, expected);
}

#[test]
fn template_with_two_placeholders_fills_both() {
    let template = binary("+", ident("literal"), ident("literal"));
    let item = expr_item("fn gen() -> i32", num("3"));
    let expected = expr_item("fn gen() -> i32", binary("+", num("3"), num("3")));
    let out = replace_int_literals(vec![template], &item).unwrap();
    assert_eq!(out, expected);
    assert_eq!(3 + 3, 6);
}

#[test]
fn qualified_placeholder_path_matches_by_trailing_segment() {
    let template = call(path2("helpers", "literal"), vec![]);
    let item = expr_item("fn gen() -> i32", num("7"));
    // The trailing segment of `helpers::literal` is the placeholder name,
    // so the whole path reference becomes the literal.
    let expected = expr_item("fn gen() -> i32", call(num("7"), vec![]));
    let out = replace_int_literals(vec![template], &item).unwrap();
    assert_eq!(out, expected);
}

#[test]
fn rewrites_trait_and_impl_members() {
    let tr = Item::Trait {
        header: "trait Golden<T>".to_string(),
        members: vec![
            Member::FnDecl { signature: "fn base() -> T".to_string() },
            Member::Fn {
                signature: "fn golden() -> T".to_string(),
                body: Block {
                    stmts: vec![Stmt::Expr { expr: num("5"), semicolon: false }],
                },
            },
            Member::Const { header: "const K: T".to_string(), value: num("2") },
        ],
    };
    let expected_tr = Item::Trait {
        header: "trait Golden<T>".to_string(),
        members: vec![
            Member::FnDecl { signature: "fn base() -> T".to_string() },
            Member::Fn {
                signature: "fn golden() -> T".to_string(),
                body: Block {
                    stmts: vec![
                        Stmt::Expr {
                            expr: call(path2("T", "from"), vec![num("5")]),
                            semicolon: false,
                        },
                    ],
                },
            },
            Member::Const {
                header: "const K: T".to_string(),
                value: call(path2("T", "from"), vec![num("2")]),
            },
        ],
    };
    let out_tr = replace_int_literals(vec![from_template()], &tr).unwrap();
    assert_eq!(out_tr, expected_tr);

    let im = Item::Impl {
        header: "impl Golden<f64> for Gold".to_string(),
        members: vec![Member::Fn {
            signature: "fn golden() -> f64".to_string(),
            body: Block {
                stmts: vec![Stmt::Expr { expr: num("5"), semicolon: false }],
            },
        }],
    };
    let expected_im = Item::Impl {
        header: "impl Golden<f64> for Gold".to_string(),
        members: vec![Member::Fn {
            signature: "fn golden() -> f64".to_string(),
            body: Block {
                stmts: vec![
                    Stmt::Expr {
                        expr: call(path2("T", "from"), vec![num("5")]),
                        semicolon: false,
                    },
                ],
            },
        }],
    };
    let out_im = replace_int_literals(vec![from_template()], &im).unwrap();
    assert_eq!(out_im, expected_im);
}

#[test]
fn rewrites_let_initializers_and_nested_blocks() {
    let inner = Expr::Block(Block {
        stmts: vec![Stmt::Expr { expr: num("4.5"), semicolon: false }],
    });
    let item = Item::Fn {
        signature: "fn gen() -> i32".to_string(),
        body: Block {
            stmts: vec![
                Stmt::Let {
                    pattern: "x".to_string(),
                    ty: Some("i32".to_string()),
                    init: Some(inner),
                },
                Stmt::Expr { expr: ident("x"), semicolon: false },
            ],
        },
    };
    let expected_inner = Expr::Block(Block {
        stmts: vec![Stmt::Expr { expr: cast(num("4.5"), "i32"), semicolon: false }],
    });
    let expected = Item::Fn {
        signature: "fn gen() -> i32".to_string(),
        body: Block {
            stmts: vec![
                Stmt::Let {
                    pattern: "x".to_string(),
                    ty: Some("i32".to_string()),
                    init: Some(expected_inner),
                },
                Stmt::Expr { expr: ident("x"), semicolon: false },
            ],
        },
    };
    let out = replace_float_literals(vec![cast(ident("literal"), "i32")], &item).unwrap();
    assert_eq!(out, expected);
    assert_eq!({ 4.5 as i32 }, 4);
}

#[test]
fn distinct_templates_select_by_kind() {
    let rewriter = numeric_literals::rewrite::Rewriter {
        parameters: MacroParameters::default(),
        int_template: Some(cast(ident("literal"), "f64")),
        float_template: Some(cast(ident("literal"), "i32")),
    };
    let item = expr_item("fn gen()", pair(num("3"), num("3.0")));
    let expected = expr_item(
        "fn gen()",
        pair(cast(num("3"), "f64"), cast(num("3.0"), "i32")),
    );
    let out = numeric_literals::rewrite::rewrite_item(&rewriter, &item);
    assert_eq!(out, expected);
    assert_eq!(3 as f64, 3.0);
    assert_eq!(3.0 as i32, 3);
}

fn block_of(exprs: Vec<Expr>) -> Block {
    Block {
        stmts: exprs.into_iter().map(|e| Stmt::Expr { expr: e, semicolon: false }).collect(),
    }
}

#[test]
fn rewrites_if_branches() {
    let body = Expr::If {
        cond: Box::new(binary("<", ident("x"), num("0.5"))),
        then_branch: block_of(vec![num("0.0")]),
        else_branch: Some(Box::new(Expr::Block(block_of(vec![num("1.0")])))),
    };
    let item = expr_item("fn f(x: f64) -> f64", body);
    let expected_body = Expr::If {
        cond: Box::new(binary("<", ident("x"), cast(num("0.5"), "f64"))),
        then_branch: block_of(vec![cast(num("0.0"), "f64")]),
        else_branch: Some(Box::new(Expr::Block(block_of(vec![cast(num("1.0"), "f64")])))),
    };
    let expected = expr_item("fn f(x: f64) -> f64", expected_body);
    let out = replace_float_literals(vec![cast(ident("literal"), "f64")], &item).unwrap();
    assert_eq!(out, expected);
    let x: f64 = 0.3;
    let picked = if x < (0.5 as f64) { 0.0 as f64 } else { 1.0 as f64 };
    assert_eq!(picked, 0.0);
}

#[test]
fn rewrites_match_arms_and_guards() {
    let body = Expr::Match {
        scrutinee: Box::new(ident("x")),
        arms: vec![
            MatchArm { pattern: "1".to_string(), guard: None, body: num("1") },
            MatchArm {
                pattern: "_".to_string(),
                guard: Some(binary(">", ident("y"), num("2"))),
                body: num("5"),
            },
            MatchArm { pattern: "_".to_string(), guard: None, body: num("0") },
        ],
    };
    let item = expr_item("fn f(x: i64, y: i64) -> f64", body);
    let expected_body = Expr::Match {
        scrutinee: Box::new(ident("x")),
        arms: vec![
            MatchArm { pattern: "1".to_string(), guard: None, body: cast(num("1"), "f64") },
            MatchArm {
                pattern: "_".to_string(),
                guard: Some(binary(">", ident("y"), cast(num("2"), "f64"))),
                body: cast(num("5"), "f64"),
            },
            MatchArm { pattern: "_".to_string(), guard: None, body: cast(num("0"), "f64") },
        ],
    };
    let expected = expr_item("fn f(x: i64, y: i64) -> f64", expected_body);
    let out = replace_int_literals(vec![cast(ident("literal"), "f64")], &item).unwrap();
    assert_eq!(out, expected);
    assert_eq!(1 as f64, 1.0);
    assert_eq!(5 as f64, 5.0);
}

#[test]
fn rewrites_loop_bodies() {
    let body = vec![
        Expr::While {
            cond: Box::new(binary("<", ident("i"), num("10"))),
            body: block_of(vec![num("1")]),
        },
        Expr::ForLoop {
            pattern: "k".to_string(),
            iterator: Box::new(ident("items")),
            body: block_of(vec![num("2")]),
        },
        Expr::Loop { body: block_of(vec![num("3")]) },
    ];
    let item = stmts_item("fn f()", body);
    let expected = stmts_item(
        "fn f()",
        vec![
            Expr::While {
                cond: Box::new(binary("<", ident("i"), cast(num("10"), "u64"))),
                body: block_of(vec![cast(num("1"), "u64")]),
            },
            Expr::ForLoop {
                pattern: "k".to_string(),
                iterator: Box::new(ident("items")),
                body: block_of(vec![cast(num("2"), "u64")]),
            },
            Expr::Loop { body: block_of(vec![cast(num("3"), "u64")]) },
        ],
    );
    let out = replace_int_literals(vec![cast(ident("literal"), "u64")], &item).unwrap();
    assert_eq!(out, expected);
    assert_eq!(10 as u64, 10u64);
}

#[test]
fn rewrites_struct_literal_fields() {
    let body = Expr::Struct {
        path: Path { leading_colon: false, segments: vec!["Sample".to_string()] },
        fields: vec![
            FieldValue { member: "scale".to_string(), value: num("3.5") },
            FieldValue { member: "count".to_string(), value: num("2") },
        ],
        rest: Some(Box::new(ident("base"))),
    };
    let item = expr_item("fn f(base: Sample) -> Sample", body);
    let expected_body = Expr::Struct {
        path: Path { leading_colon: false, segments: vec!["Sample".to_string()] },
        fields: vec![
            FieldValue { member: "scale".to_string(), value: cast(num("3.5"), "f64") },
            FieldValue { member: "count".to_string(), value: cast(num("2"), "f64") },
        ],
        rest: Some(Box::new(ident("base"))),
    };
    let expected = expr_item("fn f(base: Sample) -> Sample", expected_body);
    let out = replace_numeric_literals(vec![cast(ident("literal"), "f64")], &item).unwrap();
    assert_eq!(out, expected);
    assert_eq!(3.5 as f64, 3.5);
}

#[test]
fn rewrites_range_bounds() {
    let body = vec![
        Expr::Range {
            start: Some(Box::new(num("1"))),
            limits: "..".to_string(),
            end: Some(Box::new(num("10"))),
        },
        Expr::Range { start: None, limits: "..=".to_string(), end: Some(Box::new(num("5"))) },
    ];
    let item = stmts_item("fn f()", body);
    let expected = stmts_item(
        "fn f()",
        vec![
            Expr::Range {
                start: Some(Box::new(cast(num("1"), "usize"))),
                limits: "..".to_string(),
                end: Some(Box::new(cast(num("10"), "usize"))),
            },
            Expr::Range {
                start: None,
                limits: "..=".to_string(),
                end: Some(Box::new(cast(num("5"), "usize"))),
            },
        ],
    );
    let out = replace_int_literals(vec![cast(ident("literal"), "usize")], &item).unwrap();
    assert_eq!(out, expected);
    let r: Vec<usize> = ((1 as usize)..(10 as usize)).collect();
    assert_eq!(r.len(), 9);
}

#[test]
fn rewrites_nested_function_items() {
    let inner = Item::Fn {
        signature: "fn half() -> f64".to_string(),
        body: block_of(vec![num("0.5")]),
    };
    let item = Item::Fn {
        signature: "fn f() -> f64".to_string(),
        body: Block {
            stmts: vec![
                Stmt::Item(Box::new(inner)),
                Stmt::Expr { expr: call(ident("half"), vec![]), semicolon: false },
            ],
        },
    };
    let expected_inner = Item::Fn {
        signature: "fn half() -> f64".to_string(),
        body: block_of(vec![cast(num("0.5"), "f64")]),
    };
    let expected = Item::Fn {
        signature: "fn f() -> f64".to_string(),
        body: Block {
            stmts: vec![
                Stmt::Item(Box::new(expected_inner)),
                Stmt::Expr { expr: call(ident("half"), vec![]), semicolon: false },
            ],
        },
    };
    let out = replace_float_literals(vec![cast(ident("literal"), "f64")], &item).unwrap();
    assert_eq!(out, expected);
    assert_eq!(0.5 as f64, 0.5);
}

#[test]
fn rewrites_inside_move_closures_and_turbofish_calls() {
    let body = vec![
        Expr::Closure {
            capture: true,
            params: "a".to_string(),
            body: Box::new(binary("*", ident("a"), num("2.5"))),
        },
        Expr::MethodCall {
            receiver: Box::new(ident("xs")),
            method: "fold".to_string(),
            turbofish: Some("::<f64>".to_string()),
            args: vec![num("0.0"), ident("add")],
        },
    ];
    let item = stmts_item("fn f(xs: Xs)", body);
    let expected = stmts_item(
        "fn f(xs: Xs)",
        vec![
            Expr::Closure {
                capture: true,
                params: "a".to_string(),
                body: Box::new(binary("*", ident("a"), cast(num("2.5"), "f64"))),
            },
            Expr::MethodCall {
                receiver: Box::new(ident("xs")),
                method: "fold".to_string(),
                turbofish: Some("::<f64>".to_string()),
                args: vec![cast(num("0.0"), "f64"), ident("add")],
            },
        ],
    );
    let out = replace_float_literals(vec![cast(ident("literal"), "f64")], &item).unwrap();
    assert_eq!(out, expected);
    let double = move |a: f64| a * (2.5 as f64);
    assert_eq!(double(2.0), 5.0);
}
