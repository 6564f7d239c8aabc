use qsc_toolchain::lowered::{Intrinsic, LoweredExpression};

fn a() -> LoweredExpression {
    LoweredExpression::name("a")
}

#[test]
fn intrinsic_names() {
    assert_eq!(Intrinsic::Truncate.name_text(), "Std.Math.Truncate");
    assert_eq!(Intrinsic::DoubleAsAngle.name_text(), "Std.OpenQASM.Angle.DoubleAsAngle");
    assert_eq!(Intrinsic::Complex.name_text(), "Std.Math.Complex");
    assert_eq!(Intrinsic::DoubleAsResult.name_text(), "Std.OpenQASM.Convert.DoubleAsResult");
}

#[test]
fn builders_make_the_nodes_they_name() {
    assert_eq!(a(), LoweredExpression::Name("a".to_string()));
    assert_eq!(
        LoweredExpression::call1(Intrinsic::Truncate, a()),
        LoweredExpression::Call(Intrinsic::Truncate, vec![a()])
    );
    assert_eq!(
        LoweredExpression::call2(Intrinsic::Complex, a(), LoweredExpression::Int(3)),
        LoweredExpression::Call(Intrinsic::Complex, vec![a(), LoweredExpression::Int(3)])
    );
}

#[test]
fn render_of_leaves() {
    assert_eq!(a().render(), "a");
    assert_eq!(LoweredExpression::Int(0).render(), "0");
    assert_eq!(LoweredExpression::Int(53).render(), "53");
    assert_eq!(LoweredExpression::Int(-12).render(), "-12");
    assert_eq!(LoweredExpression::Double("0.".to_string()).render(), "0.");
    assert_eq!(LoweredExpression::Double("2.5".to_string()).render(), "2.5");
    assert_eq!(LoweredExpression::Bool(true).render(), "true");
    assert_eq!(LoweredExpression::Bool(false).render(), "false");
}

#[test]
fn render_of_calls_separates_arguments() {
    assert_eq!(LoweredExpression::Call(Intrinsic::Truncate, vec![]).render(), "Std.Math.Truncate()");
    assert_eq!(
        LoweredExpression::call1(Intrinsic::DoubleAsResult, a()).render(),
        "Std.OpenQASM.Convert.DoubleAsResult(a)"
    );
    assert_eq!(
        LoweredExpression::call2(Intrinsic::DoubleAsAngle, a(), LoweredExpression::Int(16)).render(),
        "Std.OpenQASM.Angle.DoubleAsAngle(a, 16)"
    );
    assert_eq!(
        LoweredExpression::Call(
            Intrinsic::Complex,
            vec![a(), LoweredExpression::Int(1), LoweredExpression::Bool(true)]
        )
        .render(),
        "Std.Math.Complex(a, 1, true)"
    );
}

#[test]
fn render_of_nested_calls() {
    let inner = LoweredExpression::call1(Intrinsic::Truncate, a());
    let outer = LoweredExpression::call2(Intrinsic::DoubleAsAngle, inner, LoweredExpression::Int(8));
    assert_eq!(outer.render(), "Std.OpenQASM.Angle.DoubleAsAngle(Std.Math.Truncate(a), 8)");
}

#[test]
fn render_of_an_equality_test() {
    let e = LoweredExpression::Equals(Box::new(a()), Box::new(LoweredExpression::Int(0)));
    assert_eq!(e.render(), "a == 0");
}

#[test]
fn render_of_a_conditional_puts_each_branch_on_its_own_line() {
    let e = LoweredExpression::IfElse(
        Box::new(LoweredExpression::Bool(true)),
        Box::new(LoweredExpression::Int(1)),
        Box::new(LoweredExpression::Int(2)),
    );
    assert_eq!(e.render(), "if true {\n    1\n} else {\n    2\n}");
}

#[test]
fn render_of_a_nested_conditional_indents_one_level_deeper() {
    let inner = LoweredExpression::IfElse(
        Box::new(a()),
        Box::new(LoweredExpression::Int(1)),
        Box::new(LoweredExpression::Int(2)),
    );
    let outer = LoweredExpression::IfElse(
        Box::new(LoweredExpression::Bool(false)),
        Box::new(inner),
        Box::new(LoweredExpression::Int(3)),
    );
    assert_eq!(
        outer.render(),
        "if false {\n    if a {\n        1\n    } else {\n        2\n    }\n} else {\n    3\n}"
    );
}

#[test]
fn render_into_appends_at_the_given_indentation() {
    let e = LoweredExpression::IfElse(
        Box::new(a()),
        Box::new(LoweredExpression::Int(1)),
        Box::new(LoweredExpression::Int(2)),
    );
    let mut out = "  let x = ".to_string();
    e.render_into("  ", &mut out);
    assert_eq!(out, "  let x = if a {\n      1\n  } else {\n      2\n  }");
}

#[test]
fn clone_copies_every_node() {
    let e = LoweredExpression::IfElse(
        Box::new(LoweredExpression::Equals(
            Box::new(LoweredExpression::call2(
                Intrinsic::DoubleAsAngle,
                a(),
                LoweredExpression::Int(-7),
            )),
            Box::new(LoweredExpression::Double("1.5".to_string())),
        )),
        Box::new(LoweredExpression::Bool(true)),
        Box::new(LoweredExpression::Call(Intrinsic::Truncate, vec![])),
    );
    assert_eq!(e.clone(), e);
    assert_eq!(e.clone().render(), e.render());
}
