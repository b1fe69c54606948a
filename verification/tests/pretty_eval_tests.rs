use remake_ast::BOp;
use remake_ast::ErrorKind;
use remake_ast::Expr;
use remake_ast::ExprKind;
use remake_ast::InternalError;
use remake_ast::Lambda;
use remake_ast::RepRange;
use remake_ast::Span;
use remake_ast::Statement;
use remake_ast::StatementKind;
use remake_ast::UOp;
use remake_ast::Value;

fn sp(n: usize) -> Span {
    Span { start: n, end: n + 1 }
}

fn var(name: &str) -> Expr {
    Expr::new(ExprKind::Var(name.to_string()), sp(0))
}

fn lit(x: i64) -> Expr {
    Expr::new(ExprKind::IntLiteral(x), sp(0))
}

fn binop(l: Expr, op: BOp, r: Expr) -> Expr {
    Expr::new(ExprKind::BinOp(Box::new(l), op, Box::new(r)), sp(0))
}

fn unary(op: UOp, e: Expr) -> Expr {
    Expr::new(ExprKind::UnaryOp(op, Box::new(e)), sp(0))
}

fn empty_regex() -> Box<regex_syntax::ast::Ast> {
    let pos = regex_syntax::ast::Position::new(0, 1, 1);
    Box::new(regex_syntax::ast::Ast::empty(regex_syntax::ast::Span::splat(pos)))
}

#[test]
fn pretty_binop_plus() {
    assert_eq!(binop(lit(1), BOp::Plus, lit(2)).to_pretty(80), "(+ 1 2)");
}

#[test]
fn pretty_unary_neg() {
    assert_eq!(unary(UOp::Neg, var("x")).to_pretty(80), "(! x)");
}

#[test]
fn pretty_let_binding() {
    let stmt = Statement::new(
        StatementKind::LetBinding("y".to_string(), Box::new(lit(5))),
        sp(0),
    );
    assert_eq!(stmt.to_pretty(80), "(let y 5)");
}

#[test]
fn pretty_operator_keywords() {
    assert_eq!(binop(var("a"), BOp::Concat, var("b")).to_pretty(80), "(concat a b)");
    assert_eq!(binop(var("a"), BOp::Alt, var("b")).to_pretty(80), "(alt a b)");
    assert_eq!(binop(lit(1), BOp::Minus, lit(2)).to_pretty(80), "(- 1 2)");
    assert_eq!(binop(lit(1), BOp::Div, lit(2)).to_pretty(80), "(/ 1 2)");
    assert_eq!(binop(lit(1), BOp::Times, lit(2)).to_pretty(80), "(* 1 2)");
    assert_eq!(binop(lit(1), BOp::Mod, lit(2)).to_pretty(80), "(% 1 2)");
}

#[test]
fn pretty_negative_int() {
    assert_eq!(lit(-7).to_pretty(80), "-7");
    assert_eq!(lit(42).to_pretty(80), "42");
    assert_eq!(lit(0).to_pretty(80), "0");
    assert_eq!(lit(i64::MIN).to_pretty(80), "-9223372036854775808");
    assert_eq!(lit(i64::MAX).to_pretty(80), "9223372036854775807");
}

#[test]
fn pretty_greedy_flag() {
    assert_eq!(
        unary(UOp::RepeatZeroOrMore(true), var("e")).to_pretty(80),
        "(repeat* e)"
    );
    assert_eq!(
        unary(UOp::RepeatZeroOrMore(false), var("e")).to_pretty(80),
        "(repeat*? e)"
    );
    assert_eq!(
        unary(UOp::RepeatOneOrMore(true), var("e")).to_pretty(80),
        "(repeat+ e)"
    );
    assert_eq!(
        unary(UOp::RepeatOneOrMore(false), var("e")).to_pretty(80),
        "(repeat+? e)"
    );
    assert_eq!(
        unary(UOp::RepeatZeroOrOne(true), var("e")).to_pretty(80),
        "(repeat? e)"
    );
    assert_eq!(
        unary(UOp::RepeatZeroOrOne(false), var("e")).to_pretty(80),
        "(repeat?? e)"
    );
}

#[test]
fn pretty_repeat_range() {
    assert_eq!(
        unary(UOp::RepeatRange(true, RepRange::Exactly(5)), var("x")).to_pretty(80),
        "((repeat 5) x)"
    );
    assert_eq!(
        unary(UOp::RepeatRange(false, RepRange::Exactly(5)), var("x")).to_pretty(80),
        "((repeat? 5) x)"
    );
    assert_eq!(
        unary(UOp::RepeatRange(true, RepRange::AtLeast(3)), var("x")).to_pretty(80),
        "((repeat atleast 3) x)"
    );
}

#[test]
fn pretty_undefined_kinds_keep_placeholder() {
    let poison = Expr::new(ExprKind::ExprPoison, sp(0));
    assert_eq!(poison.to_pretty(80), "UNIMPLEMENTED");
    let capture = Expr::new(
        ExprKind::Capture(Box::new(var("x")), Some("g".to_string())),
        sp(0),
    );
    assert_eq!(capture.to_pretty(80), "UNIMPLEMENTED");
    let assign = Statement::new(
        StatementKind::Assign(Box::new(var("x")), Box::new(lit(1))),
        sp(0),
    );
    assert_eq!(assign.to_pretty(80), "UNIMPLEMENTED");
}

#[test]
fn pretty_breaks_at_spaces_when_narrow() {
    assert_eq!(binop(lit(1), BOp::Plus, lit(2)).to_pretty(2), "(+\n1\n2)");
}

#[test]
fn pretty_on_kinds_directly() {
    assert_eq!(ExprKind::IntLiteral(3).to_pretty(80), "3");
    assert_eq!(
        StatementKind::LetBinding("z".to_string(), Box::new(lit(1))).to_pretty(80),
        "(let z 1)"
    );
}

#[test]
fn free_vars_of_lambda() {
    // |x| (+ x (* y z)) ; free variables are y and z, not the parameter x.
    let body = binop(
        var("x"),
        BOp::Plus,
        binop(var("y"), BOp::Times, var("z")),
    );
    let lambda = Lambda { args: vec!["x".to_string()], body: Box::new(body) };
    let mut fv = lambda.free_vars();
    fv.sort();
    assert_eq!(fv, vec!["y".to_string(), "z".to_string()]);
}

#[test]
fn free_vars_deduplicated_and_stable() {
    // |a| (+ b (+ b a)) ; b occurs twice but is listed once, and the
    // computation is a pure function of the template: two runs agree.
    let body = binop(var("b"), BOp::Plus, binop(var("b"), BOp::Plus, var("a")));
    let lambda = Lambda { args: vec!["a".to_string()], body: Box::new(body) };
    let first = lambda.free_vars();
    let second = lambda.free_vars();
    assert_eq!(first, vec!["b".to_string()]);
    assert_eq!(first, second);
}

#[test]
fn free_vars_at_construction() {
    let template = std::rc::Rc::new(Lambda {
        args: vec!["p".to_string()],
        body: Box::new(binop(var("p"), BOp::Plus, var("q"))),
    });
    match ExprKind::lambda(template) {
        ExprKind::Lambda { expr, free_vars } => {
            assert_eq!(free_vars, vec!["q".to_string()]);
            assert_eq!(expr.args, vec!["p".to_string()]);
        },
        _ => panic!("expected a lambda kind"),
    }
}

#[test]
fn eval_passes_regex_through() {
    let e = lit(1);
    let r = e.eval(Ok(Value::Regex(empty_regex())));
    assert!(r.is_ok());
}

#[test]
fn eval_rejects_non_regex_value() {
    let e = Expr::new(ExprKind::IntLiteral(3), Span { start: 4, end: 9 });
    let r = e.eval(Ok(Value::Int(3)));
    match r {
        Err(err) => {
            assert_eq!(err.span, Span { start: 4, end: 9 });
            let ErrorKind::FinalValueNotRegex { actual } = err.kind;
            assert_eq!(actual, "int");
        },
        Ok(_) => panic!("an integer result must not evaluate to a regex"),
    }
}

#[test]
fn eval_names_each_value_kind() {
    let e = lit(0);
    for (value, name) in [
        (Value::Int(1), "int"),
        (Value::Str("s".to_string()), "str"),
        (Value::Bool(true), "bool"),
    ] {
        match e.eval(Ok(value)) {
            Err(err) => {
                let ErrorKind::FinalValueNotRegex { actual } = err.kind;
                assert_eq!(actual, name);
            },
            Ok(_) => panic!("only a regex value may evaluate to a regex"),
        }
    }
}

#[test]
fn eval_passes_evaluator_error_through() {
    let e = lit(0);
    let upstream = InternalError::new(
        ErrorKind::FinalValueNotRegex { actual: "closure".to_string() },
        Span { start: 2, end: 3 },
    );
    match e.eval(Err(upstream)) {
        Err(err) => {
            assert_eq!(err.span, Span { start: 2, end: 3 });
            let ErrorKind::FinalValueNotRegex { actual } = err.kind;
            assert_eq!(actual, "closure");
        },
        Ok(_) => panic!("an evaluator error must pass through"),
    }
}

#[test]
fn value_type_of_names() {
    assert_eq!(Value::Regex(empty_regex()).type_of(), "regex");
    assert_eq!(Value::Int(0).type_of(), "int");
    assert_eq!(Value::Str(String::new()).type_of(), "str");
    assert_eq!(Value::Bool(false).type_of(), "bool");
}

#[test]
fn constructors_keep_kind_and_span() {
    let e = Expr::new(ExprKind::IntLiteral(9), Span { start: 1, end: 2 });
    assert_eq!(e.span, Span { start: 1, end: 2 });
    assert!(matches!(e.kind, ExprKind::IntLiteral(9)));
    let s = Statement::new(StatementKind::Expr(Box::new(lit(1))), Span { start: 3, end: 4 });
    assert_eq!(s.span, Span { start: 3, end: 4 });
    assert!(matches!(s.kind, StatementKind::Expr(_)));
}
