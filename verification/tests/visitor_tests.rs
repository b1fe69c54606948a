use remake_ast::Expr;
use remake_ast::ExprKind;
use remake_ast::Span;
use remake_ast::Statement;
use remake_ast::StatementKind;
use remake_ast::UOp;
use remake_ast::Visitor;
use remake_ast::visit_expr;
use remake_ast::visit_stmt;
use remake_ast::BOp;

fn sp(n: usize) -> Span {
    Span { start: n, end: n + 1 }
}

fn var(name: &str, n: usize) -> Expr {
    Expr::new(ExprKind::Var(name.to_string()), sp(n))
}

fn lit(x: i64, n: usize) -> Expr {
    Expr::new(ExprKind::IntLiteral(x), sp(n))
}

/// Describes a node by its variant and, where it has one, its name or value.
fn expr_tag(e: &Expr) -> String {
    match &e.kind {
        ExprKind::BinOp(_, _, _) => "binop".to_string(),
        ExprKind::UnaryOp(_, _) => "unaryop".to_string(),
        ExprKind::Capture(_, _) => "capture".to_string(),
        ExprKind::Block(_, _) => "block".to_string(),
        ExprKind::Var(name) => format!("var:{}", name),
        ExprKind::RegexLiteral(_) => "regex".to_string(),
        ExprKind::IntLiteral(x) => format!("int:{}", x),
        ExprKind::Lambda { .. } => "lambda".to_string(),
        ExprKind::Apply { .. } => "apply".to_string(),
        ExprKind::ExprPoison => "poison".to_string(),
    }
}

fn stmt_tag(s: &Statement) -> String {
    match &s.kind {
        StatementKind::LetBinding(name, _) => format!("let:{}", name),
        StatementKind::Assign(_, _) => "assign".to_string(),
        StatementKind::Expr(_) => "stmtexpr".to_string(),
        StatementKind::Block(_) => "stmtblock".to_string(),
    }
}

struct LogVisitor {
    started: bool,
    log: Vec<String>,
}

impl Visitor for LogVisitor {
    type Output = Vec<String>;
    type Err = String;

    fn finish(self) -> Result<Vec<String>, String> {
        assert!(self.started);
        Ok(self.log)
    }

    fn start(&mut self) {
        self.started = true;
    }

    fn visit_expr_pre(&mut self, expr: &Expr) -> Result<(), String> {
        self.log.push(format!("pre {}", expr_tag(expr)));
        Ok(())
    }

    fn visit_expr_post(&mut self, expr: &Expr) -> Result<(), String> {
        self.log.push(format!("post {}", expr_tag(expr)));
        Ok(())
    }

    fn visit_stmt_pre(&mut self, stmt: &Statement) -> Result<(), String> {
        self.log.push(format!("pre {}", stmt_tag(stmt)));
        Ok(())
    }

    fn visit_stmt_post(&mut self, stmt: &Statement) -> Result<(), String> {
        self.log.push(format!("post {}", stmt_tag(stmt)));
        Ok(())
    }
}

#[test]
fn traversal_order_binop() {
    let tree = Expr::new(
        ExprKind::BinOp(Box::new(lit(1, 0)), BOp::Plus, Box::new(lit(2, 2))),
        sp(4),
    );
    let v = LogVisitor { started: false, log: vec![] };
    let log = visit_expr(v, &tree).unwrap();
    assert_eq!(
        log,
        vec!["pre binop", "pre int:1", "post int:1", "pre int:2", "post int:2", "post binop"]
    );
}

#[test]
fn traversal_order_block_apply_lambda() {
    // block { let a = 1; b = 2; } result: apply(f, [x, lambda(|p| y)])
    let lambda = std::rc::Rc::new(remake_ast::Lambda {
        args: vec!["p".to_string()],
        body: Box::new(var("y", 9)),
    });
    let lam = Expr::new(ExprKind::lambda(lambda), sp(8));
    let apply = Expr::new(
        ExprKind::Apply {
            func: Box::new(var("f", 6)),
            args: vec![Box::new(var("x", 7)), Box::new(lam)],
        },
        sp(5),
    );
    let stmts = vec![
        Statement::new(
            StatementKind::LetBinding("a".to_string(), Box::new(lit(1, 1))),
            sp(0),
        ),
        Statement::new(
            StatementKind::Assign(Box::new(var("b", 2)), Box::new(lit(2, 3))),
            sp(2),
        ),
    ];
    let tree = Expr::new(ExprKind::Block(stmts, Box::new(apply)), sp(0));
    let v = LogVisitor { started: false, log: vec![] };
    let log = visit_expr(v, &tree).unwrap();
    assert_eq!(
        log,
        vec![
            "pre block",
            "pre let:a",
            "pre int:1",
            "post int:1",
            "post let:a",
            "pre assign",
            "pre var:b",
            "post var:b",
            "pre int:2",
            "post int:2",
            "post assign",
            "pre apply",
            "pre var:f",
            "post var:f",
            "pre var:x",
            "post var:x",
            "pre lambda",
            "pre var:y",
            "post var:y",
            "post lambda",
            "post apply",
            "post block",
        ]
    );
}

#[test]
fn traversal_order_capture_unary() {
    let inner = Expr::new(
        ExprKind::UnaryOp(UOp::Neg, Box::new(var("x", 1))),
        sp(0),
    );
    let tree = Expr::new(ExprKind::Capture(Box::new(inner), Some("g".to_string())), sp(0));
    let v = LogVisitor { started: false, log: vec![] };
    let log = visit_expr(v, &tree).unwrap();
    assert_eq!(
        log,
        vec!["pre capture", "pre unaryop", "pre var:x", "post var:x", "post unaryop", "post capture"]
    );
}

#[test]
fn traversal_order_stmt_entry() {
    let stmt = Statement::new(
        StatementKind::LetBinding("n".to_string(), Box::new(lit(5, 1))),
        sp(0),
    );
    let v = LogVisitor { started: false, log: vec![] };
    let log = visit_stmt(v, &stmt).unwrap();
    assert_eq!(log, vec!["pre let:n", "pre int:5", "post int:5", "post let:n"]);
}

struct CountVisitor {
    visited: usize,
}

impl Visitor for CountVisitor {
    type Output = usize;
    type Err = String;

    fn finish(self) -> Result<usize, String> {
        Ok(self.visited)
    }

    fn visit_expr_pre(&mut self, _expr: &Expr) -> Result<(), String> {
        self.visited += 1;
        Ok(())
    }

    fn visit_expr_post(&mut self, _expr: &Expr) -> Result<(), String> {
        self.visited += 1;
        Ok(())
    }
}

#[test]
fn depth_safety_deep_unary_chain() {
    let depth = 100_000usize;
    let mut e = lit(0, 0);
    for _ in 0..depth {
        e = Expr::new(ExprKind::UnaryOp(UOp::RepeatZeroOrMore(true), Box::new(e)), sp(0));
    }
    let v = CountVisitor { visited: 0 };
    let visited = visit_expr(v, &e).unwrap();
    assert_eq!(visited, 2 * (depth + 1));
    // Dismantle the chain iteratively so that dropping it does not recurse
    // through the native call stack either.
    let mut cur = e;
    loop {
        match cur.kind {
            ExprKind::UnaryOp(_, inner) => cur = *inner,
            _ => break,
        }
    }
}

struct FailingVisitor {
    visited: usize,
    fail_at: usize,
    finished: std::rc::Rc<std::cell::Cell<bool>>,
}

impl Visitor for FailingVisitor {
    type Output = usize;
    type Err = String;

    fn finish(self) -> Result<usize, String> {
        self.finished.set(true);
        Ok(self.visited)
    }

    fn visit_expr_pre(&mut self, expr: &Expr) -> Result<(), String> {
        self.visited += 1;
        if self.visited == self.fail_at {
            return Err(format!("stopped at {}", expr_tag(expr)));
        }
        Ok(())
    }

    fn visit_expr_post(&mut self, _expr: &Expr) -> Result<(), String> {
        self.visited += 1;
        Ok(())
    }
}

#[test]
fn visitor_abort_on_second_node() {
    // (+ x (+ y z)): pre-order is binop, var:x, var:y...; the second node
    // visited pre-order is var:x.
    let inner = Expr::new(
        ExprKind::BinOp(Box::new(var("y", 2)), BOp::Plus, Box::new(var("z", 3))),
        sp(1),
    );
    let tree = Expr::new(
        ExprKind::BinOp(Box::new(var("x", 0)), BOp::Plus, Box::new(inner)),
        sp(0),
    );
    let finished = std::rc::Rc::new(std::cell::Cell::new(false));
    let v = FailingVisitor { visited: 0, fail_at: 2, finished: finished.clone() };
    let r = visit_expr(v, &tree);
    assert_eq!(r, Err("stopped at var:x".to_string()));
    assert!(!finished.get());
}

#[test]
fn visitor_error_from_finish_after_full_traversal() {
    struct SadFinish {
        visited: usize,
    }
    impl Visitor for SadFinish {
        type Output = usize;
        type Err = String;

        fn finish(self) -> Result<usize, String> {
            Err(format!("saw {}", self.visited))
        }

        fn visit_expr_pre(&mut self, _expr: &Expr) -> Result<(), String> {
            self.visited += 1;
            Ok(())
        }
    }
    let tree = var("x", 0);
    let r = visit_expr(SadFinish { visited: 0 }, &tree);
    assert_eq!(r, Err("saw 1".to_string()));
}

#[test]
fn traversal_order_dormant_statement_block() {
    // The statement-level block is currently never produced by this layer,
    // but it is structurally legal and traverses its statements in source
    // order.
    let inner = vec![
        Statement::new(StatementKind::Expr(Box::new(var("a", 1))), sp(1)),
        Statement::new(StatementKind::Expr(Box::new(var("b", 2))), sp(2)),
    ];
    let block = Statement::new(StatementKind::Block(inner), sp(0));
    let v = LogVisitor { started: false, log: vec![] };
    let log = visit_stmt(v, &block).unwrap();
    assert_eq!(
        log,
        vec![
            "pre stmtblock",
            "pre stmtexpr",
            "pre var:a",
            "post var:a",
            "post stmtexpr",
            "pre stmtexpr",
            "pre var:b",
            "post var:b",
            "post stmtexpr",
            "post stmtblock",
        ]
    );
}
