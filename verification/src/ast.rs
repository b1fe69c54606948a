use vstd::prelude::*;

verus! {

/// A half-open byte-offset range `[start, end)` into the original source
/// text, attached to every tree node for diagnostics.
#[derive(Debug, Clone, Copy, PartialEq, Eq, Structural)]
pub struct Span {
    pub start: usize,
    pub end: usize,
}

/// Declares `regex_syntax`'s syntax-tree type so that a literal regex
/// fragment can be carried through an expression tree. The tree layer never
/// looks inside such a value; it only stores it and hands it back.
#[verifier::external_type_specification]
#[verifier::external_body]
pub struct ExAst(regex_syntax::ast::Ast);

/// Binary operators: regex composition and arithmetic share one type; the
/// evaluator, not this layer, rejects nonsensical combinations.
#[derive(Debug, Clone, Copy, PartialEq, Eq, Structural)]
pub enum BOp {
    Concat,
    Alt,
    Plus,
    Minus,
    Div,
    Times,
    Mod,
}

/// The bound carried by a range repetition: exactly `n`, at least `n`, or a
/// bounded range from `min` to `max`.
#[derive(Debug, Clone, Copy, PartialEq, Eq, Structural)]
pub enum RepRange {
    Exactly(u32),
    AtLeast(u32),
    Bounded(u32, u32),
}

/// Unary operators: negation and the four repetition operators. Each
/// repetition carries an "is greedy" flag; a range repetition also carries
/// its bound.
#[derive(Debug, Clone, Copy, PartialEq, Eq, Structural)]
pub enum UOp {
    Neg,
    RepeatZeroOrMore(bool),
    RepeatOneOrMore(bool),
    RepeatZeroOrOne(bool),
    RepeatRange(bool, RepRange),
}

/// An expression node: a kind tagged with the span it was parsed from.
#[derive(Debug)]
pub struct Expr {
    pub kind: ExprKind,
    pub span: Span,
}

/// The expression variants of the tree language.
#[derive(Debug)]
pub enum ExprKind {
    BinOp(Box<Expr>, BOp, Box<Expr>),
    UnaryOp(UOp, Box<Expr>),
    Capture(Box<Expr>, Option<String>),
    Block(Vec<Statement>, Box<Expr>),
    Var(String),
    RegexLiteral(Box<regex_syntax::ast::Ast>),
    IntLiteral(i64),
    Lambda {
        /// The shared closure template: one body, many closure instances.
        expr: std::rc::Rc<Lambda>,
        /// The free variables of the template, precomputed once at
        /// construction so that stamping out a new closure never re-scans
        /// the body.
        free_vars: Vec<String>,
    },
    Apply {
        func: Box<Expr>,
        args: Vec<Box<Expr>>,
    },
    /// A poison expression is never valid; it marks a place where no valid
    /// expression could be produced, so that earlier construction steps can
    /// avoid copying source text just to satisfy ownership rules.
    ExprPoison,
}

/// A closure template: parameter names and a body, shared by reference
/// among every closure value produced from the same source lambda.
#[derive(Debug)]
pub struct Lambda {
    pub args: Vec<String>,
    pub body: Box<Expr>,
}

/// A statement node: a kind tagged with the span it was parsed from.
#[derive(Debug)]
pub struct Statement {
    pub kind: StatementKind,
    pub span: Span,
}

/// The statement variants that may appear inside a block expression. The
/// statement-level `Block` variant is structurally legal but currently
/// never produced by this layer; it is kept as a dormant case.
#[derive(Debug)]
pub enum StatementKind {
    LetBinding(String, Box<Expr>),
    Assign(Box<Expr>, Box<Expr>),
    Expr(Box<Expr>),
    Block(Vec<Statement>),
}

// ---------------------------------------------------------------------------
// Mathematical model of the tree
// ---------------------------------------------------------------------------

/// The mathematical value of an expression node.
pub ghost struct ExprV {
    pub kind: ExprKindV,
    pub span: Span,
}

/// The mathematical value of an expression kind. A regex literal is opaque
/// to this layer (the embedded syntax tree belongs to `regex_syntax`), so
/// its model carries no payload.
#[allow(inconsistent_fields)]
pub ghost enum ExprKindV {
    BinOp { left: Box<ExprV>, op: BOp, right: Box<ExprV> },
    UnaryOp { op: UOp, operand: Box<ExprV> },
    Capture { body: Box<ExprV>, name: Option<Seq<char>> },
    Block { stmts: Seq<StatementV>, result: Box<ExprV> },
    Var { name: Seq<char> },
    RegexLiteral,
    IntLiteral { value: i64 },
    Lambda { args: Seq<Seq<char>>, body: Box<ExprV>, free_vars: Seq<Seq<char>> },
    Apply { func: Box<ExprV>, args: Seq<ExprV> },
    Poison,
}

/// The mathematical value of a statement node.
pub ghost struct StatementV {
    pub kind: StatementKindV,
    pub span: Span,
}

/// The mathematical value of a statement kind.
#[allow(inconsistent_fields)]
pub ghost enum StatementKindV {
    LetBinding { name: Seq<char>, expr: Box<ExprV> },
    Assign { target: Box<ExprV>, value: Box<ExprV> },
    Expr { expr: Box<ExprV> },
    Block { stmts: Seq<StatementV> },
}

pub open spec fn expr_view(e: Expr) -> ExprV
    decreases e, 1int,
{
    ExprV { kind: expr_kind_view(e.kind), span: e.span }
}

pub open spec fn expr_kind_view(k: ExprKind) -> ExprKindV
    decreases k, 2int,
{
    match k {
        ExprKind::BinOp(l, op, r) => ExprKindV::BinOp {
            left: Box::new(expr_view(*l)),
            op,
            right: Box::new(expr_view(*r)),
        },
        ExprKind::UnaryOp(op, e) => ExprKindV::UnaryOp {
            op,
            operand: Box::new(expr_view(*e)),
        },
        ExprKind::Capture(e, name) => ExprKindV::Capture {
            body: Box::new(expr_view(*e)),
            name: match name {
                Some(s) => Some(s@),
                None => None,
            },
        },
        ExprKind::Block(ss, e) => ExprKindV::Block {
            stmts: stmts_view(ss@),
            result: Box::new(expr_view(*e)),
        },
        ExprKind::Var(name) => ExprKindV::Var { name: name@ },
        ExprKind::RegexLiteral(_) => ExprKindV::RegexLiteral,
        ExprKind::IntLiteral(x) => ExprKindV::IntLiteral { value: x },
        ExprKind::Lambda { expr, free_vars } => ExprKindV::Lambda {
            args: (*expr).args@.map_values(|s: String| s@),
            body: Box::new(expr_view(*(*expr).body)),
            free_vars: free_vars@.map_values(|s: String| s@),
        },
        ExprKind::Apply { func, args } => ExprKindV::Apply {
            func: Box::new(expr_view(*func)),
            args: exprs_view_from(args@, 0),
        },
        ExprKind::ExprPoison => ExprKindV::Poison,
    }
}

pub open spec fn exprs_view_from(es: Seq<Box<Expr>>, i: int) -> Seq<ExprV>
    decreases es, es.len() - i, 0int,
{
    if 0 <= i < es.len() {
        seq![expr_view(*es[i])] + exprs_view_from(es, i + 1)
    } else {
        Seq::empty()
    }
}

pub open spec fn stmt_view(s: Statement) -> StatementV
    decreases s, 1int,
{
    StatementV { kind: stmt_kind_view(s.kind), span: s.span }
}

pub open spec fn stmt_kind_view(k: StatementKind) -> StatementKindV
    decreases k, 2int,
{
    match k {
        StatementKind::LetBinding(name, e) => StatementKindV::LetBinding {
            name: name@,
            expr: Box::new(expr_view(*e)),
        },
        StatementKind::Assign(t, v) => StatementKindV::Assign {
            target: Box::new(expr_view(*t)),
            value: Box::new(expr_view(*v)),
        },
        StatementKind::Expr(e) => StatementKindV::Expr { expr: Box::new(expr_view(*e)) },
        StatementKind::Block(ss) => StatementKindV::Block { stmts: stmts_view(ss@) },
    }
}

pub open spec fn stmts_view(ss: Seq<Statement>) -> Seq<StatementV>
    decreases ss, ss.len() + 1, 0int,
{
    stmts_view_from(ss, 0)
}

pub open spec fn stmts_view_from(ss: Seq<Statement>, i: int) -> Seq<StatementV>
    decreases ss, ss.len() - i, 0int,
{
    if 0 <= i < ss.len() {
        seq![stmt_view(ss[i])] + stmts_view_from(ss, i + 1)
    } else {
        Seq::empty()
    }
}

impl View for Expr {
    type V = ExprV;

    open spec fn view(&self) -> ExprV {
        expr_view(*self)
    }
}

impl View for ExprKind {
    type V = ExprKindV;

    open spec fn view(&self) -> ExprKindV {
        expr_kind_view(*self)
    }
}

impl View for Statement {
    type V = StatementV;

    open spec fn view(&self) -> StatementV {
        stmt_view(*self)
    }
}

impl View for StatementKind {
    type V = StatementKindV;

    open spec fn view(&self) -> StatementKindV {
        stmt_kind_view(*self)
    }
}

/// The elements of a view sequence are the views of the elements.
pub proof fn lemma_stmts_view_from(ss: Seq<Statement>, i: int)
    requires
        0 <= i <= ss.len(),
    ensures
        stmts_view_from(ss, i).len() == ss.len() - i,
        forall|j: int| i <= j < ss.len() ==> stmts_view_from(ss, i)[j - i] == stmt_view(ss[j]),
    decreases ss.len() - i,
{
    if i < ss.len() {
        lemma_stmts_view_from(ss, i + 1);
    }
}

/// The elements of a view sequence are the views of the elements.
pub proof fn lemma_exprs_view_from(es: Seq<Box<Expr>>, i: int)
    requires
        0 <= i <= es.len(),
    ensures
        exprs_view_from(es, i).len() == es.len() - i,
        forall|j: int| i <= j < es.len() ==> exprs_view_from(es, i)[j - i] == expr_view(*es[j]),
    decreases es.len() - i,
{
    if i < es.len() {
        lemma_exprs_view_from(es, i + 1);
    }
}

impl Expr {
    /// Construction is the only mutation point of the tree: a node is the
    /// given kind tagged with the given span.
    pub fn new(kind: ExprKind, span: Span) -> (e: Self)
        ensures
            e@ == (ExprV { kind: kind@, span }),
    {
        Self { kind, span }
    }
}

impl Statement {
    /// Construction is the only mutation point of the tree: a node is the
    /// given kind tagged with the given span.
    pub fn new(kind: StatementKind, span: Span) -> (s: Self)
        ensures
            s@ == (StatementV { kind: kind@, span }),
    {
        Statement { kind, span }
    }
}

} // verus!
