use vstd::prelude::*;

use crate::ast::BOp;
use crate::ast::Expr;
use crate::ast::ExprKind;
use crate::ast::ExprKindV;
use crate::ast::ExprV;
use crate::ast::RepRange;
use crate::ast::Statement;
use crate::ast::StatementKind;
use crate::ast::StatementKindV;
use crate::ast::StatementV;
use crate::ast::UOp;
use crate::doc::Doc;
use crate::doc::DocV;
use crate::doc::i64_to_string;
use crate::doc::int_to_dec;
use crate::doc::render_doc;
use crate::doc::rendered;

verus! {

broadcast use vstd::string::group_string_axioms;

/// Literal text as a document value.
pub open spec fn dtext(s: Seq<char>) -> DocV {
    DocV::Text(s)
}

/// Concatenation of two document values.
pub open spec fn dapp(a: DocV, b: DocV) -> DocV {
    DocV::Append(Box::new(a), Box::new(b))
}

/// A grouped document value.
pub open spec fn dgrp(a: DocV) -> DocV {
    DocV::Group(Box::new(a))
}

/// The keyword of a binary operator.
pub open spec fn bop_keyword(op: BOp) -> Seq<char> {
    match op {
        BOp::Concat => "concat"@,
        BOp::Alt => "alt"@,
        BOp::Plus => "+"@,
        BOp::Minus => "-"@,
        BOp::Div => "/"@,
        BOp::Times => "*"@,
        BOp::Mod => "%"@,
    }
}

/// The document of a repetition bound: `Exactly(n)` is the decimal text of
/// `n`, `AtLeast(n)` is the keyword `atleast`, a breakable space and the
/// decimal text of `n`; a bounded range has no defined rendering yet and
/// keeps the placeholder marker.
pub open spec fn range_doc(r: RepRange) -> DocV {
    match r {
        RepRange::Exactly(n) => dtext(int_to_dec(n as int)),
        RepRange::AtLeast(n) => dgrp(dapp(dapp(dtext("atleast"@), DocV::Space), dtext(int_to_dec(n as int)))),
        RepRange::Bounded(_, _) => dtext("UNIMPLEMENTED"@),
    }
}

/// The document of a unary operator: `!` for negation; the three simple
/// repetitions are their keyword with a literal `?` appended when the
/// repetition is not greedy; a range repetition is a parenthesized
/// `repeat`, a `?` when not greedy, a breakable space and its bound.
pub open spec fn uop_doc(op: UOp) -> DocV {
    match op {
        UOp::Neg => dtext("!"@),
        UOp::RepeatZeroOrMore(g) => dgrp(dapp(dtext("repeat*"@), dtext(if g { ""@ } else { "?"@ }))),
        UOp::RepeatOneOrMore(g) => dgrp(dapp(dtext("repeat+"@), dtext(if g { ""@ } else { "?"@ }))),
        UOp::RepeatZeroOrOne(g) => dgrp(dapp(dtext("repeat?"@), dtext(if g { ""@ } else { "?"@ }))),
        UOp::RepeatRange(g, r) => dgrp(dapp(dapp(dapp(dapp(dapp(dtext("("@), dtext("repeat"@)), dtext(if g { ""@ } else { "?"@ })), DocV::Space), range_doc(r)), dtext(")"@))),
    }
}

/// The document of an expression: the document of its kind.
pub open spec fn expr_doc(e: ExprV) -> DocV
    decreases e, 1int,
{
    expr_kind_doc(e.kind)
}

/// The document of an expression kind. An integer literal is its decimal
/// text; a variable is its name; an operator application is a grouped,
/// parenthesized prefix form with breakable spaces. The remaining kinds
/// have no defined rendering yet and keep the placeholder marker.
pub open spec fn expr_kind_doc(k: ExprKindV) -> DocV
    decreases k, 2int,
{
    match k {
        ExprKindV::IntLiteral { value } => dtext(int_to_dec(value as int)),
        ExprKindV::Var { name } => dtext(name),
        ExprKindV::BinOp { left, op, right } => dgrp(dapp(dapp(dapp(dapp(dapp(dapp(
            dtext("("@), dtext(bop_keyword(op))), DocV::Space), expr_doc(*left)), DocV::Space),
            expr_doc(*right)), dtext(")"@))),
        ExprKindV::UnaryOp { op, operand } => dgrp(dapp(dapp(dapp(dapp(
            dtext("("@), uop_doc(op)), DocV::Space), expr_doc(*operand)), dtext(")"@))),
        _ => dtext("UNIMPLEMENTED"@),
    }
}

/// The document of a statement: the document of its kind.
pub open spec fn stmt_doc(s: StatementV) -> DocV
    decreases s, 1int,
{
    stmt_kind_doc(s.kind)
}

/// The document of a statement kind: a let binding is a grouped,
/// parenthesized `let` with the bound name and the bound expression; the
/// remaining kinds have no defined rendering yet and keep the placeholder
/// marker.
pub open spec fn stmt_kind_doc(k: StatementKindV) -> DocV
    decreases k, 2int,
{
    match k {
        StatementKindV::LetBinding { name, expr } => dgrp(dapp(dapp(dapp(dapp(dapp(
            dtext("(let"@), DocV::Space), dtext(name)), DocV::Space), expr_doc(*expr)),
            dtext(")"@))),
        _ => dtext("UNIMPLEMENTED"@),
    }
}

impl BOp {
    /// The document of this operator's keyword.
    fn to_doc(&self) -> (d: Doc)
        ensures
            d@ == dtext(bop_keyword(*self)),
    {
        Doc::text(
            match self {
                BOp::Concat => "concat",
                BOp::Alt => "alt",
                BOp::Plus => "+",
                BOp::Minus => "-",
                BOp::Div => "/",
                BOp::Times => "*",
                BOp::Mod => "%",
            }.to_string(),
        )
    }
}

impl UOp {
    /// The document of this operator, with the non-greedy `?` suffix where
    /// the flag asks for it.
    fn to_doc(&self) -> (d: Doc)
        ensures
            d@ == uop_doc(*self),
    {
        match self {
            UOp::Neg => Doc::text("!".to_string()),
            UOp::RepeatZeroOrMore(g) => Doc::text("repeat*".to_string()).append(
                Doc::text((if *g { "" } else { "?" }).to_string()),
            ).group(),
            UOp::RepeatOneOrMore(g) => Doc::text("repeat+".to_string()).append(
                Doc::text((if *g { "" } else { "?" }).to_string()),
            ).group(),
            UOp::RepeatZeroOrOne(g) => Doc::text("repeat?".to_string()).append(
                Doc::text((if *g { "" } else { "?" }).to_string()),
            ).group(),
            UOp::RepeatRange(g, r) => Doc::text("(".to_string()).append(
                Doc::text("repeat".to_string()),
            ).append(Doc::text((if *g { "" } else { "?" }).to_string())).append(Doc::space()).append(
                match r {
                    RepRange::Exactly(n) => Doc::text(i64_to_string(*n as i64)),
                    RepRange::AtLeast(n) => Doc::text("atleast".to_string()).append(
                        Doc::space(),
                    ).append(Doc::text(i64_to_string(*n as i64))).group(),
                    RepRange::Bounded(_, _) => Doc::text("UNIMPLEMENTED".to_string()),
                },
            ).append(Doc::text(")".to_string())).group(),
        }
    }
}

impl Expr {
    /// The document of this expression.
    fn to_doc(&self) -> (d: Doc)
        ensures
            d@ == expr_doc(self@),
        decreases *self, 1int,
    {
        self.kind.to_doc()
    }

    /// Render this expression as text at the given column width, through
    /// the external layout service.
    pub fn to_pretty(&self, width: usize) -> (r: String)
        ensures
            r@ == rendered(expr_doc(self@), width as int),
    {
        render_doc(&self.to_doc(), width)
    }
}

impl ExprKind {
    /// The document of this expression kind.
    pub fn to_doc(&self) -> (d: Doc)
        ensures
            d@ == expr_kind_doc(self@),
        decreases *self, 2int,
    {
        match self {
            ExprKind::IntLiteral(x) => Doc::text(i64_to_string(*x)),
            ExprKind::Var(name) => Doc::text(name.clone()),
            ExprKind::BinOp(left, op, right) => Doc::text("(".to_string()).append(
                op.to_doc(),
            ).append(Doc::space()).append(left.to_doc()).append(Doc::space()).append(
                right.to_doc(),
            ).append(Doc::text(")".to_string())).group(),
            ExprKind::UnaryOp(op, operand) => Doc::text("(".to_string()).append(op.to_doc()).append(
                Doc::space(),
            ).append(operand.to_doc()).append(Doc::text(")".to_string())).group(),
            _ => Doc::text("UNIMPLEMENTED".to_string()),
        }
    }

    /// Render this expression kind as text at the given column width.
    pub fn to_pretty(&self, width: usize) -> (r: String)
        ensures
            r@ == rendered(expr_kind_doc(self@), width as int),
    {
        render_doc(&self.to_doc(), width)
    }
}

impl Statement {
    /// The document of this statement.
    fn to_doc(&self) -> (d: Doc)
        ensures
            d@ == stmt_doc(self@),
        decreases *self, 1int,
    {
        self.kind.to_doc()
    }

    /// Render this statement as text at the given column width, through
    /// the external layout service.
    pub fn to_pretty(&self, width: usize) -> (r: String)
        ensures
            r@ == rendered(stmt_doc(self@), width as int),
    {
        render_doc(&self.to_doc(), width)
    }
}

impl StatementKind {
    /// The document of this statement kind.
    pub fn to_doc(&self) -> (d: Doc)
        ensures
            d@ == stmt_kind_doc(self@),
        decreases *self, 2int,
    {
        match self {
            StatementKind::LetBinding(name, expr) => Doc::text("(let".to_string()).append(
                Doc::space(),
            ).append(Doc::text(name.clone())).append(Doc::space()).append(expr.to_doc()).append(
                Doc::text(")".to_string()),
            ).group(),
            _ => Doc::text("UNIMPLEMENTED".to_string()),
        }
    }

    /// Render this statement kind as text at the given column width.
    pub fn to_pretty(&self, width: usize) -> (r: String)
        ensures
            r@ == rendered(stmt_kind_doc(self@), width as int),
    {
        render_doc(&self.to_doc(), width)
    }
}

} // verus!
