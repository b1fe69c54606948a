use vstd::prelude::*;

use crate::ast::Expr;
use crate::ast::ExprKind;
use crate::ast::ExprKindV;
use crate::ast::ExprV;
use crate::ast::Lambda;
use crate::ast::Statement;
use crate::ast::StatementKind;
use crate::ast::StatementKindV;
use crate::ast::StatementV;
use crate::ast::exprs_view_from;
use crate::ast::lemma_exprs_view_from;
use crate::ast::lemma_stmts_view_from;
use crate::ast::stmts_view;

verus! {

broadcast use vstd::set::group_set_axioms;

/// Whether some element of `v` reads as the string `x`.
pub open spec fn seq_str_contains(v: Seq<String>, x: Seq<char>) -> bool {
    exists|i: int| 0 <= i < v.len() && v[i]@ == x
}

/// The set of strings a vector of names holds.
pub open spec fn strs(v: Seq<String>) -> Set<Seq<char>> {
    Set::new(|x: Seq<char>| seq_str_contains(v, x))
}

/// The names of all variables referenced anywhere in an expression,
/// nested lambda bodies included.
pub open spec fn expr_vars(e: ExprV) -> Set<Seq<char>>
    decreases e, 1int, 0int,
{
    expr_kind_vars(e.kind)
}

/// The names of all variables referenced anywhere in an expression kind.
pub open spec fn expr_kind_vars(k: ExprKindV) -> Set<Seq<char>>
    decreases k, 2int, 0int,
{
    match k {
        ExprKindV::BinOp { left, op: _, right } => expr_vars(*left) + expr_vars(*right),
        ExprKindV::UnaryOp { op: _, operand } => expr_vars(*operand),
        ExprKindV::Capture { body, name: _ } => expr_vars(*body),
        ExprKindV::Block { stmts, result } => stmts_vars_from(stmts, 0) + expr_vars(*result),
        ExprKindV::Var { name } => Set::empty().insert(name),
        ExprKindV::RegexLiteral => Set::empty(),
        ExprKindV::IntLiteral { value: _ } => Set::empty(),
        ExprKindV::Lambda { args: _, body, free_vars: _ } => expr_vars(*body),
        ExprKindV::Apply { func, args } => expr_vars(*func) + exprs_vars_from(args, 0),
        ExprKindV::Poison => Set::empty(),
    }
}

/// The variables referenced by the expressions `es[i..]`.
pub open spec fn exprs_vars_from(es: Seq<ExprV>, i: int) -> Set<Seq<char>>
    decreases es, es.len() - i, 0int,
{
    if 0 <= i < es.len() {
        expr_vars(es[i]) + exprs_vars_from(es, i + 1)
    } else {
        Set::empty()
    }
}

/// The names of all variables referenced anywhere in a statement.
pub open spec fn stmt_vars(s: StatementV) -> Set<Seq<char>>
    decreases s, 1int, 0int,
{
    stmt_kind_vars(s.kind)
}

/// The names of all variables referenced anywhere in a statement kind.
pub open spec fn stmt_kind_vars(k: StatementKindV) -> Set<Seq<char>>
    decreases k, 2int, 0int,
{
    match k {
        StatementKindV::LetBinding { name: _, expr } => expr_vars(*expr),
        StatementKindV::Assign { target, value } => expr_vars(*target) + expr_vars(*value),
        StatementKindV::Expr { expr } => expr_vars(*expr),
        StatementKindV::Block { stmts } => stmts_vars_from(stmts, 0),
    }
}

/// The variables referenced by the statements `ss[i..]`.
pub open spec fn stmts_vars_from(ss: Seq<StatementV>, i: int) -> Set<Seq<char>>
    decreases ss, ss.len() - i, 0int,
{
    if 0 <= i < ss.len() {
        stmt_vars(ss[i]) + stmts_vars_from(ss, i + 1)
    } else {
        Set::empty()
    }
}

/// The free variables of a closure template: the names referenced in the
/// body that are not bound by the template's own parameter list.
pub open spec fn free_var_set(l: Lambda) -> Set<Seq<char>> {
    expr_vars((*l.body)@).difference(strs(l.args@))
}

/// Appending one name to a vector of names adds exactly that name to the
/// set it holds.
proof fn lemma_strs_push(v: Seq<String>, s: String)
    ensures
        strs(v.push(s)) == strs(v).insert(s@),
{
    assert forall|x: Seq<char>| strs(v.push(s)).contains(x) implies strs(v).insert(
        s@,
    ).contains(x) by {
        let i = choose|i: int| 0 <= i < v.push(s).len() && v.push(s)[i]@ == x;
        if i < v.len() {
            assert(v[i]@ == x);
            assert(seq_str_contains(v, x));
        } else {
            assert(v.push(s)[v.len() as int] == s);
        }
    }
    assert forall|x: Seq<char>| strs(v).insert(s@).contains(x) implies strs(v.push(s)).contains(
        x,
    ) by {
        if strs(v).contains(x) {
            let i = choose|i: int| 0 <= i < v.len() && v[i]@ == x;
            assert(v.push(s)[i] == v[i]);
            assert(seq_str_contains(v.push(s), x));
        } else {
            assert(v.push(s)[v.len() as int] == s);
            assert(seq_str_contains(v.push(s), x));
        }
    }
    assert(strs(v.push(s)) =~= strs(v).insert(s@));
}

/// Append to `out` every variable name referenced in `e`, so that
/// afterwards `out` holds exactly its old names plus the referenced ones.
#[verifier::loop_isolation(false)]
fn collect_expr_vars(e: &Expr, out: &mut Vec<String>)
    ensures
        strs(final(out)@) == strs(old(out)@) + expr_vars(e@),
    decreases *e,
{
    let ghost out0 = out@;
    match &e.kind {
        ExprKind::BinOp(l, _, r) => {
            collect_expr_vars(l, out);
            collect_expr_vars(r, out);
            proof {
                assert(strs(out@) =~= strs(out0) + expr_vars(e@));
            }
        },
        ExprKind::UnaryOp(_, operand) => {
            collect_expr_vars(operand, out);
        },
        ExprKind::Capture(body, _) => {
            collect_expr_vars(body, out);
        },
        ExprKind::Block(ss, result) => {
            let ghost svs = stmts_view(ss@);
            proof {
                lemma_stmts_view_from(ss@, 0);
                assert(strs(out@) =~= strs(out0) + stmts_vars_from(svs, ss@.len() as int));
            }
            let mut j: usize = ss.len();
            while j > 0
                invariant
                    j <= ss.len(),
                    strs(out@) == strs(out0) + stmts_vars_from(svs, j as int),
                decreases j,
            {
                j = j - 1;
                proof {
                    assert(svs[j as int] == ss@[j as int]@);
                }
                collect_stmt_vars(&ss[j], out);
                proof {
                    assert(strs(out@) =~= strs(out0) + stmts_vars_from(svs, j as int));
                }
            }
            collect_expr_vars(result, out);
            proof {
                assert(strs(out@) =~= strs(out0) + expr_vars(e@));
            }
        },
        ExprKind::Var(name) => {
            proof {
                lemma_strs_push(out0, *name);
            }
            out.push(name.clone());
            proof {
                assert(strs(out@) =~= strs(out0) + expr_vars(e@));
            }
        },
        ExprKind::RegexLiteral(_) => {
            proof {
                assert(strs(out@) =~= strs(out0) + expr_vars(e@));
            }
        },
        ExprKind::IntLiteral(_) => {
            proof {
                assert(strs(out@) =~= strs(out0) + expr_vars(e@));
            }
        },
        ExprKind::Lambda { expr: l, free_vars: _ } => {
            collect_expr_vars(&l.body, out);
        },
        ExprKind::Apply { func, args } => {
            collect_expr_vars(func, out);
            let ghost avs = exprs_view_from(args@, 0);
            let ghost out1 = out@;
            proof {
                lemma_exprs_view_from(args@, 0);
                assert(strs(out@) =~= strs(out1) + exprs_vars_from(avs, args@.len() as int));
            }
            let mut j: usize = args.len();
            while j > 0
                invariant
                    j <= args.len(),
                    strs(out@) == strs(out1) + exprs_vars_from(avs, j as int),
                decreases j,
            {
                j = j - 1;
                proof {
                    assert(avs[j as int] == (*args@[j as int])@);
                }
                collect_expr_vars(&args[j], out);
                proof {
                    assert(strs(out@) =~= strs(out1) + exprs_vars_from(avs, j as int));
                }
            }
            proof {
                assert(strs(out@) =~= strs(out0) + expr_vars(e@));
            }
        },
        ExprKind::ExprPoison => {
            proof {
                assert(strs(out@) =~= strs(out0) + expr_vars(e@));
            }
        },
    }
}

/// Append to `out` every variable name referenced in `s`.
#[verifier::loop_isolation(false)]
fn collect_stmt_vars(s: &Statement, out: &mut Vec<String>)
    ensures
        strs(final(out)@) == strs(old(out)@) + stmt_vars(s@),
    decreases *s,
{
    let ghost out0 = out@;
    match &s.kind {
        StatementKind::LetBinding(_, e) => {
            collect_expr_vars(e, out);
        },
        StatementKind::Assign(t, v) => {
            collect_expr_vars(t, out);
            collect_expr_vars(v, out);
            proof {
                assert(strs(out@) =~= strs(out0) + stmt_vars(s@));
            }
        },
        StatementKind::Expr(e) => {
            collect_expr_vars(e, out);
        },
        StatementKind::Block(ss) => {
            let ghost svs = stmts_view(ss@);
            proof {
                lemma_stmts_view_from(ss@, 0);
                assert(strs(out@) =~= strs(out0) + stmts_vars_from(svs, ss@.len() as int));
            }
            let mut j: usize = ss.len();
            while j > 0
                invariant
                    j <= ss.len(),
                    strs(out@) == strs(out0) + stmts_vars_from(svs, j as int),
                decreases j,
            {
                j = j - 1;
                proof {
                    assert(svs[j as int] == ss@[j as int]@);
                }
                collect_stmt_vars(&ss[j], out);
                proof {
                    assert(strs(out@) =~= strs(out0) + stmts_vars_from(svs, j as int));
                }
            }
        },
    }
}

/// Whether some element of `v` equals the string `x`.
fn contains_string(v: &Vec<String>, x: &String) -> (r: bool)
    ensures
        r == seq_str_contains(v@, x@),
{
    let mut i: usize = 0;
    while i < v.len()
        invariant
            i <= v.len(),
            forall|j: int| 0 <= j < i ==> v@[j]@ != x@,
        decreases v.len() - i,
    {
        if v[i] == *x {
            return true;
        }
        i = i + 1;
    }
    false
}

impl Lambda {
    /// The free variables of this closure template: exactly the set of
    /// variable names referenced in the body that are not bound by the
    /// template's own parameter list, each name listed once. The result is
    /// a function of the template alone, so a value computed at
    /// construction never changes however many closures are later stamped
    /// out of the template.
    #[verifier::loop_isolation(false)]
    pub fn free_vars(&self) -> (fv: Vec<String>)
        ensures
            strs(fv@) == free_var_set(*self),
            forall|i: int, j: int| 0 <= i < j < fv@.len() ==> fv@[i]@ != fv@[j]@,
    {
        let mut occ: Vec<String> = Vec::new();
        collect_expr_vars(&self.body, &mut occ);
        proof {
            assert(strs(occ@) =~= expr_vars((*self.body)@));
        }
        let mut fv: Vec<String> = Vec::new();
        let mut i: usize = 0;
        proof {
            assert(strs(fv@) =~= strs(occ@.take(0)).difference(strs(self.args@)));
        }
        while i < occ.len()
            invariant
                i <= occ.len(),
                strs(fv@) == strs(occ@.take(i as int)).difference(strs(self.args@)),
                forall|m: int, n: int| 0 <= m < n < fv@.len() ==> fv@[m]@ != fv@[n]@,
            decreases occ.len() - i,
        {
            let is_param = contains_string(&self.args, &occ[i]);
            let is_seen = contains_string(&fv, &occ[i]);
            proof {
                assert(occ@.take(i + 1) =~= occ@.take(i as int).push(occ@[i as int]));
                lemma_strs_push(occ@.take(i as int), occ@[i as int]);
            }
            if !is_param && !is_seen {
                let ghost fv0 = fv@;
                proof {
                    lemma_strs_push(fv0, occ@[i as int]);
                }
                fv.push(occ[i].clone());
                proof {
                    assert(strs(fv@) =~= strs(occ@.take(i + 1)).difference(strs(self.args@)));
                }
            } else {
                proof {
                    if is_seen {
                        assert(strs(fv@).contains(occ@[i as int]@));
                    }
                    assert(strs(fv@) =~= strs(occ@.take(i + 1)).difference(strs(self.args@)));
                }
            }
            i = i + 1;
        }
        proof {
            assert(occ@.take(occ@.len() as int) =~= occ@);
            assert(strs(fv@) =~= free_var_set(*self));
        }
        fv
    }
}

impl ExprKind {
    /// Build a `Lambda` expression kind from a closure template, computing
    /// its free variables once, at construction.
    pub fn lambda(template: std::rc::Rc<Lambda>) -> (k: ExprKind)
        ensures
            k matches ExprKind::Lambda { expr, free_vars } && *expr == *template && strs(
                free_vars@,
            ) == free_var_set(*template) && (forall|i: int, j: int|
                0 <= i < j < free_vars@.len() ==> free_vars@[i]@ != free_vars@[j]@),
    {
        let free_vars = template.free_vars();
        ExprKind::Lambda { expr: template, free_vars }
    }
}

} // verus!
