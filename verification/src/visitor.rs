use vstd::prelude::*;

use crate::ast::Expr;
use crate::ast::ExprKind;
use crate::ast::ExprKindV;
use crate::ast::ExprV;
use crate::ast::Statement;
use crate::ast::StatementKind;
use crate::ast::StatementKindV;
use crate::ast::StatementV;
use crate::ast::exprs_view_from;
use crate::ast::lemma_exprs_view_from;
use crate::ast::lemma_stmts_view_from;
use crate::ast::stmts_view;

verus! {

/// One observable event of a traversal: the one-time hooks at either end,
/// and a pre- or post-order visit of a node.
pub ghost enum TraceEv {
    Start,
    ExprPre(ExprV),
    ExprPost(ExprV),
    StmtPre(StatementV),
    StmtPost(StatementV),
    Finish,
}

/// The events of a depth-first traversal of an expression: the node itself
/// pre-order, its children in source order, the node itself post-order.
pub open spec fn expr_events(e: ExprV) -> Seq<TraceEv>
    decreases e, 1int, 0int,
{
    seq![TraceEv::ExprPre(e)] + expr_child_events(e.kind) + seq![TraceEv::ExprPost(e)]
}

/// The events contributed by the children of an expression, in the source
/// order that the traversal promises: left before right, statements before
/// a block's result, a call's function before its arguments.
pub open spec fn expr_child_events(k: ExprKindV) -> Seq<TraceEv>
    decreases k, 2int, 0int,
{
    match k {
        ExprKindV::BinOp { left, op: _, right } => expr_events(*left) + expr_events(*right),
        ExprKindV::UnaryOp { op: _, operand } => expr_events(*operand),
        ExprKindV::Capture { body, name: _ } => expr_events(*body),
        ExprKindV::Block { stmts, result } => stmts_events_from(stmts, 0) + expr_events(*result),
        ExprKindV::Var { name: _ } => Seq::empty(),
        ExprKindV::RegexLiteral => Seq::empty(),
        ExprKindV::IntLiteral { value: _ } => Seq::empty(),
        ExprKindV::Lambda { args: _, body, free_vars: _ } => expr_events(*body),
        ExprKindV::Apply { func, args } => expr_events(*func) + exprs_events_from(args, 0),
        ExprKindV::Poison => Seq::empty(),
    }
}

/// The events of the expressions `es[i..]`, in order.
pub open spec fn exprs_events_from(es: Seq<ExprV>, i: int) -> Seq<TraceEv>
    decreases es, es.len() - i, 0int,
{
    if 0 <= i < es.len() {
        expr_events(es[i]) + exprs_events_from(es, i + 1)
    } else {
        Seq::empty()
    }
}

/// The events of a depth-first traversal of a statement.
pub open spec fn stmt_events(s: StatementV) -> Seq<TraceEv>
    decreases s, 1int, 0int,
{
    seq![TraceEv::StmtPre(s)] + stmt_child_events(s.kind) + seq![TraceEv::StmtPost(s)]
}

/// The events contributed by the children of a statement: an assignment's
/// target before its value, a nested block's statements in source order.
pub open spec fn stmt_child_events(k: StatementKindV) -> Seq<TraceEv>
    decreases k, 2int, 0int,
{
    match k {
        StatementKindV::LetBinding { name: _, expr } => expr_events(*expr),
        StatementKindV::Assign { target, value } => expr_events(*target) + expr_events(*value),
        StatementKindV::Expr { expr } => expr_events(*expr),
        StatementKindV::Block { stmts } => stmts_events_from(stmts, 0),
    }
}

/// The events of the statements `ss[i..]`, in order.
pub open spec fn stmts_events_from(ss: Seq<StatementV>, i: int) -> Seq<TraceEv>
    decreases ss, ss.len() - i, 0int,
{
    if 0 <= i < ss.len() {
        stmt_events(ss[i]) + stmts_events_from(ss, i + 1)
    } else {
        Seq::empty()
    }
}

/// The full trace of a traversal of `e` that no hook aborted: `Start`, the
/// depth-first events, `Finish`.
pub open spec fn complete_expr_trace(e: ExprV) -> Seq<TraceEv> {
    seq![TraceEv::Start] + expr_events(e) + seq![TraceEv::Finish]
}

/// The trace of a traversal of `e` that a hook aborted: a non-empty prefix
/// of the depth-first events, ending at the erring hook's own event. No
/// node after the failure point is visited and `finish` is never reached.
pub open spec fn aborted_expr_trace(t: Seq<TraceEv>, e: ExprV) -> bool {
    exists|k: int|
        1 <= k <= expr_events(e).len() && t == seq![TraceEv::Start] + expr_events(e).take(k)
}

/// The full trace of a statement traversal that no hook aborted.
pub open spec fn complete_stmt_trace(s: StatementV) -> Seq<TraceEv> {
    seq![TraceEv::Start] + stmt_events(s) + seq![TraceEv::Finish]
}

/// The trace of a statement traversal that a hook aborted.
pub open spec fn aborted_stmt_trace(t: Seq<TraceEv>, s: StatementV) -> bool {
    exists|k: int|
        1 <= k <= stmt_events(s).len() && t == seq![TraceEv::Start] + stmt_events(s).take(k)
}

/// A traversal capability: callers override only the hooks they care
/// about; the defaults are no-ops that return success. Any hook error
/// aborts the traversal immediately and is returned verbatim; `finish`
/// converts the visitor's accumulated state into the final output and runs
/// only after a traversal that no hook aborted.
pub trait Visitor: Sized {
    /// The result of the traversal.
    type Output;

    /// An error which might happen during traversal. Traversal stops as
    /// soon as any error is returned.
    type Err;

    /// Finalize the state of the visitor object to get the output.
    fn finish(self) -> Result<Self::Output, Self::Err>;

    /// A hook called once before traversal begins.
    fn start(&mut self) {
    }

    /// Called before visiting an expression's children.
    fn visit_expr_pre(&mut self, _expr: &Expr) -> Result<(), Self::Err> {
        Ok(())
    }

    /// Called after visiting an expression's children.
    fn visit_expr_post(&mut self, _expr: &Expr) -> Result<(), Self::Err> {
        Ok(())
    }

    /// Called before visiting a statement's children.
    fn visit_stmt_pre(&mut self, _stmt: &Statement) -> Result<(), Self::Err> {
        Ok(())
    }

    /// Called after visiting a statement's children.
    fn visit_stmt_post(&mut self, _stmt: &Statement) -> Result<(), Self::Err> {
        Ok(())
    }
}

/// One deferred traversal step on the explicit heap stack: a node's
/// children are not pushed until its `Pre` frame is popped, and its `Post`
/// frame waits below them.
enum Frame<'e> {
    PreExpr(&'e Expr),
    PostExpr(&'e Expr),
    PreStmt(&'e Statement),
    PostStmt(&'e Statement),
}

/// The events a frame still owes: a `Pre` frame owes its whole subtree, a
/// `Post` frame only the closing visit.
spec fn frame_events<'e>(f: Frame<'e>) -> Seq<TraceEv> {
    match f {
        Frame::PreExpr(e) => expr_events(e@),
        Frame::PostExpr(e) => seq![TraceEv::ExprPost(e@)],
        Frame::PreStmt(s) => stmt_events(s@),
        Frame::PostStmt(s) => seq![TraceEv::StmtPost(s@)],
    }
}

/// The events a whole stack still owes, from the top of the stack down.
spec fn stack_events<'e>(st: Seq<Frame<'e>>) -> Seq<TraceEv>
    decreases st.len(),
{
    if st.len() == 0 {
        Seq::empty()
    } else {
        frame_events(st.last()) + stack_events(st.drop_last())
    }
}

fn push_frame<'e>(stack: &mut Vec<Frame<'e>>, f: Frame<'e>)
    ensures
        stack_events(final(stack)@) == frame_events(f) + stack_events(old(stack)@),
{
    proof {
        assert(old(stack)@.push(f).drop_last() =~= old(stack)@);
    }
    stack.push(f);
}

proof fn seq_assoc<A>(a: Seq<A>, b: Seq<A>, c: Seq<A>)
    ensures
        (a + b) + c == a + (b + c),
{
    assert((a + b) + c =~= a + (b + c));
}

/// Push the `Post` frame for `expr`, then `Pre` frames for its children in
/// reverse source order, so that popping yields the children left to
/// right: the deferred expansion step of the traversal.
fn push_expr<'e>(stack: &mut Vec<Frame<'e>>, expr: &'e Expr)
    ensures
        stack_events(final(stack)@) == expr_child_events(expr@.kind) + seq![
            TraceEv::ExprPost(expr@),
        ] + stack_events(old(stack)@),
{
    let ghost st0 = stack@;
    push_frame(stack, Frame::PostExpr(expr));
    let ghost base = seq![TraceEv::ExprPost(expr@)] + stack_events(st0);
    match &expr.kind {
        ExprKind::BinOp(l, _, r) => {
            let lc: &Expr = l;
            let rc: &Expr = r;
            push_frame(stack, Frame::PreExpr(rc));
            push_frame(stack, Frame::PreExpr(lc));
            proof {
                seq_assoc(expr_events(lc@), expr_events(rc@), base);
                assert(stack_events(stack@) =~= expr_child_events(expr@.kind) + seq![
                    TraceEv::ExprPost(expr@),
                ] + stack_events(st0));
            }
        },
        ExprKind::UnaryOp(_, e) => {
            let c: &Expr = e;
            push_frame(stack, Frame::PreExpr(c));
            proof {
                assert(stack_events(stack@) =~= expr_child_events(expr@.kind) + seq![
                    TraceEv::ExprPost(expr@),
                ] + stack_events(st0));
            }
        },
        ExprKind::Capture(e, _) => {
            let c: &Expr = e;
            push_frame(stack, Frame::PreExpr(c));
            proof {
                assert(stack_events(stack@) =~= expr_child_events(expr@.kind) + seq![
                    TraceEv::ExprPost(expr@),
                ] + stack_events(st0));
            }
        },
        ExprKind::Block(ss, e) => {
            let c: &Expr = e;
            push_frame(stack, Frame::PreExpr(c));
            let ghost svs = stmts_view(ss@);
            let ghost tail = expr_events(c@) + base;
            proof {
                lemma_stmts_view_from(ss@, 0);
                seq_assoc(expr_events(c@), seq![TraceEv::ExprPost(expr@)], stack_events(st0));
            }
            let mut j: usize = ss.len();
            while j > 0
                invariant
                    j <= ss.len(),
                    svs == stmts_view(ss@),
                    svs.len() == ss@.len(),
                    forall|m: int| 0 <= m < ss@.len() ==> svs[m] == ss@[m]@,
                    tail == expr_events(c@) + base,
                    base == seq![TraceEv::ExprPost(expr@)] + stack_events(st0),
                    stack_events(stack@) == stmts_events_from(svs, j as int) + tail,
                decreases j,
            {
                j = j - 1;
                let child: &Statement = &ss[j];
                push_frame(stack, Frame::PreStmt(child));
                proof {
                    assert(child@ == svs[j as int]);
                    seq_assoc(stmt_events(svs[j as int]), stmts_events_from(svs, j as int + 1),
                        tail);
                }
            }
            proof {
                assert(stack_events(stack@) =~= expr_child_events(expr@.kind) + seq![
                    TraceEv::ExprPost(expr@),
                ] + stack_events(st0));
            }
        },
        ExprKind::Var(_) => {
            proof {
                assert(stack_events(stack@) =~= expr_child_events(expr@.kind) + seq![
                    TraceEv::ExprPost(expr@),
                ] + stack_events(st0));
            }
        },
        ExprKind::RegexLiteral(_) => {
            proof {
                assert(stack_events(stack@) =~= expr_child_events(expr@.kind) + seq![
                    TraceEv::ExprPost(expr@),
                ] + stack_events(st0));
            }
        },
        ExprKind::IntLiteral(_) => {
            proof {
                assert(stack_events(stack@) =~= expr_child_events(expr@.kind) + seq![
                    TraceEv::ExprPost(expr@),
                ] + stack_events(st0));
            }
        },
        ExprKind::Lambda { expr: l, free_vars: _ } => {
            let c: &Expr = &l.body;
            push_frame(stack, Frame::PreExpr(c));
            proof {
                assert(stack_events(stack@) =~= expr_child_events(expr@.kind) + seq![
                    TraceEv::ExprPost(expr@),
                ] + stack_events(st0));
            }
        },
        ExprKind::Apply { func, args } => {
            let ghost avs = exprs_view_from(args@, 0);
            proof {
                lemma_exprs_view_from(args@, 0);
            }
            let mut j: usize = args.len();
            while j > 0
                invariant
                    j <= args.len(),
                    avs == exprs_view_from(args@, 0),
                    avs.len() == args@.len(),
                    forall|m: int| 0 <= m < args@.len() ==> avs[m] == (*args@[m])@,
                    base == seq![TraceEv::ExprPost(expr@)] + stack_events(st0),
                    stack_events(stack@) == exprs_events_from(avs, j as int) + base,
                decreases j,
            {
                j = j - 1;
                let child: &Expr = &args[j];
                push_frame(stack, Frame::PreExpr(child));
                proof {
                    assert(child@ == avs[j as int]);
                    seq_assoc(expr_events(avs[j as int]), exprs_events_from(avs, j as int + 1),
                        base);
                }
            }
            let fc: &Expr = func;
            push_frame(stack, Frame::PreExpr(fc));
            proof {
                seq_assoc(expr_events(fc@), exprs_events_from(avs, 0), base);
                assert(stack_events(stack@) =~= expr_child_events(expr@.kind) + seq![
                    TraceEv::ExprPost(expr@),
                ] + stack_events(st0));
            }
        },
        ExprKind::ExprPoison => {
            proof {
                assert(stack_events(stack@) =~= expr_child_events(expr@.kind) + seq![
                    TraceEv::ExprPost(expr@),
                ] + stack_events(st0));
            }
        },
    }
}

/// Push the `Post` frame for `stmt`, then `Pre` frames for its children in
/// reverse source order.
fn push_stmt<'e>(stack: &mut Vec<Frame<'e>>, stmt: &'e Statement)
    ensures
        stack_events(final(stack)@) == stmt_child_events(stmt@.kind) + seq![
            TraceEv::StmtPost(stmt@),
        ] + stack_events(old(stack)@),
{
    let ghost st0 = stack@;
    push_frame(stack, Frame::PostStmt(stmt));
    let ghost base = seq![TraceEv::StmtPost(stmt@)] + stack_events(st0);
    match &stmt.kind {
        StatementKind::LetBinding(_, e) => {
            let c: &Expr = e;
            push_frame(stack, Frame::PreExpr(c));
            proof {
                assert(stack_events(stack@) =~= stmt_child_events(stmt@.kind) + seq![
                    TraceEv::StmtPost(stmt@),
                ] + stack_events(st0));
            }
        },
        StatementKind::Assign(l, r) => {
            let lc: &Expr = l;
            let rc: &Expr = r;
            push_frame(stack, Frame::PreExpr(rc));
            push_frame(stack, Frame::PreExpr(lc));
            proof {
                seq_assoc(expr_events(lc@), expr_events(rc@), base);
                assert(stack_events(stack@) =~= stmt_child_events(stmt@.kind) + seq![
                    TraceEv::StmtPost(stmt@),
                ] + stack_events(st0));
            }
        },
        StatementKind::Expr(e) => {
            let c: &Expr = e;
            push_frame(stack, Frame::PreExpr(c));
            proof {
                assert(stack_events(stack@) =~= stmt_child_events(stmt@.kind) + seq![
                    TraceEv::StmtPost(stmt@),
                ] + stack_events(st0));
            }
        },
        StatementKind::Block(ss) => {
            let ghost svs = stmts_view(ss@);
            proof {
                lemma_stmts_view_from(ss@, 0);
            }
            let mut j: usize = ss.len();
            while j > 0
                invariant
                    j <= ss.len(),
                    svs == stmts_view(ss@),
                    svs.len() == ss@.len(),
                    forall|m: int| 0 <= m < ss@.len() ==> svs[m] == ss@[m]@,
                    base == seq![TraceEv::StmtPost(stmt@)] + stack_events(st0),
                    stack_events(stack@) == stmts_events_from(svs, j as int) + base,
                decreases j,
            {
                j = j - 1;
                let child: &Statement = &ss[j];
                push_frame(stack, Frame::PreStmt(child));
                proof {
                    assert(child@ == svs[j as int]);
                    seq_assoc(stmt_events(svs[j as int]), stmts_events_from(svs, j as int + 1),
                        base);
                }
            }
            proof {
                assert(stack_events(stack@) =~= stmt_child_events(stmt@.kind) + seq![
                    TraceEv::StmtPost(stmt@),
                ] + stack_events(st0));
            }
        },
    }
}

/// A run that stopped early produced the fixed opening plus a non-empty
/// part of the owed events.
spec fn trace_stopped(t: Seq<TraceEv>, prefix: Seq<TraceEv>, owed: Seq<TraceEv>) -> bool {
    exists|k: int| 1 <= k <= owed.len() && t == prefix + owed.take(k)
}

/// A trace that still owes events is a non-empty prefix, no longer than
/// the whole, of the events owed after the fixed opening.
proof fn lemma_abort_prefix(
    done: Seq<TraceEv>,
    rest: Seq<TraceEv>,
    owed: Seq<TraceEv>,
    prefix: Seq<TraceEv>,
)
    requires
        done + rest == prefix + owed,
        done.len() > prefix.len(),
    ensures
        trace_stopped(done, prefix, owed),
{
    let k = done.len() - prefix.len();
    assert((done + rest).len() == done.len() + rest.len());
    assert((prefix + owed).len() == prefix.len() + owed.len());
    assert(done.len() + rest.len() == prefix.len() + owed.len());
    assert forall|i: int| 0 <= i < done.len() implies done[i] == (prefix + owed.take(k))[i] by {
        assert((done + rest)[i] == done[i]);
        assert((done + rest)[i] == (prefix + owed)[i]);
        if i < prefix.len() {
            assert((prefix + owed)[i] == prefix[i]);
            assert((prefix + owed.take(k))[i] == prefix[i]);
        } else {
            assert((prefix + owed)[i] == owed[i - prefix.len()]);
            assert((prefix + owed.take(k))[i] == owed.take(k)[i - prefix.len()]);
            assert(owed.take(k)[i - prefix.len()] == owed[i - prefix.len()]);
        }
    }
    assert(done =~= prefix + owed.take(k));
    assert(1 <= k <= owed.len() && done == prefix + owed.take(k));
    assert(trace_stopped(done, prefix, owed));
}

/// Run the stack machine to completion or to the first hook error,
/// recording every hook invocation in the ghost trace after the given
/// prefix. On success the trace is the prefix, every owed event, then
/// `Finish`; on a hook error it is the prefix plus a non-empty part of the
/// owed events, ending at the erring hook's event, and `finish` is never
/// invoked.
#[verifier::loop_isolation(false)]
fn run_frames<'e, V: Visitor>(
    frames: Vec<Frame<'e>>,
    visitor: V,
    Ghost(prefix): Ghost<Seq<TraceEv>>,
) -> (res: (Result<V::Output, V::Err>, Ghost<Seq<TraceEv>>))
    ensures
        res.0 is Ok ==> res.1@ == prefix + stack_events(frames@) + seq![TraceEv::Finish],
        res.1@ == prefix + stack_events(frames@) + seq![TraceEv::Finish] || (res.0 is Err
            && trace_stopped(res.1@, prefix, stack_events(frames@))),
{
    let ghost owed = stack_events(frames@);
    let ghost total = prefix + owed;
    let mut stack = frames;
    let mut visitor = visitor;
    let ghost mut done: Seq<TraceEv> = prefix;
    loop
        invariant
            done + stack_events(stack@) == total,
            done.len() >= prefix.len(),
            total == prefix + owed,
        decreases stack_events(stack@).len(),
    {
        let ghost st_before = stack@;
        match stack.pop() {
            None => {
                proof {
                    assert(done =~= total);
                    done = done.push(TraceEv::Finish);
                    assert(done =~= prefix + owed + seq![TraceEv::Finish]);
                }
                return (visitor.finish(), Ghost(done));
            },
            Some(Frame::PostExpr(e)) => {
                proof {
                    done = done.push(TraceEv::ExprPost(e@));
                    assert(done + stack_events(stack@) =~= total);
                }
                match visitor.visit_expr_post(e) {
                    Ok(()) => {},
                    Err(err) => {
                        proof {
                            lemma_abort_prefix(done, stack_events(stack@), owed, prefix);
                        }
                        return (Err(err), Ghost(done));
                    },
                }
            },
            Some(Frame::PreExpr(e)) => {
                push_expr(&mut stack, e);
                proof {
                    seq_assoc(
                        expr_child_events(e@.kind),
                        seq![TraceEv::ExprPost(e@)],
                        stack_events(st_before.drop_last()),
                    );
                    done = done.push(TraceEv::ExprPre(e@));
                    assert(done + stack_events(stack@) =~= total);
                }
                match visitor.visit_expr_pre(e) {
                    Ok(()) => {},
                    Err(err) => {
                        proof {
                            lemma_abort_prefix(done, stack_events(stack@), owed, prefix);
                        }
                        return (Err(err), Ghost(done));
                    },
                }
            },
            Some(Frame::PostStmt(s)) => {
                proof {
                    done = done.push(TraceEv::StmtPost(s@));
                    assert(done + stack_events(stack@) =~= total);
                }
                match visitor.visit_stmt_post(s) {
                    Ok(()) => {},
                    Err(err) => {
                        proof {
                            lemma_abort_prefix(done, stack_events(stack@), owed, prefix);
                        }
                        return (Err(err), Ghost(done));
                    },
                }
            },
            Some(Frame::PreStmt(s)) => {
                push_stmt(&mut stack, s);
                proof {
                    seq_assoc(
                        stmt_child_events(s@.kind),
                        seq![TraceEv::StmtPost(s@)],
                        stack_events(st_before.drop_last()),
                    );
                    done = done.push(TraceEv::StmtPre(s@));
                    assert(done + stack_events(stack@) =~= total);
                }
                match visitor.visit_stmt_pre(s) {
                    Ok(()) => {},
                    Err(err) => {
                        proof {
                            lemma_abort_prefix(done, stack_events(stack@), owed, prefix);
                        }
                        return (Err(err), Ghost(done));
                    },
                }
            },
        }
    }
}

/// Traverse `expr` depth-first with the given visitor, and also return the
/// trace of hook events the run produced. A run that no hook aborted
/// produced exactly the per-variant source order of `expr_events`; an
/// aborted run produced a prefix of it, stopped at the erring hook, and
/// never reached `finish`.
pub fn visit_expr_traced<V: Visitor>(visitor: V, expr: &Expr) -> (res: (
    Result<V::Output, V::Err>,
    Ghost<Seq<TraceEv>>,
))
    ensures
        res.0 is Ok ==> res.1@ == complete_expr_trace(expr@),
        res.1@ == complete_expr_trace(expr@) || (res.0 is Err && aborted_expr_trace(
            res.1@,
            expr@,
        )),
{
    let mut visitor = visitor;
    visitor.start();
    let mut stack: Vec<Frame<'_>> = Vec::new();
    push_expr(&mut stack, expr);
    proof {
        assert(stack_events(stack@) =~= expr_events(expr@).drop_first());
    }
    let ghost owed = stack_events(stack@);
    let ghost prefix = seq![TraceEv::Start, TraceEv::ExprPre(expr@)];
    let res = match visitor.visit_expr_pre(expr) {
        Ok(()) => run_frames(stack, visitor, Ghost(prefix)),
        Err(err) => (Err(err), Ghost(prefix)),
    };
    proof {
        lemma_entry_trace(res.1@, res.0 is Ok, expr@, owed);
    }
    res
}

/// Traverse `stmt` depth-first with the given visitor, and also return the
/// trace of hook events the run produced.
pub fn visit_stmt_traced<V: Visitor>(visitor: V, stmt: &Statement) -> (res: (
    Result<V::Output, V::Err>,
    Ghost<Seq<TraceEv>>,
))
    ensures
        res.0 is Ok ==> res.1@ == complete_stmt_trace(stmt@),
        res.1@ == complete_stmt_trace(stmt@) || (res.0 is Err && aborted_stmt_trace(
            res.1@,
            stmt@,
        )),
{
    let mut visitor = visitor;
    visitor.start();
    let mut stack: Vec<Frame<'_>> = Vec::new();
    push_stmt(&mut stack, stmt);
    proof {
        assert(stack_events(stack@) =~= stmt_events(stmt@).drop_first());
    }
    let ghost owed = stack_events(stack@);
    let ghost prefix = seq![TraceEv::Start, TraceEv::StmtPre(stmt@)];
    let res = match visitor.visit_stmt_pre(stmt) {
        Ok(()) => run_frames(stack, visitor, Ghost(prefix)),
        Err(err) => (Err(err), Ghost(prefix)),
    };
    proof {
        lemma_entry_stmt_trace(res.1@, res.0 is Ok, stmt@, owed);
    }
    res
}

/// Lift the trace contract of the frame loop, whose prefix already holds
/// the root's pre-order event, to the advertised whole-traversal shape.
proof fn lemma_entry_trace(t: Seq<TraceEv>, ok: bool, e: ExprV, owed: Seq<TraceEv>)
    requires
        owed == expr_events(e).drop_first(),
        ok ==> t == seq![TraceEv::Start, TraceEv::ExprPre(e)] + owed + seq![TraceEv::Finish],
        t == seq![TraceEv::Start, TraceEv::ExprPre(e)] + owed + seq![TraceEv::Finish] || t == seq![
            TraceEv::Start,
            TraceEv::ExprPre(e),
        ] || trace_stopped(t, seq![TraceEv::Start, TraceEv::ExprPre(e)], owed),
    ensures
        ok ==> t == complete_expr_trace(e),
        t == complete_expr_trace(e) || aborted_expr_trace(t, e),
{
    let ev = expr_events(e);
    assert(ev.len() >= 2) by {
        assert(ev == seq![TraceEv::ExprPre(e)] + expr_child_events(e.kind) + seq![
            TraceEv::ExprPost(e),
        ]);
    }
    if t == seq![TraceEv::Start, TraceEv::ExprPre(e)] + owed + seq![TraceEv::Finish] {
        assert(t =~= complete_expr_trace(e));
    } else if t == seq![TraceEv::Start, TraceEv::ExprPre(e)] {
        assert(t =~= seq![TraceEv::Start] + ev.take(1));
        assert(aborted_expr_trace(t, e));
    } else {
        let k = choose|k: int|
            1 <= k <= owed.len() && t == seq![TraceEv::Start, TraceEv::ExprPre(e)] + owed.take(k);
        assert(t =~= seq![TraceEv::Start] + ev.take(k + 1));
        assert(aborted_expr_trace(t, e));
    }
}

/// Lift the trace contract of the frame loop to the statement entry point.
proof fn lemma_entry_stmt_trace(t: Seq<TraceEv>, ok: bool, s: StatementV, owed: Seq<TraceEv>)
    requires
        owed == stmt_events(s).drop_first(),
        ok ==> t == seq![TraceEv::Start, TraceEv::StmtPre(s)] + owed + seq![TraceEv::Finish],
        t == seq![TraceEv::Start, TraceEv::StmtPre(s)] + owed + seq![TraceEv::Finish] || t == seq![
            TraceEv::Start,
            TraceEv::StmtPre(s),
        ] || trace_stopped(t, seq![TraceEv::Start, TraceEv::StmtPre(s)], owed),
    ensures
        ok ==> t == complete_stmt_trace(s),
        t == complete_stmt_trace(s) || aborted_stmt_trace(t, s),
{
    let ev = stmt_events(s);
    assert(ev.len() >= 2) by {
        assert(ev == seq![TraceEv::StmtPre(s)] + stmt_child_events(s.kind) + seq![
            TraceEv::StmtPost(s),
        ]);
    }
    if t == seq![TraceEv::Start, TraceEv::StmtPre(s)] + owed + seq![TraceEv::Finish] {
        assert(t =~= complete_stmt_trace(s));
    } else if t == seq![TraceEv::Start, TraceEv::StmtPre(s)] {
        assert(t =~= seq![TraceEv::Start] + ev.take(1));
        assert(aborted_stmt_trace(t, s));
    } else {
        let k = choose|k: int|
            1 <= k <= owed.len() && t == seq![TraceEv::Start, TraceEv::StmtPre(s)] + owed.take(k);
        assert(t =~= seq![TraceEv::Start] + ev.take(k + 1));
        assert(aborted_stmt_trace(t, s));
    }
}

/// Traverse `expr` depth-first: `start`, then the hooks in the per-variant
/// source order of `expr_events`, then `finish`; the traced entry point
/// above carries the proved trace contract.
pub fn visit_expr<V: Visitor>(visitor: V, expr: &Expr) -> Result<V::Output, V::Err> {
    let (r, _) = visit_expr_traced(visitor, expr);
    r
}

/// Traverse `stmt` depth-first, as `visit_expr` does an expression.
pub fn visit_stmt<V: Visitor>(visitor: V, stmt: &Statement) -> Result<V::Output, V::Err> {
    let (r, _) = visit_stmt_traced(visitor, stmt);
    r
}

} // verus!
