//! One shared traversal serves every expression-level rule: it calls a
//! per-statement and a per-expression contribution for the chosen visitor
//! at each node, in source order, and collects the findings.

use vstd::prelude::*;

use crate::ast::{Arm, Expr, Item, Stmt, SyntaxTree};
use crate::issues::{Issue, IssueV};

verus! {

/// The expression-level rule a traversal runs, with any state it needs.
pub enum Visitor {
    UnwrapUsage,
    TodoMacros,
    MustUse(Vec<String>),
    AntiPatterns,
}

/// The mathematical value of a `Visitor`.
pub enum VisitorV {
    UnwrapUsage,
    TodoMacros,
    MustUse(Seq<Seq<char>>),
    AntiPatterns,
}

impl View for Visitor {
    type V = VisitorV;

    open spec fn view(&self) -> VisitorV {
        match self {
            Visitor::UnwrapUsage => VisitorV::UnwrapUsage,
            Visitor::TodoMacros => VisitorV::TodoMacros,
            Visitor::MustUse(list) => VisitorV::MustUse(list.deep_view()),
            Visitor::AntiPatterns => VisitorV::AntiPatterns,
        }
    }
}

/// What the visitor reports at one statement, before descending into it.
pub open spec fn stmt_contrib(v: VisitorV, s: Stmt) -> Seq<IssueV> {
    match v {
        VisitorV::MustUse(list) => crate::rules::must_use::mu_stmt_contrib(list, s),
        _ => Seq::empty(),
    }
}

/// What the visitor reports at one expression node.
pub open spec fn expr_contrib(v: VisitorV, e: Expr) -> Seq<IssueV> {
    match v {
        VisitorV::UnwrapUsage => crate::rules::unwrap_usage::unwrap_contrib(e),
        VisitorV::TodoMacros => crate::rules::todo_macros::todo_contrib(e),
        VisitorV::MustUse(list) => crate::rules::must_use::mu_expr_contrib(list, e),
        VisitorV::AntiPatterns => crate::rules::anti_patterns::anti_contrib(e),
    }
}

/// Everything the visitor reports in an expression subtree: the node's own
/// contribution, then the children's, in source order.
pub open spec fn walk_expr(v: VisitorV, e: Expr) -> Seq<IssueV>
    decreases e,
{
    expr_contrib(v, e) + match e {
        Expr::Call { func, args } => walk_expr(v, *func) + walk_exprs(v, args@),
        Expr::MethodCall { receiver, args, .. } => walk_expr(v, *receiver) + walk_exprs(v, args@),
        Expr::MacroCall { .. } => Seq::empty(),
        Expr::If { cond, then_body, else_body } => walk_expr(v, *cond) + walk_stmts(v, then_body@)
            + match else_body {
            Some(b) => walk_expr(v, *b),
            None => Seq::empty(),
        },
        Expr::Match { scrutinee, arms, .. } => walk_expr(v, *scrutinee) + walk_arms(v, arms@),
        Expr::While { cond, body } => walk_expr(v, *cond) + walk_stmts(v, body@),
        Expr::ForLoop { iter, body, .. } => walk_expr(v, *iter) + walk_stmts(v, body@),
        Expr::Loop { body } => walk_stmts(v, body@),
        Expr::Binary { left, right, .. } => walk_expr(v, *left) + walk_expr(v, *right),
        Expr::Lit { .. } => Seq::empty(),
        Expr::PathExpr { .. } => Seq::empty(),
        Expr::Reference { inner } => walk_expr(v, *inner),
        Expr::LetExpr { inner, .. } => walk_expr(v, *inner),
        Expr::RangeExpr { start, end } => (match start {
            Some(b) => walk_expr(v, *b),
            None => Seq::empty(),
        }) + (match end {
            Some(b) => walk_expr(v, *b),
            None => Seq::empty(),
        }),
        Expr::Block { body } => walk_stmts(v, body@),
        Expr::Other { children } => walk_exprs(v, children@),
    }
}

/// The visitor's findings in a list of expressions, in order.
pub open spec fn walk_exprs(v: VisitorV, es: Seq<Expr>) -> Seq<IssueV>
    decreases es,
{
    if es.len() == 0 {
        Seq::empty()
    } else {
        walk_expr(v, es[0]) + walk_exprs(v, es.drop_first())
    }
}

/// The visitor's findings in one statement.
pub open spec fn walk_stmt(v: VisitorV, s: Stmt) -> Seq<IssueV>
    decreases s,
{
    stmt_contrib(v, s) + match s {
        Stmt::ExprStmt(e) => walk_expr(v, e),
        Stmt::LocalStmt(Some(e)) => walk_expr(v, e),
        Stmt::LocalStmt(None) => Seq::empty(),
        Stmt::OtherStmt => Seq::empty(),
    }
}

/// The visitor's findings in a list of statements, in order.
pub open spec fn walk_stmts(v: VisitorV, ss: Seq<Stmt>) -> Seq<IssueV>
    decreases ss,
{
    if ss.len() == 0 {
        Seq::empty()
    } else {
        walk_stmt(v, ss[0]) + walk_stmts(v, ss.drop_first())
    }
}

/// The visitor's findings in a list of match arms, in order.
pub open spec fn walk_arms(v: VisitorV, arms: Seq<Arm>) -> Seq<IssueV>
    decreases arms,
{
    if arms.len() == 0 {
        Seq::empty()
    } else {
        walk_expr(v, arms[0].body) + walk_arms(v, arms.drop_first())
    }
}

/// The visitor's findings in one item: the statement bodies of a function,
/// or those kept from any other item shape.
pub open spec fn walk_item(v: VisitorV, it: Item) -> Seq<IssueV> {
    match it {
        Item::Fn(f) => walk_stmts(v, f.body@),
        Item::Other(o) => walk_stmts(v, o.stmts@),
        _ => Seq::empty(),
    }
}

/// The visitor's findings over the file's items, in order.
pub open spec fn walk_items(v: VisitorV, items: Seq<Item>) -> Seq<IssueV>
    decreases items,
{
    if items.len() == 0 {
        Seq::empty()
    } else {
        walk_item(v, items[0]) + walk_items(v, items.drop_first())
    }
}

fn exec_stmt_contrib(v: &Visitor, s: &Stmt, out: &mut Vec<Issue>)
    ensures
        final(out).deep_view() == old(out).deep_view() + stmt_contrib(v@, *s),
{
    match v {
        Visitor::MustUse(list) => {
            crate::rules::must_use::exec_mu_stmt_contrib(list, s, out);
        }
        _ => {
            proof {
                assert(out.deep_view() =~= out.deep_view() + stmt_contrib(v@, *s));
            }
        }
    }
}

fn exec_expr_contrib(v: &Visitor, e: &Expr, out: &mut Vec<Issue>)
    ensures
        final(out).deep_view() == old(out).deep_view() + expr_contrib(v@, *e),
{
    match v {
        Visitor::UnwrapUsage => {
            crate::rules::unwrap_usage::exec_unwrap_contrib(e, out);
        }
        Visitor::TodoMacros => {
            crate::rules::todo_macros::exec_todo_contrib(e, out);
        }
        Visitor::MustUse(list) => {
            crate::rules::must_use::exec_mu_expr_contrib(list, e, out);
        }
        Visitor::AntiPatterns => {
            crate::rules::anti_patterns::exec_anti_contrib(e, out);
        }
    }
}

#[verifier::loop_isolation(false)]
fn visit_expr(v: &Visitor, e: &Expr, out: &mut Vec<Issue>)
    ensures
        final(out).deep_view() == old(out).deep_view() + walk_expr(v@, *e),
    decreases *e,
{
    exec_expr_contrib(v, e, out);
    match e {
        Expr::Call { func, args } => {
            visit_expr(v, &**func, out);
            visit_exprs(v, args, out);
        }
        Expr::MethodCall { receiver, args, .. } => {
            visit_expr(v, &**receiver, out);
            visit_exprs(v, args, out);
        }
        Expr::MacroCall { .. } => {}
        Expr::If { cond, then_body, else_body } => {
            visit_expr(v, &**cond, out);
            visit_stmts(v, then_body, out);
            match else_body {
                Some(b) => {
                    visit_expr(v, &**b, out);
                }
                None => {}
            }
        }
        Expr::Match { scrutinee, arms, .. } => {
            visit_expr(v, &**scrutinee, out);
            visit_arms(v, arms, out);
        }
        Expr::While { cond, body } => {
            visit_expr(v, &**cond, out);
            visit_stmts(v, body, out);
        }
        Expr::ForLoop { iter, body, .. } => {
            visit_expr(v, &**iter, out);
            visit_stmts(v, body, out);
        }
        Expr::Loop { body } => {
            visit_stmts(v, body, out);
        }
        Expr::Binary { left, right, .. } => {
            visit_expr(v, &**left, out);
            visit_expr(v, &**right, out);
        }
        Expr::Lit { .. } => {}
        Expr::PathExpr { .. } => {}
        Expr::Reference { inner } => {
            visit_expr(v, &**inner, out);
        }
        Expr::LetExpr { inner, .. } => {
            visit_expr(v, &**inner, out);
        }
        Expr::RangeExpr { start, end } => {
            match start {
                Some(b) => {
                    visit_expr(v, &**b, out);
                }
                None => {}
            }
            match end {
                Some(b) => {
                    visit_expr(v, &**b, out);
                }
                None => {}
            }
        }
        Expr::Block { body } => {
            visit_stmts(v, body, out);
        }
        Expr::Other { children } => {
            visit_exprs(v, children, out);
        }
    }
    proof {
        assert(final(out).deep_view() =~= old(out).deep_view() + walk_expr(v@, *e));
    }
}

#[verifier::loop_isolation(false)]
fn visit_exprs(v: &Visitor, es: &Vec<Expr>, out: &mut Vec<Issue>)
    ensures
        final(out).deep_view() == old(out).deep_view() + walk_exprs(v@, es@),
    decreases es@,
{
    let ghost pre = out.deep_view();
    let mut i: usize = 0;
    proof {
        assert(es@.skip(0) =~= es@);
    }
    while i < es.len()
        invariant
            i <= es.len(),
            pre + walk_exprs(v@, es@) == out.deep_view() + walk_exprs(v@, es@.skip(i as int)),
        decreases es.len() - i,
    {
        proof {
            assert(es@.skip(i as int).drop_first() =~= es@.skip(i as int + 1));
            assert(es@.skip(i as int)[0] == es@[i as int]);
        }
        let ghost mid = out.deep_view();
        visit_expr(v, &es[i], out);
        proof {
            assert(out.deep_view() + walk_exprs(v@, es@.skip(i as int + 1)) =~= mid + (walk_expr(
                v@,
                es@[i as int],
            ) + walk_exprs(v@, es@.skip(i as int + 1))));
        }
        i = i + 1;
    }
    proof {
        assert(es@.skip(es@.len() as int) =~= Seq::<Expr>::empty());
        assert(final(out).deep_view() =~= pre + walk_exprs(v@, es@));
    }
}

#[verifier::loop_isolation(false)]
fn visit_stmt(v: &Visitor, s: &Stmt, out: &mut Vec<Issue>)
    ensures
        final(out).deep_view() == old(out).deep_view() + walk_stmt(v@, *s),
    decreases *s,
{
    exec_stmt_contrib(v, s, out);
    match s {
        Stmt::ExprStmt(e) => {
            visit_expr(v, e, out);
        }
        Stmt::LocalStmt(Some(e)) => {
            visit_expr(v, e, out);
        }
        Stmt::LocalStmt(None) => {}
        Stmt::OtherStmt => {}
    }
    proof {
        assert(final(out).deep_view() =~= old(out).deep_view() + walk_stmt(v@, *s));
    }
}

#[verifier::loop_isolation(false)]
fn visit_stmts(v: &Visitor, ss: &Vec<Stmt>, out: &mut Vec<Issue>)
    ensures
        final(out).deep_view() == old(out).deep_view() + walk_stmts(v@, ss@),
    decreases ss@,
{
    let ghost pre = out.deep_view();
    let mut i: usize = 0;
    proof {
        assert(ss@.skip(0) =~= ss@);
    }
    while i < ss.len()
        invariant
            i <= ss.len(),
            pre + walk_stmts(v@, ss@) == out.deep_view() + walk_stmts(v@, ss@.skip(i as int)),
        decreases ss.len() - i,
    {
        proof {
            assert(ss@.skip(i as int).drop_first() =~= ss@.skip(i as int + 1));
            assert(ss@.skip(i as int)[0] == ss@[i as int]);
        }
        let ghost mid = out.deep_view();
        visit_stmt(v, &ss[i], out);
        proof {
            assert(out.deep_view() + walk_stmts(v@, ss@.skip(i as int + 1)) =~= mid + (walk_stmt(
                v@,
                ss@[i as int],
            ) + walk_stmts(v@, ss@.skip(i as int + 1))));
        }
        i = i + 1;
    }
    proof {
        assert(ss@.skip(ss@.len() as int) =~= Seq::<Stmt>::empty());
        assert(final(out).deep_view() =~= pre + walk_stmts(v@, ss@));
    }
}

#[verifier::loop_isolation(false)]
fn visit_arms(v: &Visitor, arms: &Vec<Arm>, out: &mut Vec<Issue>)
    ensures
        final(out).deep_view() == old(out).deep_view() + walk_arms(v@, arms@),
    decreases arms@,
{
    let ghost pre = out.deep_view();
    let mut i: usize = 0;
    proof {
        assert(arms@.skip(0) =~= arms@);
    }
    while i < arms.len()
        invariant
            i <= arms.len(),
            pre + walk_arms(v@, arms@) == out.deep_view() + walk_arms(v@, arms@.skip(i as int)),
        decreases arms.len() - i,
    {
        proof {
            assert(arms@.skip(i as int).drop_first() =~= arms@.skip(i as int + 1));
            assert(arms@.skip(i as int)[0] == arms@[i as int]);
        }
        let ghost mid = out.deep_view();
        visit_expr(v, &arms[i].body, out);
        proof {
            assert(out.deep_view() + walk_arms(v@, arms@.skip(i as int + 1)) =~= mid + (walk_expr(
                v@,
                arms@[i as int].body,
            ) + walk_arms(v@, arms@.skip(i as int + 1))));
        }
        i = i + 1;
    }
    proof {
        assert(arms@.skip(arms@.len() as int) =~= Seq::<Arm>::empty());
        assert(final(out).deep_view() =~= pre + walk_arms(v@, arms@));
    }
}

/// Runs the visitor over every item of the file and returns its findings,
/// in source order.
#[verifier::loop_isolation(false)]
pub fn visitor_issues(v: &Visitor, tree: &SyntaxTree) -> (r: Vec<Issue>)
    ensures
        r.deep_view() == walk_items(v@, tree.items@),
{
    let mut out: Vec<Issue> = Vec::new();
    let ghost all = tree.items@;
    let mut i: usize = 0;
    proof {
        assert(all.skip(0) =~= all);
        assert(out.deep_view() =~= Seq::<IssueV>::empty());
    }
    while i < tree.items.len()
        invariant
            i <= tree.items.len(),
            walk_items(v@, all) == out.deep_view() + walk_items(v@, all.skip(i as int)),
        decreases tree.items.len() - i,
    {
        proof {
            assert(all.skip(i as int).drop_first() =~= all.skip(i as int + 1));
            assert(all.skip(i as int)[0] == all[i as int]);
        }
        let ghost mid = out.deep_view();
        match &tree.items[i] {
            Item::Fn(f) => {
                visit_stmts(v, &f.body, &mut out);
            }
            Item::Other(o) => {
                visit_stmts(v, &o.stmts, &mut out);
            }
            _ => {}
        }
        proof {
            assert(out.deep_view() + walk_items(v@, all.skip(i as int + 1)) =~= mid + (walk_item(
                v@,
                all[i as int],
            ) + walk_items(v@, all.skip(i as int + 1))));
        }
        i = i + 1;
    }
    proof {
        assert(all.skip(all.len() as int) =~= Seq::<Item>::empty());
        assert(out.deep_view() =~= walk_items(v@, all));
    }
    out
}

} // verus!
