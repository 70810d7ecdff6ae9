//! Function complexity metrics: cyclomatic complexity counts decision
//! points; cognitive complexity weights each decision by its nesting
//! depth. Each metric has a rule with a configured ceiling.

use vstd::prelude::*;

use crate::ast::{Arm, BinOp, Expr, FnItem, Item, Stmt};
use crate::issues::{Issue, IssueV, Location, Severity};
use crate::rules::{ctx_adds, RuleContext};
use crate::text::{dec_str, sat_add, sat_add_usize};

verus! {

/// A count clipped to the largest representable value.
pub open spec fn sat_val(x: nat) -> nat {
    if x > usize::MAX {
        usize::MAX as nat
    } else {
        x
    }
}

pub proof fn lemma_sat(a: nat, b: nat)
    ensures
        sat_add(sat_val(a), sat_val(b)) == sat_val(a + b),
{
}

/// Decision points in one expression subtree: conditionals, match arms
/// beyond the first, loop constructs, and short-circuit operators.
pub open spec fn cyc_expr(e: Expr) -> nat
    decreases e,
{
    match e {
        Expr::Call { func, args } => cyc_expr(*func) + cyc_exprs(args@),
        Expr::MethodCall { receiver, args, .. } => cyc_expr(*receiver) + cyc_exprs(args@),
        Expr::MacroCall { .. } => 0,
        Expr::If { cond, then_body, else_body } => 1 + cyc_expr(*cond) + cyc_stmts(then_body@)
            + match else_body {
            Some(b) => cyc_expr(*b),
            None => 0,
        },
        Expr::Match { scrutinee, arms, .. } => (if arms.len() > 0 {
            (arms.len() - 1) as nat
        } else {
            0
        }) + cyc_expr(*scrutinee) + cyc_arms(arms@),
        Expr::While { cond, body } => 1 + cyc_expr(*cond) + cyc_stmts(body@),
        Expr::ForLoop { iter, body, .. } => 1 + cyc_expr(*iter) + cyc_stmts(body@),
        Expr::Loop { body } => 1 + cyc_stmts(body@),
        Expr::Binary { op, left, right } => (if op == BinOp::And || op == BinOp::Or {
            1nat
        } else {
            0nat
        }) + cyc_expr(*left) + cyc_expr(*right),
        Expr::Lit { .. } => 0,
        Expr::PathExpr { .. } => 0,
        Expr::Reference { inner } => cyc_expr(*inner),
        Expr::LetExpr { inner, .. } => cyc_expr(*inner),
        Expr::RangeExpr { start, end } => (match start {
            Some(b) => cyc_expr(*b),
            None => 0,
        }) + (match end {
            Some(b) => cyc_expr(*b),
            None => 0,
        }),
        Expr::Block { body } => cyc_stmts(body@),
        Expr::Other { children } => cyc_exprs(children@),
    }
}

pub open spec fn cyc_exprs(es: Seq<Expr>) -> nat
    decreases es,
{
    if es.len() == 0 {
        0
    } else {
        cyc_expr(es[0]) + cyc_exprs(es.drop_first())
    }
}

pub open spec fn cyc_stmt(s: Stmt) -> nat
    decreases s,
{
    match s {
        Stmt::ExprStmt(e) => cyc_expr(e),
        Stmt::LocalStmt(Some(e)) => cyc_expr(e),
        Stmt::LocalStmt(None) => 0,
        Stmt::OtherStmt => 0,
    }
}

pub open spec fn cyc_stmts(ss: Seq<Stmt>) -> nat
    decreases ss,
{
    if ss.len() == 0 {
        0
    } else {
        cyc_stmt(ss[0]) + cyc_stmts(ss.drop_first())
    }
}

pub open spec fn cyc_arms(arms: Seq<Arm>) -> nat
    decreases arms,
{
    if arms.len() == 0 {
        0
    } else {
        cyc_expr(arms[0].body) + cyc_arms(arms.drop_first())
    }
}

/// Cyclomatic complexity of a function body: one base path plus its
/// decision points.
pub open spec fn cyclomatic(body: Seq<Stmt>) -> nat {
    1 + cyc_stmts(body)
}

/// Cognitive weight of one expression subtree at nesting depth `d`: each
/// decision costs one plus its depth, bodies nest one deeper, and each
/// short-circuit operator costs one.
pub open spec fn cog_expr(e: Expr, d: nat) -> nat
    decreases e,
{
    match e {
        Expr::Call { func, args } => cog_expr(*func, d) + cog_exprs(args@, d),
        Expr::MethodCall { receiver, args, .. } => cog_expr(*receiver, d) + cog_exprs(args@, d),
        Expr::MacroCall { .. } => 0,
        Expr::If { cond, then_body, else_body } => 1 + d + cog_expr(*cond, d) + cog_stmts(
            then_body@,
            sat_add(d, 1),
        ) + match else_body {
            Some(b) => cog_expr(*b, sat_add(d, 1)),
            None => 0,
        },
        Expr::Match { scrutinee, arms, .. } => 1 + d + cog_expr(*scrutinee, d) + cog_arms(
            arms@,
            sat_add(d, 1),
        ),
        Expr::While { cond, body } => 1 + d + cog_expr(*cond, d) + cog_stmts(body@, sat_add(d, 1)),
        Expr::ForLoop { iter, body, .. } => 1 + d + cog_expr(*iter, d) + cog_stmts(
            body@,
            sat_add(d, 1),
        ),
        Expr::Loop { body } => 1 + d + cog_stmts(body@, sat_add(d, 1)),
        Expr::Binary { op, left, right } => (if op == BinOp::And || op == BinOp::Or {
            1nat
        } else {
            0nat
        }) + cog_expr(*left, d) + cog_expr(*right, d),
        Expr::Lit { .. } => 0,
        Expr::PathExpr { .. } => 0,
        Expr::Reference { inner } => cog_expr(*inner, d),
        Expr::LetExpr { inner, .. } => cog_expr(*inner, d),
        Expr::RangeExpr { start, end } => (match start {
            Some(b) => cog_expr(*b, d),
            None => 0,
        }) + (match end {
            Some(b) => cog_expr(*b, d),
            None => 0,
        }),
        Expr::Block { body } => cog_stmts(body@, d),
        Expr::Other { children } => cog_exprs(children@, d),
    }
}

pub open spec fn cog_exprs(es: Seq<Expr>, d: nat) -> nat
    decreases es,
{
    if es.len() == 0 {
        0
    } else {
        cog_expr(es[0], d) + cog_exprs(es.drop_first(), d)
    }
}

pub open spec fn cog_stmt(s: Stmt, d: nat) -> nat
    decreases s,
{
    match s {
        Stmt::ExprStmt(e) => cog_expr(e, d),
        Stmt::LocalStmt(Some(e)) => cog_expr(e, d),
        Stmt::LocalStmt(None) => 0,
        Stmt::OtherStmt => 0,
    }
}

pub open spec fn cog_stmts(ss: Seq<Stmt>, d: nat) -> nat
    decreases ss,
{
    if ss.len() == 0 {
        0
    } else {
        cog_stmt(ss[0], d) + cog_stmts(ss.drop_first(), d)
    }
}

pub open spec fn cog_arms(arms: Seq<Arm>, d: nat) -> nat
    decreases arms,
{
    if arms.len() == 0 {
        0
    } else {
        cog_expr(arms[0].body, d) + cog_arms(arms.drop_first(), d)
    }
}

/// Cognitive complexity of a function body, measured from depth zero.
pub open spec fn cognitive(body: Seq<Stmt>) -> nat {
    cog_stmts(body, 0)
}

#[verifier::loop_isolation(false)]
fn exec_cyc_expr(e: &Expr) -> (r: usize)
    ensures
        r as nat == sat_val(cyc_expr(*e)),
    decreases *e,
{
    match e {
        Expr::Call { func, args } => sat_add_usize(exec_cyc_expr(&**func), exec_cyc_exprs(args)),
        Expr::MethodCall { receiver, args, .. } => sat_add_usize(
            exec_cyc_expr(&**receiver),
            exec_cyc_exprs(args),
        ),
        Expr::MacroCall { .. } => 0,
        Expr::If { cond, then_body, else_body } => {
            let a = sat_add_usize(1, exec_cyc_expr(&**cond));
            let b = sat_add_usize(a, exec_cyc_stmts(then_body));
            match else_body {
                Some(eb) => sat_add_usize(b, exec_cyc_expr(&**eb)),
                None => b,
            }
        }
        Expr::Match { scrutinee, arms, .. } => {
            let base = if arms.len() > 0 {
                arms.len() - 1
            } else {
                0
            };
            let a = sat_add_usize(base, exec_cyc_expr(&**scrutinee));
            sat_add_usize(a, exec_cyc_arms(arms))
        }
        Expr::While { cond, body } => {
            let a = sat_add_usize(1, exec_cyc_expr(&**cond));
            sat_add_usize(a, exec_cyc_stmts(body))
        }
        Expr::ForLoop { iter, body, .. } => {
            let a = sat_add_usize(1, exec_cyc_expr(&**iter));
            sat_add_usize(a, exec_cyc_stmts(body))
        }
        Expr::Loop { body } => sat_add_usize(1, exec_cyc_stmts(body)),
        Expr::Binary { op, left, right } => {
            let base: usize = match op {
                BinOp::And => 1,
                BinOp::Or => 1,
                BinOp::Other => 0,
            };
            let a = sat_add_usize(base, exec_cyc_expr(&**left));
            sat_add_usize(a, exec_cyc_expr(&**right))
        }
        Expr::Lit { .. } => 0,
        Expr::PathExpr { .. } => 0,
        Expr::Reference { inner } => exec_cyc_expr(&**inner),
        Expr::LetExpr { inner, .. } => exec_cyc_expr(&**inner),
        Expr::RangeExpr { start, end } => {
            let a = match start {
                Some(b) => exec_cyc_expr(&**b),
                None => 0,
            };
            match end {
                Some(b) => sat_add_usize(a, exec_cyc_expr(&**b)),
                None => a,
            }
        }
        Expr::Block { body } => exec_cyc_stmts(body),
        Expr::Other { children } => exec_cyc_exprs(children),
    }
}

#[verifier::loop_isolation(false)]
fn exec_cyc_exprs(es: &Vec<Expr>) -> (r: usize)
    ensures
        r as nat == sat_val(cyc_exprs(es@)),
    decreases es@,
{
    let mut c: usize = 0;
    let ghost mut t: nat = 0nat;
    let mut i: usize = 0;
    proof {
        assert(es@.skip(0) =~= es@);
    }
    while i < es.len()
        invariant
            i <= es.len(),
            c as nat == sat_val(t),
            cyc_exprs(es@) == t + cyc_exprs(es@.skip(i as int)),
        decreases es.len() - i,
    {
        proof {
            assert(es@.skip(i as int).drop_first() =~= es@.skip(i as int + 1));
            assert(es@.skip(i as int)[0] == es@[i as int]);
        }
        let v = exec_cyc_expr(&es[i]);
        proof {
            lemma_sat(t, cyc_expr(es@[i as int]));
        }
        c = sat_add_usize(c, v);
        proof {
            t = t + cyc_expr(es@[i as int]);
        }
        i = i + 1;
    }
    proof {
        assert(es@.skip(es@.len() as int) =~= Seq::<Expr>::empty());
    }
    c
}

#[verifier::loop_isolation(false)]
fn exec_cyc_stmt(s: &Stmt) -> (r: usize)
    ensures
        r as nat == sat_val(cyc_stmt(*s)),
    decreases *s,
{
    match s {
        Stmt::ExprStmt(e) => exec_cyc_expr(e),
        Stmt::LocalStmt(Some(e)) => exec_cyc_expr(e),
        Stmt::LocalStmt(None) => 0,
        Stmt::OtherStmt => 0,
    }
}

#[verifier::loop_isolation(false)]
fn exec_cyc_stmts(ss: &Vec<Stmt>) -> (r: usize)
    ensures
        r as nat == sat_val(cyc_stmts(ss@)),
    decreases ss@,
{
    let mut c: usize = 0;
    let ghost mut t: nat = 0nat;
    let mut i: usize = 0;
    proof {
        assert(ss@.skip(0) =~= ss@);
    }
    while i < ss.len()
        invariant
            i <= ss.len(),
            c as nat == sat_val(t),
            cyc_stmts(ss@) == t + cyc_stmts(ss@.skip(i as int)),
        decreases ss.len() - i,
    {
        proof {
            assert(ss@.skip(i as int).drop_first() =~= ss@.skip(i as int + 1));
            assert(ss@.skip(i as int)[0] == ss@[i as int]);
        }
        let v = exec_cyc_stmt(&ss[i]);
        proof {
            lemma_sat(t, cyc_stmt(ss@[i as int]));
        }
        c = sat_add_usize(c, v);
        proof {
            t = t + cyc_stmt(ss@[i as int]);
        }
        i = i + 1;
    }
    proof {
        assert(ss@.skip(ss@.len() as int) =~= Seq::<Stmt>::empty());
    }
    c
}

#[verifier::loop_isolation(false)]
fn exec_cyc_arms(arms: &Vec<Arm>) -> (r: usize)
    ensures
        r as nat == sat_val(cyc_arms(arms@)),
    decreases arms@,
{
    let mut c: usize = 0;
    let ghost mut t: nat = 0nat;
    let mut i: usize = 0;
    proof {
        assert(arms@.skip(0) =~= arms@);
    }
    while i < arms.len()
        invariant
            i <= arms.len(),
            c as nat == sat_val(t),
            cyc_arms(arms@) == t + cyc_arms(arms@.skip(i as int)),
        decreases arms.len() - i,
    {
        proof {
            assert(arms@.skip(i as int).drop_first() =~= arms@.skip(i as int + 1));
            assert(arms@.skip(i as int)[0] == arms@[i as int]);
        }
        let v = exec_cyc_expr(&arms[i].body);
        proof {
            lemma_sat(t, cyc_expr(arms@[i as int].body));
        }
        c = sat_add_usize(c, v);
        proof {
            t = t + cyc_expr(arms@[i as int].body);
        }
        i = i + 1;
    }
    proof {
        assert(arms@.skip(arms@.len() as int) =~= Seq::<Arm>::empty());
    }
    c
}

/// Computes the cyclomatic complexity of a function body, clipped to the
/// largest representable value.
pub fn calculate_cyclomatic_complexity(stmts: &Vec<Stmt>) -> (r: usize)
    ensures
        r as nat == sat_val(cyclomatic(stmts@)),
{
    let c = exec_cyc_stmts(stmts);
    proof {
        lemma_sat(1, cyc_stmts(stmts@));
    }
    sat_add_usize(1, c)
}

#[verifier::loop_isolation(false)]
fn exec_cog_expr(e: &Expr, d: usize) -> (r: usize)
    ensures
        r as nat == sat_val(cog_expr(*e, d as nat)),
    decreases *e,
{
    match e {
        Expr::Call { func, args } => sat_add_usize(
            exec_cog_expr(&**func, d),
            exec_cog_exprs(args, d),
        ),
        Expr::MethodCall { receiver, args, .. } => sat_add_usize(
            exec_cog_expr(&**receiver, d),
            exec_cog_exprs(args, d),
        ),
        Expr::MacroCall { .. } => 0,
        Expr::If { cond, then_body, else_body } => {
            let d1 = sat_add_usize(d, 1);
            let a = sat_add_usize(sat_add_usize(1, d), exec_cog_expr(&**cond, d));
            let b = sat_add_usize(a, exec_cog_stmts(then_body, d1));
            match else_body {
                Some(eb) => sat_add_usize(b, exec_cog_expr(&**eb, d1)),
                None => b,
            }
        }
        Expr::Match { scrutinee, arms, .. } => {
            let d1 = sat_add_usize(d, 1);
            let a = sat_add_usize(sat_add_usize(1, d), exec_cog_expr(&**scrutinee, d));
            sat_add_usize(a, exec_cog_arms(arms, d1))
        }
        Expr::While { cond, body } => {
            let d1 = sat_add_usize(d, 1);
            let a = sat_add_usize(sat_add_usize(1, d), exec_cog_expr(&**cond, d));
            sat_add_usize(a, exec_cog_stmts(body, d1))
        }
        Expr::ForLoop { iter, body, .. } => {
            let d1 = sat_add_usize(d, 1);
            let a = sat_add_usize(sat_add_usize(1, d), exec_cog_expr(&**iter, d));
            sat_add_usize(a, exec_cog_stmts(body, d1))
        }
        Expr::Loop { body } => {
            let d1 = sat_add_usize(d, 1);
            sat_add_usize(sat_add_usize(1, d), exec_cog_stmts(body, d1))
        }
        Expr::Binary { op, left, right } => {
            let base: usize = match op {
                BinOp::And => 1,
                BinOp::Or => 1,
                BinOp::Other => 0,
            };
            let a = sat_add_usize(base, exec_cog_expr(&**left, d));
            sat_add_usize(a, exec_cog_expr(&**right, d))
        }
        Expr::Lit { .. } => 0,
        Expr::PathExpr { .. } => 0,
        Expr::Reference { inner } => exec_cog_expr(&**inner, d),
        Expr::LetExpr { inner, .. } => exec_cog_expr(&**inner, d),
        Expr::RangeExpr { start, end } => {
            let a = match start {
                Some(b) => exec_cog_expr(&**b, d),
                None => 0,
            };
            match end {
                Some(b) => sat_add_usize(a, exec_cog_expr(&**b, d)),
                None => a,
            }
        }
        Expr::Block { body } => exec_cog_stmts(body, d),
        Expr::Other { children } => exec_cog_exprs(children, d),
    }
}

#[verifier::loop_isolation(false)]
fn exec_cog_exprs(es: &Vec<Expr>, d: usize) -> (r: usize)
    ensures
        r as nat == sat_val(cog_exprs(es@, d as nat)),
    decreases es@,
{
    let mut c: usize = 0;
    let ghost mut t: nat = 0nat;
    let mut i: usize = 0;
    proof {
        assert(es@.skip(0) =~= es@);
    }
    while i < es.len()
        invariant
            i <= es.len(),
            c as nat == sat_val(t),
            cog_exprs(es@, d as nat) == t + cog_exprs(es@.skip(i as int), d as nat),
        decreases es.len() - i,
    {
        proof {
            assert(es@.skip(i as int).drop_first() =~= es@.skip(i as int + 1));
            assert(es@.skip(i as int)[0] == es@[i as int]);
        }
        let v = exec_cog_expr(&es[i], d);
        proof {
            lemma_sat(t, cog_expr(es@[i as int], d as nat));
        }
        c = sat_add_usize(c, v);
        proof {
            t = t + cog_expr(es@[i as int], d as nat);
        }
        i = i + 1;
    }
    proof {
        assert(es@.skip(es@.len() as int) =~= Seq::<Expr>::empty());
    }
    c
}

#[verifier::loop_isolation(false)]
fn exec_cog_stmt(s: &Stmt, d: usize) -> (r: usize)
    ensures
        r as nat == sat_val(cog_stmt(*s, d as nat)),
    decreases *s,
{
    match s {
        Stmt::ExprStmt(e) => exec_cog_expr(e, d),
        Stmt::LocalStmt(Some(e)) => exec_cog_expr(e, d),
        Stmt::LocalStmt(None) => 0,
        Stmt::OtherStmt => 0,
    }
}

#[verifier::loop_isolation(false)]
fn exec_cog_stmts(ss: &Vec<Stmt>, d: usize) -> (r: usize)
    ensures
        r as nat == sat_val(cog_stmts(ss@, d as nat)),
    decreases ss@,
{
    let mut c: usize = 0;
    let ghost mut t: nat = 0nat;
    let mut i: usize = 0;
    proof {
        assert(ss@.skip(0) =~= ss@);
    }
    while i < ss.len()
        invariant
            i <= ss.len(),
            c as nat == sat_val(t),
            cog_stmts(ss@, d as nat) == t + cog_stmts(ss@.skip(i as int), d as nat),
        decreases ss.len() - i,
    {
        proof {
            assert(ss@.skip(i as int).drop_first() =~= ss@.skip(i as int + 1));
            assert(ss@.skip(i as int)[0] == ss@[i as int]);
        }
        let v = exec_cog_stmt(&ss[i], d);
        proof {
            lemma_sat(t, cog_stmt(ss@[i as int], d as nat));
        }
        c = sat_add_usize(c, v);
        proof {
            t = t + cog_stmt(ss@[i as int], d as nat);
        }
        i = i + 1;
    }
    proof {
        assert(ss@.skip(ss@.len() as int) =~= Seq::<Stmt>::empty());
    }
    c
}

#[verifier::loop_isolation(false)]
fn exec_cog_arms(arms: &Vec<Arm>, d: usize) -> (r: usize)
    ensures
        r as nat == sat_val(cog_arms(arms@, d as nat)),
    decreases arms@,
{
    let mut c: usize = 0;
    let ghost mut t: nat = 0nat;
    let mut i: usize = 0;
    proof {
        assert(arms@.skip(0) =~= arms@);
    }
    while i < arms.len()
        invariant
            i <= arms.len(),
            c as nat == sat_val(t),
            cog_arms(arms@, d as nat) == t + cog_arms(arms@.skip(i as int), d as nat),
        decreases arms.len() - i,
    {
        proof {
            assert(arms@.skip(i as int).drop_first() =~= arms@.skip(i as int + 1));
            assert(arms@.skip(i as int)[0] == arms@[i as int]);
        }
        let v = exec_cog_expr(&arms[i].body, d);
        proof {
            lemma_sat(t, cog_expr(arms@[i as int].body, d as nat));
        }
        c = sat_add_usize(c, v);
        proof {
            t = t + cog_expr(arms@[i as int].body, d as nat);
        }
        i = i + 1;
    }
    proof {
        assert(arms@.skip(arms@.len() as int) =~= Seq::<Arm>::empty());
    }
    c
}

/// Computes the cognitive complexity of a function body, clipped to the
/// largest representable value.
pub fn calculate_cognitive_complexity(stmts: &Vec<Stmt>) -> (r: usize)
    ensures
        r as nat == sat_val(cognitive(stmts@)),
{
    exec_cog_stmts(stmts, 0)
}

/// The issue reported when a function's measured complexity exceeds the
/// ceiling, for the given metric wording.
pub open spec fn complexity_issue(
    rule: Seq<char>,
    metric: Seq<char>,
    f: FnItem,
    value: nat,
    max: nat,
) -> IssueV {
    IssueV {
        rule,
        severity: Severity::Warning,
        message: "Function '"@ + f.name@ + "' has "@ + metric + " complexity of "@ + dec_str(value)
            + " (max: "@ + dec_str(max) + ")"@,
        location: Location {
            line: f.span.line,
            column: f.span.col,
            end_line: None,
            end_column: None,
        },
        fix: None,
    }
}

/// What the cyclomatic rule reports for one item.
pub open spec fn cyclomatic_contrib(it: Item, max: nat) -> Seq<IssueV> {
    match it {
        Item::Fn(f) => if sat_val(cyclomatic(f.body@)) > max {
            seq![
                complexity_issue(
                    "cyclomatic-complexity"@,
                    "cyclomatic"@,
                    f,
                    sat_val(cyclomatic(f.body@)),
                    max,
                ),
            ]
        } else {
            Seq::empty()
        },
        _ => Seq::empty(),
    }
}

/// What the cyclomatic rule reports for a list of items, in order.
pub open spec fn cyclomatic_issues(items: Seq<Item>, max: nat) -> Seq<IssueV>
    decreases items,
{
    if items.len() == 0 {
        Seq::empty()
    } else {
        cyclomatic_contrib(items[0], max) + cyclomatic_issues(items.drop_first(), max)
    }
}

/// What the cognitive rule reports for one item.
pub open spec fn cognitive_contrib(it: Item, max: nat) -> Seq<IssueV> {
    match it {
        Item::Fn(f) => if sat_val(cognitive(f.body@)) > max {
            seq![
                complexity_issue(
                    "cognitive-complexity"@,
                    "cognitive"@,
                    f,
                    sat_val(cognitive(f.body@)),
                    max,
                ),
            ]
        } else {
            Seq::empty()
        },
        _ => Seq::empty(),
    }
}

/// What the cognitive rule reports for a list of items, in order.
pub open spec fn cognitive_issues(items: Seq<Item>, max: nat) -> Seq<IssueV>
    decreases items,
{
    if items.len() == 0 {
        Seq::empty()
    } else {
        cognitive_contrib(items[0], max) + cognitive_issues(items.drop_first(), max)
    }
}

fn exec_complexity_issue(
    rule: &str,
    metric: &str,
    name: &str,
    line: usize,
    col: usize,
    value: usize,
    max: usize,
) -> (r: Issue)
    ensures
        r.deep_view() == (IssueV {
            rule: rule@,
            severity: Severity::Warning,
            message: "Function '"@ + name@ + "' has "@ + metric@ + " complexity of "@ + dec_str(
                value as nat,
            ) + " (max: "@ + dec_str(max as nat) + ")"@,
            location: Location { line, column: col, end_line: None, end_column: None },
            fix: None,
        }),
{
    let mut msg = String::from_str("Function '");
    msg.append(name);
    msg.append("' has ");
    msg.append(metric);
    msg.append(" complexity of ");
    crate::text::push_dec(&mut msg, value);
    msg.append(" (max: ");
    crate::text::push_dec(&mut msg, max);
    msg.append(")");
    Issue {
        rule: String::from_str(rule),
        severity: Severity::Warning,
        message: msg,
        location: Location { line, column: col, end_line: None, end_column: None },
        fix: None,
    }
}

/// Warns when a function's cyclomatic complexity exceeds the ceiling.
pub struct CyclomaticComplexityRule {
    pub max_complexity: usize,
}

impl CyclomaticComplexityRule {
    pub fn new(max_complexity: usize) -> (r: Self)
        ensures
            r.max_complexity == max_complexity,
    {
        CyclomaticComplexityRule { max_complexity }
    }

    pub fn name(&self) -> (r: &'static str)
        ensures
            r@ == "cyclomatic-complexity"@,
    {
        "cyclomatic-complexity"
    }

    /// Reports exactly one warning for each top-level function whose
    /// cyclomatic complexity exceeds the ceiling, in item order.
    #[verifier::loop_isolation(false)]
    pub fn check(&self, ctx: &mut RuleContext)
        ensures
            ctx_adds(
                *old(ctx),
                *final(ctx),
                cyclomatic_issues(old(ctx).syntax_tree.items@, self.max_complexity as nat),
            ),
    {
        let ghost all = ctx.syntax_tree.items@;
        let ghost max = self.max_complexity as nat;
        let mut out: Vec<Issue> = Vec::new();
        let mut i: usize = 0;
        proof {
            assert(all.skip(0) =~= all);
            assert(out.deep_view() =~= Seq::<IssueV>::empty());
        }
        while i < ctx.syntax_tree.items.len()
            invariant
                i <= ctx.syntax_tree.items.len(),
                ctx.syntax_tree.items@ == all,
                cyclomatic_issues(all, max) == out.deep_view() + cyclomatic_issues(
                    all.skip(i as int),
                    max,
                ),
            decreases ctx.syntax_tree.items.len() - i,
        {
            let ghost pre = out.deep_view();
            proof {
                assert(all.skip(i as int).drop_first() =~= all.skip(i as int + 1));
                assert(all.skip(i as int)[0] == all[i as int]);
            }
            match &ctx.syntax_tree.items[i] {
                Item::Fn(f) => {
                    let complexity = calculate_cyclomatic_complexity(&f.body);
                    if complexity > self.max_complexity {
                        let issue = exec_complexity_issue(
                            "cyclomatic-complexity",
                            "cyclomatic",
                            f.name.as_str(),
                            f.span.line,
                            f.span.col,
                            complexity,
                            self.max_complexity,
                        );
                        out.push(issue);
                    }
                }
                _ => {}
            }
            proof {
                assert(out.deep_view() =~= pre + cyclomatic_contrib(all[i as int], max));
                assert(cyclomatic_issues(all, max) =~= out.deep_view() + cyclomatic_issues(
                    all.skip(i as int + 1),
                    max,
                ));
            }
            i = i + 1;
        }
        proof {
            assert(all.skip(all.len() as int) =~= Seq::<Item>::empty());
            assert(out.deep_view() =~= cyclomatic_issues(all, max));
        }
        ctx.report_all(out);
    }
}

/// Warns when a function's cognitive complexity exceeds the ceiling.
pub struct CognitiveComplexityRule {
    pub max_complexity: usize,
}

impl CognitiveComplexityRule {
    pub fn new(max_complexity: usize) -> (r: Self)
        ensures
            r.max_complexity == max_complexity,
    {
        CognitiveComplexityRule { max_complexity }
    }

    pub fn name(&self) -> (r: &'static str)
        ensures
            r@ == "cognitive-complexity"@,
    {
        "cognitive-complexity"
    }

    /// Reports exactly one warning for each top-level function whose
    /// cognitive complexity exceeds the ceiling, in item order.
    #[verifier::loop_isolation(false)]
    pub fn check(&self, ctx: &mut RuleContext)
        ensures
            ctx_adds(
                *old(ctx),
                *final(ctx),
                cognitive_issues(old(ctx).syntax_tree.items@, self.max_complexity as nat),
            ),
    {
        let ghost all = ctx.syntax_tree.items@;
        let ghost max = self.max_complexity as nat;
        let mut out: Vec<Issue> = Vec::new();
        let mut i: usize = 0;
        proof {
            assert(all.skip(0) =~= all);
            assert(out.deep_view() =~= Seq::<IssueV>::empty());
        }
        while i < ctx.syntax_tree.items.len()
            invariant
                i <= ctx.syntax_tree.items.len(),
                ctx.syntax_tree.items@ == all,
                cognitive_issues(all, max) == out.deep_view() + cognitive_issues(
                    all.skip(i as int),
                    max,
                ),
            decreases ctx.syntax_tree.items.len() - i,
        {
            let ghost pre = out.deep_view();
            proof {
                assert(all.skip(i as int).drop_first() =~= all.skip(i as int + 1));
                assert(all.skip(i as int)[0] == all[i as int]);
            }
            match &ctx.syntax_tree.items[i] {
                Item::Fn(f) => {
                    let complexity = calculate_cognitive_complexity(&f.body);
                    if complexity > self.max_complexity {
                        let issue = exec_complexity_issue(
                            "cognitive-complexity",
                            "cognitive",
                            f.name.as_str(),
                            f.span.line,
                            f.span.col,
                            complexity,
                            self.max_complexity,
                        );
                        out.push(issue);
                    }
                }
                _ => {}
            }
            proof {
                assert(out.deep_view() =~= pre + cognitive_contrib(all[i as int], max));
                assert(cognitive_issues(all, max) =~= out.deep_view() + cognitive_issues(
                    all.skip(i as int + 1),
                    max,
                ));
            }
            i = i + 1;
        }
        proof {
            assert(all.skip(all.len() as int) =~= Seq::<Item>::empty());
            assert(out.deep_view() =~= cognitive_issues(all, max));
        }
        ctx.report_all(out);
    }
}

} // verus!

verus! {

/// An expression with none of the counted constructs: no conditionals,
/// matches, loops or short-circuit operators anywhere inside.
pub open spec fn plain_expr(e: Expr) -> bool
    decreases e,
{
    match e {
        Expr::Call { func, args } => plain_expr(*func) && plain_exprs(args@),
        Expr::MethodCall { receiver, args, .. } => plain_expr(*receiver) && plain_exprs(args@),
        Expr::MacroCall { .. } => true,
        Expr::If { .. } => false,
        Expr::Match { .. } => false,
        Expr::While { .. } => false,
        Expr::ForLoop { .. } => false,
        Expr::Loop { .. } => false,
        Expr::Binary { op, left, right } => op == BinOp::Other && plain_expr(*left) && plain_expr(
            *right,
        ),
        Expr::Lit { .. } => true,
        Expr::PathExpr { .. } => true,
        Expr::Reference { inner } => plain_expr(*inner),
        Expr::LetExpr { inner, .. } => plain_expr(*inner),
        Expr::RangeExpr { start, end } => (match start {
            Some(b) => plain_expr(*b),
            None => true,
        }) && (match end {
            Some(b) => plain_expr(*b),
            None => true,
        }),
        Expr::Block { body } => plain_stmts(body@),
        Expr::Other { children } => plain_exprs(children@),
    }
}

pub open spec fn plain_exprs(es: Seq<Expr>) -> bool
    decreases es,
{
    es.len() == 0 || (plain_expr(es[0]) && plain_exprs(es.drop_first()))
}

pub open spec fn plain_stmt(s: Stmt) -> bool
    decreases s,
{
    match s {
        Stmt::ExprStmt(e) => plain_expr(e),
        Stmt::LocalStmt(Some(e)) => plain_expr(e),
        Stmt::LocalStmt(None) => true,
        Stmt::OtherStmt => true,
    }
}

pub open spec fn plain_stmts(ss: Seq<Stmt>) -> bool
    decreases ss,
{
    ss.len() == 0 || (plain_stmt(ss[0]) && plain_stmts(ss.drop_first()))
}

proof fn lemma_plain_expr(e: Expr, d: nat)
    requires
        plain_expr(e),
    ensures
        cog_expr(e, d) == 0,
        cyc_expr(e) == 0,
    decreases e,
{
    match e {
        Expr::Call { func, args } => {
            lemma_plain_expr(*func, d);
            lemma_plain_exprs(args@, d);
        }
        Expr::MethodCall { receiver, args, .. } => {
            lemma_plain_expr(*receiver, d);
            lemma_plain_exprs(args@, d);
        }
        Expr::Binary { left, right, .. } => {
            lemma_plain_expr(*left, d);
            lemma_plain_expr(*right, d);
        }
        Expr::Reference { inner } => {
            lemma_plain_expr(*inner, d);
        }
        Expr::LetExpr { inner, .. } => {
            lemma_plain_expr(*inner, d);
        }
        Expr::RangeExpr { start, end } => {
            match start {
                Some(b) => {
                    lemma_plain_expr(*b, d);
                }
                None => {}
            }
            match end {
                Some(b) => {
                    lemma_plain_expr(*b, d);
                }
                None => {}
            }
        }
        Expr::Block { body } => {
            lemma_plain_stmts(body@, d);
        }
        Expr::Other { children } => {
            lemma_plain_exprs(children@, d);
        }
        _ => {}
    }
}

proof fn lemma_plain_exprs(es: Seq<Expr>, d: nat)
    requires
        plain_exprs(es),
    ensures
        cog_exprs(es, d) == 0,
        cyc_exprs(es) == 0,
    decreases es,
{
    if es.len() > 0 {
        lemma_plain_expr(es[0], d);
        lemma_plain_exprs(es.drop_first(), d);
    }
}

proof fn lemma_plain_stmt(s: Stmt, d: nat)
    requires
        plain_stmt(s),
    ensures
        cog_stmt(s, d) == 0,
        cyc_stmt(s) == 0,
    decreases s,
{
    match s {
        Stmt::ExprStmt(e) => {
            lemma_plain_expr(e, d);
        }
        Stmt::LocalStmt(Some(e)) => {
            lemma_plain_expr(e, d);
        }
        _ => {}
    }
}

proof fn lemma_plain_stmts(ss: Seq<Stmt>, d: nat)
    requires
        plain_stmts(ss),
    ensures
        cog_stmts(ss, d) == 0,
        cyc_stmts(ss) == 0,
    decreases ss,
{
    if ss.len() > 0 {
        lemma_plain_stmt(ss[0], d);
        lemma_plain_stmts(ss.drop_first(), d);
    }
}

proof fn lemma_cyc_stmts_push(ss: Seq<Stmt>, s: Stmt)
    ensures
        cyc_stmts(ss.push(s)) == cyc_stmts(ss) + cyc_stmt(s),
    decreases ss,
{
    if ss.len() == 0 {
        assert(ss =~= Seq::<Stmt>::empty());
        assert(cyc_stmts(Seq::<Stmt>::empty()) == 0);
        assert(ss.push(s).drop_first() =~= Seq::<Stmt>::empty());
        assert(ss.push(s)[0] == s);
        assert(cyc_stmts(ss.push(s)) == cyc_stmt(s) + cyc_stmts(ss.push(s).drop_first()));
    } else {
        lemma_cyc_stmts_push(ss.drop_first(), s);
        assert(ss.push(s).drop_first() =~= ss.drop_first().push(s));
        assert(ss.push(s)[0] == ss[0]);
        assert(cyc_stmts(ss.push(s)) == cyc_stmt(ss[0]) + cyc_stmts(ss.drop_first().push(s)));
    }
}

/// Complexity grows by exactly one independent branch: appending to a
/// function's body a statement carrying exactly one decision point — an
/// independent conditional, say — raises the body's cyclomatic
/// complexity by exactly one.
pub proof fn lemma_cyclomatic_add_branch(body: Seq<Stmt>, branch: Stmt)
    requires
        cyc_stmt(branch) == 1,
    ensures
        cyclomatic(body.push(branch)) == cyclomatic(body) + 1,
{
    lemma_cyc_stmts_push(body, branch);
}

/// Nesting costs one more per level: a conditional whose condition and
/// body hold no further decision points contributes one plus its depth
/// to cognitive complexity, so wrapping it one level deeper raises its
/// contribution by exactly one.
pub proof fn lemma_cognitive_nesting(e: Expr, d: nat)
    requires
        e matches Expr::If { cond, then_body, else_body } && plain_expr(*cond) && plain_stmts(
            then_body@,
        ) && else_body is None,
    ensures
        cog_expr(e, d) == 1 + d,
        cog_expr(e, (d + 1) as nat) == cog_expr(e, d) + 1,
{
    match e {
        Expr::If { cond, then_body, else_body } => {
            lemma_plain_expr(*cond, d);
            lemma_plain_expr(*cond, (d + 1) as nat);
            lemma_plain_stmts(then_body@, crate::text::sat_add(d, 1));
            lemma_plain_stmts(then_body@, crate::text::sat_add((d + 1) as nat, 1));
        }
        _ => {}
    }
}

} // verus!
