//! Flags values that are conventionally expected to be consumed but are
//! discarded as bare statements: lazy iterator adaptors that are never
//! consumed, calls to functions known (or marked) to return such values,
//! and conversions whose results are typically used.

use vstd::prelude::*;

use crate::ast::{Expr, Item, Span, Stmt};
use crate::issues::{Issue, IssueV, Location, Severity};
use crate::rules::{ctx_adds, RuleContext};
use crate::rules::visit::{visitor_issues, walk_items, Visitor, VisitorV};
use crate::text::{sat_add, sat_add_usize, str_eq};

verus! {

/// Whether `n` occurs among the names of `list`.
pub open spec fn name_in(list: Seq<Seq<char>>, n: Seq<char>) -> bool {
    exists|i: int| 0 <= i < list.len() && #[trigger] list[i] == n
}

/// Whether a method name is a lazy iterator adaptor, wrong to leave
/// unconsumed.
pub open spec fn is_lazy_adaptor(m: Seq<char>) -> bool {
    m == "map"@ || m == "filter"@ || m == "enumerate"@ || m == "zip"@ || m == "chain"@ || m
        == "take"@ || m == "skip"@ || m == "rev"@
}

/// Whether a method converts an optional or fallible value, so that its
/// result is typically used.
pub open spec fn is_conversion_method(m: Seq<char>) -> bool {
    m == "ok"@ || m == "err"@ || m == "unwrap_or"@ || m == "unwrap_or_else"@ || m
        == "unwrap_or_default"@
}

/// Whether a function name is an output call whose result is often
/// silently ignored.
pub open spec fn is_output_fn(n: Seq<char>) -> bool {
    n == "write"@ || n == "writeln"@ || n == "print"@ || n == "println"@
}

/// The library method names known to return a value that should be
/// consumed.
pub open spec fn std_must_use_names() -> Seq<Seq<char>> {
    seq![
        "collect"@,
        "map"@,
        "filter"@,
        "fold"@,
        "reduce"@,
        "try_fold"@,
        "try_reduce"@,
        "cloned"@,
        "copied"@,
        "enumerate"@,
        "zip"@,
        "chain"@,
        "take"@,
        "skip"@,
        "rev"@,
    ]
}

/// The issue reported for an unconsumed lazy iterator adaptor.
pub open spec fn lazy_adaptor_issue(m: Seq<char>, span: Span) -> IssueV {
    IssueV {
        rule: "must_use_violations"@,
        severity: Severity::Warning,
        message: "Iterator method `"@ + m
            + "()` returns a lazy iterator that must be consumed (e.g., with `.collect()`, `.for_each()`, etc.)"@,
        location: Location {
            line: span.line,
            column: span.col,
            end_line: Some(span.line),
            end_column: Some(sat_add(span.col as nat, m.len()) as usize),
        },
        fix: None,
    }
}

/// The issue reported for a generally unused result.
pub open spec fn unused_result_issue(context: Seq<char>, span: Span) -> IssueV {
    IssueV {
        rule: "must_use_violations"@,
        severity: Severity::Warning,
        message: "Unused result from "@ + context
            + " - consider using `let _ = ...` if intentional"@,
        location: Location {
            line: span.line,
            column: span.col,
            end_line: Some(span.line),
            end_column: Some(sat_add(span.col as nat, 10) as usize),
        },
        fix: None,
    }
}

/// The informational issue for a conversion whose result is typically
/// used.
pub open spec fn conversion_info_issue(m: Seq<char>, span: Span) -> IssueV {
    IssueV {
        rule: "must_use_violations"@,
        severity: Severity::Info,
        message: "Result of `."@ + m + "()` should typically be used or explicitly ignored"@,
        location: Location {
            line: span.line,
            column: span.col,
            end_line: Some(span.line),
            end_column: Some(sat_add(span.col as nat, m.len()) as usize),
        },
        fix: None,
    }
}

/// The informational issue for an output call whose result goes unchecked.
pub open spec fn output_info_issue(n: Seq<char>, span: Span) -> IssueV {
    IssueV {
        rule: "must_use_violations"@,
        severity: Severity::Info,
        message: "Consider checking the result of `"@ + n + "()` for error handling"@,
        location: Location {
            line: span.line,
            column: span.col,
            end_line: Some(span.line),
            end_column: Some(sat_add(span.col as nat, n.len()) as usize),
        },
        fix: None,
    }
}

/// What the rule reports for one bare statement: a must-use method or
/// function call whose value is discarded.
pub open spec fn mu_stmt_contrib(list: Seq<Seq<char>>, s: Stmt) -> Seq<IssueV> {
    match s {
        Stmt::ExprStmt(e) => match e {
            Expr::MethodCall { method, span, .. } => if name_in(list, method@) {
                if is_lazy_adaptor(method@) {
                    seq![lazy_adaptor_issue(method@, span)]
                } else if method@ == "collect"@ {
                    Seq::empty()
                } else {
                    seq![unused_result_issue("method call `."@ + method@ + "`"@, span)]
                }
            } else {
                Seq::empty()
            },
            Expr::Call { func, .. } => match *func {
                Expr::PathExpr { last: Some(name), span } => if name_in(list, name@) {
                    seq![unused_result_issue("function call `"@ + name@ + "`"@, span)]
                } else {
                    Seq::empty()
                },
                _ => Seq::empty(),
            },
            _ => Seq::empty(),
        },
        _ => Seq::empty(),
    }
}

/// What the rule reports at one expression node, wherever it stands.
pub open spec fn mu_expr_contrib(list: Seq<Seq<char>>, e: Expr) -> Seq<IssueV> {
    match e {
        Expr::MethodCall { method, span, .. } => if is_conversion_method(method@) {
            seq![conversion_info_issue(method@, span)]
        } else {
            Seq::empty()
        },
        Expr::Call { func, .. } => match *func {
            Expr::PathExpr { last: Some(name), span } => if is_output_fn(name@) {
                seq![output_info_issue(name@, span)]
            } else {
                Seq::empty()
            },
            _ => Seq::empty(),
        },
        _ => Seq::empty(),
    }
}

/// Whether the characters of `n` occur in `list`.
pub fn exec_name_in(list: &Vec<String>, n: &str) -> (r: bool)
    ensures
        r == name_in(list.deep_view(), n@),
{
    let mut i: usize = 0;
    while i < list.len()
        invariant
            i <= list.len(),
            forall|j: int| 0 <= j < i ==> #[trigger] list.deep_view()[j] != n@,
        decreases list.len() - i,
    {
        proof {
            assert(list.deep_view()[i as int] == list@[i as int]@);
        }
        if str_eq(list[i].as_str(), n) {
            return true;
        }
        i = i + 1;
    }
    false
}

fn exec_mk_issue(
    rule: &str,
    severity: Severity,
    msg: String,
    span: Span,
    endlen: usize,
) -> (r: Issue)
    ensures
        r.deep_view() == (IssueV {
            rule: rule@,
            severity,
            message: msg@,
            location: Location {
                line: span.line,
                column: span.col,
                end_line: Some(span.line),
                end_column: Some(sat_add(span.col as nat, endlen as nat) as usize),
            },
            fix: None,
        }),
{
    let issue = Issue {
        rule: String::from_str(rule),
        severity,
        message: msg,
        location: Location {
            line: span.line,
            column: span.col,
            end_line: Some(span.line),
            end_column: Some(sat_add_usize(span.col, endlen)),
        },
        fix: None,
    };
    proof {
        assert(issue.location.end_column->0 as nat == sat_add(span.col as nat, endlen as nat));
    }
    issue
}

/// Appends what the rule reports for this one statement.
pub fn exec_mu_stmt_contrib(list: &Vec<String>, s: &Stmt, out: &mut Vec<Issue>)
    ensures
        final(out).deep_view() == old(out).deep_view() + mu_stmt_contrib(list.deep_view(), *s),
{
    let ghost pre = out.deep_view();
    let ghost lv = list.deep_view();
    match s {
        Stmt::ExprStmt(e) => match e {
            Expr::MethodCall { method, span, .. } => {
                if exec_name_in(list, method.as_str()) {
                    if str_eq(method.as_str(), "map") || str_eq(method.as_str(), "filter")
                        || str_eq(method.as_str(), "enumerate") || str_eq(method.as_str(), "zip")
                        || str_eq(method.as_str(), "chain") || str_eq(method.as_str(), "take")
                        || str_eq(method.as_str(), "skip") || str_eq(method.as_str(), "rev") {
                        let mut msg = String::from_str("Iterator method `");
                        msg.append(method.as_str());
                        msg.append(
                            "()` returns a lazy iterator that must be consumed (e.g., with `.collect()`, `.for_each()`, etc.)",
                        );
                        let mlen = method.as_str().unicode_len();
                        let issue = exec_mk_issue(
                            "must_use_violations",
                            Severity::Warning,
                            msg,
                            *span,
                            mlen,
                        );
                        proof {
                            assert(issue.deep_view() =~~= lazy_adaptor_issue(method@, *span));
                        }
                        out.push(issue);
                        proof {
                            assert(out.deep_view() =~= pre + mu_stmt_contrib(lv, *s));
                        }
                    } else if str_eq(method.as_str(), "collect") {
                    } else {
                        let mut ctxt = String::from_str("method call `.");
                        ctxt.append(method.as_str());
                        ctxt.append("`");
                        let mut msg = String::from_str("Unused result from ");
                        msg.append(ctxt.as_str());
                        msg.append(" - consider using `let _ = ...` if intentional");
                        let issue = exec_mk_issue(
                            "must_use_violations",
                            Severity::Warning,
                            msg,
                            *span,
                            10,
                        );
                        proof {
                            assert(issue.deep_view() =~~= unused_result_issue(
                                "method call `."@ + method@ + "`"@,
                                *span,
                            ));
                        }
                        out.push(issue);
                        proof {
                            assert(out.deep_view() =~= pre + mu_stmt_contrib(lv, *s));
                        }
                    }
                }
            }
            Expr::Call { func, .. } => {
                match &**func {
                    Expr::PathExpr { last: Some(name), span } => {
                        if exec_name_in(list, name.as_str()) {
                            let mut ctxt = String::from_str("function call `");
                            ctxt.append(name.as_str());
                            ctxt.append("`");
                            let mut msg = String::from_str("Unused result from ");
                            msg.append(ctxt.as_str());
                            msg.append(" - consider using `let _ = ...` if intentional");
                            let issue = exec_mk_issue(
                                "must_use_violations",
                                Severity::Warning,
                                msg,
                                *span,
                                10,
                            );
                            proof {
                                assert(issue.deep_view() =~~= unused_result_issue(
                                    "function call `"@ + name@ + "`"@,
                                    *span,
                                ));
                            }
                            out.push(issue);
                            proof {
                                assert(out.deep_view() =~= pre + mu_stmt_contrib(lv, *s));
                            }
                        }
                    }
                    _ => {}
                }
            }
            _ => {}
        },
        _ => {}
    }
    proof {
        assert(final(out).deep_view() =~= pre + mu_stmt_contrib(lv, *s));
    }
}

/// Appends what the rule reports at this one expression node.
pub fn exec_mu_expr_contrib(list: &Vec<String>, e: &Expr, out: &mut Vec<Issue>)
    ensures
        final(out).deep_view() == old(out).deep_view() + mu_expr_contrib(list.deep_view(), *e),
{
    let ghost pre = out.deep_view();
    let ghost lv = list.deep_view();
    match e {
        Expr::MethodCall { method, span, .. } => {
            if str_eq(method.as_str(), "ok") || str_eq(method.as_str(), "err") || str_eq(
                method.as_str(),
                "unwrap_or",
            ) || str_eq(method.as_str(), "unwrap_or_else") || str_eq(
                method.as_str(),
                "unwrap_or_default",
            ) {
                let mut msg = String::from_str("Result of `.");
                msg.append(method.as_str());
                msg.append("()` should typically be used or explicitly ignored");
                let mlen = method.as_str().unicode_len();
                let issue = exec_mk_issue("must_use_violations", Severity::Info, msg, *span, mlen);
                proof {
                    assert(issue.deep_view() =~~= conversion_info_issue(method@, *span));
                }
                out.push(issue);
                proof {
                    assert(out.deep_view() =~= pre + mu_expr_contrib(lv, *e));
                }
            }
        }
        Expr::Call { func, .. } => {
            match &**func {
                Expr::PathExpr { last: Some(name), span } => {
                    if str_eq(name.as_str(), "write") || str_eq(name.as_str(), "writeln")
                        || str_eq(name.as_str(), "print") || str_eq(name.as_str(), "println") {
                        let mut msg = String::from_str("Consider checking the result of `");
                        msg.append(name.as_str());
                        msg.append("()` for error handling");
                        let nlen = name.as_str().unicode_len();
                        let issue = exec_mk_issue(
                            "must_use_violations",
                            Severity::Info,
                            msg,
                            *span,
                            nlen,
                        );
                        proof {
                            assert(issue.deep_view() =~~= output_info_issue(name@, *span));
                        }
                        out.push(issue);
                        proof {
                            assert(out.deep_view() =~= pre + mu_expr_contrib(lv, *e));
                        }
                    }
                }
                _ => {}
            }
        }
        _ => {}
    }
    proof {
        assert(final(out).deep_view() =~= pre + mu_expr_contrib(lv, *e));
    }
}

/// The names a file's analysis treats as must-use: the library list,
/// followed by every top-level function the file marks with the
/// consume-or-warn attribute, in item order.
pub open spec fn collected_names(items: Seq<Item>) -> Seq<Seq<char>> {
    std_must_use_names() + marked_fn_names(items)
}

/// The names of the top-level functions marked must-use, in item order.
pub open spec fn marked_fn_names(items: Seq<Item>) -> Seq<Seq<char>>
    decreases items,
{
    if items.len() == 0 {
        Seq::empty()
    } else {
        (match items[0] {
            Item::Fn(f) => if f.has_must_use {
                seq![f.name@]
            } else {
                Seq::empty()
            },
            _ => Seq::empty(),
        }) + marked_fn_names(items.drop_first())
    }
}

/// Collects the must-use name list for a file.
#[verifier::loop_isolation(false)]
pub fn collect_must_use_names(items: &Vec<Item>) -> (r: Vec<String>)
    ensures
        r.deep_view() == collected_names(items@),
{
    let mut list: Vec<String> = Vec::new();
    list.push(String::from_str("collect"));
    list.push(String::from_str("map"));
    list.push(String::from_str("filter"));
    list.push(String::from_str("fold"));
    list.push(String::from_str("reduce"));
    list.push(String::from_str("try_fold"));
    list.push(String::from_str("try_reduce"));
    list.push(String::from_str("cloned"));
    list.push(String::from_str("copied"));
    list.push(String::from_str("enumerate"));
    list.push(String::from_str("zip"));
    list.push(String::from_str("chain"));
    list.push(String::from_str("take"));
    list.push(String::from_str("skip"));
    list.push(String::from_str("rev"));
    proof {
        assert(list.deep_view() =~= std_must_use_names());
        assert(items@.skip(0) =~= items@);
    }
    let ghost base = list.deep_view();
    let mut i: usize = 0;
    while i < items.len()
        invariant
            i <= items.len(),
            collected_names(items@) == list.deep_view() + marked_fn_names(items@.skip(i as int)),
        decreases items.len() - i,
    {
        proof {
            assert(items@.skip(i as int).drop_first() =~= items@.skip(i as int + 1));
            assert(items@.skip(i as int)[0] == items@[i as int]);
        }
        let ghost mid = list.deep_view();
        match &items[i] {
            Item::Fn(f) => {
                if f.has_must_use {
                    let name = String::from_str(f.name.as_str());
                    list.push(name);
                    proof {
                        assert(list.deep_view() =~= mid + seq![items@[i as int]->Fn_0.name@]);
                    }
                }
            }
            _ => {}
        }
        proof {
            assert(collected_names(items@) =~= list.deep_view() + marked_fn_names(
                items@.skip(i as int + 1),
            ));
        }
        i = i + 1;
    }
    proof {
        assert(items@.skip(items@.len() as int) =~= Seq::<Item>::empty());
        assert(list.deep_view() =~= collected_names(items@));
    }
    list
}

/// What the rule reports for a whole file.
pub open spec fn must_use_issues(items: Seq<Item>) -> Seq<IssueV> {
    walk_items(VisitorV::MustUse(collected_names(items)), items)
}

/// Flags must-use violations: discarded values that should be consumed.
pub struct MustUseRule;

impl MustUseRule {
    pub fn name(&self) -> (r: &'static str)
        ensures
            r@ == "must_use_violations"@,
    {
        "must_use_violations"
    }

    /// Reports exactly the must-use violations found in a traversal of
    /// the file's items, in source order, judging calls against the
    /// library list extended with the file's own must-use functions.
    pub fn check(&self, ctx: &mut RuleContext)
        ensures
            ctx_adds(*old(ctx), *final(ctx), must_use_issues(old(ctx).syntax_tree.items@)),
    {
        let list = collect_must_use_names(&ctx.syntax_tree.items);
        let v = Visitor::MustUse(list);
        let found = visitor_issues(&v, &ctx.syntax_tree);
        ctx.report_all(found);
    }
}

} // verus!
