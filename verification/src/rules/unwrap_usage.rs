//! Flags calls to panic-on-failure unwrapping methods, at a severity that
//! depends on the variant, and suggests alternatives.

use vstd::prelude::*;

use crate::ast::{Expr, Span};
use crate::issues::{Fix, FixV, Issue, IssueV, Location, Replacement, ReplacementV, Severity};
use crate::rules::{ctx_adds, RuleContext};
use crate::rules::visit::{visitor_issues, walk_items, Visitor, VisitorV};
use crate::text::{sat_add, sat_add_usize, spec_contains, str_contains, str_eq};

verus! {

/// Whether a method name is one of the unwrapping variants the rule flags.
pub open spec fn is_unwrap_method(m: Seq<char>) -> bool {
    m == "unwrap"@ || m == "unwrap_or_default"@ || m == "unwrap_unchecked"@ || m == "expect"@
}

/// The suggestion text attached for each unwrapping variant.
pub open spec fn unwrap_suggestion(m: Seq<char>) -> Seq<char> {
    if m == "unwrap"@ {
        "Consider using `match`, `if let`, or `expect()` with a descriptive message"@
    } else if m == "unwrap_or_default"@ {
        "This is generally safe, but consider explicit handling"@
    } else if m == "expect"@ {
        "Good! Using expect() with descriptive messages"@
    } else {
        "Consider explicit error handling"@
    }
}

/// The severity for each unwrapping variant: a plain `unwrap` warns, an
/// unchecked variant is an error, anything else is informational.
pub open spec fn unwrap_severity(m: Seq<char>) -> Severity {
    if m == "unwrap"@ {
        Severity::Warning
    } else if m == "unwrap_unchecked"@ {
        Severity::Error
    } else {
        Severity::Info
    }
}

/// The issue reported for one unwrapping call.
pub open spec fn unwrap_issue(m: Seq<char>, span: Span) -> IssueV {
    IssueV {
        rule: "unwrap_usage"@,
        severity: unwrap_severity(m),
        message: "Found `"@ + m + "()` call - "@ + unwrap_suggestion(m),
        location: Location {
            line: span.line,
            column: span.col,
            end_line: Some(span.line),
            end_column: Some(sat_add(span.col as nat, m.len()) as usize),
        },
        fix: if m == "unwrap"@ {
            Some(
                FixV {
                    description: "Replace with expect() and descriptive message"@,
                    replacements: seq![
                        ReplacementV {
                            start: 0,
                            end: 0,
                            text: "expect(\"TODO: Add descriptive error message\")"@,
                        },
                    ],
                },
            )
        } else {
            None
        },
    }
}

/// What the rule reports at one expression node: an unwrapping method
/// call, or a call to a function whose name holds `unwrap`.
pub open spec fn unwrap_contrib(e: Expr) -> Seq<IssueV> {
    match e {
        Expr::MethodCall { method, span, .. } => if is_unwrap_method(method@) {
            seq![unwrap_issue(method@, span)]
        } else {
            Seq::empty()
        },
        Expr::Call { func, .. } => match *func {
            Expr::PathExpr { last: Some(name), span } => if spec_contains(name@, "unwrap"@) {
                seq![unwrap_issue(name@, span)]
            } else {
                Seq::empty()
            },
            _ => Seq::empty(),
        },
        _ => Seq::empty(),
    }
}

fn exec_unwrap_issue(m: &str, span: Span) -> (r: Issue)
    ensures
        r.deep_view() == unwrap_issue(m@, span),
{
    let mut msg = String::from_str("Found `");
    msg.append(m);
    msg.append("()` call - ");
    if str_eq(m, "unwrap") {
        msg.append("Consider using `match`, `if let`, or `expect()` with a descriptive message");
    } else if str_eq(m, "unwrap_or_default") {
        msg.append("This is generally safe, but consider explicit handling");
    } else if str_eq(m, "expect") {
        msg.append("Good! Using expect() with descriptive messages");
    } else {
        msg.append("Consider explicit error handling");
    }
    let severity = if str_eq(m, "unwrap") {
        Severity::Warning
    } else if str_eq(m, "unwrap_unchecked") {
        Severity::Error
    } else {
        Severity::Info
    };
    let fix: Option<Fix> = if str_eq(m, "unwrap") {
        let mut reps: Vec<Replacement> = Vec::new();
        reps.push(
            Replacement {
                start: 0,
                end: 0,
                text: String::from_str("expect(\"TODO: Add descriptive error message\")"),
            },
        );
        Some(
            Fix {
                description: String::from_str("Replace with expect() and descriptive message"),
                replacements: reps,
            },
        )
    } else {
        None
    };
    let mlen = m.unicode_len();
    let issue = Issue {
        rule: String::from_str("unwrap_usage"),
        severity,
        message: msg,
        location: Location {
            line: span.line,
            column: span.col,
            end_line: Some(span.line),
            end_column: Some(sat_add_usize(span.col, mlen)),
        },
        fix,
    };
    proof {
        let want = unwrap_issue(m@, span);
        if m@ == "unwrap"@ {
            assert(issue.deep_view().fix->0.replacements =~= want.fix->0.replacements);
            assert(issue.deep_view().fix->0 =~~= want.fix->0);
            assert(issue.deep_view().fix == want.fix);
        } else {
            assert(issue.deep_view().fix == want.fix);
        }
        assert(issue.deep_view().severity == want.severity);
        assert(issue.deep_view().message =~= want.message);
        assert(issue.deep_view().rule =~= want.rule);
        assert(issue.location.end_column->0 as nat == sat_add(span.col as nat, m@.len()));
        assert(issue.location == want.location);
        assert(issue.deep_view() =~~= want);
    }
    issue
}

/// Appends what the rule reports at this one node.
pub fn exec_unwrap_contrib(e: &Expr, out: &mut Vec<Issue>)
    ensures
        final(out).deep_view() == old(out).deep_view() + unwrap_contrib(*e),
{
    let ghost pre = out.deep_view();
    match e {
        Expr::MethodCall { method, span, .. } => {
            if str_eq(method.as_str(), "unwrap") || str_eq(method.as_str(), "unwrap_or_default")
                || str_eq(method.as_str(), "unwrap_unchecked") || str_eq(
                method.as_str(),
                "expect",
            ) {
                let issue = exec_unwrap_issue(method.as_str(), *span);
                out.push(issue);
                proof {
                    assert(out.deep_view() =~= pre + unwrap_contrib(*e));
                }
            }
        }
        Expr::Call { func, .. } => {
            match &**func {
                Expr::PathExpr { last: Some(name), span } => {
                    if str_contains(name.as_str(), "unwrap") {
                        let issue = exec_unwrap_issue(name.as_str(), *span);
                        out.push(issue);
                        proof {
                            assert(out.deep_view() =~= pre + unwrap_contrib(*e));
                        }
                    }
                }
                _ => {}
            }
        }
        _ => {}
    }
    proof {
        assert(final(out).deep_view() =~= pre + unwrap_contrib(*e));
    }
}

/// Flags every call to a panic-on-failure unwrapping method.
pub struct UnwrapUsageRule;

impl UnwrapUsageRule {
    pub fn name(&self) -> (r: &'static str)
        ensures
            r@ == "unwrap_usage"@,
    {
        "unwrap_usage"
    }

    /// Reports exactly the unwrapping calls found in a traversal of the
    /// file's items, in source order.
    pub fn check(&self, ctx: &mut RuleContext)
        ensures
            ctx_adds(
                *old(ctx),
                *final(ctx),
                walk_items(VisitorV::UnwrapUsage, old(ctx).syntax_tree.items@),
            ),
    {
        let v = Visitor::UnwrapUsage;
        let found = visitor_issues(&v, &ctx.syntax_tree);
        ctx.report_all(found);
    }
}

} // verus!
