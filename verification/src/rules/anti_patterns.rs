//! A catalog of shape-based heuristics: redundant conversions and clones,
//! indexing where a semantic accessor exists, two-armed matches over a
//! binary sum type, boolean-projection `if let`s, and indexed loops.

use vstd::prelude::*;

use crate::ast::{Arm, Expr, LitKind, Pat, Span};
use crate::issues::{Fix, FixV, Issue, IssueV, Location, Replacement, ReplacementV, Severity};
use crate::rules::{ctx_adds, RuleContext};
use crate::rules::visit::{visitor_issues, walk_items, Visitor, VisitorV};
use crate::text::{sat_add, sat_add_usize, str_eq};

verus! {

broadcast use vstd::string::group_string_axioms;

/// A warning at `span` with the given message and optional fix; its range
/// covers ten columns.
pub open spec fn ap_warning(span: Span, msg: Seq<char>, fix: Option<FixV>) -> IssueV {
    IssueV {
        rule: "anti_patterns"@,
        severity: Severity::Warning,
        message: msg,
        location: Location {
            line: span.line,
            column: span.col,
            end_line: Some(span.line),
            end_column: Some(sat_add(span.col as nat, 10) as usize),
        },
        fix,
    }
}

/// An informational note at `span` whose range covers `endlen` columns.
pub open spec fn ap_info(span: Span, msg: Seq<char>, endlen: nat) -> IssueV {
    IssueV {
        rule: "anti_patterns"@,
        severity: Severity::Info,
        message: msg,
        location: Location {
            line: span.line,
            column: span.col,
            end_line: Some(span.line),
            end_column: Some(sat_add(span.col as nat, endlen) as usize),
        },
        fix: None,
    }
}

/// A one-replacement fix whose range is unresolved.
pub open spec fn ap_fix(desc: Seq<char>, text: Seq<char>) -> FixV {
    FixV {
        description: desc,
        replacements: seq![ReplacementV { start: 0, end: 0, text }],
    }
}

/// What the clone check reports: any `clone` call is a candidate.
pub open spec fn clone_contrib(method: Seq<char>, span: Span) -> Seq<IssueV> {
    if method == "clone"@ {
        seq![
            ap_warning(
                span,
                "Potential unnecessary clone - consider borrowing or using references"@,
                Some(
                    ap_fix(
                        "Consider removing .clone() if borrowing is sufficient"@,
                        "// TODO: Review if clone is necessary"@,
                    ),
                ),
            ),
        ]
    } else {
        Seq::empty()
    }
}

/// What the string checks report: owned conversion of a literal, or a
/// redundant round trip back to a slice.
pub open spec fn string_contrib(method: Seq<char>, receiver: Expr, span: Span) -> Seq<IssueV> {
    if method == "to_string"@ && (receiver matches Expr::Lit { kind: LitKind::StrLit }) {
        seq![
            ap_warning(
                span,
                "Use `String::from()` or `.to_owned()` instead of `.to_string()` on string literals"@,
                Some(ap_fix("Replace with String::from()"@, "String::from(...)"@)),
            ),
        ]
    } else if method == "as_str"@ && (receiver matches Expr::MethodCall { method: inner, .. }
        && inner@ == "to_string"@) {
        seq![
            ap_warning(
                span,
                "Redundant `.to_string().as_str()` - just use the original string"@,
                None,
            ),
        ]
    } else {
        Seq::empty()
    }
}

/// What the collection checks report: an eager `collect`, or iterating a
/// reference through `into_iter`.
pub open spec fn collection_contrib(method: Seq<char>, receiver: Expr, span: Span) -> Seq<IssueV> {
    if method == "collect"@ {
        seq![
            ap_info(
                span,
                "Consider if iteration can be done without collecting - lazy evaluation is often more efficient"@,
                method.len(),
            ),
        ]
    } else if method == "into_iter"@ && (receiver matches Expr::Reference { .. }) {
        seq![
            ap_warning(
                span,
                "Use `.iter()` instead of `(&collection).into_iter()`"@,
                Some(ap_fix("Replace with .iter()"@, ".iter()"@)),
            ),
        ]
    } else {
        Seq::empty()
    }
}

/// What the optional-value checks report: predicate tests better written
/// as pattern matches or combinators.
pub open spec fn option_contrib(method: Seq<char>, span: Span) -> Seq<IssueV> {
    if method == "is_some"@ || method == "is_none"@ || method == "is_ok"@ || method == "is_err"@ {
        seq![
            ap_info(
                span,
                "Consider using pattern matching or combinators instead of `."@ + method
                    + "()` checks"@,
                method.len(),
            ),
        ]
    } else {
        Seq::empty()
    }
}

/// What the indexed-access check reports: `get` with literal index zero.
pub open spec fn get_zero_contrib(method: Seq<char>, args: Seq<Expr>, span: Span) -> Seq<IssueV> {
    if method == "get"@ && args.len() > 0 && (args[0] matches Expr::Lit {
        kind: LitKind::IntLit(d),
    } && d@ == "0"@) {
        seq![
            ap_warning(
                span,
                "Use `.first()` instead of `.get(0)` for better semantics"@,
                Some(ap_fix("Replace with .first()"@, ".first()"@)),
            ),
        ]
    } else {
        Seq::empty()
    }
}

/// Whether some arm's pattern is a bare constructor of an optional or
/// fallible value.
pub open spec fn has_option_result_arm(arms: Seq<Arm>) -> bool {
    exists|i: int|
        0 <= i < arms.len() && (#[trigger] arms[i].pat matches Pat::PathPat(Some(n)) && (n@
            == "Some"@ || n@ == "None"@ || n@ == "Ok"@ || n@ == "Err"@))
}

/// What the rule reports at one expression node: every applicable
/// method-call heuristic in catalog order, or the `if let`, two-armed
/// match and range-loop shapes.
pub open spec fn anti_contrib(e: Expr) -> Seq<IssueV> {
    match e {
        Expr::MethodCall { receiver, method, args, span } => clone_contrib(method@, span)
            + string_contrib(method@, *receiver, span) + collection_contrib(
            method@,
            *receiver,
            span,
        ) + option_contrib(method@, span) + get_zero_contrib(method@, args@, span),
        Expr::If { cond, else_body, .. } => if (*cond matches Expr::LetExpr { span, .. })
            && else_body is Some {
            seq![
                ap_info(
                    (*cond)->LetExpr_span,
                    "Consider using `.is_some()`, `.is_none()`, `.is_ok()`, or `.is_err()` instead of if-let for boolean conversion"@,
                    5,
                ),
            ]
        } else {
            Seq::empty()
        },
        Expr::Match { arms, span, .. } => if arms.len() == 2 && has_option_result_arm(arms@) {
            seq![
                ap_info(
                    span,
                    "Consider using combinators like `.map()`, `.and_then()`, `.unwrap_or()`, etc. instead of match for simple Option/Result handling"@,
                    5,
                ),
            ]
        } else {
            Seq::empty()
        },
        Expr::ForLoop { iter, span, .. } => if *iter matches Expr::RangeExpr {
            start: Some(_),
            end: Some(_),
        } {
            seq![
                ap_info(
                    span,
                    "Consider using iterator methods like `.enumerate()`, `.zip()`, or range methods instead of indexed for loops"@,
                    3,
                ),
            ]
        } else {
            Seq::empty()
        },
        _ => Seq::empty(),
    }
}

fn exec_ap_warning(span: Span, msg: String, fix: Option<Fix>) -> (r: Issue)
    ensures
        r.deep_view() == ap_warning(span, msg@, match fix {
            Some(f) => Some(f.deep_view()),
            None => None,
        }),
{
    let issue = Issue {
        rule: String::from_str("anti_patterns"),
        severity: Severity::Warning,
        message: msg,
        location: Location {
            line: span.line,
            column: span.col,
            end_line: Some(span.line),
            end_column: Some(sat_add_usize(span.col, 10)),
        },
        fix,
    };
    proof {
        assert(issue.location.end_column->0 as nat == sat_add(span.col as nat, 10));
    }
    issue
}

fn exec_ap_info(span: Span, msg: String, endlen: usize) -> (r: Issue)
    ensures
        r.deep_view() == ap_info(span, msg@, endlen as nat),
{
    let issue = Issue {
        rule: String::from_str("anti_patterns"),
        severity: Severity::Info,
        message: msg,
        location: Location {
            line: span.line,
            column: span.col,
            end_line: Some(span.line),
            end_column: Some(sat_add_usize(span.col, endlen)),
        },
        fix: None,
    };
    proof {
        assert(issue.location.end_column->0 as nat == sat_add(span.col as nat, endlen as nat));
    }
    issue
}

fn exec_ap_fix(desc: &str, text: &str) -> (r: Fix)
    ensures
        r.deep_view() == ap_fix(desc@, text@),
{
    let mut reps: Vec<Replacement> = Vec::new();
    reps.push(Replacement { start: 0, end: 0, text: String::from_str(text) });
    let fix = Fix { description: String::from_str(desc), replacements: reps };
    proof {
        assert(fix.deep_view().replacements =~= ap_fix(desc@, text@).replacements);
        assert(fix.deep_view() =~~= ap_fix(desc@, text@));
    }
    fix
}

fn exec_method_contribs(
    receiver: &Expr,
    method: &String,
    args: &Vec<Expr>,
    span: Span,
    out: &mut Vec<Issue>,
)
    ensures
        final(out).deep_view() == old(out).deep_view() + clone_contrib(method@, span)
            + string_contrib(method@, *receiver, span) + collection_contrib(
            method@,
            *receiver,
            span,
        ) + option_contrib(method@, span) + get_zero_contrib(method@, args@, span),
{
    let ghost pre = out.deep_view();
    if str_eq(method.as_str(), "clone") {
        let fix = exec_ap_fix(
            "Consider removing .clone() if borrowing is sufficient",
            "// TODO: Review if clone is necessary",
        );
        let issue = exec_ap_warning(
            span,
            String::from_str(
                "Potential unnecessary clone - consider borrowing or using references",
            ),
            Some(fix),
        );
        out.push(issue);
    }
    proof {
        assert(out.deep_view() =~= pre + clone_contrib(method@, span));
    }
    let ghost pre2 = out.deep_view();
    if str_eq(method.as_str(), "to_string") {
        match receiver {
            Expr::Lit { kind: LitKind::StrLit } => {
                let fix = exec_ap_fix("Replace with String::from()", "String::from(...)");
                let issue = exec_ap_warning(
                    span,
                    String::from_str(
                        "Use `String::from()` or `.to_owned()` instead of `.to_string()` on string literals",
                    ),
                    Some(fix),
                );
                out.push(issue);
            }
            _ => {}
        }
    } else if str_eq(method.as_str(), "as_str") {
        match receiver {
            Expr::MethodCall { method: inner, .. } => {
                if str_eq(inner.as_str(), "to_string") {
                    let issue = exec_ap_warning(
                        span,
                        String::from_str(
                            "Redundant `.to_string().as_str()` - just use the original string",
                        ),
                        None,
                    );
                    out.push(issue);
                }
            }
            _ => {}
        }
    }
    proof {
        reveal_strlit("to_string");
        reveal_strlit("as_str");
        assert("to_string"@.len() == 9);
        assert("as_str"@.len() == 6);
        assert("to_string"@ != "as_str"@);
        assert(out.deep_view() =~= pre2 + string_contrib(method@, *receiver, span));
    }
    let ghost pre3 = out.deep_view();
    if str_eq(method.as_str(), "collect") {
        let mlen = method.as_str().unicode_len();
        let issue = exec_ap_info(
            span,
            String::from_str(
                "Consider if iteration can be done without collecting - lazy evaluation is often more efficient",
            ),
            mlen,
        );
        out.push(issue);
    } else if str_eq(method.as_str(), "into_iter") {
        match receiver {
            Expr::Reference { .. } => {
                let fix = exec_ap_fix("Replace with .iter()", ".iter()");
                let issue = exec_ap_warning(
                    span,
                    String::from_str("Use `.iter()` instead of `(&collection).into_iter()`"),
                    Some(fix),
                );
                out.push(issue);
            }
            _ => {}
        }
    }
    proof {
        reveal_strlit("collect");
        reveal_strlit("into_iter");
        assert(out.deep_view() =~= pre3 + collection_contrib(method@, *receiver, span));
    }
    let ghost pre4 = out.deep_view();
    if str_eq(method.as_str(), "is_some") || str_eq(method.as_str(), "is_none") || str_eq(
        method.as_str(),
        "is_ok",
    ) || str_eq(method.as_str(), "is_err") {
        let mut msg = String::from_str(
            "Consider using pattern matching or combinators instead of `.",
        );
        msg.append(method.as_str());
        msg.append("()` checks");
        let mlen = method.as_str().unicode_len();
        let issue = exec_ap_info(span, msg, mlen);
        out.push(issue);
    }
    proof {
        assert(out.deep_view() =~= pre4 + option_contrib(method@, span));
    }
    let ghost pre5 = out.deep_view();
    if str_eq(method.as_str(), "get") && args.len() > 0 {
        match &args[0] {
            Expr::Lit { kind: LitKind::IntLit(d) } => {
                if str_eq(d.as_str(), "0") {
                    let fix = exec_ap_fix("Replace with .first()", ".first()");
                    let issue = exec_ap_warning(
                        span,
                        String::from_str("Use `.first()` instead of `.get(0)` for better semantics"),
                        Some(fix),
                    );
                    out.push(issue);
                }
            }
            _ => {}
        }
    }
    proof {
        assert(out.deep_view() =~= pre5 + get_zero_contrib(method@, args@, span));
    }
}

fn exec_has_option_result_arm(arms: &Vec<Arm>) -> (r: bool)
    ensures
        r == has_option_result_arm(arms@),
{
    let mut i: usize = 0;
    while i < arms.len()
        invariant
            i <= arms.len(),
            forall|j: int|
                0 <= j < i ==> !(#[trigger] arms@[j].pat matches Pat::PathPat(Some(n)) && (n@
                    == "Some"@ || n@ == "None"@ || n@ == "Ok"@ || n@ == "Err"@)),
        decreases arms.len() - i,
    {
        match &arms[i].pat {
            Pat::PathPat(Some(n)) => {
                if str_eq(n.as_str(), "Some") || str_eq(n.as_str(), "None") || str_eq(
                    n.as_str(),
                    "Ok",
                ) || str_eq(n.as_str(), "Err") {
                    return true;
                }
            }
            _ => {}
        }
        i = i + 1;
    }
    false
}

/// Appends what the rule reports at this one node.
pub fn exec_anti_contrib(e: &Expr, out: &mut Vec<Issue>)
    ensures
        final(out).deep_view() == old(out).deep_view() + anti_contrib(*e),
{
    let ghost pre = out.deep_view();
    match e {
        Expr::MethodCall { receiver, method, args, span } => {
            exec_method_contribs(&**receiver, method, args, *span, out);
        }
        Expr::If { cond, else_body, .. } => {
            match &**cond {
                Expr::LetExpr { span, .. } => {
                    if else_body.is_some() {
                        let issue = exec_ap_info(
                            *span,
                            String::from_str(
                                "Consider using `.is_some()`, `.is_none()`, `.is_ok()`, or `.is_err()` instead of if-let for boolean conversion",
                            ),
                            5,
                        );
                        out.push(issue);
                    }
                }
                _ => {}
            }
        }
        Expr::Match { arms, span, .. } => {
            if arms.len() == 2 && exec_has_option_result_arm(arms) {
                let issue = exec_ap_info(
                    *span,
                    String::from_str(
                        "Consider using combinators like `.map()`, `.and_then()`, `.unwrap_or()`, etc. instead of match for simple Option/Result handling",
                    ),
                    5,
                );
                out.push(issue);
            }
        }
        Expr::ForLoop { iter, span, .. } => {
            match &**iter {
                Expr::RangeExpr { start: Some(_), end: Some(_) } => {
                    let issue = exec_ap_info(
                        *span,
                        String::from_str(
                            "Consider using iterator methods like `.enumerate()`, `.zip()`, or range methods instead of indexed for loops",
                        ),
                        3,
                    );
                    out.push(issue);
                }
                _ => {}
            }
        }
        _ => {}
    }
    proof {
        assert(final(out).deep_view() =~= pre + anti_contrib(*e));
    }
}

/// Flags the catalog of shape-based anti-patterns.
pub struct AntiPatternsRule;

impl AntiPatternsRule {
    pub fn name(&self) -> (r: &'static str)
        ensures
            r@ == "anti_patterns"@,
    {
        "anti_patterns"
    }

    /// Reports exactly the anti-pattern shapes found in a traversal of
    /// the file's items, in source order.
    pub fn check(&self, ctx: &mut RuleContext)
        ensures
            ctx_adds(
                *old(ctx),
                *final(ctx),
                walk_items(VisitorV::AntiPatterns, old(ctx).syntax_tree.items@),
            ),
    {
        let v = Visitor::AntiPatterns;
        let found = visitor_issues(&v, &ctx.syntax_tree);
        ctx.report_all(found);
    }
}

} // verus!
