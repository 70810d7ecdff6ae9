//! Flags development-marker macro invocations, with severity scaled to
//! risk, and extracts a literal message argument when one is present.

use vstd::prelude::*;

use crate::ast::{Expr, Span};
use crate::issues::{Fix, FixV, Issue, IssueV, Location, Replacement, ReplacementV, Severity};
use crate::rules::{ctx_adds, RuleContext};
use crate::rules::visit::{visitor_issues, walk_items, Visitor, VisitorV};
use crate::text::{find_char, first_at, sat_add, sat_add_usize, spec_trim, str_eq, str_trim};

verus! {

/// Whether a macro name is one of the development markers the rule flags.
pub open spec fn is_todo_macro(m: Seq<char>) -> bool {
    m == "todo"@ || m == "unimplemented"@ || m == "unreachable"@ || m == "panic"@
}

/// The severity for each marker: unfinished-work markers warn,
/// unreachable markers are informational, explicit panics are errors.
pub open spec fn todo_severity(m: Seq<char>) -> Severity {
    if m == "todo"@ || m == "unimplemented"@ {
        Severity::Warning
    } else if m == "unreachable"@ {
        Severity::Info
    } else if m == "panic"@ {
        Severity::Error
    } else {
        Severity::Info
    }
}

/// The description text for each marker.
pub open spec fn todo_description(m: Seq<char>) -> Seq<char> {
    if m == "todo"@ {
        "TODO macro found - should be implemented before production"@
    } else if m == "unimplemented"@ {
        "Unimplemented macro found - should be implemented before production"@
    } else if m == "unreachable"@ {
        "Unreachable macro found - ensure this code path is truly unreachable"@
    } else if m == "panic"@ {
        "Panic macro found - consider returning Result or using expect() with context"@
    } else {
        "Development macro found"@
    }
}

/// The literal message found in a macro's argument tokens: the trimmed
/// tokens stripped of enclosing quotes, the text between the first two
/// quotes, or the whole trimmed text; empty tokens carry no message.
pub open spec fn extract_message(tokens: Seq<char>) -> Option<Seq<char>> {
    let t = spec_trim(tokens);
    if t.len() == 0 {
        None
    } else if t.len() >= 2 && t[0] == '"' && t[t.len() - 1] == '"' {
        Some(t.subrange(1, t.len() - 1))
    } else if first_at(t, '"') < t.len() {
        let rest = t.skip(first_at(t, '"') as int + 1);
        Some(rest.take(first_at(rest, '"') as int))
    } else {
        Some(t)
    }
}

/// The full message for a marker: its description, extended with the
/// extracted literal message when there is one.
pub open spec fn todo_full_message(m: Seq<char>, tokens: Seq<char>) -> Seq<char> {
    match extract_message(tokens) {
        Some(txt) => todo_description(m) + ": "@ + txt,
        None => todo_description(m),
    }
}

/// The proposed correction for each marker, if any.
pub open spec fn todo_fix(m: Seq<char>) -> Option<FixV> {
    if m == "todo"@ {
        Some(
            FixV {
                description: "Replace with actual implementation"@,
                replacements: seq![
                    ReplacementV { start: 0, end: 0, text: "// TODO: Implement this functionality"@ },
                ],
            },
        )
    } else if m == "unimplemented"@ {
        Some(
            FixV {
                description: "Replace with actual implementation"@,
                replacements: seq![
                    ReplacementV {
                        start: 0,
                        end: 0,
                        text: "return Err(\"Not yet implemented\".into())"@,
                    },
                ],
            },
        )
    } else {
        None
    }
}

/// The issue reported for one development-marker macro.
pub open spec fn todo_issue(m: Seq<char>, tokens: Seq<char>, span: Span) -> IssueV {
    IssueV {
        rule: "todo_macros"@,
        severity: todo_severity(m),
        message: m + "!() - "@ + todo_full_message(m, tokens),
        location: Location {
            line: span.line,
            column: span.col,
            end_line: Some(span.line),
            end_column: Some(sat_add(span.col as nat, m.len()) as usize),
        },
        fix: todo_fix(m),
    }
}

/// What the rule reports at one expression node.
pub open spec fn todo_contrib(e: Expr) -> Seq<IssueV> {
    match e {
        Expr::MacroCall { name, tokens, span } => if is_todo_macro(name@) {
            seq![todo_issue(name@, tokens@, span)]
        } else {
            Seq::empty()
        },
        _ => Seq::empty(),
    }
}

fn exec_extract_message(tokens: &str) -> (r: Option<String>)
    ensures
        match extract_message(tokens@) {
            Some(txt) => r matches Some(s) && s@ == txt,
            None => r is None,
        },
{
    let t = str_trim(tokens);
    let tlen = t.unicode_len();
    if tlen == 0 {
        None
    } else if tlen >= 2 && t.get_char(0) == '"' && t.get_char(tlen - 1) == '"' {
        let inner = t.substring_char(1, tlen - 1);
        proof {
            assert(inner@ =~= spec_trim(tokens@).subrange(1, spec_trim(tokens@).len() - 1));
        }
        Some(String::from_str(inner))
    } else {
        let q = find_char(t, '"');
        if q < tlen {
            let rest = t.substring_char(q + 1, tlen);
            proof {
                assert(rest@ =~= spec_trim(tokens@).skip(first_at(spec_trim(tokens@), '"') as int
                    + 1));
            }
            let q2 = find_char(rest, '"');
            proof {
                crate::text::lemma_first_at(rest@, '"');
            }
            let inner = rest.substring_char(0, q2);
            proof {
                assert(inner@ =~= rest@.take(first_at(rest@, '"') as int));
            }
            Some(String::from_str(inner))
        } else {
            Some(String::from_str(t))
        }
    }
}

fn exec_todo_issue(m: &str, tokens: &str, span: Span) -> (r: Issue)
    ensures
        r.deep_view() == todo_issue(m@, tokens@, span),
{
    let mut msg = String::from_str(m);
    msg.append("!() - ");
    if str_eq(m, "todo") {
        msg.append("TODO macro found - should be implemented before production");
    } else if str_eq(m, "unimplemented") {
        msg.append("Unimplemented macro found - should be implemented before production");
    } else if str_eq(m, "unreachable") {
        msg.append("Unreachable macro found - ensure this code path is truly unreachable");
    } else if str_eq(m, "panic") {
        msg.append("Panic macro found - consider returning Result or using expect() with context");
    } else {
        msg.append("Development macro found");
    }
    match exec_extract_message(tokens) {
        Some(txt) => {
            msg.append(": ");
            msg.append(txt.as_str());
        }
        None => {}
    }
    let severity = if str_eq(m, "todo") || str_eq(m, "unimplemented") {
        Severity::Warning
    } else if str_eq(m, "unreachable") {
        Severity::Info
    } else if str_eq(m, "panic") {
        Severity::Error
    } else {
        Severity::Info
    };
    let fix: Option<Fix> = if str_eq(m, "todo") {
        let mut reps: Vec<Replacement> = Vec::new();
        reps.push(
            Replacement {
                start: 0,
                end: 0,
                text: String::from_str("// TODO: Implement this functionality"),
            },
        );
        Some(
            Fix {
                description: String::from_str("Replace with actual implementation"),
                replacements: reps,
            },
        )
    } else if str_eq(m, "unimplemented") {
        let mut reps: Vec<Replacement> = Vec::new();
        reps.push(
            Replacement {
                start: 0,
                end: 0,
                text: String::from_str("return Err(\"Not yet implemented\".into())"),
            },
        );
        Some(
            Fix {
                description: String::from_str("Replace with actual implementation"),
                replacements: reps,
            },
        )
    } else {
        None
    };
    let mlen = m.unicode_len();
    let issue = Issue {
        rule: String::from_str("todo_macros"),
        severity,
        message: msg,
        location: Location {
            line: span.line,
            column: span.col,
            end_line: Some(span.line),
            end_column: Some(sat_add_usize(span.col, mlen)),
        },
        fix,
    };
    proof {
        let want = todo_issue(m@, tokens@, span);
        assert(issue.deep_view().message =~= want.message);
        assert(issue.deep_view().rule =~= want.rule);
        assert(issue.location.end_column->0 as nat == sat_add(span.col as nat, m@.len()));
        assert(issue.location == want.location);
        if m@ == "todo"@ || m@ == "unimplemented"@ {
            assert(issue.deep_view().fix->0.replacements =~= want.fix->0.replacements);
            assert(issue.deep_view().fix->0 =~~= want.fix->0);
        }
        assert(issue.deep_view().fix == want.fix);
        assert(issue.deep_view() =~~= want);
    }
    issue
}

/// Appends what the rule reports at this one node.
pub fn exec_todo_contrib(e: &Expr, out: &mut Vec<Issue>)
    ensures
        final(out).deep_view() == old(out).deep_view() + todo_contrib(*e),
{
    let ghost pre = out.deep_view();
    match e {
        Expr::MacroCall { name, tokens, span } => {
            if str_eq(name.as_str(), "todo") || str_eq(name.as_str(), "unimplemented") || str_eq(
                name.as_str(),
                "unreachable",
            ) || str_eq(name.as_str(), "panic") {
                let issue = exec_todo_issue(name.as_str(), tokens.as_str(), *span);
                out.push(issue);
                proof {
                    assert(out.deep_view() =~= pre + todo_contrib(*e));
                }
            }
        }
        _ => {}
    }
    proof {
        assert(final(out).deep_view() =~= pre + todo_contrib(*e));
    }
}

/// Flags development-marker macro invocations.
pub struct TodoMacroRule;

impl TodoMacroRule {
    pub fn name(&self) -> (r: &'static str)
        ensures
            r@ == "todo_macros"@,
    {
        "todo_macros"
    }

    /// Reports exactly the development-marker macro invocations found in a
    /// traversal of the file's items, in source order.
    pub fn check(&self, ctx: &mut RuleContext)
        ensures
            ctx_adds(
                *old(ctx),
                *final(ctx),
                walk_items(VisitorV::TodoMacros, old(ctx).syntax_tree.items@),
            ),
    {
        let v = Visitor::TodoMacros;
        let found = visitor_issues(&v, &ctx.syntax_tree);
        ctx.report_all(found);
    }
}

} // verus!
