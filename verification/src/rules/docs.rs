//! Flags publicly visible items that lack a preceding doc comment.

use vstd::prelude::*;

use crate::ast::Item;
use crate::issues::{Issue, IssueV, Location, Severity};
use crate::rules::{ctx_adds, RuleContext};

verus! {

/// The issue reported for one undocumented public item of the given kind.
pub open spec fn missing_doc_issue(kind: Seq<char>, name: Seq<char>, line: usize, col: usize) -> IssueV {
    IssueV {
        rule: "missing-docs"@,
        severity: Severity::Warning,
        message: "Missing documentation for public "@ + kind + " '"@ + name + "'"@,
        location: Location { line, column: col, end_line: None, end_column: None },
        fix: None,
    }
}

/// What the rule reports for one item: public functions, structs, enums
/// and traits without a doc comment.
pub open spec fn docs_contrib(it: Item) -> Seq<IssueV> {
    match it {
        Item::Fn(f) => if f.is_pub && !f.has_doc {
            seq![missing_doc_issue("function"@, f.name@, f.span.line, f.span.col)]
        } else {
            Seq::empty()
        },
        Item::Struct(t) => if t.is_pub && !t.has_doc {
            seq![missing_doc_issue("struct"@, t.name@, t.span.line, t.span.col)]
        } else {
            Seq::empty()
        },
        Item::Enum(t) => if t.is_pub && !t.has_doc {
            seq![missing_doc_issue("enum"@, t.name@, t.span.line, t.span.col)]
        } else {
            Seq::empty()
        },
        Item::Trait(t) => if t.is_pub && !t.has_doc {
            seq![missing_doc_issue("trait"@, t.name@, t.span.line, t.span.col)]
        } else {
            Seq::empty()
        },
        _ => Seq::empty(),
    }
}

/// What the rule reports for a list of items, in order.
pub open spec fn docs_issues(items: Seq<Item>) -> Seq<IssueV>
    decreases items,
{
    if items.len() == 0 {
        Seq::empty()
    } else {
        docs_contrib(items[0]) + docs_issues(items.drop_first())
    }
}

fn exec_missing_doc_issue(kind: &str, name: &str, line: usize, col: usize) -> (r: Issue)
    ensures
        r.deep_view() == missing_doc_issue(kind@, name@, line, col),
{
    let mut msg = String::from_str("Missing documentation for public ");
    msg.append(kind);
    msg.append(" '");
    msg.append(name);
    msg.append("'");
    Issue {
        rule: String::from_str("missing-docs"),
        severity: Severity::Warning,
        message: msg,
        location: Location { line, column: col, end_line: None, end_column: None },
        fix: None,
    }
}

/// Flags publicly visible items without documentation.
pub struct MissingDocsRule;

impl MissingDocsRule {
    pub fn name(&self) -> (r: &'static str)
        ensures
            r@ == "missing-docs"@,
    {
        "missing-docs"
    }

    /// Reports exactly one issue for each public function, struct, enum or
    /// trait that lacks a doc comment, in item order.
    pub fn check(&self, ctx: &mut RuleContext)
        ensures
            ctx_adds(*old(ctx), *final(ctx), docs_issues(old(ctx).syntax_tree.items@)),
    {
        let ghost all = ctx.syntax_tree.items@;
        let mut out: Vec<Issue> = Vec::new();
        let mut i: usize = 0;
        proof {
            assert(all.skip(0) =~= all);
            assert(out.deep_view() =~= Seq::<IssueV>::empty());
        }
        while i < ctx.syntax_tree.items.len()
            invariant
                i <= ctx.syntax_tree.items.len(),
                ctx.syntax_tree.items@ == all,
                docs_issues(all) == out.deep_view() + docs_issues(all.skip(i as int)),
            decreases ctx.syntax_tree.items.len() - i,
        {
            let ghost pre = out.deep_view();
            proof {
                assert(all.skip(i as int).drop_first() =~= all.skip(i as int + 1));
                assert(all.skip(i as int)[0] == all[i as int]);
            }
            match &ctx.syntax_tree.items[i] {
                Item::Fn(f) => {
                    if f.is_pub && !f.has_doc {
                        let issue = exec_missing_doc_issue(
                            "function",
                            f.name.as_str(),
                            f.span.line,
                            f.span.col,
                        );
                        out.push(issue);
                    }
                }
                Item::Struct(t) => {
                    if t.is_pub && !t.has_doc {
                        let issue = exec_missing_doc_issue(
                            "struct",
                            t.name.as_str(),
                            t.span.line,
                            t.span.col,
                        );
                        out.push(issue);
                    }
                }
                Item::Enum(t) => {
                    if t.is_pub && !t.has_doc {
                        let issue = exec_missing_doc_issue(
                            "enum",
                            t.name.as_str(),
                            t.span.line,
                            t.span.col,
                        );
                        out.push(issue);
                    }
                }
                Item::Trait(t) => {
                    if t.is_pub && !t.has_doc {
                        let issue = exec_missing_doc_issue(
                            "trait",
                            t.name.as_str(),
                            t.span.line,
                            t.span.col,
                        );
                        out.push(issue);
                    }
                }
                _ => {}
            }
            proof {
                assert(out.deep_view() =~= pre + docs_contrib(all[i as int]));
                assert(docs_issues(all) =~= out.deep_view() + docs_issues(all.skip(i as int + 1)));
            }
            i = i + 1;
        }
        proof {
            assert(all.skip(all.len() as int) =~= Seq::<Item>::empty());
            assert(out.deep_view() =~= docs_issues(all));
        }
        ctx.report_all(out);
    }
}

} // verus!
