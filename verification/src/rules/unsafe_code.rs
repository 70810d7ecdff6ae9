//! Flags functions declared without safety guarantees that carry no
//! safety documentation.

use vstd::prelude::*;

use crate::ast::Item;
use crate::issues::{Issue, IssueV, Location, Severity};
use crate::rules::{ctx_adds, RuleContext};

verus! {

/// The issue reported for one such function.
pub open spec fn unsafe_issue(line: usize, col: usize) -> IssueV {
    IssueV {
        rule: "unsafe-block"@,
        severity: Severity::Error,
        message: "Unsafe function without safety documentation"@,
        location: Location { line, column: col, end_line: None, end_column: None },
        fix: None,
    }
}

/// What the rule reports for one item: a function declared without safety
/// guarantees and lacking a doc comment to state them.
pub open spec fn unsafe_contrib(it: Item) -> Seq<IssueV> {
    match it {
        Item::Fn(f) => if f.is_unsafe && !f.has_doc {
            seq![unsafe_issue(f.span.line, f.span.col)]
        } else {
            Seq::empty()
        },
        _ => Seq::empty(),
    }
}

/// What the rule reports for a list of items, in order.
pub open spec fn unsafe_issues(items: Seq<Item>) -> Seq<IssueV>
    decreases items,
{
    if items.len() == 0 {
        Seq::empty()
    } else {
        unsafe_contrib(items[0]) + unsafe_issues(items.drop_first())
    }
}

/// Flags undocumented functions declared without safety guarantees.
pub struct UnsafeBlockRule;

impl UnsafeBlockRule {
    pub fn name(&self) -> (r: &'static str)
        ensures
            r@ == "unsafe-block"@,
    {
        "unsafe-block"
    }

    /// Reports exactly one error for each such function lacking safety
    /// documentation, in item order.
    pub fn check(&self, ctx: &mut RuleContext)
        ensures
            ctx_adds(*old(ctx), *final(ctx), unsafe_issues(old(ctx).syntax_tree.items@)),
    {
        let ghost all = ctx.syntax_tree.items@;
        let mut out: Vec<Issue> = Vec::new();
        let mut i: usize = 0;
        proof {
            assert(all.skip(0) =~= all);
            assert(out.deep_view() =~= Seq::<IssueV>::empty());
        }
        while i < ctx.syntax_tree.items.len()
            invariant
                i <= ctx.syntax_tree.items.len(),
                ctx.syntax_tree.items@ == all,
                unsafe_issues(all) == out.deep_view() + unsafe_issues(all.skip(i as int)),
            decreases ctx.syntax_tree.items.len() - i,
        {
            let ghost pre = out.deep_view();
            proof {
                assert(all.skip(i as int).drop_first() =~= all.skip(i as int + 1));
                assert(all.skip(i as int)[0] == all[i as int]);
            }
            match &ctx.syntax_tree.items[i] {
                Item::Fn(f) => {
                    if f.is_unsafe && !f.has_doc {
                        let issue = Issue {
                            rule: String::from_str("unsafe-block"),
                            severity: Severity::Error,
                            message: String::from_str(
                                "Unsafe function without safety documentation",
                            ),
                            location: Location {
                                line: f.span.line,
                                column: f.span.col,
                                end_line: None,
                                end_column: None,
                            },
                            fix: None,
                        };
                        out.push(issue);
                    }
                }
                _ => {}
            }
            proof {
                assert(out.deep_view() =~= pre + unsafe_contrib(all[i as int]));
                assert(unsafe_issues(all) =~= out.deep_view() + unsafe_issues(
                    all.skip(i as int + 1),
                ));
            }
            i = i + 1;
        }
        proof {
            assert(all.skip(all.len() as int) =~= Seq::<Item>::empty());
            assert(out.deep_view() =~= unsafe_issues(all));
        }
        ctx.report_all(out);
    }
}

} // verus!
