//! Style rules: identifier naming conventions and line length.

use vstd::prelude::*;

use crate::ast::{FnItem, Item, TypeItem};
use crate::issues::{Fix, Issue, IssueV, FixV, Location, Replacement, ReplacementV, Severity};
use crate::naming::{is_pascal_case, is_snake_case, spec_is_pascal_case, spec_is_snake_case,
    spec_to_snake, to_snake_case};
use crate::rules::{ctx_adds, RuleContext};
use crate::text::{dec_str, spec_lines, spec_starts_with, split_lines, str_starts_with};

verus! {

/// The issue reported for a function whose name is not snake case.
pub open spec fn fn_naming_issue(f: FnItem) -> IssueV {
    IssueV {
        rule: "naming-convention"@,
        severity: Severity::Warning,
        message: "Function '"@ + f.name@ + "' should be snake_case"@,
        location: Location {
            line: f.span.line,
            column: f.span.col,
            end_line: None,
            end_column: None,
        },
        fix: Some(
            FixV {
                description: "Convert to snake_case"@,
                replacements: seq![
                    ReplacementV { start: 0, end: 0, text: spec_to_snake(f.name@) },
                ],
            },
        ),
    }
}

/// The issue reported for a struct whose name is not Pascal case.
pub open spec fn struct_naming_issue(t: TypeItem) -> IssueV {
    IssueV {
        rule: "naming-convention"@,
        severity: Severity::Warning,
        message: "Struct '"@ + t.name@ + "' should be PascalCase"@,
        location: Location {
            line: t.span.line,
            column: t.span.col,
            end_line: None,
            end_column: None,
        },
        fix: None,
    }
}

/// What the naming rule reports for one item: a function name that is not
/// snake case (test functions excepted), or a struct name that is not
/// Pascal case.
pub open spec fn naming_contrib(it: Item) -> Seq<IssueV> {
    match it {
        Item::Fn(f) => if !spec_is_snake_case(f.name@) && !spec_starts_with(f.name@, "test_"@) {
            seq![fn_naming_issue(f)]
        } else {
            Seq::empty()
        },
        Item::Struct(t) => if !spec_is_pascal_case(t.name@) {
            seq![struct_naming_issue(t)]
        } else {
            Seq::empty()
        },
        _ => Seq::empty(),
    }
}

/// What the naming rule reports for a list of items, in order.
pub open spec fn naming_issues(items: Seq<Item>) -> Seq<IssueV>
    decreases items,
{
    if items.len() == 0 {
        Seq::empty()
    } else {
        naming_contrib(items[0]) + naming_issues(items.drop_first())
    }
}

/// Checks that function names are snake case and struct names Pascal case.
pub struct NamingConventionRule;

impl NamingConventionRule {
    pub fn name(&self) -> (r: &'static str)
        ensures
            r@ == "naming-convention"@,
    {
        "naming-convention"
    }

    /// Reports exactly the naming violations among the file's top-level
    /// items, in item order.
    pub fn check(&self, ctx: &mut RuleContext)
        ensures
            ctx_adds(*old(ctx), *final(ctx), naming_issues(old(ctx).syntax_tree.items@)),
    {
        let ghost all = ctx.syntax_tree.items@;
        let mut out: Vec<Issue> = Vec::new();
        let mut i: usize = 0;
        proof {
            assert(all.skip(0) =~= all);
            assert(out.deep_view() =~= Seq::<IssueV>::empty());
        }
        while i < ctx.syntax_tree.items.len()
            invariant
                i <= ctx.syntax_tree.items.len(),
                ctx.syntax_tree.items@ == all,
                naming_issues(all) == out.deep_view() + naming_issues(all.skip(i as int)),
            decreases ctx.syntax_tree.items.len() - i,
        {
            let ghost pre = out.deep_view();
            proof {
                assert(all.skip(i as int).drop_first() =~= all.skip(i as int + 1));
                assert(all.skip(i as int)[0] == all[i as int]);
            }
            match &ctx.syntax_tree.items[i] {
                Item::Fn(f) => {
                    if !is_snake_case(f.name.as_str()) && !str_starts_with(
                        f.name.as_str(),
                        "test_",
                    ) {
                        let mut msg = String::from_str("Function '");
                        msg.append(f.name.as_str());
                        msg.append("' should be snake_case");
                        let rep = Replacement { start: 0, end: 0, text: to_snake_case(
                            f.name.as_str(),
                        ) };
                        let mut reps: Vec<Replacement> = Vec::new();
                        reps.push(rep);
                        let fix = Fix {
                            description: String::from_str("Convert to snake_case"),
                            replacements: reps,
                        };
                        let issue = Issue {
                            rule: String::from_str("naming-convention"),
                            severity: Severity::Warning,
                            message: msg,
                            location: Location {
                                line: f.span.line,
                                column: f.span.col,
                                end_line: None,
                                end_column: None,
                            },
                            fix: Some(fix),
                        };
                        proof {
                            assert(issue.deep_view().fix->0.replacements
                                =~= fn_naming_issue(all[i as int]->Fn_0).fix->0.replacements);
                            assert(issue.deep_view() == fn_naming_issue(all[i as int]->Fn_0));
                        }
                        out.push(issue);
                        proof {
                            assert(out.deep_view() =~= pre + naming_contrib(all[i as int]));
                        }
                    } else {
                        proof {
                            assert(out.deep_view() =~= pre + naming_contrib(all[i as int]));
                        }
                    }
                }
                Item::Struct(t) => {
                    if !is_pascal_case(t.name.as_str()) {
                        let mut msg = String::from_str("Struct '");
                        msg.append(t.name.as_str());
                        msg.append("' should be PascalCase");
                        let issue = Issue {
                            rule: String::from_str("naming-convention"),
                            severity: Severity::Warning,
                            message: msg,
                            location: Location {
                                line: t.span.line,
                                column: t.span.col,
                                end_line: None,
                                end_column: None,
                            },
                            fix: None,
                        };
                        out.push(issue);
                        proof {
                            assert(out.deep_view() =~= pre + naming_contrib(all[i as int]));
                        }
                    } else {
                        proof {
                            assert(out.deep_view() =~= pre + naming_contrib(all[i as int]));
                        }
                    }
                }
                _ => {
                    proof {
                        assert(out.deep_view() =~= pre + naming_contrib(all[i as int]));
                    }
                }
            }
            proof {
                assert(pre + naming_contrib(all[i as int]) + naming_issues(all.skip(i as int + 1))
                    =~= pre + (naming_contrib(all[i as int]) + naming_issues(
                    all.skip(i as int + 1),
                )));
            }
            i = i + 1;
        }
        proof {
            assert(all.skip(ctx.syntax_tree.items@.len() as int) =~= Seq::<Item>::empty());
            assert(out.deep_view() =~= naming_issues(all));
        }
        ctx.report_all(out);
    }
}

/// The issue reported for one over-long line.
pub open spec fn long_line_issue(lineno: int, max: nat, linelen: nat) -> IssueV {
    IssueV {
        rule: "line-too-long"@,
        severity: Severity::Info,
        message: "Line exceeds "@ + dec_str(max) + " characters ("@ + dec_str(linelen) + ")"@,
        location: Location {
            line: lineno as usize,
            column: (max + 1) as usize,
            end_line: None,
            end_column: None,
        },
        fix: None,
    }
}

/// What the line-length rule reports for the lines numbered from `lineno`.
pub open spec fn line_length_from(lines: Seq<Seq<char>>, max: nat, lineno: int) -> Seq<IssueV>
    decreases lines,
{
    if lines.len() == 0 {
        Seq::empty()
    } else {
        (if lines[0].len() > max {
            seq![long_line_issue(lineno, max, lines[0].len())]
        } else {
            Seq::empty()
        }) + line_length_from(lines.drop_first(), max, lineno + 1)
    }
}

/// What the line-length rule reports for whole content: one issue per line
/// whose character count exceeds `max`.
pub open spec fn line_length_issues(content: Seq<char>, max: nat) -> Seq<IssueV> {
    line_length_from(spec_lines(content), max, 1)
}

/// Flags lines longer than the configured maximum.
pub struct LineLengthRule {
    pub max_length: usize,
}

impl LineLengthRule {
    pub fn new(max_length: usize) -> (r: Self)
        ensures
            r.max_length == max_length,
    {
        LineLengthRule { max_length }
    }

    pub fn name(&self) -> (r: &'static str)
        ensures
            r@ == "line-too-long"@,
    {
        "line-too-long"
    }

    /// Reports exactly one issue for each line whose character count
    /// exceeds the configured maximum, in line order.
    pub fn check(&self, ctx: &mut RuleContext)
        ensures
            ctx_adds(
                *old(ctx),
                *final(ctx),
                line_length_issues(old(ctx).content@, self.max_length as nat),
            ),
    {
        let lines = split_lines(ctx.content.as_str());
        let ghost lv = lines.deep_view();
        let mut out: Vec<Issue> = Vec::new();
        let mut i: usize = 0;
        proof {
            assert(lv.skip(0) =~= lv);
            assert(out.deep_view() =~= Seq::<IssueV>::empty());
        }
        while i < lines.len()
            invariant
                i <= lines.len(),
                lines.deep_view() == lv,
                line_length_from(lv, self.max_length as nat, 1) == out.deep_view()
                    + line_length_from(lv.skip(i as int), self.max_length as nat, i + 1),
            decreases lines.len() - i,
        {
            let ghost pre = out.deep_view();
            proof {
                assert(lv.skip(i as int).drop_first() =~= lv.skip(i as int + 1));
                assert(lv.skip(i as int)[0] == lv[i as int]);
                assert(lines[i as int]@ == lv[i as int]);
            }
            let n = lines[i].as_str().unicode_len();
            if n > self.max_length {
                let mut msg = String::from_str("Line exceeds ");
                crate::text::push_dec(&mut msg, self.max_length);
                msg.append(" characters (");
                crate::text::push_dec(&mut msg, n);
                msg.append(")");
                let issue = Issue {
                    rule: String::from_str("line-too-long"),
                    severity: Severity::Info,
                    message: msg,
                    location: Location {
                        line: i + 1,
                        column: self.max_length + 1,
                        end_line: None,
                        end_column: None,
                    },
                    fix: None,
                };
                out.push(issue);
                proof {
                    assert(out.deep_view() =~= pre + seq![
                        long_line_issue(i + 1, self.max_length as nat, lv[i as int].len()),
                    ]);
                }
            }
            proof {
                assert(line_length_from(lv, self.max_length as nat, 1) =~= out.deep_view()
                    + line_length_from(lv.skip(i as int + 1), self.max_length as nat, i + 2));
            }
            i = i + 1;
        }
        proof {
            assert(lv.skip(lines@.len() as int) =~= Seq::<Seq<char>>::empty());
            assert(out.deep_view() =~= line_length_issues(old(ctx).content@,
                self.max_length as nat));
        }
        ctx.report_all(out);
    }
}

} // verus!
