//! Import hygiene: group ordering of imports (standard library, then
//! external crates, then local paths), and imported names that are never
//! referenced.

use vstd::prelude::*;

use crate::ast::{ImportedName, Item};
use crate::issues::{Fix, FixV, Issue, IssueV, Location, Severity};
use crate::rules::{ctx_adds, RuleContext};
use crate::rules::must_use::{exec_name_in, name_in};
use crate::text::{spec_starts_with, str_starts_with};

verus! {

/// Whether an import path names the standard library.
pub open spec fn is_std_path(p: Seq<char>) -> bool {
    spec_starts_with(p, "std::"@) || spec_starts_with(p, "core::"@) || spec_starts_with(
        p,
        "alloc::"@,
    )
}

/// Whether an import path is crate-relative.
pub open spec fn is_local_path(p: Seq<char>) -> bool {
    spec_starts_with(p, "crate::"@) || spec_starts_with(p, "super::"@) || spec_starts_with(
        p,
        "self::"@,
    )
}

/// Whether an import path names an external crate.
pub open spec fn is_external_path(p: Seq<char>) -> bool {
    !is_std_path(p) && !is_local_path(p)
}

/// Whether an import path names the standard library.
pub fn exec_is_std_path(p: &str) -> (r: bool)
    ensures
        r == is_std_path(p@),
{
    str_starts_with(p, "std::") || str_starts_with(p, "core::") || str_starts_with(p, "alloc::")
}

/// Whether an import path is crate-relative.
pub fn exec_is_local_path(p: &str) -> (r: bool)
    ensures
        r == is_local_path(p@),
{
    str_starts_with(p, "crate::") || str_starts_with(p, "super::") || str_starts_with(p, "self::")
}

/// The greater of two line counters.
pub open spec fn line_max(a: nat, b: nat) -> nat {
    if a >= b {
        a
    } else {
        b
    }
}

/// The greatest source line of a standard-library import, or zero.
pub open spec fn max_std_line(items: Seq<Item>) -> nat
    decreases items,
{
    if items.len() == 0 {
        0
    } else {
        line_max(
            match items[0] {
                Item::Use(u) => if is_std_path(u.path@) {
                    u.span.line as nat
                } else {
                    0
                },
                _ => 0,
            },
            max_std_line(items.drop_first()),
        )
    }
}

/// The greatest source line of an external-crate import, or zero.
pub open spec fn max_ext_line(items: Seq<Item>) -> nat
    decreases items,
{
    if items.len() == 0 {
        0
    } else {
        line_max(
            match items[0] {
                Item::Use(u) => if is_external_path(u.path@) {
                    u.span.line as nat
                } else {
                    0
                },
                _ => 0,
            },
            max_ext_line(items.drop_first()),
        )
    }
}

/// The issue reported for one out-of-order import.
pub open spec fn order_issue(msg: Seq<char>, line: usize, col: usize) -> IssueV {
    IssueV {
        rule: "import-order"@,
        severity: Severity::Info,
        message: msg,
        location: Location { line, column: col, end_line: None, end_column: None },
        fix: None,
    }
}

/// External imports that appear, by line, before the last standard-library
/// import, in item order.
pub open spec fn ext_violations(items: Seq<Item>, last_std: nat) -> Seq<IssueV>
    decreases items,
{
    if items.len() == 0 {
        Seq::empty()
    } else {
        (match items[0] {
            Item::Use(u) => if is_external_path(u.path@) && (u.span.line as nat) < last_std {
                seq![
                    order_issue(
                        "External imports should come after standard library imports"@,
                        u.span.line,
                        u.span.col,
                    ),
                ]
            } else {
                Seq::empty()
            },
            _ => Seq::empty(),
        }) + ext_violations(items.drop_first(), last_std)
    }
}

/// Local imports that appear, by line, before the last external import,
/// in item order.
pub open spec fn local_violations(items: Seq<Item>, last_ext: nat) -> Seq<IssueV>
    decreases items,
{
    if items.len() == 0 {
        Seq::empty()
    } else {
        (match items[0] {
            Item::Use(u) => if is_local_path(u.path@) && (u.span.line as nat) < last_ext {
                seq![
                    order_issue(
                        "Local imports should come after external crate imports"@,
                        u.span.line,
                        u.span.col,
                    ),
                ]
            } else {
                Seq::empty()
            },
            _ => Seq::empty(),
        }) + local_violations(items.drop_first(), last_ext)
    }
}

/// What the import-order rule reports: the external-import violations,
/// then the local-import violations.
pub open spec fn import_order_issues(items: Seq<Item>) -> Seq<IssueV> {
    ext_violations(items, max_std_line(items)) + local_violations(items, max_ext_line(items))
}

/// Flags import groups that appear out of the conventional order.
pub struct ImportOrderRule;

impl ImportOrderRule {
    pub fn name(&self) -> (r: &'static str)
        ensures
            r@ == "import-order"@,
    {
        "import-order"
    }

    /// Reports exactly the external imports lying above the last
    /// standard-library import, then the local imports lying above the
    /// last external import, each in item order.
    #[verifier::loop_isolation(false)]
    pub fn check(&self, ctx: &mut RuleContext)
        ensures
            ctx_adds(*old(ctx), *final(ctx), import_order_issues(old(ctx).syntax_tree.items@)),
    {
        let ghost all = ctx.syntax_tree.items@;
        let items = &ctx.syntax_tree.items;
        let mut last_std: usize = 0;
        let mut last_ext: usize = 0;
        let mut i: usize = 0;
        proof {
            assert(all.skip(0) =~= all);
        }
        while i < items.len()
            invariant
                i <= items.len(),
                max_std_line(all) == line_max(last_std as nat, max_std_line(all.skip(i as int))),
                max_ext_line(all) == line_max(last_ext as nat, max_ext_line(all.skip(i as int))),
            decreases items.len() - i,
        {
            proof {
                assert(all.skip(i as int).drop_first() =~= all.skip(i as int + 1));
                assert(all.skip(i as int)[0] == all[i as int]);
            }
            match &items[i] {
                Item::Use(u) => {
                    if exec_is_std_path(u.path.as_str()) {
                        if u.span.line > last_std {
                            last_std = u.span.line;
                        }
                    } else if !exec_is_local_path(u.path.as_str()) {
                        if u.span.line > last_ext {
                            last_ext = u.span.line;
                        }
                    }
                }
                _ => {}
            }
            i = i + 1;
        }
        proof {
            assert(all.skip(items@.len() as int) =~= Seq::<Item>::empty());
            assert(last_std as nat == max_std_line(all));
            assert(last_ext as nat == max_ext_line(all));
        }
        let mut out: Vec<Issue> = Vec::new();
        let mut i: usize = 0;
        proof {
            assert(out.deep_view() =~= Seq::<IssueV>::empty());
        }
        while i < items.len()
            invariant
                i <= items.len(),
                last_std as nat == max_std_line(all),
                ext_violations(all, last_std as nat) == out.deep_view() + ext_violations(
                    all.skip(i as int),
                    last_std as nat,
                ),
            decreases items.len() - i,
        {
            let ghost pre = out.deep_view();
            proof {
                assert(all.skip(i as int).drop_first() =~= all.skip(i as int + 1));
                assert(all.skip(i as int)[0] == all[i as int]);
            }
            match &items[i] {
                Item::Use(u) => {
                    if !exec_is_std_path(u.path.as_str()) && !exec_is_local_path(u.path.as_str())
                        && u.span.line < last_std {
                        let issue = Issue {
                            rule: String::from_str("import-order"),
                            severity: Severity::Info,
                            message: String::from_str(
                                "External imports should come after standard library imports",
                            ),
                            location: Location {
                                line: u.span.line,
                                column: u.span.col,
                                end_line: None,
                                end_column: None,
                            },
                            fix: None,
                        };
                        out.push(issue);
                    }
                }
                _ => {}
            }
            proof {
                assert(ext_violations(all, last_std as nat) =~= out.deep_view() + ext_violations(
                    all.skip(i as int + 1),
                    last_std as nat,
                ));
            }
            i = i + 1;
        }
        proof {
            assert(all.skip(items@.len() as int) =~= Seq::<Item>::empty());
            assert(out.deep_view() =~= ext_violations(all, max_std_line(all)));
        }
        let ghost exts = out.deep_view();
        let mut i: usize = 0;
        while i < items.len()
            invariant
                i <= items.len(),
                last_ext as nat == max_ext_line(all),
                exts + local_violations(all, last_ext as nat) == out.deep_view()
                    + local_violations(all.skip(i as int), last_ext as nat),
            decreases items.len() - i,
        {
            let ghost pre = out.deep_view();
            proof {
                assert(all.skip(i as int).drop_first() =~= all.skip(i as int + 1));
                assert(all.skip(i as int)[0] == all[i as int]);
            }
            match &items[i] {
                Item::Use(u) => {
                    if exec_is_local_path(u.path.as_str()) && u.span.line < last_ext {
                        let issue = Issue {
                            rule: String::from_str("import-order"),
                            severity: Severity::Info,
                            message: String::from_str(
                                "Local imports should come after external crate imports",
                            ),
                            location: Location {
                                line: u.span.line,
                                column: u.span.col,
                                end_line: None,
                                end_column: None,
                            },
                            fix: None,
                        };
                        out.push(issue);
                    }
                }
                _ => {}
            }
            proof {
                assert(exts + local_violations(all, last_ext as nat) =~= out.deep_view()
                    + local_violations(all.skip(i as int + 1), last_ext as nat));
            }
            i = i + 1;
        }
        proof {
            assert(all.skip(items@.len() as int) =~= Seq::<Item>::empty());
            assert(out.deep_view() =~= import_order_issues(all));
        }
        ctx.report_all(out);
    }
}

/// Every name imported by the file's `use` items, in source order.
pub open spec fn imported_names(items: Seq<Item>) -> Seq<ImportedName>
    decreases items,
{
    if items.len() == 0 {
        Seq::empty()
    } else {
        (match items[0] {
            Item::Use(u) => u.names@,
            _ => Seq::empty(),
        }) + imported_names(items.drop_first())
    }
}

/// Every identifier referenced outside the `use` items, in source order.
pub open spec fn used_idents(items: Seq<Item>) -> Seq<Seq<char>>
    decreases items,
{
    if items.len() == 0 {
        Seq::empty()
    } else {
        (match items[0] {
            Item::Fn(f) => f.idents.deep_view(),
            Item::Struct(t) => t.idents.deep_view(),
            Item::Enum(t) => t.idents.deep_view(),
            Item::Trait(t) => t.idents.deep_view(),
            Item::Other(o) => o.idents.deep_view(),
            Item::Use(_) => Seq::empty(),
        }) + used_idents(items.drop_first())
    }
}

/// The issue reported for one unused import.
pub open spec fn unused_issue(name: Seq<char>, line: usize, col: usize) -> IssueV {
    IssueV {
        rule: "unused-import"@,
        severity: Severity::Warning,
        message: "Unused import: "@ + name,
        location: Location { line, column: col, end_line: None, end_column: None },
        fix: Some(FixV { description: "Remove unused import"@, replacements: Seq::empty() }),
    }
}

/// The unused-import reports: each imported name is judged at its first
/// occurrence, and reported there when nothing else references it.
pub open spec fn unused_rec(
    names: Seq<ImportedName>,
    used: Seq<Seq<char>>,
    seen: Seq<Seq<char>>,
) -> Seq<IssueV>
    decreases names,
{
    if names.len() == 0 {
        Seq::empty()
    } else {
        (if !name_in(seen, names[0].name@) && !name_in(used, names[0].name@) {
            seq![unused_issue(names[0].name@, names[0].span.line, names[0].span.col)]
        } else {
            Seq::empty()
        }) + unused_rec(names.drop_first(), used, seen.push(names[0].name@))
    }
}

/// What the unused-import rule reports for a file.
pub open spec fn unused_import_issues(items: Seq<Item>) -> Seq<IssueV> {
    unused_rec(imported_names(items), used_idents(items), Seq::empty())
}

#[verifier::loop_isolation(false)]
fn collect_imported(items: &Vec<Item>) -> (r: Vec<ImportedName>)
    ensures
        r@ == imported_names(items@),
{
    let mut out: Vec<ImportedName> = Vec::new();
    let mut i: usize = 0;
    proof {
        assert(items@.skip(0) =~= items@);
        assert(out@ =~= Seq::<ImportedName>::empty());
    }
    while i < items.len()
        invariant
            i <= items.len(),
            imported_names(items@) == out@ + imported_names(items@.skip(i as int)),
        decreases items.len() - i,
    {
        let ghost pre = out@;
        proof {
            assert(items@.skip(i as int).drop_first() =~= items@.skip(i as int + 1));
            assert(items@.skip(i as int)[0] == items@[i as int]);
        }
        match &items[i] {
            Item::Use(u) => {
                let mut j: usize = 0;
                proof {
                    assert(u.names@.take(0) =~= Seq::<ImportedName>::empty());
                    assert(out@ =~= pre + u.names@.take(0));
                }
                while j < u.names.len()
                    invariant
                        j <= u.names.len(),
                        out@ == pre + u.names@.take(j as int),
                    decreases u.names.len() - j,
                {
                    let n = ImportedName { name: u.names[j].name.clone(), span: u.names[j].span };
                    proof {
                        assert(n == u.names@[j as int]);
                    }
                    out.push(n);
                    proof {
                        assert(u.names@.take(j as int + 1) =~= u.names@.take(j as int).push(
                            u.names@[j as int],
                        ));
                        assert(out@ =~= pre + u.names@.take(j as int + 1));
                    }
                    j = j + 1;
                }
                proof {
                    assert(u.names@.take(u.names@.len() as int) =~= u.names@);
                }
            }
            _ => {}
        }
        proof {
            assert(imported_names(items@) =~= out@ + imported_names(items@.skip(i as int + 1)));
        }
        i = i + 1;
    }
    proof {
        assert(items@.skip(items@.len() as int) =~= Seq::<Item>::empty());
        assert(out@ =~= imported_names(items@));
    }
    out
}

#[verifier::loop_isolation(false)]
fn push_ident_clones(src: &Vec<String>, out: &mut Vec<String>)
    ensures
        final(out).deep_view() == old(out).deep_view() + src.deep_view(),
{
    let ghost pre = out.deep_view();
    let mut j: usize = 0;
    proof {
        assert(src.deep_view().take(0) =~= Seq::<Seq<char>>::empty());
        assert(out.deep_view() =~= pre + src.deep_view().take(0));
    }
    while j < src.len()
        invariant
            j <= src.len(),
            out.deep_view() == pre + src.deep_view().take(j as int),
        decreases src.len() - j,
    {
        let s = src[j].clone();
        proof {
            assert(s@ == src.deep_view()[j as int]);
        }
        let ghost odv = out.deep_view();
        let ghost sv = s@;
        out.push(s);
        proof {
            assert(out.deep_view() =~= odv.push(sv));
            assert(src.deep_view().take(j as int + 1) =~= src.deep_view().take(j as int).push(
                src.deep_view()[j as int],
            ));
            assert(out.deep_view() =~= pre + src.deep_view().take(j as int + 1));
        }
        j = j + 1;
    }
    proof {
        assert(src.deep_view().take(src@.len() as int) =~= src.deep_view());
        assert(final(out).deep_view() =~= pre + src.deep_view());
    }
}

#[verifier::loop_isolation(false)]
fn collect_used(items: &Vec<Item>) -> (r: Vec<String>)
    ensures
        r.deep_view() == used_idents(items@),
{
    let mut out: Vec<String> = Vec::new();
    let mut i: usize = 0;
    proof {
        assert(items@.skip(0) =~= items@);
        assert(out.deep_view() =~= Seq::<Seq<char>>::empty());
    }
    while i < items.len()
        invariant
            i <= items.len(),
            used_idents(items@) == out.deep_view() + used_idents(items@.skip(i as int)),
        decreases items.len() - i,
    {
        proof {
            assert(items@.skip(i as int).drop_first() =~= items@.skip(i as int + 1));
            assert(items@.skip(i as int)[0] == items@[i as int]);
        }
        match &items[i] {
            Item::Fn(f) => {
                push_ident_clones(&f.idents, &mut out);
            }
            Item::Struct(t) => {
                push_ident_clones(&t.idents, &mut out);
            }
            Item::Enum(t) => {
                push_ident_clones(&t.idents, &mut out);
            }
            Item::Trait(t) => {
                push_ident_clones(&t.idents, &mut out);
            }
            Item::Other(o) => {
                push_ident_clones(&o.idents, &mut out);
            }
            Item::Use(_) => {}
        }
        proof {
            assert(used_idents(items@) =~= out.deep_view() + used_idents(items@.skip(i as int + 1)));
        }
        i = i + 1;
    }
    proof {
        assert(items@.skip(items@.len() as int) =~= Seq::<Item>::empty());
        assert(out.deep_view() =~= used_idents(items@));
    }
    out
}

/// Flags imported names that nothing in the file references.
pub struct UnusedImportRule;

impl UnusedImportRule {
    pub fn name(&self) -> (r: &'static str)
        ensures
            r@ == "unused-import"@,
    {
        "unused-import"
    }

    /// Reports exactly one warning for each distinct imported name that no
    /// identifier outside the `use` items references, at the name's first
    /// occurrence, in import order.
    #[verifier::loop_isolation(false)]
    pub fn check(&self, ctx: &mut RuleContext)
        ensures
            ctx_adds(*old(ctx), *final(ctx), unused_import_issues(old(ctx).syntax_tree.items@)),
    {
        let names = collect_imported(&ctx.syntax_tree.items);
        let used = collect_used(&ctx.syntax_tree.items);
        let mut seen: Vec<String> = Vec::new();
        let mut out: Vec<Issue> = Vec::new();
        let mut i: usize = 0;
        proof {
            assert(names@.skip(0) =~= names@);
            assert(out.deep_view() =~= Seq::<IssueV>::empty());
            assert(seen.deep_view() =~= Seq::<Seq<char>>::empty());
        }
        while i < names.len()
            invariant
                i <= names.len(),
                unused_rec(names@, used.deep_view(), Seq::empty()) == out.deep_view()
                    + unused_rec(names@.skip(i as int), used.deep_view(), seen.deep_view()),
            decreases names.len() - i,
        {
            proof {
                assert(names@.skip(i as int).drop_first() =~= names@.skip(i as int + 1));
                assert(names@.skip(i as int)[0] == names@[i as int]);
            }
            let ghost pre = out.deep_view();
            let ghost seen_pre = seen.deep_view();
            let n = &names[i];
            if !exec_name_in(&seen, n.name.as_str()) && !exec_name_in(&used, n.name.as_str()) {
                let mut msg = String::from_str("Unused import: ");
                msg.append(n.name.as_str());
                let fix = Fix {
                    description: String::from_str("Remove unused import"),
                    replacements: Vec::new(),
                };
                proof {
                    assert(fix.deep_view().replacements =~= Seq::<
                        crate::issues::ReplacementV,
                    >::empty());
                }
                let issue = Issue {
                    rule: String::from_str("unused-import"),
                    severity: Severity::Warning,
                    message: msg,
                    location: Location {
                        line: n.span.line,
                        column: n.span.col,
                        end_line: None,
                        end_column: None,
                    },
                    fix: Some(fix),
                };
                proof {
                    assert(issue.deep_view() =~~= unused_issue(
                        names@[i as int].name@,
                        names@[i as int].span.line,
                        names@[i as int].span.col,
                    ));
                }
                out.push(issue);
            }
            let seen_name = String::from_str(n.name.as_str());
            seen.push(seen_name);
            proof {
                assert(seen.deep_view() =~= seen_pre.push(names@[i as int].name@));
                assert(unused_rec(names@, used.deep_view(), Seq::empty()) =~= out.deep_view()
                    + unused_rec(names@.skip(i as int + 1), used.deep_view(), seen.deep_view()));
            }
            i = i + 1;
        }
        proof {
            assert(names@.skip(names@.len() as int) =~= Seq::<ImportedName>::empty());
            assert(out.deep_view() =~= unused_import_issues(old(ctx).syntax_tree.items@));
        }
        ctx.report_all(out);
    }
}

} // verus!
