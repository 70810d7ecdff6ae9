//! The auto-fix engine: applies the text replacements carried by a file's
//! issues to the original content, processing later-in-file fixes first
//! and keeping a running offset so that stored positions, computed
//! against the original content, stay valid; a translated range that
//! falls outside the content or is inverted is skipped, never fatal.

use vstd::prelude::*;

use crate::issues::{Fix, FixV, Issue, IssueV, Location, Replacement, ReplacementV};
use crate::text::{sat_add, sat_add_usize};

verus! {

/// The issues that carry a fix, in their original order.
pub open spec fn with_fixes(issues: Seq<IssueV>) -> Seq<IssueV>
    decreases issues,
{
    if issues.len() == 0 {
        Seq::empty()
    } else {
        (if issues[0].fix is Some {
            seq![issues[0]]
        } else {
            Seq::empty()
        }) + with_fixes(issues.drop_first())
    }
}

/// Inserts an issue into a line-descending sorted list, after any issue
/// on the same line, so that sorting stays stable.
pub open spec fn insert_desc(x: IssueV, s: Seq<IssueV>) -> Seq<IssueV>
    decreases s,
{
    if s.len() == 0 {
        seq![x]
    } else if x.location.line > s[0].location.line {
        seq![x] + s
    } else {
        seq![s[0]] + insert_desc(x, s.drop_first())
    }
}

/// The issues sorted by descending source line, stably.
pub open spec fn sort_desc(s: Seq<IssueV>) -> Seq<IssueV>
    decreases s,
{
    if s.len() == 0 {
        Seq::empty()
    } else {
        insert_desc(s.last(), sort_desc(s.drop_last()))
    }
}

/// Content with the half-open range `[s, e)` replaced by `text`.
pub open spec fn splice(content: Seq<char>, s: int, e: int, text: Seq<char>) -> Seq<char> {
    content.take(s) + text + content.skip(e)
}

/// The state of an application pass: the content so far, the accumulated
/// signed offset, and whether every replacement so far applied.
#[verifier::ext_equal]
pub struct ApplyAcc {
    pub content: Seq<char>,
    pub adj: int,
    pub ok: bool,
}

/// One replacement applied to the state: its stored range is translated
/// by the accumulated offset; if the translated range lies inside the
/// content and is not inverted, the text is spliced in and the offset
/// moves by the length difference, otherwise the replacement is skipped.
pub open spec fn apply_rep(acc: ApplyAcc, rep: ReplacementV) -> ApplyAcc {
    let s = rep.start + acc.adj;
    let e = rep.end + acc.adj;
    if 0 <= s && s <= e && e <= acc.content.len() {
        ApplyAcc {
            content: splice(acc.content, s, e, rep.text),
            adj: acc.adj + rep.text.len() - (e - s),
            ok: acc.ok,
        }
    } else {
        ApplyAcc { ok: false, ..acc }
    }
}

/// A fix's replacements applied in their declared order.
pub open spec fn apply_reps(acc: ApplyAcc, reps: Seq<ReplacementV>) -> ApplyAcc
    decreases reps,
{
    if reps.len() == 0 {
        acc
    } else {
        apply_reps(apply_rep(acc, reps[0]), reps.drop_first())
    }
}

/// The state of a whole pass: the application state plus how many fixes
/// applied completely.
#[verifier::ext_equal]
pub struct FixPassAcc {
    pub content: Seq<char>,
    pub adj: int,
    pub applied: nat,
}

/// One issue's fix applied: its replacements run in order, and the fix
/// counts as applied when none of them was skipped.
pub open spec fn apply_issue_fix(acc: FixPassAcc, i: IssueV) -> FixPassAcc {
    match i.fix {
        Some(f) => {
            let a2 = apply_reps(ApplyAcc { content: acc.content, adj: acc.adj, ok: true },
                f.replacements);
            FixPassAcc {
                content: a2.content,
                adj: a2.adj,
                applied: acc.applied + (if a2.ok {
                    1nat
                } else {
                    0nat
                }),
            }
        },
        None => acc,
    }
}

/// A list of fix-carrying issues applied in order.
pub open spec fn apply_issue_fixes(acc: FixPassAcc, issues: Seq<IssueV>) -> FixPassAcc
    decreases issues,
{
    if issues.len() == 0 {
        acc
    } else {
        apply_issue_fixes(apply_issue_fix(acc, issues[0]), issues.drop_first())
    }
}

/// What applying all fixes from an issue list to content yields: the
/// fix-carrying issues, ordered by descending line, applied in turn.
pub open spec fn spec_apply_fixes(content: Seq<char>, issues: Seq<IssueV>) -> FixPassAcc {
    apply_issue_fixes(
        FixPassAcc { content, adj: 0, applied: 0 },
        sort_desc(with_fixes(issues)),
    )
}

/// For content with no applicable fixes, the output equals the input
/// exactly.
pub proof fn lemma_apply_fixes_identity(content: Seq<char>, issues: Seq<IssueV>)
    requires
        forall|k: int| 0 <= k < issues.len() ==> #[trigger] issues[k].fix is None,
    ensures
        spec_apply_fixes(content, issues).content == content,
        spec_apply_fixes(content, issues).applied == 0,
{
    lemma_with_fixes_empty(issues);
    assert(sort_desc(Seq::<IssueV>::empty()) == Seq::<IssueV>::empty());
    assert(apply_issue_fixes(
        FixPassAcc { content, adj: 0, applied: 0 },
        Seq::<IssueV>::empty(),
    ) == (FixPassAcc { content, adj: 0, applied: 0 }));
}

proof fn lemma_with_fixes_empty(issues: Seq<IssueV>)
    requires
        forall|k: int| 0 <= k < issues.len() ==> #[trigger] issues[k].fix is None,
    ensures
        with_fixes(issues) == Seq::<IssueV>::empty(),
    decreases issues,
{
    if issues.len() > 0 {
        assert(issues[0].fix is None);
        lemma_with_fixes_empty(issues.drop_first());
        assert(with_fixes(issues) =~= Seq::<IssueV>::empty());
    }
}

/// Every step of the engine either leaves the content unchanged or
/// splices a translated range that lies inside `[0, len]` and is not
/// inverted; content never becomes ill-formed.
pub proof fn lemma_apply_step_bounded(acc: ApplyAcc, rep: ReplacementV)
    ensures
        apply_rep(acc, rep).content == acc.content || (0 <= rep.start + acc.adj <= rep.end
            + acc.adj <= acc.content.len() && apply_rep(acc, rep).content == splice(
            acc.content,
            rep.start + acc.adj,
            rep.end + acc.adj,
            rep.text,
        )),
{
}

/// The first position where `x` outranks the sorted list's line.
proof fn lemma_insert_desc_at(x: IssueV, s: Seq<IssueV>, j: int)
    requires
        0 <= j <= s.len(),
        forall|k: int| 0 <= k < j ==> !(x.location.line > #[trigger] s[k].location.line),
        j < s.len() ==> x.location.line > s[j].location.line,
    ensures
        insert_desc(x, s) == s.take(j) + seq![x] + s.skip(j),
    decreases s,
{
    if s.len() == 0 {
        assert(insert_desc(x, s) =~= s.take(j) + seq![x] + s.skip(j));
    } else if x.location.line > s[0].location.line {
        assert(j == 0);
        assert(s.take(0) =~= Seq::<IssueV>::empty());
        assert(s.skip(0) =~= s);
        assert(insert_desc(x, s) =~= s.take(j) + seq![x] + s.skip(j));
    } else {
        lemma_insert_desc_at(x, s.drop_first(), j - 1);
        assert(s.drop_first().take(j - 1) =~= s.take(j).drop_first());
        assert(s.drop_first().skip(j - 1) =~= s.skip(j));
        assert(insert_desc(x, s) =~= s.take(j) + seq![x] + s.skip(j));
    }
}

/// Inserts an issue into a line-descending sorted list, stably.
#[verifier::loop_isolation(false)]
fn exec_insert_desc(x: Issue, sorted: &mut Vec<Issue>)
    ensures
        final(sorted).deep_view() == insert_desc(x.deep_view(), old(sorted).deep_view()),
{
    let ghost sv = sorted.deep_view();
    let ghost xv = x.deep_view();
    let line = x.location.line;
    let mut j: usize = 0;
    while j < sorted.len() && line <= sorted[j].location.line
        invariant
            j <= sorted.len(),
            sorted.deep_view() == sv,
            forall|k: int| 0 <= k < j ==> !(xv.location.line > #[trigger] sv[k].location.line),
        decreases sorted.len() - j,
    {
        j = j + 1;
    }
    proof {
        lemma_insert_desc_at(xv, sv, j as int);
    }
    sorted.insert(j, x);
    proof {
        assert(final(sorted).deep_view() =~= sv.take(j as int) + seq![xv] + sv.skip(j as int));
    }
}

/// The fix-carrying issues of a list, sorted stably by descending line.
#[verifier::loop_isolation(false)]
pub fn sorted_fixable_issues(issues: &Vec<Issue>) -> (r: Vec<Issue>)
    ensures
        r.deep_view() == sort_desc(with_fixes(issues.deep_view())),
{
    let ghost iv = issues.deep_view();
    let mut fixable: Vec<Issue> = Vec::new();
    let mut i: usize = 0;
    proof {
        assert(fixable.deep_view() =~= Seq::<IssueV>::empty());
        assert(iv.skip(0) =~= iv);
    }
    while i < issues.len()
        invariant
            i <= issues.len(),
            with_fixes(iv) == fixable.deep_view() + with_fixes(iv.skip(i as int)),
        decreases issues.len() - i,
    {
        proof {
            assert(iv.skip(i as int).drop_first() =~= iv.skip(i as int + 1));
            assert(iv.skip(i as int)[0] == iv[i as int]);
        }
        if issues[i].fix.is_some() {
            let c = crate::cache::copy_issue(&issues[i]);
            let ghost fv = fixable.deep_view();
            fixable.push(c);
            proof {
                assert(fixable.deep_view() =~= fv + seq![iv[i as int]]);
            }
        }
        proof {
            assert(with_fixes(iv) =~= fixable.deep_view() + with_fixes(iv.skip(i as int + 1)));
        }
        i = i + 1;
    }
    proof {
        assert(iv.skip(iv.len() as int) =~= Seq::<IssueV>::empty());
        assert(fixable.deep_view() =~= with_fixes(iv));
    }
    let ghost fl = fixable.deep_view();
    let mut sorted: Vec<Issue> = Vec::new();
    let mut i: usize = 0;
    proof {
        assert(fl.take(0) =~= Seq::<IssueV>::empty());
        assert(sorted.deep_view() =~= sort_desc(fl.take(0)));
    }
    while i < fixable.len()
        invariant
            i <= fixable.len(),
            fixable.deep_view() == fl,
            sorted.deep_view() == sort_desc(fl.take(i as int)),
        decreases fixable.len() - i,
    {
        let x = crate::cache::copy_issue(&fixable[i]);
        proof {
            assert(x.deep_view() == fl[i as int]);
        }
        exec_insert_desc(x, &mut sorted);
        proof {
            assert(fl.take(i as int + 1).drop_last() =~= fl.take(i as int));
            assert(fl.take(i as int + 1).last() == fl[i as int]);
            assert(sorted.deep_view() == sort_desc(fl.take(i as int + 1)));
        }
        i = i + 1;
    }
    proof {
        assert(fl.take(fl.len() as int) =~= fl);
    }
        sorted
}

/// Applies overlapping text edits derived from analysis results, keeping
/// a count of the fixes applied.
pub struct AutoFixEngine {
    pub fixes_applied: usize,
}

impl AutoFixEngine {
    /// A fresh engine with nothing applied yet.
    pub fn new() -> (r: Self)
        ensures
            r.fixes_applied == 0,
    {
        AutoFixEngine { fixes_applied: 0 }
    }

    /// Applies one fix's replacements in order to the content, keeping
    /// the running offset, and reports whether every replacement applied.
    #[verifier::loop_isolation(false)]
    pub fn apply_single_fix(
        &self,
        content: &mut String,
        fix: &Fix,
        offset_adjustment: &mut i128,
    ) -> (applied: bool)
        requires
            old(content)@.len() <= usize::MAX,
            -0x10000000000000000 < *old(offset_adjustment) < 0x10000000000000000,
        ensures
            ({
                let a2 = apply_reps(
                    ApplyAcc {
                        content: old(content)@,
                        adj: *old(offset_adjustment) as int,
                        ok: true,
                    },
                    fix.deep_view().replacements,
                );
                final(content)@ == a2.content && *final(offset_adjustment) as int == a2.adj
                    && applied == a2.ok
            }),
            *final(offset_adjustment) - *old(offset_adjustment) == final(content)@.len() - old(
                content,
            )@.len(),
    {
        let ghost reps = fix.deep_view().replacements;
        let entry_adj: i128 = *offset_adjustment;
        let entry_len: usize = content.as_str().unicode_len();
        let mut ok = true;
        let mut j: usize = 0;
        proof {
            assert(reps.skip(0) =~= reps);
        }
        while j < fix.replacements.len()
            invariant
                j <= fix.replacements.len(),
                *offset_adjustment == entry_adj + content@.len() - entry_len,
                apply_reps(
                    ApplyAcc { content: old(content)@, adj: entry_adj as int, ok: true },
                    reps,
                ) == apply_reps(
                    ApplyAcc { content: content@, adj: *offset_adjustment as int, ok },
                    reps.skip(j as int),
                ),
            decreases fix.replacements.len() - j,
        {
            proof {
                assert(reps.skip(j as int).drop_first() =~= reps.skip(j as int + 1));
                assert(reps.skip(j as int)[0] == reps[j as int]);
                assert(fix.replacements@[j as int].deep_view() == reps[j as int]);
            }
            let ghost acc_old = ApplyAcc {
                content: content@,
                adj: *offset_adjustment as int,
                ok,
            };
            let rep = &fix.replacements[j];
            let clen = content.as_str().unicode_len();
            let s_i = (rep.start as i128) + *offset_adjustment;
            let e_i = (rep.end as i128) + *offset_adjustment;
            if 0 <= s_i && s_i <= e_i && e_i <= (clen as i128) {
                let s = s_i as usize;
                let e = e_i as usize;
                let pre_slice = content.as_str().substring_char(0, s);
                let mut p = String::from_str(pre_slice);
                p.append(rep.text.as_str());
                let suf_slice = content.as_str().substring_char(e, clen);
                p.append(suf_slice);
                let plen = p.as_str().unicode_len();
                *content = p;
                *offset_adjustment = entry_adj + (plen as i128) - (entry_len as i128);
                proof {
                    assert(content@ =~= splice(acc_old.content, s as int, e as int,
                        reps[j as int].text));
                    assert(*offset_adjustment as int == acc_old.adj + reps[j as int].text.len() - (
                    e - s));
                    assert((ApplyAcc { content: content@, adj: *offset_adjustment as int, ok })
                        =~= apply_rep(acc_old, reps[j as int]));
                }
            } else {
                ok = false;
                proof {
                    assert((ApplyAcc { content: content@, adj: *offset_adjustment as int, ok })
                        =~= apply_rep(acc_old, reps[j as int]));
                }
            }
            j = j + 1;
        }
        proof {
            assert(reps.skip(reps.len() as int) =~= Seq::<ReplacementV>::empty());
        }
        ok
    }

    /// Applies every fix carried by the issues to the content: fixes are
    /// processed by descending source line, each fix's replacements in
    /// declared order, with the running offset translating stored
    /// positions; skipped replacements never abort the pass. The count of
    /// completely applied fixes is added to the engine's counter.
    #[verifier::loop_isolation(false)]
    pub fn apply_fixes(&mut self, content: &str, issues: &Vec<Issue>) -> (r: String)
        ensures
            r@ == spec_apply_fixes(content@, issues.deep_view()).content,
            final(self).fixes_applied as nat == sat_add(
                old(self).fixes_applied as nat,
                crate::rules::complexity::sat_val(
                    spec_apply_fixes(content@, issues.deep_view()).applied,
                ),
            ),
    {
        let sorted = sorted_fixable_issues(issues);
        let ghost sv = sorted.deep_view();
        let orig_len = content.unicode_len();
        let mut fixed = String::from_str(content);
        let mut adj: i128 = 0;
        let mut applied_count: usize = 0;
        let ghost mut tapplied: nat = 0nat;
        let mut i: usize = 0;
        proof {
            assert(sv.skip(0) =~= sv);
        }
        while i < sorted.len()
            invariant
                i <= sorted.len(),
                applied_count as nat == crate::rules::complexity::sat_val(tapplied),
                adj == fixed@.len() - content@.len(),
                spec_apply_fixes(content@, issues.deep_view()) == apply_issue_fixes(
                    FixPassAcc { content: fixed@, adj: adj as int, applied: tapplied },
                    sv.skip(i as int),
                ),
            decreases sorted.len() - i,
        {
            proof {
                assert(sv.skip(i as int).drop_first() =~= sv.skip(i as int + 1));
                assert(sv.skip(i as int)[0] == sv[i as int]);
                assert(sorted@[i as int].deep_view() == sv[i as int]);
            }
            let bound_check = fixed.as_str().unicode_len();
            match &sorted[i].fix {
                Some(f) => {
                    let ghost acc_old = FixPassAcc {
                        content: fixed@,
                        adj: adj as int,
                        applied: tapplied,
                    };
                    let ok = self.apply_single_fix(&mut fixed, f, &mut adj);
                    if ok {
                        applied_count = sat_add_usize(applied_count, 1);
                        proof {
                            tapplied = tapplied + 1nat;
                        }
                    }
                    proof {
                        assert((FixPassAcc { content: fixed@, adj: adj as int, applied: tapplied })
                            =~= apply_issue_fix(acc_old, sv[i as int]));
                    }
                }
                None => {}
            }
            i = i + 1;
        }
        proof {
            assert(sv.skip(sv.len() as int) =~= Seq::<IssueV>::empty());
            crate::rules::complexity::lemma_sat(old(self).fixes_applied as nat, tapplied);
        }
        self.fixes_applied = sat_add_usize(self.fixes_applied, applied_count);
        fixed
    }
}

/// Total character count of the replacement texts.
pub open spec fn total_text_len(reps: Seq<ReplacementV>) -> nat
    decreases reps,
{
    if reps.len() == 0 {
        0
    } else {
        (reps[0].text.len() + total_text_len(reps.drop_first())) as nat
    }
}

proof fn lemma_total_text_len_skip(reps: Seq<ReplacementV>, j: int)
    requires
        0 <= j < reps.len(),
    ensures
        total_text_len(reps.skip(j)) == reps[j].text.len() + total_text_len(reps.skip(j + 1)),
{
    assert(reps.skip(j).drop_first() =~= reps.skip(j + 1));
    assert(reps.skip(j)[0] == reps[j]);
}

} // verus!

verus! {

/// Proposes identifier-case corrections as text fixes.
pub struct NamingConventionFixer;

/// The replacement range a naming fix targets: from one before the
/// location's column to one before the column advanced past the
/// identifier, stopping at representable bounds.
pub open spec fn naming_fix_range(loc: Location, idlen: nat) -> (nat, nat) {
    (
        crate::text::sat_sub(loc.column as nat, 1),
        crate::text::sat_sub(crate::text::sat_add(loc.column as nat, idlen), 1),
    )
}

/// The fix converting an identifier to snake case, when the conversion
/// changes it.
pub open spec fn spec_snake_fix(id: Seq<char>, loc: Location) -> Option<FixV> {
    let snake = crate::naming::spec_fixer_snake(id);
    if snake == id {
        None
    } else {
        Some(
            FixV {
                description: "Convert '"@ + id + "' to snake_case: '"@ + snake + "'"@,
                replacements: seq![
                    ReplacementV {
                        start: naming_fix_range(loc, id.len()).0 as usize,
                        end: naming_fix_range(loc, id.len()).1 as usize,
                        text: snake,
                    },
                ],
            },
        )
    }
}

/// The fix converting an identifier to Pascal case, when the conversion
/// changes it.
pub open spec fn spec_pascal_fix(id: Seq<char>, loc: Location) -> Option<FixV> {
    let pascal = crate::naming::spec_fixer_pascal(id);
    if pascal == id {
        None
    } else {
        Some(
            FixV {
                description: "Convert '"@ + id + "' to PascalCase: '"@ + pascal + "'"@,
                replacements: seq![
                    ReplacementV {
                        start: naming_fix_range(loc, id.len()).0 as usize,
                        end: naming_fix_range(loc, id.len()).1 as usize,
                        text: pascal,
                    },
                ],
            },
        )
    }
}

impl NamingConventionFixer {
    pub fn new() -> (r: Self)
        ensures
            r == NamingConventionFixer,
    {
        NamingConventionFixer
    }

    /// The fixer's snake-case conversion of an identifier.
    pub fn to_snake_case(&self, s: &str) -> (r: String)
        ensures
            r@ == crate::naming::spec_fixer_snake(s@),
    {
        crate::naming::fixer_to_snake_case(s)
    }

    /// The fixer's Pascal-case conversion of an identifier.
    pub fn to_pascal_case(&self, s: &str) -> (r: String)
        ensures
            r@ == crate::naming::spec_fixer_pascal(s@),
    {
        crate::naming::fixer_to_pascal_case(s)
    }

    /// A fix converting the identifier at the location to snake case, or
    /// nothing when it already is.
    pub fn create_snake_case_fix(&self, identifier: &str, location: &Location) -> (r: Option<Fix>)
        ensures
            match spec_snake_fix(identifier@, *location) {
                Some(fv) => r matches Some(f) && f.deep_view() == fv,
                None => r is None,
            },
    {
        let snake = crate::naming::fixer_to_snake_case(identifier);
        if crate::text::str_eq(snake.as_str(), identifier) {
            return None;
        }
        let mut desc = String::from_str("Convert '");
        desc.append(identifier);
        desc.append("' to snake_case: '");
        desc.append(snake.as_str());
        desc.append("'");
        let idlen = identifier.unicode_len();
        let start = crate::text::sat_sub_usize(location.column, 1);
        let end = crate::text::sat_sub_usize(
            crate::text::sat_add_usize(location.column, idlen),
            1,
        );
        let mut reps: Vec<Replacement> = Vec::new();
        reps.push(Replacement { start, end, text: snake });
        let fix = Fix { description: desc, replacements: reps };
        proof {
            assert(fix.deep_view().replacements =~= spec_snake_fix(
                identifier@,
                *location,
            )->0.replacements);
            assert(fix.deep_view() =~~= spec_snake_fix(identifier@, *location)->0);
        }
        Some(fix)
    }

    /// A fix converting the identifier at the location to Pascal case, or
    /// nothing when it already is.
    pub fn create_pascal_case_fix(&self, identifier: &str, location: &Location) -> (r: Option<Fix>)
        ensures
            match spec_pascal_fix(identifier@, *location) {
                Some(fv) => r matches Some(f) && f.deep_view() == fv,
                None => r is None,
            },
    {
        let pascal = crate::naming::fixer_to_pascal_case(identifier);
        if crate::text::str_eq(pascal.as_str(), identifier) {
            return None;
        }
        let mut desc = String::from_str("Convert '");
        desc.append(identifier);
        desc.append("' to PascalCase: '");
        desc.append(pascal.as_str());
        desc.append("'");
        let idlen = identifier.unicode_len();
        let start = crate::text::sat_sub_usize(location.column, 1);
        let end = crate::text::sat_sub_usize(
            crate::text::sat_add_usize(location.column, idlen),
            1,
        );
        let mut reps: Vec<Replacement> = Vec::new();
        reps.push(Replacement { start, end, text: pascal });
        let fix = Fix { description: desc, replacements: reps };
        proof {
            assert(fix.deep_view().replacements =~= spec_pascal_fix(
                identifier@,
                *location,
            )->0.replacements);
            assert(fix.deep_view() =~~= spec_pascal_fix(identifier@, *location)->0);
        }
        Some(fix)
    }
}

/// Underscores turned into spaces.
pub open spec fn spec_spaced(s: Seq<char>) -> Seq<char> {
    Seq::new(
        s.len(),
        |i: int|
            if s[i] == '_' {
                ' '
            } else {
                s[i]
            },
    )
}

/// Underscores turned into spaces, then every letter lowercased.
pub open spec fn spec_spaced_lower(s: Seq<char>) -> Seq<char> {
    Seq::new(
        s.len(),
        |i: int|
            crate::naming::low_char(
                if s[i] == '_' {
                    ' '
                } else {
                    s[i]
                },
            ),
    )
}

#[verifier::loop_isolation(false)]
fn push_spaced(out: &mut String, s: &str)
    ensures
        final(out)@ == old(out)@ + spec_spaced(s@),
{
    let ghost pre = out@;
    let len = s.unicode_len();
    let mut i: usize = 0;
    proof {
        assert(out@ =~= pre + spec_spaced(s@).take(0));
    }
    while i < len
        invariant
            i <= len,
            len == s@.len(),
            out@ == pre + spec_spaced(s@).take(i as int),
        decreases len - i,
    {
        let c = s.get_char(i);
        if c == '_' {
            crate::text::push_char(out, ' ');
        } else {
            crate::text::push_char(out, c);
        }
        proof {
            assert(out@ =~= pre + spec_spaced(s@).take(i as int + 1));
        }
        i = i + 1;
    }
    proof {
        assert(spec_spaced(s@).take(s@.len() as int) =~= spec_spaced(s@));
    }
}

#[verifier::loop_isolation(false)]
fn push_spaced_lower(out: &mut String, s: &str)
    ensures
        final(out)@ == old(out)@ + spec_spaced_lower(s@),
{
    let ghost pre = out@;
    let len = s.unicode_len();
    let mut i: usize = 0;
    proof {
        assert(out@ =~= pre + spec_spaced_lower(s@).take(0));
    }
    while i < len
        invariant
            i <= len,
            len == s@.len(),
            out@ == pre + spec_spaced_lower(s@).take(i as int),
        decreases len - i,
    {
        let c = s.get_char(i);
        let c2 = if c == '_' {
            ' '
        } else {
            c
        };
        let c3 = if 'A' <= c2 && c2 <= 'Z' {
            ((c2 as u8) + 32) as char
        } else {
            c2
        };
        crate::text::push_char(out, c3);
        proof {
            assert(out@ =~= pre + spec_spaced_lower(s@).take(i as int + 1));
        }
        i = i + 1;
    }
    proof {
        assert(spec_spaced_lower(s@).take(s@.len() as int) =~= spec_spaced_lower(s@));
    }
}

/// Generates documentation templates for undocumented items.
pub struct DocTemplateGenerator;

/// The generated description for a function, from its name's prefix.
pub open spec fn spec_fn_description(name: Seq<char>) -> Seq<char> {
    if crate::text::spec_starts_with(name, "get_"@) {
        "Gets the "@ + spec_spaced(name.skip(4)) + "."@
    } else if crate::text::spec_starts_with(name, "set_"@) {
        "Sets the "@ + spec_spaced(name.skip(4)) + "."@
    } else if crate::text::spec_starts_with(name, "is_"@) {
        "Checks if "@ + spec_spaced(name.skip(3)) + "."@
    } else if crate::text::spec_starts_with(name, "has_"@) {
        "Checks if has "@ + spec_spaced(name.skip(4)) + "."@
    } else if crate::text::spec_starts_with(name, "create_"@) || crate::text::spec_starts_with(
        name,
        "new_"@,
    ) {
        "Creates a new "@ + spec_spaced(name) + "."@
    } else {
        "TODO: Add description for "@ + name + "."@
    }
}

/// The generated description for a struct.
pub open spec fn spec_struct_description(name: Seq<char>) -> Seq<char> {
    "Represents a "@ + spec_spaced_lower(name) + "."@
}

impl DocTemplateGenerator {
    pub fn new() -> (r: Self)
        ensures
            r == DocTemplateGenerator,
    {
        DocTemplateGenerator
    }

    /// A description derived from the function name's conventional
    /// prefix.
    pub fn generate_function_description(&self, fn_name: &str) -> (r: String)
        ensures
            r@ == spec_fn_description(fn_name@),
    {
        let len = fn_name.unicode_len();
        if crate::text::str_starts_with(fn_name, "get_") {
            let mut s = String::from_str("Gets the ");
            proof {
                reveal_strlit("get_");
                assert("get_"@.len() == 4);
            }
            let tail = fn_name.substring_char(4, len);
            proof {
                assert(tail@ =~= fn_name@.skip(4));
            }
            push_spaced(&mut s, tail);
            s.append(".");
            s
        } else if crate::text::str_starts_with(fn_name, "set_") {
            let mut s = String::from_str("Sets the ");
            proof {
                reveal_strlit("set_");
                assert("set_"@.len() == 4);
            }
            let tail = fn_name.substring_char(4, len);
            proof {
                assert(tail@ =~= fn_name@.skip(4));
            }
            push_spaced(&mut s, tail);
            s.append(".");
            s
        } else if crate::text::str_starts_with(fn_name, "is_") {
            let mut s = String::from_str("Checks if ");
            proof {
                reveal_strlit("is_");
                assert("is_"@.len() == 3);
            }
            let tail = fn_name.substring_char(3, len);
            proof {
                assert(tail@ =~= fn_name@.skip(3));
            }
            push_spaced(&mut s, tail);
            s.append(".");
            s
        } else if crate::text::str_starts_with(fn_name, "has_") {
            let mut s = String::from_str("Checks if has ");
            proof {
                reveal_strlit("has_");
                assert("has_"@.len() == 4);
            }
            let tail = fn_name.substring_char(4, len);
            proof {
                assert(tail@ =~= fn_name@.skip(4));
            }
            push_spaced(&mut s, tail);
            s.append(".");
            s
        } else if crate::text::str_starts_with(fn_name, "create_") || crate::text::str_starts_with(
            fn_name,
            "new_",
        ) {
            let mut s = String::from_str("Creates a new ");
            push_spaced(&mut s, fn_name);
            s.append(".");
            s
        } else {
            let mut s = String::from_str("TODO: Add description for ");
            s.append(fn_name);
            s.append(".");
            s
        }
    }

    /// A description derived from the struct name.
    pub fn generate_struct_description(&self, struct_name: &str) -> (r: String)
        ensures
            r@ == spec_struct_description(struct_name@),
    {
        let mut s = String::from_str("Represents a ");
        push_spaced_lower(&mut s, struct_name);
        s.append(".");
        s
    }
}

/// The documentation template inserted above a function.
pub open spec fn spec_fn_doc_text(name: Seq<char>, has_params: bool, has_return: bool) -> Seq<
    char,
> {
    "/// \n/// "@ + spec_fn_description(name) + (if has_params {
        "\n///\n/// # Arguments\n///\n/// * `param` - Description of the parameter"@
    } else {
        Seq::<char>::empty()
    }) + (if has_return {
        "\n///\n/// # Returns\n///\n/// Description of the return value"@
    } else {
        Seq::<char>::empty()
    }) + "\n///\n/// # Examples\n///\n/// ```\n/// // Example usage of "@ + name + "\n/// ```\n"@
}

/// The documentation template inserted above a struct.
pub open spec fn spec_struct_doc_text(name: Seq<char>) -> Seq<char> {
    "/// "@ + spec_struct_description(name)
        + "\n///\n/// # Examples\n///\n/// ```\n/// // Example usage of "@ + name + "\n/// ```\n"@
}

impl DocTemplateGenerator {
    /// A fix inserting a documentation template directly above the
    /// function at the location.
    pub fn generate_function_doc_fix(
        &self,
        fn_name: &str,
        location: &Location,
        has_params: bool,
        has_return: bool,
    ) -> (r: Fix)
        ensures
            r.deep_view() == (FixV {
                description: "Add documentation template for function '"@ + fn_name@ + "'"@,
                replacements: seq![
                    ReplacementV {
                        start: crate::text::sat_sub(location.column as nat, 1) as usize,
                        end: crate::text::sat_sub(location.column as nat, 1) as usize,
                        text: spec_fn_doc_text(fn_name@, has_params, has_return),
                    },
                ],
            }),
    {
        let desc_text = self.generate_function_description(fn_name);
        let mut doc = String::from_str("/// \n/// ");
        doc.append(desc_text.as_str());
        if has_params {
            doc.append("\n///\n/// # Arguments\n///\n/// * `param` - Description of the parameter");
        }
        if has_return {
            doc.append("\n///\n/// # Returns\n///\n/// Description of the return value");
        }
        doc.append("\n///\n/// # Examples\n///\n/// ```\n/// // Example usage of ");
        doc.append(fn_name);
        doc.append("\n/// ```\n");
        let mut desc = String::from_str("Add documentation template for function '");
        desc.append(fn_name);
        desc.append("'");
        let pos = crate::text::sat_sub_usize(location.column, 1);
        let mut reps: Vec<Replacement> = Vec::new();
        reps.push(Replacement { start: pos, end: pos, text: doc });
        let fix = Fix { description: desc, replacements: reps };
        proof {
            assert(fix.deep_view().replacements[0].text =~= spec_fn_doc_text(
                fn_name@,
                has_params,
                has_return,
            ));
            assert(fix.deep_view().replacements =~= seq![
                ReplacementV {
                    start: crate::text::sat_sub(location.column as nat, 1) as usize,
                    end: crate::text::sat_sub(location.column as nat, 1) as usize,
                    text: spec_fn_doc_text(fn_name@, has_params, has_return),
                },
            ]);
        }
        fix
    }

    /// A fix inserting a documentation template directly above the struct
    /// at the location.
    pub fn generate_struct_doc_fix(&self, struct_name: &str, location: &Location) -> (r: Fix)
        ensures
            r.deep_view() == (FixV {
                description: "Add documentation template for struct '"@ + struct_name@ + "'"@,
                replacements: seq![
                    ReplacementV {
                        start: crate::text::sat_sub(location.column as nat, 1) as usize,
                        end: crate::text::sat_sub(location.column as nat, 1) as usize,
                        text: spec_struct_doc_text(struct_name@),
                    },
                ],
            }),
    {
        let desc_text = self.generate_struct_description(struct_name);
        let mut doc = String::from_str("/// ");
        doc.append(desc_text.as_str());
        doc.append("\n///\n/// # Examples\n///\n/// ```\n/// // Example usage of ");
        doc.append(struct_name);
        doc.append("\n/// ```\n");
        let mut desc = String::from_str("Add documentation template for struct '");
        desc.append(struct_name);
        desc.append("'");
        let pos = crate::text::sat_sub_usize(location.column, 1);
        let mut reps: Vec<Replacement> = Vec::new();
        reps.push(Replacement { start: pos, end: pos, text: doc });
        let fix = Fix { description: desc, replacements: reps };
        proof {
            assert(fix.deep_view().replacements[0].text =~= spec_struct_doc_text(struct_name@));
            assert(fix.deep_view().replacements =~= seq![
                ReplacementV {
                    start: crate::text::sat_sub(location.column as nat, 1) as usize,
                    end: crate::text::sat_sub(location.column as nat, 1) as usize,
                    text: spec_struct_doc_text(struct_name@),
                },
            ]);
        }
        fix
    }
}

} // verus!

verus! {

/// Groups and reorders a file's imports: standard library first, then
/// external crates, then local paths, each group optionally sorted.
pub struct ImportOrganizer {
    pub preserve_comments: bool,
    pub group_external_crates: bool,
    pub sort_within_groups: bool,
}

/// The rendered texts of the standard-library imports, in order.
pub open spec fn std_renders(items: Seq<crate::ast::Item>) -> Seq<Seq<char>>
    decreases items,
{
    if items.len() == 0 {
        Seq::empty()
    } else {
        (match items[0] {
            crate::ast::Item::Use(u) => if crate::rules::imports::is_std_path(u.path@) {
                seq![u.rendered@]
            } else {
                Seq::empty()
            },
            _ => Seq::empty(),
        }) + std_renders(items.drop_first())
    }
}

/// The rendered texts of the external-crate imports, in order.
pub open spec fn ext_renders(items: Seq<crate::ast::Item>) -> Seq<Seq<char>>
    decreases items,
{
    if items.len() == 0 {
        Seq::empty()
    } else {
        (match items[0] {
            crate::ast::Item::Use(u) => if crate::rules::imports::is_external_path(u.path@) {
                seq![u.rendered@]
            } else {
                Seq::empty()
            },
            _ => Seq::empty(),
        }) + ext_renders(items.drop_first())
    }
}

/// The rendered texts of the crate-relative imports, in order.
pub open spec fn local_renders(items: Seq<crate::ast::Item>) -> Seq<Seq<char>>
    decreases items,
{
    if items.len() == 0 {
        Seq::empty()
    } else {
        (match items[0] {
            crate::ast::Item::Use(u) => if !crate::rules::imports::is_std_path(u.path@)
                && crate::rules::imports::is_local_path(u.path@) {
                seq![u.rendered@]
            } else {
                Seq::empty()
            },
            _ => Seq::empty(),
        }) + local_renders(items.drop_first())
    }
}

/// Strict lexicographic order by character code.
pub open spec fn lex_lt(a: Seq<char>, b: Seq<char>) -> bool {
    crate::text::lex_le(a, b) && a != b
}

/// Inserts a line into an ascending sorted list, after any equal line,
/// so that sorting stays stable.
pub open spec fn insert_le(x: Seq<char>, s: Seq<Seq<char>>) -> Seq<Seq<char>>
    decreases s,
{
    if s.len() == 0 {
        seq![x]
    } else if lex_lt(x, s[0]) {
        seq![x] + s
    } else {
        seq![s[0]] + insert_le(x, s.drop_first())
    }
}

/// The lines sorted ascending, stably.
pub open spec fn sort_le(s: Seq<Seq<char>>) -> Seq<Seq<char>>
    decreases s,
{
    if s.len() == 0 {
        Seq::empty()
    } else {
        insert_le(s.last(), sort_le(s.drop_last()))
    }
}

/// The grouped import lines: each non-empty group followed by a blank
/// separator line, with no trailing separator.
pub open spec fn grouped_lines(
    std_g: Seq<Seq<char>>,
    ext_g: Seq<Seq<char>>,
    loc_g: Seq<Seq<char>>,
) -> Seq<Seq<char>> {
    let g = (if std_g.len() > 0 {
        std_g + seq![Seq::<char>::empty()]
    } else {
        Seq::empty()
    }) + (if ext_g.len() > 0 {
        ext_g + seq![Seq::<char>::empty()]
    } else {
        Seq::empty()
    }) + loc_g;
    if g.len() > 0 && g.last() == Seq::<char>::empty() {
        g.drop_last()
    } else {
        g
    }
}

/// The organized import block for a file's items.
pub open spec fn organized_imports(items: Seq<crate::ast::Item>, sortg: bool) -> Seq<Seq<char>> {
    if sortg {
        grouped_lines(
            sort_le(std_renders(items)),
            sort_le(ext_renders(items)),
            sort_le(local_renders(items)),
        )
    } else {
        grouped_lines(std_renders(items), ext_renders(items), local_renders(items))
    }
}

/// Whether a line, trimmed, is a whole `use` declaration.
pub open spec fn is_use_line(line: Seq<char>) -> bool {
    crate::text::spec_starts_with(crate::text::spec_trim(line), "use "@)
        && crate::text::spec_ends_with(crate::text::spec_trim(line), ";"@)
}

/// The file's lines with the first import line replaced by the organized
/// block and every other import line removed.
pub open spec fn reconstruct(
    lines: Seq<Seq<char>>,
    organized: Seq<Seq<char>>,
    inserted: bool,
) -> Seq<Seq<char>>
    decreases lines,
{
    if lines.len() == 0 {
        Seq::empty()
    } else if is_use_line(lines[0]) {
        (if !inserted {
            organized
        } else {
            Seq::empty()
        }) + reconstruct(lines.drop_first(), organized, true)
    } else {
        seq![lines[0]] + reconstruct(lines.drop_first(), organized, inserted)
    }
}

/// The tail of a newline join.
pub open spec fn join_rest(lines: Seq<Seq<char>>) -> Seq<char>
    decreases lines,
{
    if lines.len() == 0 {
        Seq::empty()
    } else {
        seq!['\n'] + lines[0] + join_rest(lines.drop_first())
    }
}

/// Lines joined with newlines, with no trailing newline.
pub open spec fn join_nl(lines: Seq<Seq<char>>) -> Seq<char> {
    if lines.len() == 0 {
        Seq::empty()
    } else {
        lines[0] + join_rest(lines.drop_first())
    }
}

/// What organizing a file's imports yields: content unchanged when there
/// are no imports, else the reconstructed lines joined by newlines.
pub open spec fn spec_organize(
    content: Seq<char>,
    items: Seq<crate::ast::Item>,
    sortg: bool,
) -> Seq<char> {
    if std_renders(items).len() + ext_renders(items).len() + local_renders(items).len() == 0 {
        content
    } else {
        join_nl(
            reconstruct(
                crate::text::spec_lines(content),
                organized_imports(items, sortg),
                false,
            ),
        )
    }
}

fn exec_lex_lt(a: &str, b: &str) -> (r: bool)
    ensures
        r == lex_lt(a@, b@),
{
    crate::text::str_lex_le(a, b) && !crate::text::str_eq(a, b)
}

proof fn lemma_insert_le_at(x: Seq<char>, s: Seq<Seq<char>>, j: int)
    requires
        0 <= j <= s.len(),
        forall|k: int| 0 <= k < j ==> !lex_lt(x, #[trigger] s[k]),
        j < s.len() ==> lex_lt(x, s[j]),
    ensures
        insert_le(x, s) == s.take(j) + seq![x] + s.skip(j),
    decreases s,
{
    if s.len() == 0 {
        assert(insert_le(x, s) =~= s.take(j) + seq![x] + s.skip(j));
    } else if lex_lt(x, s[0]) {
        assert(j == 0);
        assert(s.skip(0) =~= s);
        assert(insert_le(x, s) =~= s.take(j) + seq![x] + s.skip(j));
    } else {
        lemma_insert_le_at(x, s.drop_first(), j - 1);
        assert(s.drop_first().take(j - 1) =~= s.take(j).drop_first());
        assert(s.drop_first().skip(j - 1) =~= s.skip(j));
        assert(insert_le(x, s) =~= s.take(j) + seq![x] + s.skip(j));
    }
}

#[verifier::loop_isolation(false)]
fn exec_insert_le(x: String, sorted: &mut Vec<String>)
    ensures
        final(sorted).deep_view() == insert_le(x@, old(sorted).deep_view()),
{
    let ghost sv = sorted.deep_view();
    let ghost xv = x@;
    let mut j: usize = 0;
    while j < sorted.len() && !exec_lex_lt(x.as_str(), sorted[j].as_str())
        invariant
            j <= sorted.len(),
            sorted.deep_view() == sv,
            forall|k: int| 0 <= k < j ==> !lex_lt(xv, #[trigger] sv[k]),
        decreases sorted.len() - j,
    {
        j = j + 1;
    }
    proof {
        lemma_insert_le_at(xv, sv, j as int);
    }
    sorted.insert(j, x);
    proof {
        assert(final(sorted).deep_view() =~= sv.take(j as int) + seq![xv] + sv.skip(j as int));
    }
}

/// Sorts lines ascending, stably.
#[verifier::loop_isolation(false)]
fn sort_strings(v: &Vec<String>) -> (r: Vec<String>)
    ensures
        r.deep_view() == sort_le(v.deep_view()),
{
    let ghost fl = v.deep_view();
    let mut sorted: Vec<String> = Vec::new();
    let mut i: usize = 0;
    proof {
        assert(fl.take(0) =~= Seq::<Seq<char>>::empty());
        assert(sorted.deep_view() =~= sort_le(fl.take(0)));
    }
    while i < v.len()
        invariant
            i <= v.len(),
            sorted.deep_view() == sort_le(fl.take(i as int)),
        decreases v.len() - i,
    {
        let x = v[i].clone();
        proof {
            assert(x@ == fl[i as int]);
        }
        exec_insert_le(x, &mut sorted);
        proof {
            assert(fl.take(i as int + 1).drop_last() =~= fl.take(i as int));
            assert(fl.take(i as int + 1).last() == fl[i as int]);
            assert(sorted.deep_view() == sort_le(fl.take(i as int + 1)));
        }
        i = i + 1;
    }
    proof {
        assert(fl.take(fl.len() as int) =~= fl);
    }
    sorted
}

#[verifier::loop_isolation(false)]
fn push_string_clones(src: &Vec<String>, out: &mut Vec<String>)
    ensures
        final(out).deep_view() == old(out).deep_view() + src.deep_view(),
{
    let ghost pre = out.deep_view();
    let mut j: usize = 0;
    proof {
        assert(out.deep_view() =~= pre + src.deep_view().take(0));
    }
    while j < src.len()
        invariant
            j <= src.len(),
            out.deep_view() == pre + src.deep_view().take(j as int),
        decreases src.len() - j,
    {
        let s = src[j].clone();
        let ghost odv = out.deep_view();
        out.push(s);
        proof {
            assert(out.deep_view() =~= odv.push(src.deep_view()[j as int]));
            assert(out.deep_view() =~= pre + src.deep_view().take(j as int + 1));
        }
        j = j + 1;
    }
    proof {
        assert(src.deep_view().take(src@.len() as int) =~= src.deep_view());
    }
}

#[verifier::loop_isolation(false)]
fn build_organized(std_g: &Vec<String>, ext_g: &Vec<String>, loc_g: &Vec<String>) -> (r: Vec<
    String,
>)
    ensures
        r.deep_view() == grouped_lines(std_g.deep_view(), ext_g.deep_view(), loc_g.deep_view()),
{
    let mut g: Vec<String> = Vec::new();
    proof {
        assert(g.deep_view() =~= Seq::<Seq<char>>::empty());
    }
    if std_g.len() > 0 {
        push_string_clones(std_g, &mut g);
        let ghost pre = g.deep_view();
        g.push(String::new());
        proof {
            assert(g.deep_view() =~= pre.push(Seq::<char>::empty()));
        }
    }
    if ext_g.len() > 0 {
        push_string_clones(ext_g, &mut g);
        let ghost pre = g.deep_view();
        g.push(String::new());
        proof {
            assert(g.deep_view() =~= pre.push(Seq::<char>::empty()));
        }
    }
    push_string_clones(loc_g, &mut g);
    let ghost whole = (if std_g.deep_view().len() > 0 {
        std_g.deep_view() + seq![Seq::<char>::empty()]
    } else {
        Seq::empty()
    }) + (if ext_g.deep_view().len() > 0 {
        ext_g.deep_view() + seq![Seq::<char>::empty()]
    } else {
        Seq::empty()
    }) + loc_g.deep_view();
    proof {
        assert(g.deep_view() =~= whole);
    }
    if g.len() > 0 {
        let last_empty = g[g.len() - 1].as_str().unicode_len() == 0;
        if last_empty {
            let ghost pre = g.deep_view();
            g.pop();
            proof {
                assert(pre.last() =~= Seq::<char>::empty());
                assert(g.deep_view() =~= pre.drop_last());
            }
        }
    }
    proof {
        assert(g.deep_view() =~= grouped_lines(
            std_g.deep_view(),
            ext_g.deep_view(),
            loc_g.deep_view(),
        ));
    }
    g
}

fn exec_is_use_line(line: &str) -> (r: bool)
    ensures
        r == is_use_line(line@),
{
    let t = crate::text::str_trim(line);
    crate::text::str_starts_with(t, "use ") && crate::text::str_ends_with(t, ";")
}

#[verifier::loop_isolation(false)]
fn join_lines(lines: &Vec<String>) -> (r: String)
    ensures
        r@ == join_nl(lines.deep_view()),
{
    let ghost lv = lines.deep_view();
    if lines.len() == 0 {
        return String::new();
    }
    let mut out = String::from_str(lines[0].as_str());
    let mut i: usize = 1;
    proof {
        assert(lv.skip(1) =~= lv.drop_first());
        assert(join_nl(lv) == out@ + join_rest(lv.skip(1)));
    }
    while i < lines.len()
        invariant
            1 <= i <= lines.len(),
            join_nl(lv) == out@ + join_rest(lv.skip(i as int)),
        decreases lines.len() - i,
    {
        proof {
            assert(lv.skip(i as int).drop_first() =~= lv.skip(i as int + 1));
            assert(lv.skip(i as int)[0] == lv[i as int]);
        }
        crate::text::push_char(&mut out, '\n');
        out.append(lines[i].as_str());
        i = i + 1;
    }
    proof {
        assert(lv.skip(lv.len() as int) =~= Seq::<Seq<char>>::empty());
    }
    out
}


#[verifier::loop_isolation(false)]
fn collect_groups(tree: &crate::ast::SyntaxTree) -> (r: (Vec<String>, Vec<String>, Vec<String>))
    ensures
        r.0.deep_view() == std_renders(tree.items@),
        r.1.deep_view() == ext_renders(tree.items@),
        r.2.deep_view() == local_renders(tree.items@),
{
    let ghost items = tree.items@;
    let mut std_g: Vec<String> = Vec::new();
    let mut ext_g: Vec<String> = Vec::new();
    let mut loc_g: Vec<String> = Vec::new();
    let mut i: usize = 0;
    proof {
        assert(items.skip(0) =~= items);
        assert(std_g.deep_view() =~= Seq::<Seq<char>>::empty());
        assert(ext_g.deep_view() =~= Seq::<Seq<char>>::empty());
        assert(loc_g.deep_view() =~= Seq::<Seq<char>>::empty());
    }
    while i < tree.items.len()
        invariant
            i <= tree.items.len(),
            std_renders(items) == std_g.deep_view() + std_renders(items.skip(i as int)),
            ext_renders(items) == ext_g.deep_view() + ext_renders(items.skip(i as int)),
            local_renders(items) == loc_g.deep_view() + local_renders(items.skip(i as int)),
        decreases tree.items.len() - i,
    {
        proof {
            assert(items.skip(i as int).drop_first() =~= items.skip(i as int + 1));
            assert(items.skip(i as int)[0] == items[i as int]);
        }
        match &tree.items[i] {
            crate::ast::Item::Use(u) => {
                let is_std = crate::rules::imports::exec_is_std_path(u.path.as_str());
                let is_loc = crate::rules::imports::exec_is_local_path(u.path.as_str());
                let rendered = u.rendered.clone();
                if is_std {
                    let ghost pre = std_g.deep_view();
                    std_g.push(rendered);
                    proof {
                        assert(std_g.deep_view() =~= pre.push(items[i as int]->Use_0.rendered@));
                    }
                } else if is_loc {
                    let ghost pre = loc_g.deep_view();
                    loc_g.push(rendered);
                    proof {
                        assert(loc_g.deep_view() =~= pre.push(items[i as int]->Use_0.rendered@));
                    }
                } else {
                    let ghost pre = ext_g.deep_view();
                    ext_g.push(rendered);
                    proof {
                        assert(ext_g.deep_view() =~= pre.push(items[i as int]->Use_0.rendered@));
                    }
                }
            }
            _ => {}
        }
        proof {
            assert(std_renders(items) =~= std_g.deep_view() + std_renders(items.skip(i as int + 1)));
            assert(ext_renders(items) =~= ext_g.deep_view() + ext_renders(items.skip(i as int + 1)));
            assert(local_renders(items) =~= loc_g.deep_view() + local_renders(
                items.skip(i as int + 1),
            ));
        }
        i = i + 1;
    }
    proof {
        assert(items.skip(items.len() as int) =~= Seq::<crate::ast::Item>::empty());
        assert(std_g.deep_view() =~= std_renders(items));
        assert(ext_g.deep_view() =~= ext_renders(items));
        assert(loc_g.deep_view() =~= local_renders(items));
    }
    (std_g, ext_g, loc_g)
}

impl ImportOrganizer {
    /// An organizer that keeps comments, groups external crates, and
    /// sorts within groups.
    pub fn new() -> (r: Self)
        ensures
            r.preserve_comments,
            r.group_external_crates,
            r.sort_within_groups,
    {
        ImportOrganizer { preserve_comments: true, group_external_crates: true, sort_within_groups: true }
    }

    /// Rewrites the content with its imports grouped (standard library,
    /// external, local), sorted within groups when configured, placed at
    /// the first import line; content without imports is unchanged.
    #[verifier::loop_isolation(false)]
    pub fn organize_imports(&self, content: &str, tree: &crate::ast::SyntaxTree) -> (r: String)
        ensures
            r@ == spec_organize(content@, tree.items@, self.sort_within_groups),
    {
        let ghost items = tree.items@;
        let (std_g, ext_g, loc_g) = collect_groups(tree);
        if std_g.len() == 0 && ext_g.len() == 0 && loc_g.len() == 0 {
            return String::from_str(content);
        }
        let organized = if self.sort_within_groups {
            let s1 = sort_strings(&std_g);
            let s2 = sort_strings(&ext_g);
            let s3 = sort_strings(&loc_g);
            build_organized(&s1, &s2, &s3)
        } else {
            build_organized(&std_g, &ext_g, &loc_g)
        };
        let ghost org = organized.deep_view();
        proof {
            assert(org == organized_imports(items, self.sort_within_groups));
        }
        let lines = crate::text::split_lines(content);
        let ghost lv = lines.deep_view();
        let mut out_lines: Vec<String> = Vec::new();
        let mut inserted = false;
        let mut i: usize = 0;
        proof {
            assert(lv.skip(0) =~= lv);
            assert(out_lines.deep_view() =~= Seq::<Seq<char>>::empty());
        }
        while i < lines.len()
            invariant
                i <= lines.len(),
                reconstruct(lv, org, false) == out_lines.deep_view() + reconstruct(
                    lv.skip(i as int),
                    org,
                    inserted,
                ),
            decreases lines.len() - i,
        {
            proof {
                assert(lv.skip(i as int).drop_first() =~= lv.skip(i as int + 1));
                assert(lv.skip(i as int)[0] == lv[i as int]);
                assert(lines@[i as int]@ == lv[i as int]);
            }
            if exec_is_use_line(lines[i].as_str()) {
                if !inserted {
                    push_string_clones(&organized, &mut out_lines);
                    inserted = true;
                }
            } else {
                let ghost pre = out_lines.deep_view();
                let line = lines[i].clone();
                out_lines.push(line);
                proof {
                    assert(out_lines.deep_view() =~= pre.push(lv[i as int]));
                }
            }
            proof {
                assert(reconstruct(lv, org, false) =~= out_lines.deep_view() + reconstruct(
                    lv.skip(i as int + 1),
                    org,
                    inserted,
                ));
            }
            i = i + 1;
        }
        proof {
            assert(lv.skip(lv.len() as int) =~= Seq::<Seq<char>>::empty());
            assert(out_lines.deep_view() =~= reconstruct(lv, org, false));
        }
        join_lines(&out_lines)
    }

    /// A fix replacing the whole content with its organized form, or
    /// nothing when organizing changes nothing.
    pub fn create_import_fix(&self, content: &str, tree: &crate::ast::SyntaxTree) -> (r: Option<
        Fix,
    >)
        ensures
            ({
                let organized = spec_organize(content@, tree.items@, self.sort_within_groups);
                if organized == content@ {
                    r is None
                } else {
                    r matches Some(f) && f.deep_view() == (FixV {
                        description: "Reorganize imports"@,
                        replacements: seq![
                            ReplacementV {
                                start: 0,
                                end: content@.len() as usize,
                                text: organized,
                            },
                        ],
                    })
                }
            }),
    {
        let organized = self.organize_imports(content, tree);
        if crate::text::str_eq(organized.as_str(), content) {
            return None;
        }
        let clen = content.unicode_len();
        let mut reps: Vec<Replacement> = Vec::new();
        reps.push(Replacement { start: 0, end: clen, text: organized });
        let fix = Fix { description: String::from_str("Reorganize imports"), replacements: reps };
        proof {
            assert(fix.deep_view().replacements =~= seq![
                ReplacementV {
                    start: 0,
                    end: content@.len() as usize,
                    text: spec_organize(content@, tree.items@, self.sort_within_groups),
                },
            ]);
        }
        Some(fix)
    }
}

} // verus!
