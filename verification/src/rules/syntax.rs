//! Syntax sanity: detects unmatched closing braces with a depth counter
//! driven by a small state machine that ignores braces inside string,
//! character and comment spans.

use vstd::prelude::*;

use crate::issues::{Issue, IssueV, Location, Severity};
use crate::rules::{ctx_adds, RuleContext};
use crate::text::{sat_add, sat_add_usize, spec_lines, split_lines};

verus! {

/// The scanning mode of the delimiter state machine.
#[derive(Clone, Copy, Debug, PartialEq, Eq, Structural)]
pub enum ScanState {
    Normal,
    Slash,
    InString,
    StringEscape,
    InChar,
    CharEscape,
    LineComment,
    BlockComment,
    BlockStar,
}

/// The machine's full state: scanning mode, the brace depth split into
/// its surplus of opens (`pos`) and of closes (`neg`), and the issues
/// reported so far. Depth counters stop at the largest representable
/// value.
#[verifier::ext_equal]
pub struct DelimAcc {
    pub st: ScanState,
    pub pos: nat,
    pub neg: nat,
    pub issues: Seq<IssueV>,
}

/// The issue reported at a closing brace with no matching opening brace.
pub open spec fn brace_issue(line: int, col: int) -> IssueV {
    IssueV {
        rule: "unmatched-delimiters"@,
        severity: Severity::Error,
        message: "Unmatched closing brace"@,
        location: Location {
            line: line as usize,
            column: col as usize,
            end_line: None,
            end_column: None,
        },
        fix: None,
    }
}

/// One character processed in normal mode: quotes and slashes change the
/// mode, an open brace deepens, a close brace shallows and is reported
/// when no open brace is outstanding.
pub open spec fn normal_char(a: DelimAcc, c: char, line: int, col: int) -> DelimAcc {
    if c == '"' {
        DelimAcc { st: ScanState::InString, ..a }
    } else if c == '\'' {
        DelimAcc { st: ScanState::InChar, ..a }
    } else if c == '/' {
        DelimAcc { st: ScanState::Slash, ..a }
    } else if c == '{' {
        if a.neg > 0 {
            DelimAcc { st: ScanState::Normal, neg: (a.neg - 1) as nat, ..a }
        } else {
            DelimAcc { st: ScanState::Normal, pos: sat_add(a.pos, 1), ..a }
        }
    } else if c == '}' {
        if a.pos > 0 {
            DelimAcc { st: ScanState::Normal, pos: (a.pos - 1) as nat, ..a }
        } else {
            DelimAcc {
                st: ScanState::Normal,
                neg: sat_add(a.neg, 1),
                issues: a.issues + seq![brace_issue(line, col)],
                ..a
            }
        }
    } else {
        DelimAcc { st: ScanState::Normal, ..a }
    }
}

/// One step of the state machine on one character.
pub open spec fn delim_step(a: DelimAcc, c: char, line: int, col: int) -> DelimAcc {
    match a.st {
        ScanState::Normal => normal_char(a, c, line, col),
        ScanState::Slash => if c == '/' {
            DelimAcc { st: ScanState::LineComment, ..a }
        } else if c == '*' {
            DelimAcc { st: ScanState::BlockComment, ..a }
        } else {
            normal_char(DelimAcc { st: ScanState::Normal, ..a }, c, line, col)
        },
        ScanState::InString => if c == '\\' {
            DelimAcc { st: ScanState::StringEscape, ..a }
        } else if c == '"' {
            DelimAcc { st: ScanState::Normal, ..a }
        } else {
            a
        },
        ScanState::StringEscape => DelimAcc { st: ScanState::InString, ..a },
        ScanState::InChar => if c == '\\' {
            DelimAcc { st: ScanState::CharEscape, ..a }
        } else if c == '\'' {
            DelimAcc { st: ScanState::Normal, ..a }
        } else {
            a
        },
        ScanState::CharEscape => DelimAcc { st: ScanState::InChar, ..a },
        ScanState::LineComment => a,
        ScanState::BlockComment => if c == '*' {
            DelimAcc { st: ScanState::BlockStar, ..a }
        } else {
            a
        },
        ScanState::BlockStar => if c == '/' {
            DelimAcc { st: ScanState::Normal, ..a }
        } else if c == '*' {
            a
        } else {
            DelimAcc { st: ScanState::BlockComment, ..a }
        },
    }
}

/// The machine run over the characters of one line, 1-based columns.
pub open spec fn run_line(a: DelimAcc, chars: Seq<char>, line: int, col: int) -> DelimAcc
    decreases chars,
{
    if chars.len() == 0 {
        a
    } else {
        run_line(delim_step(a, chars[0], line, col), chars.drop_first(), line, col + 1)
    }
}

/// The line-end adjustment: a line comment, or a lone slash, ends with
/// its line.
pub open spec fn end_of_line(a: DelimAcc) -> DelimAcc {
    if a.st == ScanState::LineComment || a.st == ScanState::Slash {
        DelimAcc { st: ScanState::Normal, ..a }
    } else {
        a
    }
}

/// The machine run over a list of lines, 1-based line numbers.
pub open spec fn run_lines(a: DelimAcc, lines: Seq<Seq<char>>, lineno: int) -> DelimAcc
    decreases lines,
{
    if lines.len() == 0 {
        a
    } else {
        run_lines(end_of_line(run_line(a, lines[0], lineno, 1)), lines.drop_first(), lineno + 1)
    }
}

/// The machine's starting state.
pub open spec fn delim_init() -> DelimAcc {
    DelimAcc { st: ScanState::Normal, pos: 0, neg: 0, issues: Seq::empty() }
}

/// What the rule reports for whole content: the unmatched closing braces
/// found by the state machine, in reading order.
pub open spec fn delimiter_issues(content: Seq<char>) -> Seq<IssueV> {
    run_lines(delim_init(), spec_lines(content), 1).issues
}

fn exec_step(
    st: ScanState,
    pos: usize,
    neg: usize,
    c: char,
    line: usize,
    col: usize,
    out: &mut Vec<Issue>,
) -> (r: (ScanState, usize, usize))
    ensures
        ({
            let a2 = delim_step(
                DelimAcc {
                    st,
                    pos: pos as nat,
                    neg: neg as nat,
                    issues: old(out).deep_view(),
                },
                c,
                line as int,
                col as int,
            );
            r.0 == a2.st && r.1 as nat == a2.pos && r.2 as nat == a2.neg
                && final(out).deep_view() == a2.issues
        }),
{
    let ghost a = DelimAcc { st, pos: pos as nat, neg: neg as nat, issues: out.deep_view() };
    let in_normal: bool = match st {
        ScanState::Normal => true,
        ScanState::Slash => c != '/' && c != '*',
        _ => false,
    };
    if in_normal {
        if c == '"' {
            (ScanState::InString, pos, neg)
        } else if c == '\'' {
            (ScanState::InChar, pos, neg)
        } else if c == '/' {
            (ScanState::Slash, pos, neg)
        } else if c == '{' {
            if neg > 0 {
                (ScanState::Normal, pos, neg - 1)
            } else {
                (ScanState::Normal, sat_add_usize(pos, 1), neg)
            }
        } else if c == '}' {
            if pos > 0 {
                (ScanState::Normal, pos - 1, neg)
            } else {
                let ghost pre = out.deep_view();
                let issue = Issue {
                    rule: String::from_str("unmatched-delimiters"),
                    severity: Severity::Error,
                    message: String::from_str("Unmatched closing brace"),
                    location: Location {
                        line,
                        column: col,
                        end_line: None,
                        end_column: None,
                    },
                    fix: None,
                };
                out.push(issue);
                proof {
                    assert(out.deep_view() =~= pre + seq![brace_issue(line as int, col as int)]);
                }
                (ScanState::Normal, pos, sat_add_usize(neg, 1))
            }
        } else {
            (ScanState::Normal, pos, neg)
        }
    } else {
        match st {
            ScanState::Slash => {
                if c == '/' {
                    (ScanState::LineComment, pos, neg)
                } else {
                    (ScanState::BlockComment, pos, neg)
                }
            }
            ScanState::InString => {
                if c == '\\' {
                    (ScanState::StringEscape, pos, neg)
                } else if c == '"' {
                    (ScanState::Normal, pos, neg)
                } else {
                    (ScanState::InString, pos, neg)
                }
            }
            ScanState::StringEscape => (ScanState::InString, pos, neg),
            ScanState::InChar => {
                if c == '\\' {
                    (ScanState::CharEscape, pos, neg)
                } else if c == '\'' {
                    (ScanState::Normal, pos, neg)
                } else {
                    (ScanState::InChar, pos, neg)
                }
            }
            ScanState::CharEscape => (ScanState::InChar, pos, neg),
            ScanState::LineComment => (ScanState::LineComment, pos, neg),
            ScanState::BlockComment => {
                if c == '*' {
                    (ScanState::BlockStar, pos, neg)
                } else {
                    (ScanState::BlockComment, pos, neg)
                }
            }
            ScanState::BlockStar => {
                if c == '/' {
                    (ScanState::Normal, pos, neg)
                } else if c == '*' {
                    (ScanState::BlockStar, pos, neg)
                } else {
                    (ScanState::BlockComment, pos, neg)
                }
            }
            ScanState::Normal => (ScanState::Normal, pos, neg),
        }
    }
}

/// Detects unmatched closing braces outside strings, character literals
/// and comments.
pub struct UnmatchedDelimitersRule;

impl UnmatchedDelimitersRule {
    pub fn name(&self) -> (r: &'static str)
        ensures
            r@ == "unmatched-delimiters"@,
    {
        "unmatched-delimiters"
    }

    /// Reports exactly the unmatched closing braces that the state
    /// machine finds in the file's content, in reading order.
    #[verifier::loop_isolation(false)]
    pub fn check(&self, ctx: &mut RuleContext)
        ensures
            ctx_adds(*old(ctx), *final(ctx), delimiter_issues(old(ctx).content@)),
    {
        let lines = split_lines(ctx.content.as_str());
        let ghost lv = lines.deep_view();
        let mut out: Vec<Issue> = Vec::new();
        let mut st = ScanState::Normal;
        let mut pos: usize = 0;
        let mut neg: usize = 0;
        let mut i: usize = 0;
        proof {
            assert(lv.skip(0) =~= lv);
            assert(out.deep_view() =~= Seq::<IssueV>::empty());
            assert((DelimAcc { st, pos: pos as nat, neg: neg as nat, issues: out.deep_view() })
                =~= delim_init());
        }
        while i < lines.len()
            invariant
                i <= lines.len(),
                lines.deep_view() == lv,
                run_lines(delim_init(), lv, 1) == run_lines(
                    DelimAcc { st, pos: pos as nat, neg: neg as nat, issues: out.deep_view() },
                    lv.skip(i as int),
                    i + 1,
                ),
            decreases lines.len() - i,
        {
            proof {
                assert(lv.skip(i as int).drop_first() =~= lv.skip(i as int + 1));
                assert(lv.skip(i as int)[0] == lv[i as int]);
                assert(lines[i as int]@ == lv[i as int]);
            }
            let ghost line_start = DelimAcc {
                st,
                pos: pos as nat,
                neg: neg as nat,
                issues: out.deep_view(),
            };
            let line = &lines[i];
            let n = line.as_str().unicode_len();
            let mut j: usize = 0;
            proof {
                assert(lv[i as int].skip(0) =~= lv[i as int]);
            }
            while j < n
                invariant
                    j <= n,
                    n == lv[i as int].len(),
                    line@ == lv[i as int],
                    run_line(line_start, lv[i as int], i + 1, 1) == run_line(
                        DelimAcc { st, pos: pos as nat, neg: neg as nat, issues: out.deep_view() },
                        lv[i as int].skip(j as int),
                        i + 1,
                        j + 1,
                    ),
                decreases n - j,
            {
                proof {
                    assert(lv[i as int].skip(j as int).drop_first() =~= lv[i as int].skip(
                        j as int + 1,
                    ));
                    assert(lv[i as int].skip(j as int)[0] == lv[i as int][j as int]);
                }
                let c = line.as_str().get_char(j);
                let ghost cur = DelimAcc {
                    st,
                    pos: pos as nat,
                    neg: neg as nat,
                    issues: out.deep_view(),
                };
                let stepped = exec_step(st, pos, neg, c, i + 1, j + 1, &mut out);
                st = stepped.0;
                pos = stepped.1;
                neg = stepped.2;
                proof {
                    assert((DelimAcc {
                        st,
                        pos: pos as nat,
                        neg: neg as nat,
                        issues: out.deep_view(),
                    }) =~= delim_step(cur, lv[i as int][j as int], i + 1, j + 1));
                }
                j = j + 1;
            }
            proof {
                assert(lv[i as int].skip(n as int) =~= Seq::<char>::empty());
            }
            if st == ScanState::LineComment || st == ScanState::Slash {
                st = ScanState::Normal;
            }
            proof {
                assert((DelimAcc { st, pos: pos as nat, neg: neg as nat, issues: out.deep_view() })
                    =~= end_of_line(run_line(line_start, lv[i as int], i + 1, 1)));
            }
            i = i + 1;
        }
        proof {
            assert(lv.skip(lines@.len() as int) =~= Seq::<Seq<char>>::empty());
            assert(out.deep_view() =~= delimiter_issues(old(ctx).content@));
        }
        ctx.report_all(out);
    }
}

/// A placeholder for deeper syntactic checks; parsed content has already
/// been accepted by the syntax provider, so it reports nothing.
pub struct InvalidSyntaxRule;

impl InvalidSyntaxRule {
    pub fn name(&self) -> (r: &'static str)
        ensures
            r@ == "invalid-syntax"@,
    {
        "invalid-syntax"
    }

    /// Reports nothing.
    pub fn check(&self, ctx: &mut RuleContext)
        ensures
            ctx_adds(*old(ctx), *final(ctx), Seq::<IssueV>::empty()),
    {
        proof {
            assert(ctx.issues.deep_view() =~= ctx.issues.deep_view() + Seq::<IssueV>::empty());
        }
    }
}

} // verus!
