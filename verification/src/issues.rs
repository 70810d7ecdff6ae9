//! The findings a rule can report: severity levels, source locations,
//! proposed text fixes, and the issue records that carry them.

use vstd::prelude::*;

use crate::text::dec_str;

verus! {

/// How serious a reported issue is; `Error` outranks `Warning`,
/// which outranks `Info`.
#[derive(Clone, Copy, Debug, PartialEq, Eq, Structural)]
pub enum Severity {
    Error,
    Warning,
    Info,
}

/// A 1-based source position, with an optional end position.
#[derive(Clone, Copy, Debug, PartialEq, Eq, Structural)]
pub struct Location {
    pub line: usize,
    pub column: usize,
    pub end_line: Option<usize>,
    pub end_column: Option<usize>,
}

/// One text substitution: the half-open range `[start, end)` of character
/// offsets in the original content, and the text that replaces it.
#[derive(Clone, Debug)]
pub struct Replacement {
    pub start: usize,
    pub end: usize,
    pub text: String,
}

/// A proposed correction: a description and the substitutions to apply.
#[derive(Clone, Debug)]
pub struct Fix {
    pub description: String,
    pub replacements: Vec<Replacement>,
}

/// One finding: the rule that produced it, its severity, a message,
/// where it points, and an optional automatic fix.
#[derive(Clone, Debug)]
pub struct Issue {
    pub rule: String,
    pub severity: Severity,
    pub message: String,
    pub location: Location,
    pub fix: Option<Fix>,
}

/// The mathematical value of a `Replacement`.
#[verifier::ext_equal]
pub struct ReplacementV {
    pub start: usize,
    pub end: usize,
    pub text: Seq<char>,
}

/// The mathematical value of a `Fix`.
#[verifier::ext_equal]
pub struct FixV {
    pub description: Seq<char>,
    pub replacements: Seq<ReplacementV>,
}

/// The mathematical value of an `Issue`.
#[verifier::ext_equal]
pub struct IssueV {
    pub rule: Seq<char>,
    pub severity: Severity,
    pub message: Seq<char>,
    pub location: Location,
    pub fix: Option<FixV>,
}

impl DeepView for Replacement {
    type V = ReplacementV;

    open spec fn deep_view(&self) -> ReplacementV {
        ReplacementV { start: self.start, end: self.end, text: self.text@ }
    }
}

impl DeepView for Fix {
    type V = FixV;

    open spec fn deep_view(&self) -> FixV {
        FixV { description: self.description@, replacements: self.replacements.deep_view() }
    }
}

impl DeepView for Issue {
    type V = IssueV;

    open spec fn deep_view(&self) -> IssueV {
        IssueV {
            rule: self.rule@,
            severity: self.severity,
            message: self.message@,
            location: self.location,
            fix: match self.fix {
                Some(f) => Some(f.deep_view()),
                None => None,
            },
        }
    }
}

/// Rank of a severity in the display order; a greater rank is more severe.
pub open spec fn severity_rank(s: Severity) -> nat {
    match s {
        Severity::Error => 2,
        Severity::Warning => 1,
        Severity::Info => 0,
    }
}

/// The display order on severities is total: any two severities compare,
/// and equal ranks mean equal severities.
pub proof fn lemma_severity_order_total(a: Severity, b: Severity)
    ensures
        severity_rank(a) > severity_rank(b) || severity_rank(b) > severity_rank(a) || a == b,
{
}

impl Severity {
    /// The level word used by an annotation-style consumer.
    pub fn github_level(&self) -> (r: &'static str)
        ensures
            r@ == spec_github_level(*self),
    {
        match self {
            Severity::Error => "error",
            Severity::Warning => "warning",
            Severity::Info => "notice",
        }
    }

    /// The plain display word for this severity.
    pub fn text(&self) -> (r: String)
        ensures
            r@ == spec_severity_text(*self),
    {
        match self {
            Severity::Error => String::from_str("error"),
            Severity::Warning => String::from_str("warning"),
            Severity::Info => String::from_str("info"),
        }
    }
}

/// The level word used by an annotation-style consumer.
pub open spec fn spec_github_level(s: Severity) -> Seq<char> {
    match s {
        Severity::Error => "error"@,
        Severity::Warning => "warning"@,
        Severity::Info => "notice"@,
    }
}

/// The plain display word for a severity.
pub open spec fn spec_severity_text(s: Severity) -> Seq<char> {
    match s {
        Severity::Error => "error"@,
        Severity::Warning => "warning"@,
        Severity::Info => "info"@,
    }
}

/// The one-line rendering of an issue.
pub open spec fn spec_display(i: IssueV) -> Seq<char> {
    "  "@ + dec_str(i.location.line as nat) + ":"@ + dec_str(i.location.column as nat) + " "@
        + spec_severity_text(i.severity) + " ["@ + i.rule + "] "@ + i.message
}

impl Issue {
    /// Renders the issue as one line of plain text:
    /// line, column, severity, rule name, and message.
    pub fn display(&self) -> (r: String)
        ensures
            r@ == spec_display(self.deep_view()),
    {
        let mut s = String::from_str("  ");
        crate::text::push_dec(&mut s, self.location.line);
        s.append(":");
        crate::text::push_dec(&mut s, self.location.column);
        s.append(" ");
        let sev = self.severity.text();
        s.append(sev.as_str());
        s.append(" [");
        s.append(self.rule.as_str());
        s.append("] ");
        s.append(self.message.as_str());
        s
    }
}

} // verus!
