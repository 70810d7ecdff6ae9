//! Conversion of issues into editor-protocol diagnostic records: 1-based
//! locations become zero-based positions, severities map one to one, and
//! the rule name becomes a stable diagnostic code; a fix becomes a text
//! edit over the same coordinate space.

use vstd::prelude::*;

use crate::issues::{Issue, Severity};
use crate::text::{sat_add, sat_add_usize, sat_sub, sat_sub_usize};

verus! {

/// A zero-based protocol position.
#[derive(Clone, Copy, Debug, PartialEq, Eq, Structural)]
pub struct ProtoPosition {
    pub line: u32,
    pub character: u32,
}

/// A protocol range between two zero-based positions.
#[derive(Clone, Copy, Debug, PartialEq, Eq, Structural)]
pub struct ProtoRange {
    pub start: ProtoPosition,
    pub end: ProtoPosition,
}

/// A protocol diagnostic record for one issue.
pub struct ProtoDiagnostic {
    pub range: ProtoRange,
    pub severity: u8,
    pub code: String,
    pub source: String,
    pub message: String,
}

/// A protocol text edit: a range and the text that replaces it.
pub struct ProtoTextEdit {
    pub range: ProtoRange,
    pub new_text: String,
}

/// A 1-based coordinate moved to the zero-based protocol scale, within
/// the protocol's word width.
pub open spec fn zero_based(x: nat) -> u32 {
    (sat_sub(x, 1) % 0x100000000) as u32
}

fn exec_zero_based(x: usize) -> (r: u32)
    ensures
        r == zero_based(x as nat),
{
    let z = sat_sub_usize(x, 1);
    ((z as u64) % 0x100000000u64) as u32
}

/// The protocol severity scale: errors are 1, warnings 2, notes 3.
pub open spec fn proto_severity(s: Severity) -> u8 {
    match s {
        Severity::Error => 1,
        Severity::Warning => 2,
        Severity::Info => 3,
    }
}

/// The protocol range an issue covers: its line and column zero-based,
/// ending at the recorded end column or one past the start column.
pub open spec fn proto_range(loc: crate::issues::Location) -> ProtoRange {
    ProtoRange {
        start: ProtoPosition {
            line: zero_based(loc.line as nat),
            character: zero_based(loc.column as nat),
        },
        end: ProtoPosition {
            line: zero_based(loc.line as nat),
            character: zero_based(
                match loc.end_column {
                    Some(ec) => ec as nat,
                    None => sat_add(loc.column as nat, 1),
                },
            ),
        },
    }
}

fn exec_proto_range(loc: &crate::issues::Location) -> (r: ProtoRange)
    ensures
        r == proto_range(*loc),
{
    let line0 = exec_zero_based(loc.line);
    let col0 = exec_zero_based(loc.column);
    let end_col = match loc.end_column {
        Some(ec) => exec_zero_based(ec),
        None => exec_zero_based(sat_add_usize(loc.column, 1)),
    };
    ProtoRange {
        start: ProtoPosition { line: line0, character: col0 },
        end: ProtoPosition { line: line0, character: end_col },
    }
}

/// Converts one issue to a protocol diagnostic: zero-based range, the
/// severity mapped one to one, the rule name as the code, and the
/// message carried over.
pub fn to_diagnostic(issue: &Issue) -> (r: ProtoDiagnostic)
    ensures
        r.range == proto_range(issue.location),
        r.severity == proto_severity(issue.severity),
        r.code@ == issue.rule@,
        r.source@ == "cargo-fl"@,
        r.message@ == issue.message@,
{
    let severity: u8 = match issue.severity {
        Severity::Error => 1,
        Severity::Warning => 2,
        Severity::Info => 3,
    };
    ProtoDiagnostic {
        range: exec_proto_range(&issue.location),
        severity,
        code: issue.rule.clone(),
        source: String::from_str("cargo-fl"),
        message: issue.message.clone(),
    }
}

/// Converts an issue's fix, when it has one, to a protocol text edit
/// over the issue's range, carrying the fix's description as the edit
/// text.
pub fn to_text_edit(issue: &Issue) -> (r: Option<ProtoTextEdit>)
    ensures
        match issue.fix {
            Some(f) => r matches Some(e) && e.range == proto_range(issue.location) && e.new_text@
                == f.description@,
            None => r is None,
        },
{
    match &issue.fix {
        Some(f) => Some(
            ProtoTextEdit {
                range: exec_proto_range(&issue.location),
                new_text: f.description.clone(),
            },
        ),
        None => None,
    }
}

} // verus!
