//! A check result as lines for a reader.

use crate::policy::texts_of;
use crate::policy::CheckResult;
use vstd::prelude::*;
use vstd::string::*;

verus! {

/// How a line of the report is meant.
#[derive(Debug, Clone, Copy, PartialEq, Eq)]
pub enum Tone {
    /// The text passed.
    Passed,
    /// The text did not pass.
    Failed,
    /// One violation.
    Violation,
}

/// One line of the report.
#[derive(Debug, Clone, PartialEq, Eq)]
pub struct ReportLine {
    pub tone: Tone,
    pub text: String,
}

/// `ReportLine` as a mathematical value.
pub ghost struct ReportLineView {
    pub tone: Tone,
    pub text: Seq<char>,
}

impl View for ReportLine {
    type V = ReportLineView;

    open spec fn view(&self) -> ReportLineView {
        ReportLineView { tone: self.tone, text: self.text@ }
    }
}

/// The heading of the report on a text that passed.
pub open spec fn passed_heading() -> Seq<char> {
    "\u{2713} Policy check passed"@
}

/// The heading of the report on a text that did not pass.
pub open spec fn failed_heading() -> Seq<char> {
    "\u{2717} Policy violations"@
}

/// The lines of a report: one heading for a result that is `ok`; else the
/// other heading and then one line per violation, in order.
pub open spec fn report_of(ok: bool, violations: Seq<Seq<char>>) -> Seq<ReportLineView> {
    if ok {
        seq![ReportLineView { tone: Tone::Passed, text: passed_heading() }]
    } else {
        seq![ReportLineView { tone: Tone::Failed, text: failed_heading() }] + Seq::new(
            violations.len(),
            |i: int| ReportLineView { tone: Tone::Violation, text: violations[i] },
        )
    }
}

/// The views of a list of report lines.
pub open spec fn lines_of(v: Seq<ReportLine>) -> Seq<ReportLineView> {
    Seq::new(v.len(), |i: int| v[i]@)
}

impl CheckResult {
    /// The report on this result, line by line.
    pub fn report_lines(&self) -> (lines: Vec<ReportLine>)
        ensures
            lines_of(lines@) == report_of(self.ok, texts_of(self.violations@)),
    {
        let mut lines: Vec<ReportLine> = Vec::new();
        if self.ok {
            lines.push(ReportLine { tone: Tone::Passed, text: "\u{2713} Policy check passed".to_owned() });
            assert(lines_of(lines@) =~= report_of(self.ok, texts_of(self.violations@)));
            return lines;
        }
        lines.push(ReportLine { tone: Tone::Failed, text: "\u{2717} Policy violations".to_owned() });
        let ghost all = report_of(self.ok, texts_of(self.violations@));
        let mut i: usize = 0;
        while i < self.violations.len()
            invariant
                i <= self.violations.len(),
                !self.ok,
                all == report_of(self.ok, texts_of(self.violations@)),
                lines_of(lines@) == all.take(i + 1),
            decreases self.violations.len() - i,
        {
            let ghost before = lines@;
            let text = self.violations[i].clone();
            lines.push(ReportLine { tone: Tone::Violation, text });
            assert(lines_of(lines@) =~= lines_of(before).push(all[i + 1]));
            assert(all.take(i + 2) =~= all.take(i + 1).push(all[i + 1]));
            i += 1;
        }
        assert(all.take(i + 1) =~= all);
        lines
    }
}

} // verus!
