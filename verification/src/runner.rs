//! Output-based classification of a spawned script's outcome: the script's
//! stdout is scanned line by line for sentinel markers, and the first
//! sentinel seen decides the classification. A stream that ends without a
//! sentinel is an error, whatever the operating-system exit code said.
use vstd::prelude::*;

use crate::text::contains_str;
use crate::text::contains_sub;

verus! {

/// Outcome of one script run.
#[derive(Clone, Copy, PartialEq, Eq, Structural, Debug)]
pub enum ExitStatus {
    OK,
    WARNING,
    ERROR,
}

/// The sentinel a single line carries, if any: `exit => 0` marks success
/// and is looked for first, `exit => 1` marks a warning.
pub open spec fn line_mark(l: Seq<char>) -> Option<ExitStatus> {
    if contains_sub(l, "exit => 0"@) {
        Some(ExitStatus::OK)
    } else if contains_sub(l, "exit => 1"@) {
        Some(ExitStatus::WARNING)
    } else {
        None
    }
}

/// The first sentinel in a line sequence, if any: earlier lines win and a
/// later sentinel never overrides an earlier one.
pub open spec fn sticky_mark(lines: Seq<Seq<char>>) -> Option<ExitStatus>
    decreases lines.len(),
{
    if lines.len() == 0 {
        None
    } else {
        let prior = sticky_mark(lines.drop_last());
        if prior is Some {
            prior
        } else {
            line_mark(lines.last())
        }
    }
}

/// The classification of a whole output stream: the first sentinel, or
/// `ERROR` when the stream ended without one.
pub open spec fn classification(lines: Seq<Seq<char>>) -> ExitStatus {
    match sticky_mark(lines) {
        Some(s) => s,
        None => ExitStatus::ERROR,
    }
}

/// Outcome of one script run: its classification and the captured output.
pub struct SubprocessResult {
    pub status: ExitStatus,
    pub lines: Vec<String>,
}

/// Scans a script's stdout lines as they arrive and keeps the first
/// sentinel classification.
pub struct OutputClassifier {
    status: Option<ExitStatus>,
    lines: Vec<String>,
}

impl View for OutputClassifier {
    type V = Seq<Seq<char>>;

    closed spec fn view(&self) -> Seq<Seq<char>> {
        self.lines.deep_view()
    }
}

impl OutputClassifier {
    /// The classifier's bookkeeping matches the lines observed so far.
    pub closed spec fn wf(&self) -> bool {
        self.status == sticky_mark(self@)
    }

    /// A classifier that has observed no output yet.
    pub fn new() -> (c: Self)
        ensures
            c@ == Seq::<Seq<char>>::empty(),
            c.wf(),
    {
        let c = OutputClassifier { status: None, lines: Vec::new() };
        proof {
            assert(c@ =~= Seq::<Seq<char>>::empty());
        }
        c
    }

    /// Observes one stdout line: records it, and adopts its sentinel as
    /// the classification if no earlier line carried one.
    pub fn observe_line(&mut self, line: &str)
        requires
            old(self).wf(),
        ensures
            final(self).wf(),
            final(self)@ == old(self)@.push(line@),
    {
        if self.status.is_none() {
            if contains_str(line, "exit => 0") {
                self.status = Some(ExitStatus::OK);
            } else if contains_str(line, "exit => 1") {
                self.status = Some(ExitStatus::WARNING);
            }
        }
        self.lines.push(line.to_owned());
        proof {
            assert(self@ =~= old(self)@.push(line@));
            assert(self@.drop_last() =~= old(self)@);
        }
    }

    /// The final classification once the stream has ended: the first
    /// sentinel seen, or `ERROR` when none ever appeared.
    pub fn finish(self) -> (r: SubprocessResult)
        requires
            self.wf(),
        ensures
            r.status == classification(self@),
            r.lines.deep_view() == self@,
    {
        let status = match self.status {
            Some(s) => s,
            None => ExitStatus::ERROR,
        };
        SubprocessResult { status, lines: self.lines }
    }
}

} // verus!
