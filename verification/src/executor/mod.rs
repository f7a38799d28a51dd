use vstd::prelude::*;

pub mod apply;
pub mod disk;
pub mod dry_run;
pub mod guarantees;

pub use apply::{apply, execute};
pub use dry_run::dry_run;

verus! {

/// How a plan is carried out.
#[derive(Debug, Clone, Copy, PartialEq, Eq, Structural)]
pub enum Mode {
    /// Perform every operation against the filesystem.
    Apply,
    /// Report what would happen and touch nothing.
    DryRun,
}

impl Default for Mode {
    fn default() -> (mode: Mode)
        ensures
            mode == Mode::Apply,
    {
        Mode::Apply
    }
}

impl Mode {
    /// The words under which the mode is shown to a user.
    pub open spec fn spec_label(self) -> Seq<char> {
        match self {
            Mode::Apply => "apply"@,
            Mode::DryRun => "dry run"@,
        }
    }

    /// The words under which the mode is shown to a user: `apply` or
    /// `dry run`.
    pub fn label(&self) -> (text: &'static str)
        ensures
            text@ == self.spec_label(),
    {
        match self {
            Mode::Apply => "apply",
            Mode::DryRun => "dry run",
        }
    }
}

/// What became of one operation.
#[derive(Debug)]
pub enum OpResult {
    /// The file at `path` now holds the content, `bytes` bytes long.
    FileWritten { path: String, bytes: usize },
    /// `dst` was made a link to `src`.
    SymlinkCreated { src: String, dst: String },
    /// `dst` already was a link to the wanted place and was left alone.
    SymlinkUnchanged { dst: String },
}

/// The mathematical value of an [`OpResult`].
pub ghost enum OpResultView {
    FileWritten { path: Seq<char>, bytes: nat },
    SymlinkCreated { src: Seq<char>, dst: Seq<char> },
    SymlinkUnchanged { dst: Seq<char> },
}

impl View for OpResult {
    type V = OpResultView;

    open spec fn view(&self) -> OpResultView {
        match *self {
            OpResult::FileWritten { path, bytes } => OpResultView::FileWritten {
                path: path@,
                bytes: bytes as nat,
            },
            OpResult::SymlinkCreated { src, dst } => OpResultView::SymlinkCreated {
                src: src@,
                dst: dst@,
            },
            OpResult::SymlinkUnchanged { dst } => OpResultView::SymlinkUnchanged { dst: dst@ },
        }
    }
}

impl DeepView for OpResult {
    type V = OpResultView;

    open spec fn deep_view(&self) -> OpResultView {
        self@
    }
}

impl Clone for OpResult {
    fn clone(&self) -> (copy: OpResult)
        ensures
            copy@ == self@,
    {
        match self {
            OpResult::FileWritten { path, bytes } => OpResult::FileWritten {
                path: path.clone(),
                bytes: *bytes,
            },
            OpResult::SymlinkCreated { src, dst } => OpResult::SymlinkCreated {
                src: src.clone(),
                dst: dst.clone(),
            },
            OpResult::SymlinkUnchanged { dst } => OpResult::SymlinkUnchanged { dst: dst.clone() },
        }
    }
}

impl PartialEq for OpResult {
    fn eq(&self, other: &OpResult) -> (same: bool) {
        match (self, other) {
            (
                OpResult::FileWritten { path: p1, bytes: b1 },
                OpResult::FileWritten { path: p2, bytes: b2 },
            ) => *p1 == *p2 && *b1 == *b2,
            (
                OpResult::SymlinkCreated { src: s1, dst: d1 },
                OpResult::SymlinkCreated { src: s2, dst: d2 },
            ) => *s1 == *s2 && *d1 == *d2,
            (OpResult::SymlinkUnchanged { dst: d1 }, OpResult::SymlinkUnchanged { dst: d2 }) => *d1
                == *d2,
            _ => false,
        }
    }
}

impl vstd::std_specs::cmp::PartialEqSpecImpl for OpResult {
    open spec fn obeys_eq_spec() -> bool {
        true
    }

    open spec fn eq_spec(&self, other: &OpResult) -> bool {
        self@ == other@
    }
}

/// The record of one run: the mode it ran in and, in the order of the plan,
/// what became of each operation.
#[derive(Debug)]
pub struct ExecutionReport {
    pub mode: Mode,
    pub results: Vec<OpResult>,
}

/// The mathematical value of an [`ExecutionReport`].
pub ghost struct ReportView {
    pub mode: Mode,
    pub results: Seq<OpResultView>,
}

impl View for ExecutionReport {
    type V = ReportView;

    open spec fn view(&self) -> ReportView {
        ReportView { mode: self.mode, results: self.results.deep_view() }
    }
}

impl Default for ExecutionReport {
    fn default() -> (report: ExecutionReport)
        ensures
            report@ == (ReportView { mode: Mode::Apply, results: Seq::empty() }),
    {
        let report = ExecutionReport { mode: Mode::Apply, results: Vec::new() };
        assert(report.results.deep_view() =~= Seq::empty());
        report
    }
}

/// The number of bytes that a text takes when written out.
pub open spec fn byte_len(content: Seq<char>) -> nat {
    vstd::utf8::encode_utf8(content).len()
}

} // verus!
