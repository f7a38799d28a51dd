use crate::executor::{byte_len, ExecutionReport, Mode, OpResult, OpResultView, ReportView};
use crate::plan::{Op, OpView};
use vstd::prelude::*;

verus! {

/// What a dry run reports for one operation: a write is reported as written,
/// with the length of its content, and a link as created. The filesystem is
/// not consulted, so a link that is already in place is reported as created
/// too.
pub open spec fn dry_result(op: OpView) -> OpResultView {
    match op {
        OpView::WriteFile { path, content } => OpResultView::FileWritten {
            path,
            bytes: byte_len(content),
        },
        OpView::Symlink { src, dst } => OpResultView::SymlinkCreated { src, dst },
    }
}

/// The report of a dry run over a whole plan: one result per operation, in
/// the plan's order.
pub open spec fn dry_report(plan: Seq<OpView>) -> ReportView {
    ReportView { mode: Mode::DryRun, results: plan.map_values(|op: OpView| dry_result(op)) }
}

/// Reports what applying the plan would do. The function has no access to
/// the filesystem: its result depends on the plan alone.
pub fn dry_run(ops: &[Op]) -> (report: ExecutionReport)
    ensures
        report@ == dry_report(ops.deep_view()),
{
    let mut results: Vec<OpResult> = Vec::new();
    let mut i: usize = 0;
    while i < ops.len()
        invariant
            i <= ops.len(),
            results.len() == i,
            forall|k: int| 0 <= k < i ==> (#[trigger] results[k])@ == dry_result(ops[k]@),
        decreases ops.len() - i,
    {
        let result = match &ops[i] {
            Op::WriteFile { path, content } => OpResult::FileWritten {
                path: path.clone(),
                bytes: content.as_str().as_bytes().len(),
            },
            Op::Symlink { src, dst } => OpResult::SymlinkCreated {
                src: src.clone(),
                dst: dst.clone(),
            },
        };
        results.push(result);
        i += 1;
    }
    assert(results.deep_view() =~= dry_report(ops.deep_view()).results);
    ExecutionReport { mode: Mode::DryRun, results }
}

} // verus!
