use crate::executor::apply::{
    advanced, advanced_keeps_wf, answers, conflict, pending, DestinationView, EventView,
    ExecutionView, RequestView,
};
use crate::executor::disk::{
    answer, applied, applied_stays_failed, driven, driven_is_applied, entry_of, found,
    op_applied, Disk, Entry,
};
use crate::executor::dry_run::{dry_report, dry_result};
use crate::executor::OpResultView;
use crate::plan::OpView;
use vstd::prelude::*;

verus! {

/// A run starts well formed.
pub proof fn start_is_wf(plan: Seq<OpView>)
    ensures
        ExecutionView::start(plan).wf(),
{
}

/// A dry run is over from the start, with the report that
/// [`dry_report`] gives: one result for each operation, in the plan's order.
pub proof fn rehearsal_is_over(plan: Seq<OpView>)
    ensures
        ExecutionView::rehearsed(plan).wf(),
        ExecutionView::rehearsed(plan).over(),
        pending(ExecutionView::rehearsed(plan)) == RequestView::Finish,
        ExecutionView::rehearsed(plan).report() == dry_report(plan),
{
}

/// The report of a run that came to its end follows the plan: it has as
/// many results as the plan has operations, and the result at each position
/// answers the operation at that position. This holds whatever the
/// filesystem reported on the way, and in both modes.
pub proof fn report_follows_plan(state: ExecutionView)
    requires
        state.wf(),
        state.over(),
        state.failure is None,
    ensures
        state.results.len() == state.plan.len(),
        forall|i: int| 0 <= i < state.plan.len() ==> answers(#[trigger] state.results[i], state.plan[i]),
{
}

/// However long a run is driven on the modelled disk, its state stays well
/// formed and its plan and mode stay what they were.
pub proof fn driven_keeps_wf(state: ExecutionView, disk: Disk, steps: nat)
    requires
        state.wf(),
    ensures
        driven(state, disk, steps).0.wf(),
        driven(state, disk, steps).0.plan == state.plan,
        driven(state, disk, steps).0.mode == state.mode,
    decreases steps,
{
    if steps > 0 && !state.over() {
        let (next, event) = answer(disk, pending(state));
        advanced_keeps_wf(state, event);
        driven_keeps_wf(advanced(state, event), next, (steps - 1) as nat);
    }
}

/// A dry run changes nothing: it asks for no command, so a disk on which it
/// is driven, whatever it holds, is afterwards what it was before.
pub proof fn rehearsal_leaves_disk(plan: Seq<OpView>, disk: Disk, steps: nat)
    ensures
        driven(ExecutionView::rehearsed(plan), disk, steps) == (
            ExecutionView::rehearsed(plan),
            disk,
        ),
{
}

/// A file in the way of a link stops the run and is left as it was. If
/// something that is not a link stands at the destination of a link of the
/// plan before the run, and no write of the plan that comes before the link
/// goes to that same path, then the run fails and the entry at that path is
/// afterwards what it was before.
pub proof fn conflict_stops_run(disk: Disk, plan: Seq<OpView>, at: nat)
    requires
        at < plan.len(),
        plan[at as int] is Symlink,
        found(disk, plan[at as int].target()) == DestinationView::Occupied,
        forall|i: int|
            0 <= i < at ==> !(#[trigger] plan[i] is WriteFile && plan[i].target() == plan[at as int].target()),
    ensures
        applied(disk, plan, plan.len()).failure is Some,
        applied(disk, plan, plan.len()).disk.contains_key(plan[at as int].target()),
        applied(disk, plan, plan.len()).disk[plan[at as int].target()] == disk[plan[at as int].target()],
{
    let dst = plan[at as int].target();
    untouched_before_conflict(disk, plan, at, at);
    let before = applied(disk, plan, at);
    let stopped = applied(disk, plan, at + 1);
    assert(stopped.failure is Some);
    assert(stopped.disk == before.disk);
    applied_stays_failed(disk, plan, at + 1, plan.len());
}

/// The same, said of the run itself: driven on the modelled disk, a run
/// whose plan holds such a link ends in failure, and the entry in the link's
/// way is afterwards what it was before.
pub proof fn conflict_stops_drive(disk: Disk, plan: Seq<OpView>, at: nat, steps: nat)
    requires
        at < plan.len(),
        steps >= 2 * plan.len(),
        plan[at as int] is Symlink,
        found(disk, plan[at as int].target()) == DestinationView::Occupied,
        forall|i: int|
            0 <= i < at ==> !(#[trigger] plan[i] is WriteFile && plan[i].target() == plan[at as int].target()),
    ensures
        driven(ExecutionView::start(plan), disk, steps).0.failure is Some,
        driven(ExecutionView::start(plan), disk, steps).1.contains_key(plan[at as int].target()),
        driven(ExecutionView::start(plan), disk, steps).1[plan[at as int].target()]
            == disk[plan[at as int].target()],
{
    driven_is_applied(disk, plan, 0, steps);
    conflict_stops_run(disk, plan, at);
}

proof fn untouched_before_conflict(disk: Disk, plan: Seq<OpView>, at: nat, count: nat)
    requires
        at < plan.len(),
        count <= at,
        plan[at as int] is Symlink,
        found(disk, plan[at as int].target()) == DestinationView::Occupied,
        forall|i: int|
            0 <= i < at ==> !(#[trigger] plan[i] is WriteFile && plan[i].target() == plan[at as int].target()),
    ensures
        applied(disk, plan, count).disk.contains_key(plan[at as int].target()),
        applied(disk, plan, count).disk[plan[at as int].target()] == disk[plan[at as int].target()],
    decreases count,
{
    if count > 0 {
        untouched_before_conflict(disk, plan, at, (count - 1) as nat);
        let op = plan[count - 1];
        assert(!(op is WriteFile && op.target() == plan[at as int].target()));
    }
}

/// Whether two operations of one plan can both stand: where they go to the
/// same path, both write a file there or both make the same link.
pub open spec fn agree(first: OpView, second: OpView) -> bool {
    first.target() == second.target() ==> match (first, second) {
        (OpView::WriteFile { .. }, OpView::WriteFile { .. }) => true,
        (OpView::Symlink { src: a, .. }, OpView::Symlink { src: b, .. }) => a == b,
        _ => false,
    }
}

/// Whether no operation of the plan undoes another: any two of them agree.
pub open spec fn consistent(plan: Seq<OpView>) -> bool {
    forall|i: int, j: int|
        0 <= i < plan.len() && 0 <= j < plan.len() ==> agree(#[trigger] plan[i], #[trigger] plan[j])
}

/// Whether the disk holds, at the target of each operation of the plan, an
/// entry of the kind that the operation leaves there: for a link, that very
/// link; for a write, a file.
pub open spec fn in_place(disk: Disk, plan: Seq<OpView>) -> bool {
    forall|i: int|
        0 <= i < plan.len() ==> {
            &&& disk.contains_key((#[trigger] plan[i]).target())
            &&& match plan[i] {
                OpView::WriteFile { path, .. } => disk[path] is File,
                OpView::Symlink { src, dst } => disk[dst] == (Entry::Link { target: src }),
            }
        }
}

proof fn first_run_puts_in_place(disk: Disk, plan: Seq<OpView>, count: nat)
    requires
        consistent(plan),
        count <= plan.len(),
        applied(disk, plan, count).failure is None,
    ensures
        in_place(applied(disk, plan, count).disk, plan.take(count as int)),
    decreases count,
{
    if count > 0 {
        let before = applied(disk, plan, (count - 1) as nat);
        first_run_puts_in_place(disk, plan, (count - 1) as nat);
        let op = plan[count - 1];
        let now = applied(disk, plan, count);
        assert(now == op_applied(before, op));
        assert forall|i: int| 0 <= i < count implies {
            &&& now.disk.contains_key((#[trigger] plan.take(count as int)[i]).target())
            &&& match plan.take(count as int)[i] {
                OpView::WriteFile { path, .. } => now.disk[path] is File,
                OpView::Symlink { src, dst } => now.disk[dst] == (Entry::Link { target: src }),
            }
        } by {
            assert(agree(plan[i], plan[count - 1]));
            if i < count - 1 {
                assert(plan.take((count - 1) as int)[i] == plan[i]);
            }
        }
    }
}

proof fn second_run_keeps(disk: Disk, plan: Seq<OpView>, count: nat)
    requires
        consistent(plan),
        in_place(disk, plan),
        count <= plan.len(),
    ensures
        applied(disk, plan, count).failure is None,
        applied(disk, plan, count).results.len() == count,
        in_place(applied(disk, plan, count).disk, plan),
        forall|i: int|
            0 <= i < count ==> (#[trigger] applied(disk, plan, count).results[i]) == (match plan[i] {
                OpView::WriteFile { .. } => dry_result(plan[i]),
                OpView::Symlink { dst, .. } => OpResultView::SymlinkUnchanged { dst },
            }),
    decreases count,
{
    if count > 0 {
        let before = applied(disk, plan, (count - 1) as nat);
        second_run_keeps(disk, plan, (count - 1) as nat);
        let op = plan[count - 1];
        let now = applied(disk, plan, count);
        assert(now == op_applied(before, op));
        assert(before.disk.contains_key(op.target()));
        assert forall|i: int| 0 <= i < plan.len() implies {
            &&& now.disk.contains_key((#[trigger] plan[i]).target())
            &&& match plan[i] {
                OpView::WriteFile { path, .. } => now.disk[path] is File,
                OpView::Symlink { src, dst } => now.disk[dst] == (Entry::Link { target: src }),
            }
        } by {
            assert(agree(plan[i], plan[count - 1]));
        }
    }
}

/// The entry that the first `count` operations of the plan leave at `path`,
/// if any of them goes there: that of the last one that does.
pub open spec fn last_entry(plan: Seq<OpView>, count: nat, path: Seq<char>) -> Option<Entry>
    decreases count,
{
    if count == 0 {
        None
    } else if plan[count - 1].target() == path {
        Some(entry_of(plan[count - 1]))
    } else {
        last_entry(plan, (count - 1) as nat, path)
    }
}

/// What a plan leaves on the modelled disk, where no conflict stops it: at
/// each path the entry of the last operation that goes there, and what was
/// there before where none does.
pub proof fn applied_leaves_last(disk: Disk, plan: Seq<OpView>, count: nat, path: Seq<char>)
    requires
        count <= plan.len(),
        applied(disk, plan, count).failure is None,
    ensures
        match last_entry(plan, count, path) {
            Some(entry) => applied(disk, plan, count).disk.contains_key(path) && applied(
                disk,
                plan,
                count,
            ).disk[path] == entry,
            None => applied(disk, plan, count).disk.contains_key(path) == disk.contains_key(path)
                && applied(disk, plan, count).disk[path] == disk[path],
        },
    decreases count,
{
    if count > 0 {
        applied_leaves_last(disk, plan, (count - 1) as nat, path);
    }
}

/// Applying a plan a second time changes nothing more. If no two operations
/// of the plan undo each other, and the plan was applied to a disk without
/// conflict, then applying it again to the disk that the first run left, with
/// nothing else having touched that disk, meets no conflict either, finds
/// every link in place and reports it unchanged, writes every file anew with
/// the content it has (a write replaces, it does not add), and leaves the
/// disk exactly as the first run left it.
pub proof fn second_run_changes_nothing(disk: Disk, plan: Seq<OpView>)
    requires
        consistent(plan),
        applied(disk, plan, plan.len()).failure is None,
    ensures
        ({
            let first = applied(disk, plan, plan.len());
            let second = applied(first.disk, plan, plan.len());
            &&& second.failure is None
            &&& second.disk == first.disk
            &&& second.results.len() == plan.len()
            &&& forall|i: int|
                0 <= i < plan.len() ==> (#[trigger] second.results[i]) == (match plan[i] {
                    OpView::WriteFile { .. } => dry_result(plan[i]),
                    OpView::Symlink { dst, .. } => OpResultView::SymlinkUnchanged { dst },
                })
        }),
{
    let first = applied(disk, plan, plan.len());
    first_run_puts_in_place(disk, plan, plan.len());
    assert(plan.take(plan.len() as int) =~= plan);
    second_run_keeps(first.disk, plan, plan.len());
    let second = applied(first.disk, plan, plan.len());
    assert forall|path: Seq<char>| #[trigger]
        second.disk.dom().contains(path) == first.disk.dom().contains(path) by {
        applied_leaves_last(disk, plan, plan.len(), path);
        applied_leaves_last(first.disk, plan, plan.len(), path);
    }
    assert forall|path: Seq<char>| second.disk.dom().contains(path) implies #[trigger]
        second.disk[path] == first.disk[path] by {
        applied_leaves_last(disk, plan, plan.len(), path);
        applied_leaves_last(first.disk, plan, plan.len(), path);
    }
    assert(second.disk =~= first.disk);
}

/// The same, said of the run itself: a run that is driven to its end on the
/// modelled disk without failing, and then driven once more from the start
/// on the disk it left, does not fail, reports every link as unchanged and
/// every file as written, and leaves the disk as it found it.
pub proof fn second_drive_changes_nothing(disk: Disk, plan: Seq<OpView>, steps: nat)
    requires
        consistent(plan),
        steps >= 2 * plan.len(),
        driven(ExecutionView::start(plan), disk, steps).0.failure is None,
    ensures
        ({
            let first = driven(ExecutionView::start(plan), disk, steps);
            let second = driven(ExecutionView::start(plan), first.1, steps);
            &&& second.0.over()
            &&& second.0.failure is None
            &&& second.1 == first.1
            &&& second.0.results.len() == plan.len()
            &&& forall|i: int|
                0 <= i < plan.len() ==> (#[trigger] second.0.results[i]) == (match plan[i] {
                    OpView::WriteFile { .. } => dry_result(plan[i]),
                    OpView::Symlink { dst, .. } => OpResultView::SymlinkUnchanged { dst },
                })
        }),
{
    driven_is_applied(disk, plan, 0, steps);
    let first = applied(disk, plan, plan.len());
    driven_is_applied(first.disk, plan, 0, steps);
    second_run_changes_nothing(disk, plan);
}

/// A link that is in place is kept: where the destination already is a link
/// to the source, the run asks for no command, reports the link unchanged
/// and goes on to the next operation.
pub proof fn link_in_place_is_kept(state: ExecutionView, src: Seq<char>, dst: Seq<char>)
    requires
        !state.over(),
        state.seen is None,
        state.plan[state.results.len() as int] == (OpView::Symlink { src, dst }),
    ensures
        pending(state) == (RequestView::Inspect { dst }),
        advanced(
            state,
            EventView::Inspected(DestinationView::Link { target: Some(src) }),
        ).results == state.results.push(OpResultView::SymlinkUnchanged { dst }),
        advanced(
            state,
            EventView::Inspected(DestinationView::Link { target: Some(src) }),
        ).failure is None,
{
}

/// Something that is not a link is never overwritten: where the destination
/// of a link is occupied, the run fails with the conflict error, and asks for
/// no command on the way.
pub proof fn occupied_destination_fails(state: ExecutionView, src: Seq<char>, dst: Seq<char>)
    requires
        !state.over(),
        state.seen is None,
        state.plan[state.results.len() as int] == (OpView::Symlink { src, dst }),
    ensures
        pending(state) == (RequestView::Inspect { dst }),
        advanced(state, EventView::Inspected(DestinationView::Occupied)).failure == Some(
            conflict(dst),
        ),
        advanced(state, EventView::Inspected(DestinationView::Occupied)).results == state.results,
        pending(advanced(state, EventView::Inspected(DestinationView::Occupied)))
            is Abort,
{
}

} // verus!
