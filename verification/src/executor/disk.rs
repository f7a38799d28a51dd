use crate::error::ErrorView;
use crate::executor::apply::{
    advanced, conflict, in_directory, link_commands, pending, verdict, CommandView,
    DestinationView, EventView, ExecutionView, RequestView, Verdict,
};
use crate::executor::dry_run::dry_result;
use crate::executor::{Mode, OpResultView};
use crate::paths::parent_of;
use crate::plan::OpView;
use vstd::prelude::*;

verus! {

/// What a path names on the modelled disk.
pub ghost enum Entry {
    /// Anything that is not a symbolic link, with the text it holds.
    File { content: Seq<char> },
    /// A symbolic link and where it points.
    Link { target: Seq<char> },
}

/// A model of the filesystem, against which the rules of a run are stated:
/// the entries that the paths name. Each path stands for itself: no path is
/// reached through another, directories are not kept track of, and the disk
/// refuses nothing. A run on a real filesystem is described by this model as
/// far as these hold of it.
pub type Disk = Map<Seq<char>, Entry>;

/// What an inspection of `path` reports on the modelled disk.
pub open spec fn found(disk: Disk, path: Seq<char>) -> DestinationView {
    if !disk.contains_key(path) {
        DestinationView::Vacant
    } else {
        match disk[path] {
            Entry::Link { target } => DestinationView::Link { target: Some(target) },
            Entry::File { .. } => DestinationView::Occupied,
        }
    }
}

/// The modelled disk after one command.
pub open spec fn after(disk: Disk, command: CommandView) -> Disk {
    match command {
        CommandView::CreateDirs { .. } => disk,
        CommandView::Write { path, content } => disk.insert(path, Entry::File { content }),
        CommandView::Remove { path } => disk.remove(path),
        CommandView::Link { src, dst } => disk.insert(dst, Entry::Link { target: src }),
    }
}

/// The modelled disk after the commands, carried out in order.
pub open spec fn after_all(disk: Disk, commands: Seq<CommandView>) -> Disk
    decreases commands.len(),
{
    if commands.len() == 0 {
        disk
    } else {
        after_all(after(disk, commands[0]), commands.drop_first())
    }
}

/// How the modelled disk answers a request: the disk afterwards, and the
/// event reported.
pub open spec fn answer(disk: Disk, request: RequestView) -> (Disk, EventView) {
    match request {
        RequestView::Inspect { dst } => (disk, EventView::Inspected(found(disk, dst))),
        RequestView::Perform { commands } => (after_all(disk, commands), EventView::Performed),
        _ => (disk, EventView::Performed),
    }
}

/// A run driven on the modelled disk for at most `steps` requests: the state
/// of the run and the disk at the end.
pub open spec fn driven(state: ExecutionView, disk: Disk, steps: nat) -> (ExecutionView, Disk)
    decreases steps,
{
    if steps == 0 || state.over() {
        (state, disk)
    } else {
        let (next, event) = answer(disk, pending(state));
        driven(advanced(state, event), next, (steps - 1) as nat)
    }
}

/// The entry that an operation leaves at its target.
pub open spec fn entry_of(op: OpView) -> Entry {
    match op {
        OpView::WriteFile { content, .. } => Entry::File { content },
        OpView::Symlink { src, .. } => Entry::Link { target: src },
    }
}

/// Where a plan stands on the modelled disk after some of its operations.
pub ghost struct Applied {
    /// The disk as the operations left it.
    pub disk: Disk,
    /// One result for each operation that was carried out.
    pub results: Seq<OpResultView>,
    /// The conflict that stopped the plan, if one did.
    pub failure: Option<ErrorView>,
}

/// One operation on the modelled disk. A write sets the file's content. A
/// link is judged by [`verdict`]: kept, made, or, where something that is not
/// a link is in its way, refused, and then the disk stays as it is.
pub open spec fn op_applied(before: Applied, op: OpView) -> Applied {
    match op {
        OpView::WriteFile { path, .. } => Applied {
            disk: before.disk.insert(path, entry_of(op)),
            results: before.results.push(dry_result(op)),
            failure: None,
        },
        OpView::Symlink { src, dst } => match verdict(src, found(before.disk, dst)) {
            Verdict::Keep => Applied {
                disk: before.disk,
                results: before.results.push(OpResultView::SymlinkUnchanged { dst }),
                failure: None,
            },
            Verdict::Conflict => Applied { failure: Some(conflict(dst)), ..before },
            _ => Applied {
                disk: before.disk.insert(dst, entry_of(op)),
                results: before.results.push(dry_result(op)),
                failure: None,
            },
        },
    }
}

/// The first `count` operations of `plan` on the modelled disk, in order.
/// After a conflict nothing more is done.
pub open spec fn applied(disk: Disk, plan: Seq<OpView>, count: nat) -> Applied
    decreases count,
{
    if count == 0 {
        Applied { disk, results: Seq::empty(), failure: None }
    } else {
        let before = applied(disk, plan, (count - 1) as nat);
        if before.failure is Some {
            before
        } else {
            op_applied(before, plan[count - 1])
        }
    }
}

/// The state of a run that stands where `so_far` does.
pub open spec fn state_at(plan: Seq<OpView>, so_far: Applied) -> ExecutionView {
    ExecutionView {
        mode: Mode::Apply,
        plan,
        results: so_far.results,
        seen: None,
        failure: so_far.failure,
    }
}

proof fn after_in_directory(disk: Disk, path: Seq<char>, then: CommandView)
    ensures
        after_all(disk, in_directory(path, then)) == after(disk, then),
{
    reveal_with_fuel(after_all, 3);
    let commands = in_directory(path, then);
    match parent_of(path) {
        Some(dir) => {
            assert(commands.drop_first() =~= seq![then]);
            assert(seq![then].drop_first() =~= Seq::<CommandView>::empty());
        },
        None => {
            assert(commands.drop_first() =~= Seq::<CommandView>::empty());
        },
    }
}

proof fn after_link_commands(disk: Disk, src: Seq<char>, dst: Seq<char>, seen: DestinationView)
    ensures
        after_all(disk, link_commands(src, dst, seen)) == disk.insert(
            dst,
            Entry::Link { target: src },
        ),
{
    let make = in_directory(dst, CommandView::Link { src, dst });
    after_in_directory(disk, dst, CommandView::Link { src, dst });
    if verdict(src, seen) == Verdict::Replace {
        let all = seq![CommandView::Remove { path: dst }] + make;
        assert(all.drop_first() =~= make);
        after_in_directory(disk.remove(dst), dst, CommandView::Link { src, dst });
        assert(disk.remove(dst).insert(dst, Entry::Link { target: src }) =~= disk.insert(
            dst,
            Entry::Link { target: src },
        ));
    }
}

/// As long as no conflict has stopped it, a plan has one result for each
/// operation carried out.
pub proof fn applied_counts(disk: Disk, plan: Seq<OpView>, count: nat)
    requires
        count <= plan.len(),
    ensures
        applied(disk, plan, count).failure is None ==> applied(disk, plan, count).results.len()
            == count,
        applied(disk, plan, count).results.len() <= count,
    decreases count,
{
    if count > 0 {
        applied_counts(disk, plan, (count - 1) as nat);
    }
}

/// Once a conflict has stopped a plan, nothing more happens.
pub proof fn applied_stays_failed(disk: Disk, plan: Seq<OpView>, count: nat, later: nat)
    requires
        count <= later,
        applied(disk, plan, count).failure is Some,
    ensures
        applied(disk, plan, later) == applied(disk, plan, count),
    decreases later - count,
{
    if count < later {
        applied_stays_failed(disk, plan, count, (later - 1) as nat);
    }
}

/// A run that is driven on the modelled disk does to it what [`applied`]
/// says, operation by operation. Started where the first `count`
/// operations have left the run and the disk, and given two requests for
/// each operation that is left, the run ends where the whole plan leaves
/// them.
pub proof fn driven_is_applied(disk: Disk, plan: Seq<OpView>, count: nat, steps: nat)
    requires
        count <= plan.len(),
        steps >= 2 * (plan.len() - count),
    ensures
        driven(
            state_at(plan, applied(disk, plan, count)),
            applied(disk, plan, count).disk,
            steps,
        ) == (state_at(plan, applied(disk, plan, plan.len())), applied(disk, plan, plan.len()).disk),
        state_at(plan, applied(disk, plan, plan.len())).over(),
    decreases plan.len() - count,
{
    let here = applied(disk, plan, count);
    let state = state_at(plan, here);
    let end = applied(disk, plan, plan.len());
    applied_counts(disk, plan, count);
    applied_counts(disk, plan, plan.len());
    if here.failure is Some {
        applied_stays_failed(disk, plan, count, plan.len());
    } else if count == plan.len() {
    } else {
        let op = plan[count as int];
        let next = applied(disk, plan, count + 1);
        assert(next == op_applied(here, op));
        driven_is_applied(disk, plan, count + 1, (steps - 1) as nat);
        match op {
            OpView::WriteFile { path, content } => {
                after_in_directory(here.disk, path, CommandView::Write { path, content });
                assert(advanced(state, EventView::Performed) == state_at(plan, next));
            },
            OpView::Symlink { src, dst } => {
                let seen = found(here.disk, dst);
                let looked = advanced(state, EventView::Inspected(seen));
                match verdict(src, seen) {
                    Verdict::Keep => {
                        assert(looked == state_at(plan, next));
                    },
                    Verdict::Conflict => {
                        assert(looked == state_at(plan, next));
                    },
                    _ => {
                        after_link_commands(here.disk, src, dst, seen);
                        assert(pending(looked) == RequestView::Perform {
                            commands: link_commands(src, dst, seen),
                        });
                        assert(advanced(looked, EventView::Performed) == state_at(plan, next));
                        driven_is_applied(disk, plan, count + 1, (steps - 2) as nat);
                        assert(driven(state, here.disk, steps) == driven(
                            looked,
                            here.disk,
                            (steps - 1) as nat,
                        ));
                    },
                }
            },
        }
    }
}

} // verus!
