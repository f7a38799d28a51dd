use crate::error::{Error, ErrorView, IoKind};
use crate::executor::dry_run::{dry_result, dry_run};
use crate::executor::{byte_len, ExecutionReport, Mode, OpResult, OpResultView, ReportView};
use crate::paths::{parent, parent_of};
use crate::plan::{Op, OpView};
use crate::text::same_text;
use vstd::prelude::*;
use vstd::string::*;

verus! {

/// What was found where a link is to be made.
#[derive(Debug)]
pub enum Destination {
    /// Nothing is there.
    Vacant,
    /// Something is there that is not a symbolic link.
    Occupied,
    /// A symbolic link is there. `target` is where it points, or `None`
    /// where that could not be read.
    Link { target: Option<String> },
    /// A symbolic link is there whose target is not text, and so is none
    /// that a plan can name.
    ForeignLink,
}

/// The mathematical value of a [`Destination`].
pub ghost enum DestinationView {
    Vacant,
    Occupied,
    Link { target: Option<Seq<char>> },
    ForeignLink,
}

impl View for Destination {
    type V = DestinationView;

    open spec fn view(&self) -> DestinationView {
        match *self {
            Destination::Vacant => DestinationView::Vacant,
            Destination::Occupied => DestinationView::Occupied,
            Destination::Link { target: Some(t) } => DestinationView::Link { target: Some(t@) },
            Destination::Link { target: None } => DestinationView::Link { target: None },
            Destination::ForeignLink => DestinationView::ForeignLink,
        }
    }
}

/// What is to be done about a link, given what stands at its destination.
#[derive(Debug, Clone, Copy, PartialEq, Eq, Structural)]
pub enum Verdict {
    /// The link is in place already: nothing is written.
    Keep,
    /// Something that is not a link is in the way: the run stops.
    Conflict,
    /// A link to another place is there: it is removed, then the link is
    /// made.
    Replace,
    /// The link is made.
    Create,
}

/// The rule for links. A link that points exactly at `src` is kept. A link
/// that points elsewhere is replaced, and so is one whose target is not
/// text. Anything that is not a link is a conflict and is never
/// overwritten. Where nothing is there the link is made; so it is where a
/// link is there whose target cannot be read, without removing it first.
pub open spec fn verdict(src: Seq<char>, seen: DestinationView) -> Verdict {
    match seen {
        DestinationView::Vacant => Verdict::Create,
        DestinationView::Occupied => Verdict::Conflict,
        DestinationView::Link { target: Some(t) } => if t == src {
            Verdict::Keep
        } else {
            Verdict::Replace
        },
        DestinationView::Link { target: None } => Verdict::Create,
        DestinationView::ForeignLink => Verdict::Replace,
    }
}

/// Decides what is to be done about a link to `src`, given what was found
/// at its destination.
pub fn decide(src: &str, seen: &Destination) -> (outcome: Verdict)
    ensures
        outcome == verdict(src@, seen@),
{
    match seen {
        Destination::Vacant => Verdict::Create,
        Destination::Occupied => Verdict::Conflict,
        Destination::Link { target: Some(t) } => if same_text(t.as_str(), src) {
            Verdict::Keep
        } else {
            Verdict::Replace
        },
        Destination::Link { target: None } => Verdict::Create,
        Destination::ForeignLink => Verdict::Replace,
    }
}

/// One change that the filesystem is asked to make.
#[derive(Debug)]
pub enum Command {
    /// Create the directory `dir` and every missing directory above it.
    CreateDirs { dir: String },
    /// Write `content` to `path`, replacing what the file held.
    Write { path: String, content: String },
    /// Remove the entry at `path`.
    Remove { path: String },
    /// Make `dst` a symbolic link to `src`.
    Link { src: String, dst: String },
}

/// The mathematical value of a [`Command`].
pub ghost enum CommandView {
    CreateDirs { dir: Seq<char> },
    Write { path: Seq<char>, content: Seq<char> },
    Remove { path: Seq<char> },
    Link { src: Seq<char>, dst: Seq<char> },
}

impl View for Command {
    type V = CommandView;

    open spec fn view(&self) -> CommandView {
        match *self {
            Command::CreateDirs { dir } => CommandView::CreateDirs { dir: dir@ },
            Command::Write { path, content } => CommandView::Write {
                path: path@,
                content: content@,
            },
            Command::Remove { path } => CommandView::Remove { path: path@ },
            Command::Link { src, dst } => CommandView::Link { src: src@, dst: dst@ },
        }
    }
}

impl DeepView for Command {
    type V = CommandView;

    open spec fn deep_view(&self) -> CommandView {
        self@
    }
}

impl PartialEq for Command {
    fn eq(&self, other: &Command) -> (same: bool) {
        match (self, other) {
            (Command::CreateDirs { dir: a }, Command::CreateDirs { dir: b }) => *a == *b,
            (
                Command::Write { path: p1, content: c1 },
                Command::Write { path: p2, content: c2 },
            ) => *p1 == *p2 && *c1 == *c2,
            (Command::Remove { path: a }, Command::Remove { path: b }) => *a == *b,
            (Command::Link { src: s1, dst: d1 }, Command::Link { src: s2, dst: d2 }) => *s1 == *s2
                && *d1 == *d2,
            _ => false,
        }
    }
}

impl vstd::std_specs::cmp::PartialEqSpecImpl for Command {
    open spec fn obeys_eq_spec() -> bool {
        true
    }

    open spec fn eq_spec(&self, other: &Command) -> bool {
        self@ == other@
    }
}

/// What the caller is asked to do next.
#[derive(Debug)]
pub enum Request {
    /// Find out what stands at `dst` and answer with [`Event::Inspected`].
    Inspect { dst: String },
    /// Carry out the commands in order and stop at the first that fails.
    /// Answer with [`Event::Performed`] when all are done, or with
    /// [`Event::Failed`].
    Perform { commands: Vec<Command> },
    /// Every operation is accounted for: nothing is left to do.
    Finish,
    /// The run has failed: nothing more is to be done.
    Abort { error: Error },
}

/// The mathematical value of a [`Request`].
pub ghost enum RequestView {
    Inspect { dst: Seq<char> },
    Perform { commands: Seq<CommandView> },
    Finish,
    Abort { error: ErrorView },
}

impl View for Request {
    type V = RequestView;

    open spec fn view(&self) -> RequestView {
        match *self {
            Request::Inspect { dst } => RequestView::Inspect { dst: dst@ },
            Request::Perform { commands } => RequestView::Perform {
                commands: commands.deep_view(),
            },
            Request::Finish => RequestView::Finish,
            Request::Abort { error } => RequestView::Abort { error: error@ },
        }
    }
}

/// What the caller reports back.
#[derive(Debug)]
pub enum Event {
    /// What was found at the destination asked about.
    Inspected(Destination),
    /// Every command asked for was carried out.
    Performed,
    /// The filesystem refused a command; the text says why.
    Failed(String),
}

/// The mathematical value of an [`Event`].
pub ghost enum EventView {
    Inspected(DestinationView),
    Performed,
    Failed(Seq<char>),
}

impl View for Event {
    type V = EventView;

    open spec fn view(&self) -> EventView {
        match *self {
            Event::Inspected(seen) => EventView::Inspected(seen@),
            Event::Performed => EventView::Performed,
            Event::Failed(message) => EventView::Failed(message@),
        }
    }
}

/// `then`, after a command that creates the directory `dir`, where there
/// is one.
pub open spec fn with_directory(dir: Option<Seq<char>>, then: CommandView) -> Seq<CommandView> {
    match dir {
        Some(dir) => seq![CommandView::CreateDirs { dir }, then],
        None => seq![then],
    }
}

/// `then`, after a command that creates the directory holding `path`, where
/// the path has one.
pub open spec fn in_directory(path: Seq<char>, then: CommandView) -> Seq<CommandView> {
    with_directory(parent_of(path), then)
}

/// The commands that write a file: its directory is created, then the
/// content is written in full.
pub open spec fn write_commands(path: Seq<char>, content: Seq<char>) -> Seq<CommandView> {
    in_directory(path, CommandView::Write { path, content })
}

/// The commands that make a link, given what was found at its destination:
/// a link that points elsewhere is removed first; then the directory is
/// created and the link made.
pub open spec fn link_commands(src: Seq<char>, dst: Seq<char>, seen: DestinationView) -> Seq<
    CommandView,
> {
    let make = in_directory(dst, CommandView::Link { src, dst });
    if verdict(src, seen) == Verdict::Replace {
        seq![CommandView::Remove { path: dst }] + make
    } else {
        make
    }
}

/// The error for a destination that is occupied by something other than a
/// link.
pub open spec fn conflict(dst: Seq<char>) -> ErrorView {
    ErrorView::Io {
        kind: IoKind::AlreadyExists,
        message: "target "@ + dst + " exists and is not a symlink"@,
    }
}

/// The error for a command that the filesystem refused.
pub open spec fn refused(message: Seq<char>) -> ErrorView {
    ErrorView::Io { kind: IoKind::Other, message }
}

/// Whether `result` is a fitting account of `op`: a write is reported as
/// written, with the length of its content; a link as created or as
/// unchanged, at its own destination.
pub open spec fn answers(result: OpResultView, op: OpView) -> bool {
    match op {
        OpView::WriteFile { path, content } => result == (OpResultView::FileWritten {
            path,
            bytes: byte_len(content),
        }),
        OpView::Symlink { src, dst } => result == (OpResultView::SymlinkCreated { src, dst })
            || result == (OpResultView::SymlinkUnchanged { dst }),
    }
}

/// The state of a run, as a mathematical value.
pub ghost struct ExecutionView {
    /// The mode of the run.
    pub mode: Mode,
    /// The operations, in the order in which the script declared them.
    pub plan: Seq<OpView>,
    /// The results so far: one for each operation that is done, in the
    /// plan's order.
    pub results: Seq<OpResultView>,
    /// What was found at the destination of the link that is being made.
    pub seen: Option<DestinationView>,
    /// Why the run stopped, once it has failed.
    pub failure: Option<ErrorView>,
}

impl ExecutionView {
    /// The state from which a plan is applied: nothing done yet.
    pub open spec fn start(plan: Seq<OpView>) -> ExecutionView {
        ExecutionView { mode: Mode::Apply, plan, results: Seq::empty(), seen: None, failure: None }
    }

    /// The state of a dry run: every operation is reported at once, as
    /// [`dry_result`] gives it, and nothing is left to do.
    pub open spec fn rehearsed(plan: Seq<OpView>) -> ExecutionView {
        ExecutionView {
            mode: Mode::DryRun,
            plan,
            results: plan.map_values(|op: OpView| dry_result(op)),
            seen: None,
            failure: None,
        }
    }

    /// What every state of a run satisfies. There is a result for each of the
    /// first operations of the plan and for no other, and each result
    /// answers the operation at its own position. A destination is
    /// remembered only for a link that is about to be made.
    pub open spec fn wf(self) -> bool {
        &&& self.results.len() <= self.plan.len()
        &&& forall|i: int|
            0 <= i < self.results.len() ==> answers(#[trigger] self.results[i], self.plan[i])
        &&& self.seen matches Some(seen) ==> {
            &&& self.failure is None
            &&& self.results.len() < self.plan.len()
            &&& self.plan[self.results.len() as int] matches OpView::Symlink { src, .. }
            &&& (verdict(src, seen) == Verdict::Replace || verdict(src, seen) == Verdict::Create)
        }
    }

    /// Whether the run is over, with a report or with an error.
    pub open spec fn over(self) -> bool {
        self.failure is Some || self.results.len() >= self.plan.len()
    }

    /// The report of the results so far.
    pub open spec fn report(self) -> ReportView {
        ReportView { mode: self.mode, results: self.results }
    }
}

/// What a run asks of its caller in a given state. A failed run asks for
/// nothing but to stop, and so does one that has a result for every
/// operation. Otherwise the first operation without a result decides: a
/// write asks for its commands; a link asks first what stands at its
/// destination and then, once that is known, for its commands.
pub open spec fn pending(state: ExecutionView) -> RequestView {
    if let Some(error) = state.failure {
        RequestView::Abort { error }
    } else if state.results.len() >= state.plan.len() {
        RequestView::Finish
    } else {
        match state.plan[state.results.len() as int] {
            OpView::WriteFile { path, content } => RequestView::Perform {
                commands: write_commands(path, content),
            },
            OpView::Symlink { src, dst } => match state.seen {
                None => RequestView::Inspect { dst },
                Some(seen) => RequestView::Perform { commands: link_commands(src, dst, seen) },
            },
        }
    }
}

/// The state with the current operation accounted for by `result`.
pub open spec fn with_result(state: ExecutionView, result: OpResultView) -> ExecutionView {
    ExecutionView { results: state.results.push(result), seen: None, ..state }
}

/// The state of a run that has failed with `error`.
pub open spec fn with_failure(state: ExecutionView, error: ErrorView) -> ExecutionView {
    ExecutionView { seen: None, failure: Some(error), ..state }
}

/// The state that follows `state` when the caller reports `event`.
///
/// A run that is over stays as it is. A refusal fails the run at once, and
/// the results so far stay: there is no going back. The answer to an
/// inspection is judged by [`verdict`]: a link in place gives the result
/// `SymlinkUnchanged` with nothing written, a conflict fails the run, and
/// otherwise the destination is remembered for the commands to come. When
/// the commands are done the operation has its result: `FileWritten` or
/// `SymlinkCreated`. An event that does not answer the pending request
/// changes nothing.
pub open spec fn advanced(state: ExecutionView, event: EventView) -> ExecutionView {
    if state.over() {
        state
    } else {
        let op = state.plan[state.results.len() as int];
        match (pending(state), event) {
            (_, EventView::Failed(message)) => with_failure(state, refused(message)),
            (RequestView::Inspect { dst }, EventView::Inspected(seen)) => match verdict(
                op->src,
                seen,
            ) {
                Verdict::Keep => with_result(state, OpResultView::SymlinkUnchanged { dst }),
                Verdict::Conflict => with_failure(state, conflict(dst)),
                _ => ExecutionView { seen: Some(seen), ..state },
            },
            (RequestView::Perform { .. }, EventView::Performed) => with_result(
                state,
                dry_result(op),
            ),
            _ => state,
        }
    }
}

/// Every step keeps a state well formed.
pub proof fn advanced_keeps_wf(state: ExecutionView, event: EventView)
    requires
        state.wf(),
    ensures
        advanced(state, event).wf(),
        advanced(state, event).plan == state.plan,
        advanced(state, event).mode == state.mode,
{
}

/// A run in progress: the plan, the results so far, and what the run is
/// waiting for. The caller holds the filesystem; the run tells it what to
/// do ([`Execution::request`]) and is told what came of it
/// ([`Execution::advance`]).
#[derive(Debug)]
pub struct Execution {
    mode: Mode,
    ops: Vec<Op>,
    results: Vec<OpResult>,
    seen: Option<Destination>,
    failure: Option<Error>,
}

impl View for Execution {
    type V = ExecutionView;

    closed spec fn view(&self) -> ExecutionView {
        ExecutionView {
            mode: self.mode,
            plan: self.ops.deep_view(),
            results: self.results.deep_view(),
            seen: match self.seen {
                Some(seen) => Some(seen@),
                None => None,
            },
            failure: match self.failure {
                Some(error) => Some(error@),
                None => None,
            },
        }
    }
}

/// Builds the text of the error for an occupied destination.
fn conflict_error(dst: &str) -> (error: Error)
    ensures
        error@ == conflict(dst@),
{
    let mut message = String::from_str("target ");
    message.append(dst);
    message.append(" exists and is not a symlink");
    Error::io(IoKind::AlreadyExists, message)
}

/// Puts the command that creates the directory `dir`, where there is one,
/// and then the command `then`, behind the commands given.
pub fn push_with_directory(commands: &mut Vec<Command>, dir: Option<String>, then: Command)
    ensures
        final(commands).deep_view() == old(commands).deep_view() + with_directory(
            crate::runtime::text_of(dir),
            then@,
        ),
{
    match dir {
        Some(dir) => {
            commands.push(Command::CreateDirs { dir });
        },
        None => {},
    }
    commands.push(then);
    assert(commands.deep_view() =~= old(commands).deep_view() + with_directory(
        crate::runtime::text_of(dir),
        then@,
    ));
}

/// Puts the command that creates the directory holding `path`, where the
/// path has one, and then the command `then`, behind the commands given.
fn push_in_directory(commands: &mut Vec<Command>, path: &str, then: Command)
    ensures
        final(commands).deep_view() == old(commands).deep_view() + in_directory(path@, then@),
{
    push_with_directory(commands, parent(path), then);
}

impl Execution {
    /// A run that is about to apply `ops`, with nothing done yet.
    pub fn begin(ops: Vec<Op>) -> (run: Execution)
        ensures
            run@ == ExecutionView::start(ops.deep_view()),
            run@.wf(),
    {
        let run = Execution { mode: Mode::Apply, ops, results: Vec::new(), seen: None, failure: None };
        assert(run.results.deep_view() =~= Seq::empty());
        run
    }

    /// Whether the run is over: it has failed, or every operation has its
    /// result.
    pub fn is_over(&self) -> (over: bool)
        ensures
            over == self@.over(),
    {
        self.failure.is_some() || self.results.len() >= self.ops.len()
    }

    /// What the caller is to do next.
    pub fn request(&self) -> (request: Request)
        ensures
            request@ == pending(self@),
    {
        if let Some(error) = &self.failure {
            return Request::Abort { error: error.clone() };
        }
        let done = self.results.len();
        if done >= self.ops.len() {
            return Request::Finish;
        }
        let mut commands: Vec<Command> = Vec::new();
        assert(commands.deep_view() =~= Seq::empty());
        assert(self.ops.deep_view()[done as int] == self.ops[done as int]@);
        match &self.ops[done] {
            Op::WriteFile { path, content } => {
                push_in_directory(
                    &mut commands,
                    path.as_str(),
                    Command::Write { path: path.clone(), content: content.clone() },
                );
            },
            Op::Symlink { src, dst } => {
                match &self.seen {
                    None => {
                        return Request::Inspect { dst: dst.clone() };
                    },
                    Some(seen) => {
                        if decide(src.as_str(), seen) == Verdict::Replace {
                            commands.push(Command::Remove { path: dst.clone() });
                            assert(commands.deep_view() =~= seq![
                                CommandView::Remove { path: dst@ },
                            ]);
                        }
                        push_in_directory(
                            &mut commands,
                            dst.as_str(),
                            Command::Link { src: src.clone(), dst: dst.clone() },
                        );
                    },
                }
            },
        }
        Request::Perform { commands }
    }

    /// Takes in what the caller reports and moves the run on.
    pub fn advance(&mut self, event: Event)
        ensures
            final(self)@ == advanced(old(self)@, event@),
            old(self)@.wf() ==> final(self)@.wf(),
    {
        proof {
            if self@.wf() {
                advanced_keeps_wf(self@, event@);
            }
        }
        if self.is_over() {
            return ;
        }
        let done = self.results.len();
        assert(self.ops.deep_view()[done as int] == self.ops[done as int]@);
        let ghost before = self@;
        match event {
            Event::Failed(message) => {
                self.seen = None;
                self.failure = Some(Error::io(IoKind::Other, message));
            },
            Event::Inspected(seen) => {
                match &self.ops[done] {
                    Op::Symlink { src, dst } => {
                        if self.seen.is_none() {
                            match decide(src.as_str(), &seen) {
                                Verdict::Keep => {
                                    let result = OpResult::SymlinkUnchanged { dst: dst.clone() };
                                    self.results.push(result);
                                    assert(self.results.deep_view() =~= before.results.push(
                                        result@,
                                    ));
                                },
                                Verdict::Conflict => {
                                    self.failure = Some(conflict_error(dst.as_str()));
                                },
                                _ => {
                                    self.seen = Some(seen);
                                },
                            }
                        }
                    },
                    Op::WriteFile { .. } => {},
                }
            },
            Event::Performed => {
                let result = match &self.ops[done] {
                    Op::WriteFile { path, content } => Some(
                        OpResult::FileWritten {
                            path: path.clone(),
                            bytes: content.as_str().as_bytes().len(),
                        },
                    ),
                    Op::Symlink { src, dst } => if self.seen.is_some() {
                        Some(OpResult::SymlinkCreated { src: src.clone(), dst: dst.clone() })
                    } else {
                        None
                    },
                };
                if let Some(result) = result {
                    self.seen = None;
                    self.results.push(result);
                    assert(self.results.deep_view() =~= before.results.push(result@));
                }
            },
        }
    }

    /// Ends the run: the error if it has failed, else the report of the
    /// results so far. Once the run is over the report is complete: it has
    /// one result for each operation of the plan, in the plan's order.
    pub fn into_report(self) -> (outcome: Result<ExecutionReport, Error>)
        ensures
            match outcome {
                Ok(report) => self@.failure is None && report@ == self@.report(),
                Err(error) => self@.failure == Some(error@),
            },
            self@.wf() && self@.over() ==> (outcome matches Ok(report) ==> {
                &&& report@.results.len() == self@.plan.len()
                &&& forall|i: int|
                    0 <= i < self@.plan.len() ==> answers(
                        #[trigger] report@.results[i],
                        self@.plan[i],
                    )
            }),
    {
        match self.failure {
            Some(error) => Err(error),
            None => Ok(ExecutionReport { mode: self.mode, results: self.results }),
        }
    }
}

/// Begins to apply a plan. Nothing has been done yet: the caller drives the
/// run by [`Execution::request`] and [`Execution::advance`] until it is
/// over.
pub fn apply(ops: &[Op]) -> (run: Execution)
    ensures
        run@ == ExecutionView::start(ops.deep_view()),
        run@.wf(),
{
    let mut plan: Vec<Op> = Vec::new();
    let mut i: usize = 0;
    while i < ops.len()
        invariant
            i <= ops.len(),
            plan.len() == i,
            forall|k: int| 0 <= k < i ==> (#[trigger] plan[k])@ == ops[k]@,
        decreases ops.len() - i,
    {
        plan.push(ops[i].clone());
        i += 1;
    }
    assert(plan.deep_view() =~= ops.deep_view());
    Execution::begin(plan)
}

/// Carries out what a script has declared, in the given mode. To apply, the
/// run starts with nothing done and asks its caller for each step. A dry run
/// is over at once, with the report of [`dry_run`], and asks for nothing.
pub fn execute(ops: Vec<Op>, mode: Mode) -> (run: Execution)
    ensures
        run@ == match mode {
            Mode::Apply => ExecutionView::start(ops.deep_view()),
            Mode::DryRun => ExecutionView::rehearsed(ops.deep_view()),
        },
        run@.wf(),
{
    match mode {
        Mode::Apply => Execution::begin(ops),
        Mode::DryRun => {
            let report = dry_run(ops.as_slice());
            Execution { mode: Mode::DryRun, ops, results: report.results, seen: None, failure: None }
        },
    }
}

} // verus!
