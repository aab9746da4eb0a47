//! One launch as a sequence of decisions.
//!
//! A launch asks its caller for one action at a time and is told what came
//! of it. From that it decides the next action: the mounts in order, the
//! control group and its ceilings, the child, the wait for its end with the
//! wall-clock deadline, the reading of the peak memory, and on every way out
//! the release of what was created, before the result is handed over.

use crate::config::{SandboxConfig, SandboxConfigView};
use crate::channel::{Reading, SetupFailure};
use crate::config::ConfigError;
use crate::error::{LaunchError, SetupError};
use crate::mount::{destinations_inside, plan, plan_of, steps_view, MountStep, MountStepView};
use crate::output::{kib_from_bytes, kib_of, output_of, SandboxOutput, Termination, Usage};
use vstd::prelude::*;

verus! {

/// Where a launch stands. Each phase but the last waits for the outcome of
/// the one action named with it.
#[derive(Debug, Clone, Copy, PartialEq, Eq, Structural)]
pub enum Phase {
    /// `Action::Mount` of the next step of the plan.
    Mounting,
    /// `Action::CreateCgroup`.
    CreatingCgroup,
    /// `Action::SetMemoryLimit`.
    LimitingMemory,
    /// `Action::SetPidsLimit`.
    LimitingPids,
    /// `Action::Spawn`.
    Spawning,
    /// `Action::AwaitExec`: the child exists and sets itself up.
    AwaitingExec,
    /// `Action::Wait` with the configured deadline: the program runs.
    Running,
    /// `Action::Kill`, after the deadline was reached.
    Killing,
    /// `Action::Wait` without a deadline, for the child that was killed.
    Reaping,
    /// `Action::Kill`, after a fault while the child was alive. Whatever
    /// comes of it, the child is waited for next.
    Aborting,
    /// `Action::Wait` without a deadline, for the child of a failed launch.
    /// Whatever comes of it, the release follows.
    Burying,
    /// `Action::ReadPeakMemory`.
    Harvesting,
    /// `Action::RemoveCgroup`. A release does not stop at a failure: whatever
    /// comes of the removal, the mounts are next.
    RemovingCgroup,
    /// `Action::Unmount` of the last mount that is still held. Whatever
    /// comes of it, the mount before it is next.
    Unmounting,
    /// The result was handed over; nothing is held any more.
    Done,
}

/// What the caller is asked to do next. A number names a step of the plan.
#[derive(Debug, Clone, Copy, PartialEq, Eq)]
pub enum Action {
    Mount(usize),
    CreateCgroup,
    /// Write the memory ceiling, in bytes.
    SetMemoryLimit(u64),
    /// Write the ceiling on the number of processes.
    SetPidsLimit(u32),
    /// Create the child, which sets itself up and starts the program.
    Spawn,
    /// Read the notification channel until the child closes or writes it.
    AwaitExec,
    /// Block until the child ends or, where one is given, until the deadline
    /// in milliseconds is reached.
    Wait { deadline: Option<u64> },
    Kill,
    ReadPeakMemory,
    RemoveCgroup,
    /// Unmount what this step of the plan mounted.
    Unmount(usize),
    /// Hand this result to whoever asked for the launch.
    Finish(Result<SandboxOutput, SetupError>),
}

/// What came of the action that was asked for.
#[derive(Debug, Clone, Copy, PartialEq, Eq, Structural)]
pub enum Event {
    /// The action was carried out.
    Completed,
    /// The action could not be carried out.
    Failed,
    /// The channel was closed without a message: the program has started.
    ExecStarted,
    /// The child sent a message: it failed before the program started.
    ChildSetupFailed(SetupFailure),
    /// The child ended and was reaped, with these times.
    Terminated(Termination, Usage),
    /// The deadline was reached while the child was still running.
    DeadlineReached,
    /// The peak memory of the control group, in bytes.
    PeakMemory(u64),
}

impl Event {
    /// The outcome of `Action::AwaitExec` that a reading of the notification
    /// channel stands for. Bytes that are no message count as a failure of
    /// the channel.
    pub open spec fn of_reading(reading: Reading) -> Event {
        match reading {
            Reading::Started => Event::ExecStarted,
            Reading::Failed(failure) => Event::ChildSetupFailed(failure),
            Reading::Malformed => Event::Failed,
        }
    }

    /// Turns what was read from the notification channel into the outcome
    /// of `Action::AwaitExec`.
    pub fn from_reading(reading: Reading) -> (event: Event)
        ensures
            event == Event::of_reading(reading),
    {
        match reading {
            Reading::Started => Event::ExecStarted,
            Reading::Failed(failure) => Event::ChildSetupFailed(failure),
            Reading::Malformed => Event::Failed,
        }
    }
}

/// The end of a child and the times measured for it.
#[derive(Debug, Clone, Copy, PartialEq, Eq, Structural)]
pub struct Reaped {
    pub end: Termination,
    pub usage: Usage,
}

/// The largest index below `below` of a step that creates a mount, or -1.
pub open spec fn top_mount(plan: Seq<MountStepView>, below: int) -> int
    decreases below,
{
    if below <= 0 {
        -1
    } else if plan[below - 1].creates_mount() {
        below - 1
    } else {
        top_mount(plan, below - 1)
    }
}

/// The state of a launch.
pub struct LaunchView {
    /// The mounts to make, in order.
    pub plan: Seq<MountStepView>,
    pub memory_limit: Option<u64>,
    pub pids_limit: Option<u32>,
    /// The wall-clock limit in milliseconds.
    pub deadline: Option<u64>,
    pub phase: Phase,
    /// The steps of the plan before this index were made and not yet undone.
    pub mounted: nat,
    /// The control group exists.
    pub cgroup: bool,
    /// The child's end, once it was reaped.
    pub reaped: Option<Reaped>,
    /// The result, once it is decided.
    pub verdict: Option<Result<SandboxOutput, SetupError>>,
}

impl LaunchView {
    /// The result that is handed over at the end.
    pub open spec fn outcome(self) -> Result<SandboxOutput, SetupError> {
        match self.verdict {
            Some(v) => v,
            None => Err(SetupError::UnexpectedEvent),
        }
    }

    /// Unmount the last mount that is still held; with none left, finish.
    pub open spec fn unmount_next(self) -> (LaunchView, Action) {
        let k = top_mount(self.plan, self.mounted as int);
        if k >= 0 {
            (
                LaunchView { phase: Phase::Unmounting, mounted: (k + 1) as nat, ..self },
                Action::Unmount(k as usize),
            )
        } else {
            (LaunchView { phase: Phase::Done, mounted: 0, ..self }, Action::Finish(self.outcome()))
        }
    }

    /// Release what is held: the control group first, then the mounts, the
    /// last one made first.
    pub open spec fn release(self) -> (LaunchView, Action) {
        if self.cgroup {
            (LaunchView { phase: Phase::RemovingCgroup, ..self }, Action::RemoveCgroup)
        } else {
            self.unmount_next()
        }
    }

    /// Give up with `error` while no child is alive.
    pub open spec fn fail(self, error: SetupError) -> (LaunchView, Action) {
        LaunchView { verdict: Some(Err(error)), ..self }.release()
    }

    /// Give up with `error` while the child is alive: it is killed first.
    pub open spec fn abort(self, error: SetupError) -> (LaunchView, Action) {
        (LaunchView { phase: Phase::Aborting, verdict: Some(Err(error)), ..self }, Action::Kill)
    }

    /// Give up with `error` after the child was killed: it is waited for.
    pub open spec fn bury(self, error: SetupError) -> (LaunchView, Action) {
        (
            LaunchView { phase: Phase::Burying, verdict: Some(Err(error)), ..self },
            Action::Wait { deadline: None },
        )
    }

    pub open spec fn spawn(self) -> (LaunchView, Action) {
        (LaunchView { phase: Phase::Spawning, ..self }, Action::Spawn)
    }

    /// Write the ceiling on processes where one is configured, then spawn.
    pub open spec fn limit_pids(self) -> (LaunchView, Action) {
        match self.pids_limit {
            Some(count) => (
                LaunchView { phase: Phase::LimitingPids, ..self },
                Action::SetPidsLimit(count),
            ),
            None => self.spawn(),
        }
    }

    /// Write the memory ceiling where one is configured, then go on.
    pub open spec fn limit_memory(self) -> (LaunchView, Action) {
        match self.memory_limit {
            Some(bytes) => (
                LaunchView { phase: Phase::LimitingMemory, ..self },
                Action::SetMemoryLimit(bytes),
            ),
            None => self.limit_pids(),
        }
    }

    /// Make the next mount of the plan; after the last, create the control
    /// group.
    pub open spec fn mount_next(self) -> (LaunchView, Action) {
        if self.mounted < self.plan.len() {
            (LaunchView { phase: Phase::Mounting, ..self }, Action::Mount(self.mounted as usize))
        } else {
            (LaunchView { phase: Phase::CreatingCgroup, ..self }, Action::CreateCgroup)
        }
    }

    /// The child was reaped: keep its end and read the peak memory.
    pub open spec fn harvest(self, end: Termination, usage: Usage) -> (LaunchView, Action) {
        (
            LaunchView { phase: Phase::Harvesting, reaped: Some(Reaped { end, usage }), ..self },
            Action::ReadPeakMemory,
        )
    }

    /// The peak is known: write the record and release.
    pub open spec fn conclude(self, bytes: u64) -> (LaunchView, Action) {
        match self.reaped {
            Some(r) => LaunchView {
                verdict: Some(Ok(output_of(r.end, r.usage, kib_of(bytes)))),
                ..self
            }.release(),
            None => self.fail(SetupError::UnexpectedEvent),
        }
    }

    /// The first state of a launch with this plan and these limits, and the
    /// first action.
    pub open spec fn begin(plan: Seq<MountStepView>, c: SandboxConfigView) -> (LaunchView, Action) {
        LaunchView {
            plan,
            memory_limit: c.cg_limit_memory,
            pids_limit: c.cg_limit_max_pids,
            deadline: c.real_time_limit,
            phase: Phase::Mounting,
            mounted: 0,
            cgroup: false,
            reaped: None,
            verdict: None,
        }.mount_next()
    }

    /// The state after `event`, and the action to take next.
    pub open spec fn next(self, event: Event) -> (LaunchView, Action) {
        match self.phase {
            Phase::Mounting => match event {
                Event::Completed => LaunchView { mounted: self.mounted + 1, ..self }.mount_next(),
                Event::Failed => self.fail(SetupError::MountFailed),
                _ => self.fail(SetupError::UnexpectedEvent),
            },
            Phase::CreatingCgroup => match event {
                Event::Completed => LaunchView { cgroup: true, ..self }.limit_memory(),
                Event::Failed => self.fail(SetupError::CgroupFailed),
                _ => self.fail(SetupError::UnexpectedEvent),
            },
            Phase::LimitingMemory => match event {
                Event::Completed => self.limit_pids(),
                Event::Failed => self.fail(SetupError::CgroupFailed),
                _ => self.fail(SetupError::UnexpectedEvent),
            },
            Phase::LimitingPids => match event {
                Event::Completed => self.spawn(),
                Event::Failed => self.fail(SetupError::CgroupFailed),
                _ => self.fail(SetupError::UnexpectedEvent),
            },
            Phase::Spawning => match event {
                Event::Completed => (
                    LaunchView { phase: Phase::AwaitingExec, ..self },
                    Action::AwaitExec,
                ),
                Event::Failed => self.fail(SetupError::SpawnFailed),
                _ => self.fail(SetupError::UnexpectedEvent),
            },
            Phase::AwaitingExec => match event {
                Event::ExecStarted => (
                    LaunchView { phase: Phase::Running, ..self },
                    Action::Wait { deadline: self.deadline },
                ),
                Event::ChildSetupFailed(failure) => self.fail(SetupError::ChildSetupFailed(failure)),
                Event::Failed => self.abort(SetupError::ChannelBroken),
                _ => self.abort(SetupError::UnexpectedEvent),
            },
            Phase::Running => match event {
                Event::Terminated(end, usage) => self.harvest(end, usage),
                Event::DeadlineReached => if self.deadline is Some {
                    (LaunchView { phase: Phase::Killing, ..self }, Action::Kill)
                } else {
                    self.abort(SetupError::UnexpectedEvent)
                },
                Event::Failed => self.abort(SetupError::ReapFailed),
                _ => self.abort(SetupError::UnexpectedEvent),
            },
            Phase::Killing => match event {
                Event::Completed | Event::Failed => (
                    LaunchView { phase: Phase::Reaping, ..self },
                    Action::Wait { deadline: None },
                ),
                _ => self.bury(SetupError::UnexpectedEvent),
            },
            Phase::Reaping => match event {
                Event::Terminated(end, usage) => self.harvest(end, usage),
                Event::Failed => self.fail(SetupError::ReapFailed),
                _ => self.fail(SetupError::UnexpectedEvent),
            },
            Phase::Aborting => (
                LaunchView { phase: Phase::Burying, ..self },
                Action::Wait { deadline: None },
            ),
            Phase::Burying => self.release(),
            Phase::Harvesting => match event {
                Event::PeakMemory(bytes) => self.conclude(bytes),
                Event::Failed => self.fail(SetupError::AccountingFailed),
                _ => self.fail(SetupError::UnexpectedEvent),
            },
            Phase::RemovingCgroup => LaunchView { cgroup: false, ..self }.unmount_next(),
            Phase::Unmounting => LaunchView {
                mounted: (self.mounted - 1) as nat,
                ..self
            }.unmount_next(),
            Phase::Done => (self, Action::Finish(self.outcome())),
        }
    }

    /// The control group exists in exactly the phases between its creation
    /// and its removal.
    pub open spec fn cgroup_expected(self) -> bool {
        match self.phase {
            Phase::Mounting | Phase::CreatingCgroup | Phase::Unmounting | Phase::Done => false,
            _ => true,
        }
    }

    /// The result is decided in exactly the phases of giving up and of
    /// release.
    pub open spec fn verdict_expected(self) -> bool {
        match self.phase {
            Phase::Aborting | Phase::Burying | Phase::RemovingCgroup | Phase::Unmounting
            | Phase::Done => true,
            _ => false,
        }
    }

    /// What holds of every state that a launch passes through.
    pub open spec fn wf(self) -> bool {
        &&& self.mounted <= self.plan.len() <= usize::MAX
        &&& self.phase is Mounting ==> self.mounted < self.plan.len()
        &&& self.phase is Unmounting ==> self.mounted > 0 && self.plan[self.mounted
            - 1].creates_mount()
        &&& self.phase is Done ==> self.mounted == 0
        &&& self.cgroup == self.cgroup_expected()
        &&& self.verdict is Some == self.verdict_expected()
        &&& self.phase is Harvesting ==> self.reaped is Some
        &&& self.verdict matches Some(Ok(out)) ==> self.reaped matches Some(r) && out == output_of(
            r.end,
            r.usage,
            out.memory,
        )
    }

    /// An upper bound on the steps that a launch still takes.
    pub open spec fn steps_left(self) -> nat {
        let held = self.mounted + if self.cgroup {
            1nat
        } else {
            0nat
        };
        let ahead: nat = match self.phase {
            Phase::Mounting => (2 * (self.plan.len() - self.mounted) + 20) as nat,
            Phase::CreatingCgroup => 19,
            Phase::LimitingMemory => 17,
            Phase::LimitingPids => 16,
            Phase::Spawning => 15,
            Phase::AwaitingExec => 14,
            Phase::Running => 13,
            Phase::Killing => 12,
            Phase::Reaping => 11,
            Phase::Harvesting => 10,
            Phase::Aborting => 9,
            Phase::Burying => 8,
            Phase::RemovingCgroup => 2,
            Phase::Unmounting => 1,
            Phase::Done => 0,
        };
        held + ahead
    }
}

/// `top_mount` names a step that creates a mount, below the bound, with no
/// such step between it and the bound; or -1 where there is none at all.
pub proof fn lemma_top_mount(plan: Seq<MountStepView>, below: int)
    requires
        0 <= below <= plan.len(),
    ensures
        -1 <= top_mount(plan, below) < below,
        top_mount(plan, below) >= 0 ==> plan[top_mount(plan, below)].creates_mount(),
        forall|i: int| top_mount(plan, below) < i < below ==> !plan[i].creates_mount(),
    decreases below,
{
    if below > 0 && !plan[below - 1].creates_mount() {
        lemma_top_mount(plan, below - 1);
    }
}

/// The part of a launch that changes from step to step.
#[derive(Clone, Copy)]
struct Progress {
    phase: Phase,
    mounted: usize,
    cgroup: bool,
    reaped: Option<Reaped>,
    verdict: Option<Result<SandboxOutput, SetupError>>,
}

/// One launch: its plan, its limits, and how far it has come. A value is
/// made by `begin` and moved on by `step`, so that it always is a state that
/// a launch can be in.
pub struct Launch {
    plan: Vec<MountStep>,
    memory_limit: Option<u64>,
    pids_limit: Option<u32>,
    deadline: Option<u64>,
    progress: Progress,
}

impl View for Launch {
    type V = LaunchView;

    closed spec fn view(&self) -> LaunchView {
        self.lift(self.progress)
    }
}

impl Launch {
    #[verifier::type_invariant]
    spec fn inv(self) -> bool {
        self@.wf()
    }

    /// The state of this launch with `p` in place of its own progress.
    spec fn lift(&self, p: Progress) -> LaunchView {
        LaunchView {
            plan: steps_view(self.plan),
            memory_limit: self.memory_limit,
            pids_limit: self.pids_limit,
            deadline: self.deadline,
            phase: p.phase,
            mounted: p.mounted as nat,
            cgroup: p.cgroup,
            reaped: p.reaped,
            verdict: p.verdict,
        }
    }

    fn outcome(p: Progress) -> (r: Result<SandboxOutput, SetupError>)
        ensures
            forall|l: Launch| r == (#[trigger] l.lift(p)).outcome(),
    {
        match p.verdict {
            Some(v) => v,
            None => Err(SetupError::UnexpectedEvent),
        }
    }

    fn unmount_next(&self, p: Progress) -> (r: (Progress, Action))
        requires
            p.mounted <= self.plan.len(),
        ensures
            (self.lift(r.0), r.1) == self.lift(p).unmount_next(),
    {
        let mut k: usize = p.mounted;
        while k > 0
            invariant
                k <= p.mounted <= self.plan.len(),
                top_mount(steps_view(self.plan), p.mounted as int) == top_mount(
                    steps_view(self.plan),
                    k as int,
                ),
            decreases k,
        {
            assert(steps_view(self.plan)[k - 1] == self.plan[k - 1]@);
            if self.plan[k - 1].creates_mount() {
                return (Progress { phase: Phase::Unmounting, mounted: k, ..p }, Action::Unmount(k - 1));
            }
            k = k - 1;
        }
        (Progress { phase: Phase::Done, mounted: 0, ..p }, Action::Finish(Self::outcome(p)))
    }

    fn release(&self, p: Progress) -> (r: (Progress, Action))
        requires
            p.mounted <= self.plan.len(),
        ensures
            (self.lift(r.0), r.1) == self.lift(p).release(),
    {
        if p.cgroup {
            (Progress { phase: Phase::RemovingCgroup, ..p }, Action::RemoveCgroup)
        } else {
            self.unmount_next(p)
        }
    }

    fn fail(&self, p: Progress, error: SetupError) -> (r: (Progress, Action))
        requires
            p.mounted <= self.plan.len(),
        ensures
            (self.lift(r.0), r.1) == self.lift(p).fail(error),
    {
        self.release(Progress { verdict: Some(Err(error)), ..p })
    }

    fn abort(&self, p: Progress, error: SetupError) -> (r: (Progress, Action))
        ensures
            (self.lift(r.0), r.1) == self.lift(p).abort(error),
    {
        (Progress { phase: Phase::Aborting, verdict: Some(Err(error)), ..p }, Action::Kill)
    }

    fn bury(&self, p: Progress, error: SetupError) -> (r: (Progress, Action))
        ensures
            (self.lift(r.0), r.1) == self.lift(p).bury(error),
    {
        (
            Progress { phase: Phase::Burying, verdict: Some(Err(error)), ..p },
            Action::Wait { deadline: None },
        )
    }

    fn spawn(&self, p: Progress) -> (r: (Progress, Action))
        ensures
            (self.lift(r.0), r.1) == self.lift(p).spawn(),
    {
        (Progress { phase: Phase::Spawning, ..p }, Action::Spawn)
    }

    fn limit_pids(&self, p: Progress) -> (r: (Progress, Action))
        ensures
            (self.lift(r.0), r.1) == self.lift(p).limit_pids(),
    {
        match self.pids_limit {
            Some(count) => (Progress { phase: Phase::LimitingPids, ..p }, Action::SetPidsLimit(count)),
            None => self.spawn(p),
        }
    }

    fn limit_memory(&self, p: Progress) -> (r: (Progress, Action))
        ensures
            (self.lift(r.0), r.1) == self.lift(p).limit_memory(),
    {
        match self.memory_limit {
            Some(bytes) => (
                Progress { phase: Phase::LimitingMemory, ..p },
                Action::SetMemoryLimit(bytes),
            ),
            None => self.limit_pids(p),
        }
    }

    fn mount_next(&self, p: Progress) -> (r: (Progress, Action))
        ensures
            (self.lift(r.0), r.1) == self.lift(p).mount_next(),
    {
        if p.mounted < self.plan.len() {
            (Progress { phase: Phase::Mounting, ..p }, Action::Mount(p.mounted))
        } else {
            (Progress { phase: Phase::CreatingCgroup, ..p }, Action::CreateCgroup)
        }
    }

    fn harvest(&self, p: Progress, end: Termination, usage: Usage) -> (r: (Progress, Action))
        ensures
            (self.lift(r.0), r.1) == self.lift(p).harvest(end, usage),
    {
        (
            Progress { phase: Phase::Harvesting, reaped: Some(Reaped { end, usage }), ..p },
            Action::ReadPeakMemory,
        )
    }

    fn conclude(&self, p: Progress, bytes: u64) -> (r: (Progress, Action))
        requires
            p.mounted <= self.plan.len(),
        ensures
            (self.lift(r.0), r.1) == self.lift(p).conclude(bytes),
    {
        match p.reaped {
            Some(reaped) => {
                let out = SandboxOutput::from_termination(
                    reaped.end,
                    reaped.usage,
                    kib_from_bytes(bytes),
                );
                self.release(Progress { verdict: Some(Ok(out)), ..p })
            },
            None => self.fail(p, SetupError::UnexpectedEvent),
        }
    }

    fn advance(&self, event: Event) -> (r: (Progress, Action))
        requires
            self@.wf(),
        ensures
            (self.lift(r.0), r.1) == self@.next(event),
    {
        let p = self.progress;
        match p.phase {
            Phase::Mounting => match event {
                Event::Completed => self.mount_next(Progress { mounted: p.mounted + 1, ..p }),
                Event::Failed => self.fail(p, SetupError::MountFailed),
                _ => self.fail(p, SetupError::UnexpectedEvent),
            },
            Phase::CreatingCgroup => match event {
                Event::Completed => self.limit_memory(Progress { cgroup: true, ..p }),
                Event::Failed => self.fail(p, SetupError::CgroupFailed),
                _ => self.fail(p, SetupError::UnexpectedEvent),
            },
            Phase::LimitingMemory => match event {
                Event::Completed => self.limit_pids(p),
                Event::Failed => self.fail(p, SetupError::CgroupFailed),
                _ => self.fail(p, SetupError::UnexpectedEvent),
            },
            Phase::LimitingPids => match event {
                Event::Completed => self.spawn(p),
                Event::Failed => self.fail(p, SetupError::CgroupFailed),
                _ => self.fail(p, SetupError::UnexpectedEvent),
            },
            Phase::Spawning => match event {
                Event::Completed => (Progress { phase: Phase::AwaitingExec, ..p }, Action::AwaitExec),
                Event::Failed => self.fail(p, SetupError::SpawnFailed),
                _ => self.fail(p, SetupError::UnexpectedEvent),
            },
            Phase::AwaitingExec => match event {
                Event::ExecStarted => (
                    Progress { phase: Phase::Running, ..p },
                    Action::Wait { deadline: self.deadline },
                ),
                Event::ChildSetupFailed(failure) => self.fail(
                    p,
                    SetupError::ChildSetupFailed(failure),
                ),
                Event::Failed => self.abort(p, SetupError::ChannelBroken),
                _ => self.abort(p, SetupError::UnexpectedEvent),
            },
            Phase::Running => match event {
                Event::Terminated(end, usage) => self.harvest(p, end, usage),
                Event::DeadlineReached => if self.deadline.is_some() {
                    (Progress { phase: Phase::Killing, ..p }, Action::Kill)
                } else {
                    self.abort(p, SetupError::UnexpectedEvent)
                },
                Event::Failed => self.abort(p, SetupError::ReapFailed),
                _ => self.abort(p, SetupError::UnexpectedEvent),
            },
            Phase::Killing => match event {
                Event::Completed | Event::Failed => (
                    Progress { phase: Phase::Reaping, ..p },
                    Action::Wait { deadline: None },
                ),
                _ => self.bury(p, SetupError::UnexpectedEvent),
            },
            Phase::Reaping => match event {
                Event::Terminated(end, usage) => self.harvest(p, end, usage),
                Event::Failed => self.fail(p, SetupError::ReapFailed),
                _ => self.fail(p, SetupError::UnexpectedEvent),
            },
            Phase::Aborting => (
                Progress { phase: Phase::Burying, ..p },
                Action::Wait { deadline: None },
            ),
            Phase::Burying => self.release(p),
            Phase::Harvesting => match event {
                Event::PeakMemory(bytes) => self.conclude(p, bytes),
                Event::Failed => self.fail(p, SetupError::AccountingFailed),
                _ => self.fail(p, SetupError::UnexpectedEvent),
            },
            Phase::RemovingCgroup => self.unmount_next(Progress { cgroup: false, ..p }),
            Phase::Unmounting => self.unmount_next(Progress { mounted: p.mounted - 1, ..p }),
            Phase::Done => (p, Action::Finish(Self::outcome(p))),
        }
    }

    /// Starts a launch with the mounts of `plan` and the limits of `config`,
    /// and says what to do first.
    pub fn begin(plan: Vec<MountStep>, config: &SandboxConfig) -> (r: (Launch, Action))
        ensures
            (r.0@, r.1) == LaunchView::begin(steps_view(plan), config@),
            r.0@.wf(),
    {
        let first = Progress {
            phase: Phase::Mounting,
            mounted: 0,
            cgroup: false,
            reaped: None,
            verdict: None,
        };
        let (phase, action) = if plan.len() > 0 {
            (Phase::Mounting, Action::Mount(0))
        } else {
            (Phase::CreatingCgroup, Action::CreateCgroup)
        };
        proof {
            lemma_begin_wf(steps_view(plan), config@);
        }
        let launch = Launch {
            plan,
            memory_limit: config.cg_limit_memory,
            pids_limit: config.cg_limit_max_pids,
            deadline: config.real_time_limit,
            progress: Progress { phase, ..first },
        };
        (launch, action)
    }

    /// Checks a configuration, lays out its mounts and starts the launch.
    /// A configuration with two sources for one stream is refused, and so is
    /// one with a mount destination outside the isolation root; both before
    /// anything was asked of the caller.
    pub fn prepare(config: &SandboxConfig) -> (r: Result<(Launch, Action), LaunchError>)
        ensures
            match config@.first_conflict() {
                Some(stream) => r matches Err(e) && e == LaunchError::Config(
                    ConfigError::ConflictingStdio(stream),
                ),
                None => if destinations_inside(config@) {
                    r matches Ok(started) && (started.0@, started.1) == LaunchView::begin(
                        plan_of(config@),
                        config@,
                    ) && started.0@.wf()
                } else {
                    r matches Err(e) && e == LaunchError::Setup(
                        SetupError::DestinationOutsideRoot,
                    )
                },
            },
    {
        match config.validate() {
            Err(e) => Err(LaunchError::Config(e)),
            Ok(()) => match plan(config) {
                Err(e) => Err(LaunchError::Setup(e)),
                Ok(steps) => Ok(Launch::begin(steps, config)),
            },
        }
    }

    /// Takes in what came of the last action and says what to do next.
    pub fn step(self, event: Event) -> (r: (Launch, Action))
        ensures
            (r.0@, r.1) == self@.next(event),
            r.0@.wf(),
    {
        proof {
            use_type_invariant(&self);
            lemma_next_wf(self@, event);
        }
        let (progress, action) = self.advance(event);
        let launch = Launch {
            plan: self.plan,
            memory_limit: self.memory_limit,
            pids_limit: self.pids_limit,
            deadline: self.deadline,
            progress,
        };
        (launch, action)
    }

    /// The mounts of this launch, which `Action::Mount` and `Action::Unmount`
    /// name by their index.
    pub fn plan(&self) -> (plan: &Vec<MountStep>)
        ensures
            steps_view(*plan) == self@.plan,
    {
        &self.plan
    }

    /// Where the launch stands.
    pub fn phase(&self) -> (phase: Phase)
        ensures
            phase == self@.phase,
    {
        self.progress.phase
    }
}

/// A launch starts in a state of which the invariant holds.
pub proof fn lemma_begin_wf(plan: Seq<MountStepView>, c: SandboxConfigView)
    requires
        plan.len() <= usize::MAX,
    ensures
        LaunchView::begin(plan, c).0.wf(),
{
}

/// Every step keeps the invariant.
pub proof fn lemma_next_wf(s: LaunchView, event: Event)
    requires
        s.wf(),
    ensures
        s.next(event).0.wf(),
{
    lemma_top_mount(s.plan, s.mounted as int);
    if s.mounted > 0 {
        lemma_top_mount(s.plan, s.mounted - 1);
    }
}

/// The mounts that a launch holds: the steps of the plan that were made, not
/// undone, and created a mount.
pub open spec fn held(s: LaunchView) -> Set<int> {
    Set::new(|i: int| 0 <= i < s.mounted && s.plan[i].creates_mount())
}

/// A launch leaves nothing behind. The result is handed over in the very
/// step that ends the launch, whatever led there, and at that point no mount
/// is held and the control group is gone.
pub proof fn lemma_nothing_survives(s: LaunchView, event: Event)
    requires
        s.wf(),
    ensures
        s.next(event).1 is Finish <==> s.next(event).0.phase is Done,
        s.next(event).0.phase is Done ==> held(s.next(event).0) == Set::<int>::empty()
            && !s.next(event).0.cgroup,
        s.next(event).1 matches Action::Finish(result) ==> s.next(event).0.verdict == Some(result),
{
    lemma_next_wf(s, event);
    assert(s.next(event).0.phase is Done ==> held(s.next(event).0) =~= Set::<int>::empty());
}

/// The launch keeps exact books of what it holds. A mount is entered when
/// the caller reports it made, and struck when its unmount was asked for and
/// answered; nothing else changes the books. The unmount asked for is always
/// that of the last mount still held, so mounts are undone in the reverse of
/// the order they were made in. The control group is entered when its
/// creation is reported and struck when its removal was answered.
pub proof fn lemma_ledger(s: LaunchView, event: Event)
    requires
        s.wf(),
    ensures
        ({
            let (t, action) = s.next(event);
            &&& action matches Action::Mount(i) ==> i == t.mounted && i < t.plan.len()
            &&& held(t) == if s.phase is Mounting && event is Completed
                && s.plan[s.mounted as int].creates_mount() {
                held(s).insert(s.mounted as int)
            } else if s.phase is Unmounting {
                held(s).remove(s.mounted - 1)
            } else {
                held(s)
            }
            &&& action matches Action::Unmount(i) ==> held(t).contains(i as int) && forall|j: int|
                held(t).contains(j) ==> j <= i
            &&& t.cgroup == if s.phase is CreatingCgroup && event is Completed {
                true
            } else if s.phase is RemovingCgroup {
                false
            } else {
                s.cgroup
            }
            &&& t.plan == s.plan
        }),
{
    let (t, action) = s.next(event);
    lemma_top_mount(s.plan, s.mounted as int);
    if s.mounted > 0 {
        lemma_top_mount(s.plan, s.mounted - 1);
    }
    if s.phase is Mounting && event is Completed {
        if s.plan[s.mounted as int].creates_mount() {
            assert(held(t) =~= held(s).insert(s.mounted as int));
        } else {
            assert(held(t) =~= held(s));
        }
    } else if s.phase is Unmounting {
        assert(held(t) =~= held(s).remove(s.mounted - 1));
    } else {
        assert(held(t) =~= held(s));
    }
}

/// Every launch comes to its end: each step lowers a bound on the steps
/// that are left, whatever the caller reports.
pub proof fn lemma_next_decreases(s: LaunchView, event: Event)
    requires
        s.wf(),
        !(s.phase is Done),
    ensures
        s.next(event).0.steps_left() < s.steps_left(),
{
    lemma_top_mount(s.plan, s.mounted as int);
    if s.mounted > 0 {
        lemma_top_mount(s.plan, s.mounted - 1);
    }
}

/// A child that passes the wall-clock limit is killed and then waited for,
/// and the record is written from what that wait returns, not made up: its
/// end, its times, and the peak memory read afterwards.
pub proof fn lemma_deadline_kills_then_reports(
    s: LaunchView,
    kill: Event,
    end: Termination,
    usage: Usage,
    bytes: u64,
)
    requires
        s.wf(),
        s.phase is Running,
        s.deadline is Some,
        kill is Completed || kill is Failed,
    ensures
        ({
            let (s1, a1) = s.next(Event::DeadlineReached);
            let (s2, a2) = s1.next(kill);
            let (s3, a3) = s2.next(Event::Terminated(end, usage));
            let (s4, a4) = s3.next(Event::PeakMemory(bytes));
            &&& a1 == Action::Kill
            &&& a2 == Action::Wait { deadline: None }
            &&& a3 == Action::ReadPeakMemory
            &&& a4 == Action::RemoveCgroup
            &&& s4.verdict == Some(
                Ok::<SandboxOutput, SetupError>(output_of(end, usage, kib_of(bytes))),
            )
        }),
{
}

/// A child that ends by itself is reported with its own end and times and
/// the peak memory read afterwards.
pub proof fn lemma_end_is_reported(s: LaunchView, end: Termination, usage: Usage, bytes: u64)
    requires
        s.wf(),
        s.phase is Running,
    ensures
        ({
            let (s1, a1) = s.next(Event::Terminated(end, usage));
            let (s2, a2) = s1.next(Event::PeakMemory(bytes));
            &&& a1 == Action::ReadPeakMemory
            &&& a2 == Action::RemoveCgroup
            &&& s2.verdict == Some(
                Ok::<SandboxOutput, SetupError>(output_of(end, usage, kib_of(bytes))),
            )
        }),
{
}

/// A result, once decided, is the one handed over: no later step changes it.
pub proof fn lemma_verdict_kept(s: LaunchView, event: Event)
    requires
        s.wf(),
        s.verdict is Some,
    ensures
        s.next(event).0.verdict == s.verdict,
{
}

/// The child is created only after every configured ceiling of the control
/// group was written: the memory ceiling first, then the ceiling on
/// processes, each with the configured value.
pub proof fn lemma_ceilings_before_spawn(s: LaunchView)
    requires
        s.wf(),
        s.phase is CreatingCgroup,
    ensures
        ({
            let (s1, a1) = s.next(Event::Completed);
            let (s2, a2) = if s.memory_limit is Some {
                s1.next(Event::Completed)
            } else {
                (s1, a1)
            };
            let (s3, a3) = if s.pids_limit is Some {
                s2.next(Event::Completed)
            } else {
                (s2, a2)
            };
            &&& s.memory_limit matches Some(bytes) ==> a1 == Action::SetMemoryLimit(bytes)
            &&& s.pids_limit matches Some(count) ==> a2 == Action::SetPidsLimit(count)
            &&& a3 == Action::Spawn
        }),
{
}

} // verus!
