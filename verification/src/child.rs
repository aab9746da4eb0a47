//! What the child does to itself between its creation and the start of the
//! program, and in which order.

use crate::config::{SandboxConfig, SandboxConfigView, Stream};
use vstd::prelude::*;

verus! {

/// One thing the child does before the program starts. A failure of any of
/// them is reported to the parent, and the program is not started.
#[derive(Debug, Clone, Copy, PartialEq, Eq, Structural)]
pub enum ChildStep {
    SetGid(u32),
    SetUid(u32),
    /// Make the isolation root the root of the filesystem.
    Chroot,
    /// Change the working directory to `/`.
    ChangeToRoot,
    /// Put the configured source in place of this stream.
    Redirect(Stream),
    /// Limit the CPU time, in seconds.
    LimitCpu(u32),
    /// Limit the address space, in bytes.
    LimitAddressSpace(u64),
    /// Limit the data segment, in bytes.
    LimitData(u64),
    /// Limit the size of a file, in bytes.
    LimitFileSize(u64),
    /// Enter the control group.
    JoinCgroup,
    /// Start the program.
    Exec,
}

impl ChildStep {
    /// The place of a step in the order of the child's setup.
    pub open spec fn rank(self) -> int {
        match self {
            ChildStep::SetGid(_) => 0,
            ChildStep::SetUid(_) => 1,
            ChildStep::Chroot => 2,
            ChildStep::ChangeToRoot => 3,
            ChildStep::Redirect(Stream::Stdin) => 4,
            ChildStep::Redirect(Stream::Stdout) => 5,
            ChildStep::Redirect(Stream::Stderr) => 6,
            ChildStep::LimitCpu(_) => 7,
            ChildStep::LimitAddressSpace(_) => 8,
            ChildStep::LimitData(_) => 9,
            ChildStep::LimitFileSize(_) => 10,
            ChildStep::JoinCgroup => 11,
            ChildStep::Exec => 12,
        }
    }
}

/// The sequence of one step, or of none.
pub open spec fn when(wanted: bool, step: ChildStep) -> Seq<ChildStep> {
    if wanted {
        seq![step]
    } else {
        Seq::empty()
    }
}

/// The group is taken before the user, while the right to change it is still
/// there.
pub open spec fn identity_steps(c: SandboxConfigView) -> Seq<ChildStep> {
    (match c.gid {
        Some(gid) => seq![ChildStep::SetGid(gid)],
        None => Seq::empty(),
    }) + (match c.uid {
        Some(uid) => seq![ChildStep::SetUid(uid)],
        None => Seq::empty(),
    })
}

/// With an isolation root, the child enters it and moves to its `/`.
pub open spec fn root_steps(c: SandboxConfigView) -> Seq<ChildStep> {
    if c.chroot is Some {
        seq![ChildStep::Chroot, ChildStep::ChangeToRoot]
    } else {
        Seq::empty()
    }
}

/// Each stream that has a source of its own is redirected.
pub open spec fn stdio_steps(c: SandboxConfigView) -> Seq<ChildStep> {
    when(!(c.source(Stream::Stdin) is Inherit), ChildStep::Redirect(Stream::Stdin)) + when(
        !(c.source(Stream::Stdout) is Inherit),
        ChildStep::Redirect(Stream::Stdout),
    ) + when(!(c.source(Stream::Stderr) is Inherit), ChildStep::Redirect(Stream::Stderr))
}

/// The resource limits that are configured.
pub open spec fn limit_steps(c: SandboxConfigView) -> Seq<ChildStep> {
    (match c.rlimit_cpu {
        Some(seconds) => seq![ChildStep::LimitCpu(seconds)],
        None => Seq::empty(),
    }) + (match c.rlimit_as {
        Some(bytes) => seq![ChildStep::LimitAddressSpace(bytes)],
        None => Seq::empty(),
    }) + (match c.rlimit_data {
        Some(bytes) => seq![ChildStep::LimitData(bytes)],
        None => Seq::empty(),
    }) + (match c.rlimit_fsize {
        Some(bytes) => seq![ChildStep::LimitFileSize(bytes)],
        None => Seq::empty(),
    })
}

/// The child's setup: identity, root, streams, limits, control group, and
/// at last the program.
pub open spec fn child_steps_of(c: SandboxConfigView) -> Seq<ChildStep> {
    identity_steps(c) + root_steps(c) + stdio_steps(c) + limit_steps(c)
        + seq![ChildStep::JoinCgroup, ChildStep::Exec]
}

fn push_identity(config: &SandboxConfig, steps: &mut Vec<ChildStep>)
    ensures
        final(steps)@ == old(steps)@ + identity_steps(config@),
{
    match config.gid {
        Some(gid) => steps.push(ChildStep::SetGid(gid)),
        None => {},
    }
    match config.uid {
        Some(uid) => steps.push(ChildStep::SetUid(uid)),
        None => {},
    }
    assert(steps@ =~= old(steps)@ + identity_steps(config@));
}

fn push_root(config: &SandboxConfig, steps: &mut Vec<ChildStep>)
    ensures
        final(steps)@ == old(steps)@ + root_steps(config@),
{
    if config.chroot.is_some() {
        steps.push(ChildStep::Chroot);
        steps.push(ChildStep::ChangeToRoot);
    }
    assert(steps@ =~= old(steps)@ + root_steps(config@));
}

fn push_redirect(config: &SandboxConfig, stream: Stream, steps: &mut Vec<ChildStep>)
    ensures
        final(steps)@ == old(steps)@ + when(
            !(config@.source(stream) is Inherit),
            ChildStep::Redirect(stream),
        ),
{
    let redirected: bool = match stream {
        Stream::Stdin => config.stdin.is_some() || config.stdin_fd.is_some(),
        Stream::Stdout => config.stdout.is_some() || config.stdout_fd.is_some(),
        Stream::Stderr => config.stderr.is_some() || config.stderr_fd.is_some(),
    };
    if redirected {
        steps.push(ChildStep::Redirect(stream));
    }
    assert(steps@ =~= old(steps)@ + when(
        !(config@.source(stream) is Inherit),
        ChildStep::Redirect(stream),
    ));
}

fn push_limits(config: &SandboxConfig, steps: &mut Vec<ChildStep>)
    ensures
        final(steps)@ == old(steps)@ + limit_steps(config@),
{
    match config.rlimit_cpu {
        Some(seconds) => steps.push(ChildStep::LimitCpu(seconds)),
        None => {},
    }
    match config.rlimit_as {
        Some(bytes) => steps.push(ChildStep::LimitAddressSpace(bytes)),
        None => {},
    }
    match config.rlimit_data {
        Some(bytes) => steps.push(ChildStep::LimitData(bytes)),
        None => {},
    }
    match config.rlimit_fsize {
        Some(bytes) => steps.push(ChildStep::LimitFileSize(bytes)),
        None => {},
    }
    assert(steps@ =~= old(steps)@ + limit_steps(config@));
}

/// Lists what the child has to do, in order.
pub fn child_steps(config: &SandboxConfig) -> (steps: Vec<ChildStep>)
    ensures
        steps@ == child_steps_of(config@),
{
    let ghost c = config@;
    let mut steps: Vec<ChildStep> = Vec::new();
    push_identity(config, &mut steps);
    assert(steps@ =~= identity_steps(c));
    push_root(config, &mut steps);
    push_redirect(config, Stream::Stdin, &mut steps);
    push_redirect(config, Stream::Stdout, &mut steps);
    push_redirect(config, Stream::Stderr, &mut steps);
    assert(steps@ =~= identity_steps(c) + root_steps(c) + stdio_steps(c));
    push_limits(config, &mut steps);
    steps.push(ChildStep::JoinCgroup);
    steps.push(ChildStep::Exec);
    assert(steps@ =~= child_steps_of(c));
    steps
}

/// The steps of `s` rise in rank, and every rank lies from `lo` up to, not
/// including, `hi`.
pub open spec fn rising_within(s: Seq<ChildStep>, lo: int, hi: int) -> bool {
    &&& forall|i: int| 0 <= i < s.len() ==> lo <= (#[trigger] s[i]).rank() < hi
    &&& forall|i: int, j: int| 0 <= i < j < s.len() ==> (#[trigger] s[i]).rank() < (#[trigger] s[j]).rank()
}

proof fn lemma_rising_concat(a: Seq<ChildStep>, b: Seq<ChildStep>, lo: int, mid: int, hi: int)
    requires
        rising_within(a, lo, mid),
        rising_within(b, mid, hi),
        lo <= mid <= hi,
    ensures
        rising_within(a + b, lo, hi),
{
    let s = a + b;
    assert forall|i: int| 0 <= i < s.len() implies lo <= (#[trigger] s[i]).rank() < hi by {
        if i < a.len() {
            assert(s[i] == a[i]);
        } else {
            assert(s[i] == b[i - a.len()]);
        }
    }
    assert forall|i: int, j: int| 0 <= i < j < s.len() implies (#[trigger] s[i]).rank() < (
    #[trigger] s[j]).rank() by {
        if i < a.len() {
            assert(s[i] == a[i]);
        } else {
            assert(s[i] == b[i - a.len()]);
        }
        if j < a.len() {
            assert(s[j] == a[j]);
        } else {
            assert(s[j] == b[j - a.len()]);
        }
    }
}

/// The child's setup keeps one order whatever is configured: the group
/// before the user, the identity before the root, the root before the
/// streams, the streams before the limits, then the control group, and the
/// program last. No step occurs twice.
pub proof fn lemma_setup_order(c: SandboxConfigView)
    ensures
        rising_within(child_steps_of(c), 0, 13),
        child_steps_of(c).last() == ChildStep::Exec,
{
    let identity = identity_steps(c);
    let root = root_steps(c);
    let stdio = stdio_steps(c);
    let limits = limit_steps(c);
    let tail = seq![ChildStep::JoinCgroup, ChildStep::Exec];
    assert(rising_within(identity, 0, 2));
    assert(rising_within(root, 2, 4));
    assert(rising_within(stdio, 4, 7));
    assert(rising_within(limits, 7, 11));
    assert(rising_within(tail, 11, 13));
    lemma_rising_concat(identity, root, 0, 2, 4);
    lemma_rising_concat(identity + root, stdio, 0, 4, 7);
    lemma_rising_concat(identity + root + stdio, limits, 0, 7, 11);
    lemma_rising_concat(identity + root + stdio + limits, tail, 0, 11, 13);
}

} // verus!
