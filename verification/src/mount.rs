//! The mounts a configuration asks for, in the order they are made.

use crate::bindmount::{BindMount, BindMountView};
use crate::config::{binds_view, copy_bytes, path_view, SandboxConfig, SandboxConfigView};
use crate::error::SetupError;
use vstd::prelude::*;

verus! {

/// The byte that parts the components of a path (`/`).
pub const SLASH: u8 = 47;

/// The byte of which a parent component is made (`.`).
pub const DOT: u8 = 46;

/// An absolute path starts at the root.
pub open spec fn is_absolute(path: Seq<u8>) -> bool {
    path.len() > 0 && path[0] == SLASH
}

/// A component `..` starts at `i`: two dots with a slash, or an end of the
/// path, on either side.
pub open spec fn parent_component_at(path: Seq<u8>, i: int) -> bool {
    &&& 0 <= i
    &&& i + 2 <= path.len()
    &&& path[i] == DOT
    &&& path[i + 1] == DOT
    &&& (i == 0 || path[i - 1] == SLASH)
    &&& (i + 2 == path.len() || path[i + 2] == SLASH)
}

/// The path has a component `..`, by which it could leave its root.
pub open spec fn climbs(path: Seq<u8>) -> bool {
    exists|i: int| parent_component_at(path, i)
}

/// A destination stays inside the isolation root where it is absolute and
/// never climbs.
pub open spec fn stays_inside(path: Seq<u8>) -> bool {
    is_absolute(path) && !climbs(path)
}

/// A path of the child's view as the caller sees it before the root is
/// changed: behind the isolation root where there is one.
pub open spec fn resolved(root: Option<Seq<u8>>, path: Seq<u8>) -> Seq<u8> {
    match root {
        Some(r) => r + path,
        None => path,
    }
}

/// Tests that a destination is absolute and has no component `..`.
pub fn is_inside_root(path: &[u8]) -> (inside: bool)
    ensures
        inside == stays_inside(path@),
{
    let len: usize = path.len();
    if len == 0 || path[0] != SLASH {
        return false;
    }
    let mut i: usize = 0;
    while i < len - 1
        invariant
            len == path@.len(),
            1 <= len,
            i <= len - 1,
            forall|j: int| 0 <= j < i ==> !parent_component_at(path@, j),
        decreases len - i,
    {
        let dots: bool = path[i] == DOT && path[i + 1] == DOT;
        let opens: bool = i == 0 || path[i - 1] == SLASH;
        let closes: bool = i + 2 == len || path[i + 2] == SLASH;
        if dots && opens && closes {
            assert(parent_component_at(path@, i as int));
            return false;
        }
        i = i + 1;
    }
    assert(forall|j: int| !parent_component_at(path@, j));
    true
}

/// Places a path of the child's view behind the isolation root.
pub fn resolve(root: &Option<Vec<u8>>, path: &Vec<u8>) -> (target: Vec<u8>)
    ensures
        target@ == resolved(path_view(*root), path@),
{
    match root {
        Some(r) => {
            let mut target = copy_bytes(r);
            let mut tail = copy_bytes(path);
            target.append(&mut tail);
            target
        },
        None => copy_bytes(path),
    }
}

/// One step of building the filesystem that the child will see. Every
/// target is a path of the caller's view, already behind the isolation root.
#[derive(Debug, Clone, PartialEq, Eq)]
pub enum MountStep {
    /// Expose `src` at `target`.
    Bind { src: Vec<u8>, target: Vec<u8> },
    /// Make the bind mount at `target` read-only. This changes a mount that
    /// exists and creates none.
    RemountReadOnly { target: Vec<u8> },
    /// Mount a fresh procfs at `target`.
    Proc { target: Vec<u8> },
    /// Mount a tmpfs at `target`.
    Tmpfs { target: Vec<u8> },
}

/// A `MountStep` with its paths as byte sequences.
pub enum MountStepView {
    Bind { src: Seq<u8>, target: Seq<u8> },
    RemountReadOnly { target: Seq<u8> },
    Proc { target: Seq<u8> },
    Tmpfs { target: Seq<u8> },
}

impl View for MountStep {
    type V = MountStepView;

    open spec fn view(&self) -> MountStepView {
        match self {
            MountStep::Bind { src, target } => MountStepView::Bind { src: src@, target: target@ },
            MountStep::RemountReadOnly { target } => MountStepView::RemountReadOnly {
                target: target@,
            },
            MountStep::Proc { target } => MountStepView::Proc { target: target@ },
            MountStep::Tmpfs { target } => MountStepView::Tmpfs { target: target@ },
        }
    }
}

impl MountStepView {
    /// A step creates a mount unless it only changes one.
    pub open spec fn creates_mount(&self) -> bool {
        !(self is RemountReadOnly)
    }

    /// The path that the step mounts at or changes.
    pub open spec fn target(&self) -> Seq<u8> {
        match *self {
            MountStepView::Bind { src, target } => target,
            MountStepView::RemountReadOnly { target } => target,
            MountStepView::Proc { target } => target,
            MountStepView::Tmpfs { target } => target,
        }
    }
}

impl MountStep {
    /// Whether the step leaves a mount behind that has to be unmounted.
    pub fn creates_mount(&self) -> (creates: bool)
        ensures
            creates == self@.creates_mount(),
    {
        match self {
            MountStep::RemountReadOnly { .. } => false,
            _ => true,
        }
    }

    /// The path that the step mounts at or changes.
    pub fn target(&self) -> (target: &Vec<u8>)
        ensures
            target@ == self@.target(),
    {
        match self {
            MountStep::Bind { target, .. } => target,
            MountStep::RemountReadOnly { target } => target,
            MountStep::Proc { target } => target,
            MountStep::Tmpfs { target } => target,
        }
    }
}

/// A list of steps as a sequence.
pub open spec fn steps_view(steps: Vec<MountStep>) -> Seq<MountStepView> {
    steps@.map_values(|s: MountStep| s@)
}

/// The steps for the read-write bind mounts: one bind each, in the order
/// given.
pub open spec fn rw_steps(root: Option<Seq<u8>>, binds: Seq<BindMountView>) -> Seq<
    MountStepView,
> {
    Seq::new(
        binds.len(),
        |i: int| MountStepView::Bind { src: binds[i].src, target: resolved(root, binds[i].dst) },
    )
}

/// The steps for the read-only bind mounts: for each, in the order given, a
/// bind and then the change to read-only.
pub open spec fn ro_steps(root: Option<Seq<u8>>, binds: Seq<BindMountView>) -> Seq<
    MountStepView,
> {
    Seq::new(
        2 * binds.len(),
        |k: int|
            if k % 2 == 0 {
                MountStepView::Bind {
                    src: binds[k / 2].src,
                    target: resolved(root, binds[k / 2].dst),
                }
            } else {
                MountStepView::RemountReadOnly { target: resolved(root, binds[k / 2].dst) }
            },
    )
}

/// The step for the procfs, where one is asked for.
pub open spec fn proc_steps(root: Option<Seq<u8>>, at: Option<Seq<u8>>) -> Seq<MountStepView> {
    match at {
        Some(p) => seq![MountStepView::Proc { target: resolved(root, p) }],
        None => Seq::empty(),
    }
}

/// The step for the tmpfs, where one is asked for.
pub open spec fn tmpfs_steps(root: Option<Seq<u8>>, at: Option<Seq<u8>>) -> Seq<MountStepView> {
    match at {
        Some(p) => seq![MountStepView::Tmpfs { target: resolved(root, p) }],
        None => Seq::empty(),
    }
}

/// All steps of a configuration: the read-write binds, the read-only binds,
/// the procfs, the tmpfs.
pub open spec fn plan_of(c: SandboxConfigView) -> Seq<MountStepView> {
    rw_steps(c.chroot, c.bindmount_rw) + ro_steps(c.chroot, c.bindmount_ro) + proc_steps(
        c.chroot,
        c.mount_proc,
    ) + tmpfs_steps(c.chroot, c.mount_tmpfs)
}

/// Every destination of the configuration stays inside the isolation root.
pub open spec fn destinations_inside(c: SandboxConfigView) -> bool {
    &&& forall|i: int| 0 <= i < c.bindmount_rw.len() ==> stays_inside(#[trigger] c.bindmount_rw[i].dst)
    &&& forall|i: int| 0 <= i < c.bindmount_ro.len() ==> stays_inside(#[trigger] c.bindmount_ro[i].dst)
    &&& c.mount_proc matches Some(p) ==> stays_inside(p)
    &&& c.mount_tmpfs matches Some(p) ==> stays_inside(p)
}

/// Lays out the mounts of a configuration, in the order they are made. A
/// configuration with a destination that is not absolute, or that climbs out
/// of the isolation root, gets no plan.
pub fn plan(config: &SandboxConfig) -> (r: Result<Vec<MountStep>, SetupError>)
    ensures
        match r {
            Ok(steps) => destinations_inside(config@) && steps_view(steps) == plan_of(config@),
            Err(e) => !destinations_inside(config@) && e == SetupError::DestinationOutsideRoot,
        },
{
    let ghost c = config@;
    let ghost rw = rw_steps(c.chroot, c.bindmount_rw);
    let ghost ro = ro_steps(c.chroot, c.bindmount_ro);
    let mut steps: Vec<MountStep> = Vec::new();
    let n_rw: usize = config.bindmount_rw.len();
    let mut i: usize = 0;
    while i < n_rw
        invariant
            c == config@,
            rw == rw_steps(c.chroot, c.bindmount_rw),
            n_rw == config.bindmount_rw.len(),
            i <= n_rw,
            steps.len() == i,
            forall|k: int| 0 <= k < i ==> stays_inside(#[trigger] c.bindmount_rw[k].dst),
            forall|k: int| 0 <= k < i ==> (#[trigger] steps[k])@ == rw[k],
        decreases n_rw - i,
    {
        let bind: &BindMount = &config.bindmount_rw[i];
        assert(c.bindmount_rw[i as int] == bind@);
        if !is_inside_root(bind.dst.as_slice()) {
            assert(!stays_inside(c.bindmount_rw[i as int].dst));
            return Err(SetupError::DestinationOutsideRoot);
        }
        let step = MountStep::Bind {
            src: copy_bytes(&bind.src),
            target: resolve(&config.chroot, &bind.dst),
        };
        steps.push(step);
        i = i + 1;
    }
    let n_ro: usize = config.bindmount_ro.len();
    let mut j: usize = 0;
    while j < n_ro
        invariant
            c == config@,
            rw == rw_steps(c.chroot, c.bindmount_rw),
            ro == ro_steps(c.chroot, c.bindmount_ro),
            n_rw == config.bindmount_rw.len(),
            n_ro == config.bindmount_ro.len(),
            j <= n_ro,
            steps.len() == n_rw + 2 * j,
            forall|k: int| 0 <= k < n_rw ==> stays_inside(#[trigger] c.bindmount_rw[k].dst),
            forall|k: int| 0 <= k < j ==> stays_inside(#[trigger] c.bindmount_ro[k].dst),
            forall|k: int| 0 <= k < n_rw ==> (#[trigger] steps[k])@ == rw[k],
            forall|k: int| 0 <= k < 2 * j ==> (#[trigger] steps[n_rw + k])@ == ro[k],
        decreases n_ro - j,
    {
        let bind: &BindMount = &config.bindmount_ro[j];
        assert(c.bindmount_ro[j as int] == bind@);
        if !is_inside_root(bind.dst.as_slice()) {
            assert(!stays_inside(c.bindmount_ro[j as int].dst));
            return Err(SetupError::DestinationOutsideRoot);
        }
        let first = MountStep::Bind {
            src: copy_bytes(&bind.src),
            target: resolve(&config.chroot, &bind.dst),
        };
        let second = MountStep::RemountReadOnly { target: resolve(&config.chroot, &bind.dst) };
        let ghost before = steps@;
        steps.push(first);
        steps.push(second);
        proof {
            assert(first@ == ro[2 * j]);
            assert(second@ == ro[2 * j + 1]);
            assert forall|k: int| 0 <= k < 2 * (j + 1) implies (#[trigger] steps[n_rw + k])@
                == ro[k] by {
                if k < 2 * j {
                    assert(steps[n_rw + k] == before[n_rw + k]);
                }
            }
            assert forall|k: int| 0 <= k < n_rw implies (#[trigger] steps[k])@ == rw[k] by {
                assert(steps[k] == before[k]);
            }
        }
        j = j + 1;
    }
    let ghost bound = steps@;
    match &config.mount_proc {
        Some(at) => {
            if !is_inside_root(at.as_slice()) {
                return Err(SetupError::DestinationOutsideRoot);
            }
            steps.push(MountStep::Proc { target: resolve(&config.chroot, at) });
        },
        None => {},
    }
    let ghost with_proc = steps@;
    match &config.mount_tmpfs {
        Some(at) => {
            if !is_inside_root(at.as_slice()) {
                return Err(SetupError::DestinationOutsideRoot);
            }
            steps.push(MountStep::Tmpfs { target: resolve(&config.chroot, at) });
        },
        None => {},
    }
    proof {
        let views = |s: MountStep| s@;
        assert(bound.len() == rw.len() + ro.len());
        assert forall|k: int| 0 <= k < bound.len() implies #[trigger] bound.map_values(views)[k]
            == (rw + ro)[k] by {
            if k >= n_rw {
                assert(bound[n_rw + (k - n_rw)]@ == ro[k - n_rw]);
            }
        }
        assert(bound.map_values(views) =~= rw + ro);
        assert(with_proc.map_values(views) =~= rw + ro + proc_steps(c.chroot, c.mount_proc));
        assert(steps@.map_values(views) =~= plan_of(c));
    }
    Ok(steps)
}

/// A read-only bind mount is made in two steps that follow each other: the
/// bind, then the change to read-only of the same target. A read-write bind
/// mount is one step, and no change to read-only speaks of it. Both kinds
/// come in the order in which the configuration lists them.
pub proof fn lemma_read_only_is_remounted(c: SandboxConfigView, i: int)
    ensures
        0 <= i < c.bindmount_rw.len() ==> plan_of(c)[i] == (MountStepView::Bind {
            src: c.bindmount_rw[i].src,
            target: resolved(c.chroot, c.bindmount_rw[i].dst),
        }),
        0 <= i < c.bindmount_ro.len() ==> plan_of(c)[c.bindmount_rw.len() + 2 * i]
            == (MountStepView::Bind {
            src: c.bindmount_ro[i].src,
            target: resolved(c.chroot, c.bindmount_ro[i].dst),
        }) && plan_of(c)[c.bindmount_rw.len() + 2 * i + 1] == (MountStepView::RemountReadOnly {
            target: resolved(c.chroot, c.bindmount_ro[i].dst),
        }),
        forall|k: int|
            0 <= k < plan_of(c).len() && (#[trigger] plan_of(c)[k]) is RemountReadOnly ==> k
                >= c.bindmount_rw.len() + 1 && plan_of(c)[k - 1] is Bind && plan_of(c)[k
                - 1].target() == plan_of(c)[k].target(),
{
    let rw = rw_steps(c.chroot, c.bindmount_rw);
    let ro = ro_steps(c.chroot, c.bindmount_ro);
    let p = proc_steps(c.chroot, c.mount_proc);
    let t = tmpfs_steps(c.chroot, c.mount_tmpfs);
    assert forall|k: int|
        0 <= k < plan_of(c).len() && (#[trigger] plan_of(c)[k]) is RemountReadOnly implies k
            >= c.bindmount_rw.len() + 1 && plan_of(c)[k - 1] is Bind && plan_of(c)[k - 1].target()
            == plan_of(c)[k].target() by {
        let m = k - rw.len();
        if k < rw.len() {
            assert(plan_of(c)[k] == rw[k]);
        } else if m < ro.len() {
            assert(plan_of(c)[k] == ro[m]);
            assert(m % 2 == 1);
            assert(plan_of(c)[k - 1] == ro[m - 1]);
        } else if m - ro.len() < p.len() {
            assert(plan_of(c)[k] == p[m - ro.len()]);
        } else {
            assert(plan_of(c)[k] == t[m - ro.len() - p.len()]);
        }
    }
}

} // verus!
