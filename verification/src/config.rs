//! The configuration of one launch.

use crate::bindmount::{BindMount, BindMountView};
use vstd::prelude::*;
use vstd::slice::slice_to_vec;

verus! {

/// One of the child's three standard streams.
#[derive(Debug, Clone, Copy, PartialEq, Eq, Structural)]
pub enum Stream {
    Stdin,
    Stdout,
    Stderr,
}

/// How the file behind a redirected stream is opened.
#[derive(Debug, Clone, Copy, PartialEq, Eq, Structural)]
pub enum OpenMode {
    /// For reading; the file has to exist.
    Read,
    /// For writing. The file is created where it is missing and emptied
    /// where it is not, so that afterwards it holds what the child wrote and
    /// nothing else.
    WriteTruncate,
}

impl Stream {
    /// The descriptor that the stream has in every process.
    pub open spec fn spec_descriptor(self) -> i32 {
        match self {
            Stream::Stdin => 0,
            Stream::Stdout => 1,
            Stream::Stderr => 2,
        }
    }

    /// The child reads its input and writes its two outputs.
    pub open spec fn spec_open_mode(self) -> OpenMode {
        match self {
            Stream::Stdin => OpenMode::Read,
            Stream::Stdout => OpenMode::WriteTruncate,
            Stream::Stderr => OpenMode::WriteTruncate,
        }
    }

    /// The descriptor onto which the source of the stream is duplicated.
    #[verifier::when_used_as_spec(spec_descriptor)]
    pub fn descriptor(self) -> (fd: i32)
        ensures
            fd == self.spec_descriptor(),
    {
        match self {
            Stream::Stdin => 0,
            Stream::Stdout => 1,
            Stream::Stderr => 2,
        }
    }

    /// How a path configured for the stream is opened.
    #[verifier::when_used_as_spec(spec_open_mode)]
    pub fn open_mode(self) -> (mode: OpenMode)
        ensures
            mode == self.spec_open_mode(),
    {
        match self {
            Stream::Stdin => OpenMode::Read,
            _ => OpenMode::WriteTruncate,
        }
    }
}

/// Where a standard stream of the child comes from.
#[derive(Debug, Clone, PartialEq, Eq)]
pub enum StdioSource {
    /// The stream of the caller is kept.
    Inherit,
    /// The file at this path is opened.
    Path(Vec<u8>),
    /// This descriptor is duplicated onto the stream.
    Fd(i32),
}

/// A `StdioSource` with its path as a byte sequence.
pub enum StdioSourceView {
    Inherit,
    Path(Seq<u8>),
    Fd(i32),
}

impl View for StdioSource {
    type V = StdioSourceView;

    open spec fn view(&self) -> StdioSourceView {
        match self {
            StdioSource::Inherit => StdioSourceView::Inherit,
            StdioSource::Path(p) => StdioSourceView::Path(p@),
            StdioSource::Fd(fd) => StdioSourceView::Fd(*fd),
        }
    }
}

/// A configuration that contradicts itself.
#[derive(Debug, Clone, Copy, PartialEq, Eq, Structural)]
pub enum ConfigError {
    /// Both a path and a descriptor are given for this stream.
    ConflictingStdio(Stream),
}

/// Everything one launch is told: what to run, as whom, inside which root,
/// with which streams, limits and mounts. Paths are byte strings.
#[derive(Debug, Clone, PartialEq, Eq)]
pub struct SandboxConfig {
    /// The program, relative to the isolation root.
    pub bin: Vec<u8>,
    pub args: Vec<Vec<u8>>,
    pub env: Vec<Vec<u8>>,
    /// The isolation root; `None` keeps the caller's root.
    pub chroot: Option<Vec<u8>>,
    pub uid: Option<u32>,
    pub gid: Option<u32>,
    pub stdin: Option<Vec<u8>>,
    pub stdout: Option<Vec<u8>>,
    pub stderr: Option<Vec<u8>>,
    pub stdin_fd: Option<i32>,
    pub stdout_fd: Option<i32>,
    pub stderr_fd: Option<i32>,
    /// Wall-clock limit in milliseconds.
    pub real_time_limit: Option<u64>,
    /// CPU time limit in seconds.
    pub rlimit_cpu: Option<u32>,
    pub rlimit_as: Option<u64>,
    pub rlimit_data: Option<u64>,
    pub rlimit_fsize: Option<u64>,
    /// Memory ceiling of the control group, in bytes.
    pub cg_limit_memory: Option<u64>,
    pub cg_limit_max_pids: Option<u32>,
    pub bindmount_rw: Vec<BindMount>,
    pub bindmount_ro: Vec<BindMount>,
    /// Where a fresh procfs is mounted, inside the isolation root.
    pub mount_proc: Option<Vec<u8>>,
    /// Where a tmpfs is mounted, inside the isolation root.
    pub mount_tmpfs: Option<Vec<u8>>,
}

/// A `SandboxConfig` with every path and list as a sequence.
pub struct SandboxConfigView {
    pub bin: Seq<u8>,
    pub args: Seq<Seq<u8>>,
    pub env: Seq<Seq<u8>>,
    pub chroot: Option<Seq<u8>>,
    pub uid: Option<u32>,
    pub gid: Option<u32>,
    pub stdin: Option<Seq<u8>>,
    pub stdout: Option<Seq<u8>>,
    pub stderr: Option<Seq<u8>>,
    pub stdin_fd: Option<i32>,
    pub stdout_fd: Option<i32>,
    pub stderr_fd: Option<i32>,
    pub real_time_limit: Option<u64>,
    pub rlimit_cpu: Option<u32>,
    pub rlimit_as: Option<u64>,
    pub rlimit_data: Option<u64>,
    pub rlimit_fsize: Option<u64>,
    pub cg_limit_memory: Option<u64>,
    pub cg_limit_max_pids: Option<u32>,
    pub bindmount_rw: Seq<BindMountView>,
    pub bindmount_ro: Seq<BindMountView>,
    pub mount_proc: Option<Seq<u8>>,
    pub mount_tmpfs: Option<Seq<u8>>,
}

/// An optional path as an optional byte sequence.
pub open spec fn path_view(path: Option<Vec<u8>>) -> Option<Seq<u8>> {
    match path {
        Some(p) => Some(p@),
        None => None,
    }
}

/// A list of byte strings as a sequence of byte sequences.
pub open spec fn strings_view(list: Vec<Vec<u8>>) -> Seq<Seq<u8>> {
    list@.map_values(|s: Vec<u8>| s@)
}

/// A list of bind mounts as a sequence of pairs.
pub open spec fn binds_view(list: Vec<BindMount>) -> Seq<BindMountView> {
    list@.map_values(|b: BindMount| b@)
}

impl View for SandboxConfig {
    type V = SandboxConfigView;

    open spec fn view(&self) -> SandboxConfigView {
        SandboxConfigView {
            bin: self.bin@,
            args: strings_view(self.args),
            env: strings_view(self.env),
            chroot: path_view(self.chroot),
            uid: self.uid,
            gid: self.gid,
            stdin: path_view(self.stdin),
            stdout: path_view(self.stdout),
            stderr: path_view(self.stderr),
            stdin_fd: self.stdin_fd,
            stdout_fd: self.stdout_fd,
            stderr_fd: self.stderr_fd,
            real_time_limit: self.real_time_limit,
            rlimit_cpu: self.rlimit_cpu,
            rlimit_as: self.rlimit_as,
            rlimit_data: self.rlimit_data,
            rlimit_fsize: self.rlimit_fsize,
            cg_limit_memory: self.cg_limit_memory,
            cg_limit_max_pids: self.cg_limit_max_pids,
            bindmount_rw: binds_view(self.bindmount_rw),
            bindmount_ro: binds_view(self.bindmount_ro),
            mount_proc: path_view(self.mount_proc),
            mount_tmpfs: path_view(self.mount_tmpfs),
        }
    }
}

impl SandboxConfigView {
    /// The path configured for a stream.
    pub open spec fn path_of(&self, stream: Stream) -> Option<Seq<u8>> {
        match stream {
            Stream::Stdin => self.stdin,
            Stream::Stdout => self.stdout,
            Stream::Stderr => self.stderr,
        }
    }

    /// The descriptor configured for a stream.
    pub open spec fn fd_of(&self, stream: Stream) -> Option<i32> {
        match stream {
            Stream::Stdin => self.stdin_fd,
            Stream::Stdout => self.stdout_fd,
            Stream::Stderr => self.stderr_fd,
        }
    }

    /// A stream is in conflict where it is given both a path and a descriptor.
    pub open spec fn conflict(&self, stream: Stream) -> bool {
        self.path_of(stream) is Some && self.fd_of(stream) is Some
    }

    /// The invariant of a configuration: each stream has at most one source.
    pub open spec fn wf(&self) -> bool {
        &&& !self.conflict(Stream::Stdin)
        &&& !self.conflict(Stream::Stdout)
        &&& !self.conflict(Stream::Stderr)
    }

    /// The first stream in conflict, in the order stdin, stdout, stderr.
    pub open spec fn first_conflict(&self) -> Option<Stream> {
        if self.conflict(Stream::Stdin) {
            Some(Stream::Stdin)
        } else if self.conflict(Stream::Stdout) {
            Some(Stream::Stdout)
        } else if self.conflict(Stream::Stderr) {
            Some(Stream::Stderr)
        } else {
            None
        }
    }

    /// Where a stream comes from: its path, else its descriptor, else the
    /// caller's stream.
    pub open spec fn source(&self, stream: Stream) -> StdioSourceView {
        match self.path_of(stream) {
            Some(p) => StdioSourceView::Path(p),
            None => match self.fd_of(stream) {
                Some(fd) => StdioSourceView::Fd(fd),
                None => StdioSourceView::Inherit,
            },
        }
    }

    /// The configuration that asks for nothing.
    pub open spec fn empty() -> SandboxConfigView {
        SandboxConfigView {
            bin: Seq::empty(),
            args: Seq::empty(),
            env: Seq::empty(),
            chroot: None,
            uid: None,
            gid: None,
            stdin: None,
            stdout: None,
            stderr: None,
            stdin_fd: None,
            stdout_fd: None,
            stderr_fd: None,
            real_time_limit: None,
            rlimit_cpu: None,
            rlimit_as: None,
            rlimit_data: None,
            rlimit_fsize: None,
            cg_limit_memory: None,
            cg_limit_max_pids: None,
            bindmount_rw: Seq::empty(),
            bindmount_ro: Seq::empty(),
            mount_proc: None,
            mount_tmpfs: None,
        }
    }
}

/// A copy of a byte string.
pub fn copy_bytes(bytes: &Vec<u8>) -> (copy: Vec<u8>)
    ensures
        copy@ == bytes@,
{
    slice_to_vec(bytes.as_slice())
}

impl Default for SandboxConfig {
    fn default() -> (config: SandboxConfig)
        ensures
            config@ == SandboxConfigView::empty(),
    {
        let config = SandboxConfig {
            bin: Vec::new(),
            args: Vec::new(),
            env: Vec::new(),
            chroot: None,
            uid: None,
            gid: None,
            stdin: None,
            stdout: None,
            stderr: None,
            stdin_fd: None,
            stdout_fd: None,
            stderr_fd: None,
            real_time_limit: None,
            rlimit_cpu: None,
            rlimit_as: None,
            rlimit_data: None,
            rlimit_fsize: None,
            cg_limit_memory: None,
            cg_limit_max_pids: None,
            bindmount_rw: Vec::new(),
            bindmount_ro: Vec::new(),
            mount_proc: None,
            mount_tmpfs: None,
        };
        assert(config@.args =~= Seq::empty());
        assert(config@.env =~= Seq::empty());
        assert(config@.bindmount_rw =~= Seq::empty());
        assert(config@.bindmount_ro =~= Seq::empty());
        config
    }
}

impl SandboxConfig {
    /// Tests the invariant: no stream may have both a path and a descriptor.
    /// The first stream that has both is named.
    pub fn validate(&self) -> (r: Result<(), ConfigError>)
        ensures
            r is Ok <==> self@.wf(),
            r == match self@.first_conflict() {
                Some(stream) => Err::<(), ConfigError>(ConfigError::ConflictingStdio(stream)),
                None => Ok::<(), ConfigError>(()),
            },
    {
        if self.stdin.is_some() && self.stdin_fd.is_some() {
            Err(ConfigError::ConflictingStdio(Stream::Stdin))
        } else if self.stdout.is_some() && self.stdout_fd.is_some() {
            Err(ConfigError::ConflictingStdio(Stream::Stdout))
        } else if self.stderr.is_some() && self.stderr_fd.is_some() {
            Err(ConfigError::ConflictingStdio(Stream::Stderr))
        } else {
            Ok(())
        }
    }

    /// Where the child's `stream` comes from.
    pub fn source(&self, stream: Stream) -> (source: StdioSource)
        ensures
            source@ == self@.source(stream),
    {
        let (path, fd) = match stream {
            Stream::Stdin => (&self.stdin, self.stdin_fd),
            Stream::Stdout => (&self.stdout, self.stdout_fd),
            Stream::Stderr => (&self.stderr, self.stderr_fd),
        };
        match path {
            Some(p) => StdioSource::Path(copy_bytes(p)),
            None => match fd {
                Some(fd) => StdioSource::Fd(fd),
                None => StdioSource::Inherit,
            },
        }
    }
}

} // verus!
