use sandbox::config::{ConfigError, OpenMode, SandboxConfig, StdioSource, Stream};

#[test]
fn default_configuration_asks_for_nothing() {
    let config = SandboxConfig::default();
    assert!(config.bin.is_empty());
    assert!(config.args.is_empty());
    assert!(config.env.is_empty());
    assert_eq!(config.chroot, None);
    assert_eq!(config.uid, None);
    assert_eq!(config.gid, None);
    assert_eq!(config.stdin, None);
    assert_eq!(config.stdout_fd, None);
    assert_eq!(config.real_time_limit, None);
    assert_eq!(config.rlimit_cpu, None);
    assert_eq!(config.cg_limit_memory, None);
    assert_eq!(config.cg_limit_max_pids, None);
    assert!(config.bindmount_rw.is_empty());
    assert!(config.bindmount_ro.is_empty());
    assert_eq!(config.mount_proc, None);
    assert_eq!(config.mount_tmpfs, None);
}

#[test]
fn default_configuration_is_valid() {
    assert_eq!(SandboxConfig::default().validate(), Ok(()));
}

#[test]
fn one_source_for_each_stream_is_valid() {
    let mut config = SandboxConfig::default();
    config.stdin = Some(b"in.txt".to_vec());
    config.stdout_fd = Some(5);
    config.stderr = Some(b"err.txt".to_vec());
    assert_eq!(config.validate(), Ok(()));
}

#[test]
fn path_and_descriptor_for_stdin_conflict() {
    let mut config = SandboxConfig::default();
    config.stdin = Some(b"in.txt".to_vec());
    config.stdin_fd = Some(3);
    assert_eq!(config.validate(), Err(ConfigError::ConflictingStdio(Stream::Stdin)));
}

#[test]
fn path_and_descriptor_for_stdout_conflict() {
    let mut config = SandboxConfig::default();
    config.stdout = Some(b"out.txt".to_vec());
    config.stdout_fd = Some(4);
    assert_eq!(config.validate(), Err(ConfigError::ConflictingStdio(Stream::Stdout)));
}

#[test]
fn path_and_descriptor_for_stderr_conflict() {
    let mut config = SandboxConfig::default();
    config.stderr = Some(b"err.txt".to_vec());
    config.stderr_fd = Some(5);
    assert_eq!(config.validate(), Err(ConfigError::ConflictingStdio(Stream::Stderr)));
}

#[test]
fn first_conflicting_stream_is_named() {
    let mut config = SandboxConfig::default();
    config.stdout = Some(b"out.txt".to_vec());
    config.stdout_fd = Some(4);
    config.stderr = Some(b"err.txt".to_vec());
    config.stderr_fd = Some(5);
    assert_eq!(config.validate(), Err(ConfigError::ConflictingStdio(Stream::Stdout)));
}

#[test]
fn stream_with_a_path_is_opened_from_it() {
    let mut config = SandboxConfig::default();
    config.stdout = Some(b"out.txt".to_vec());
    assert_eq!(config.source(Stream::Stdout), StdioSource::Path(b"out.txt".to_vec()));
}

#[test]
fn stream_with_a_descriptor_is_duplicated_from_it() {
    let mut config = SandboxConfig::default();
    config.stdin_fd = Some(7);
    assert_eq!(config.source(Stream::Stdin), StdioSource::Fd(7));
}

#[test]
fn stream_without_a_source_is_inherited() {
    let mut config = SandboxConfig::default();
    config.stdin_fd = Some(7);
    config.stdout = Some(b"out.txt".to_vec());
    assert_eq!(config.source(Stream::Stderr), StdioSource::Inherit);
}

#[test]
fn streams_have_their_usual_descriptors() {
    assert_eq!(Stream::Stdin.descriptor(), 0);
    assert_eq!(Stream::Stdout.descriptor(), 1);
    assert_eq!(Stream::Stderr.descriptor(), 2);
}

#[test]
fn input_is_read_and_outputs_are_written_afresh() {
    assert_eq!(Stream::Stdin.open_mode(), OpenMode::Read);
    assert_eq!(Stream::Stdout.open_mode(), OpenMode::WriteTruncate);
    assert_eq!(Stream::Stderr.open_mode(), OpenMode::WriteTruncate);
}
