use sandbox::bindmount::BindMount;
use sandbox::channel::{decode, encode, Reading, SetupFailure};
use sandbox::config::SandboxConfig;
use sandbox::config::{ConfigError, Stream};
use sandbox::error::{LaunchError, SetupError};
use sandbox::launch::{Action, Event, Launch, Phase};
use sandbox::mount::plan;
use sandbox::output::{SandboxOutput, Termination, Usage};

fn bind(src: &[u8], dst: &[u8]) -> BindMount {
    BindMount { src: src.to_vec(), dst: dst.to_vec() }
}

fn usage() -> Usage {
    Usage { real_time: 1500, sys_time: 20, user_time: 400 }
}

fn mounting_config() -> SandboxConfig {
    let mut config = SandboxConfig::default();
    config.chroot = Some(b"/jail".to_vec());
    config.bindmount_rw = vec![bind(b"/work", b"/work")];
    config.bindmount_ro = vec![bind(b"/usr", b"/usr")];
    config.mount_proc = Some(b"/proc".to_vec());
    config.mount_tmpfs = Some(b"/tmp".to_vec());
    config
}

fn start(config: &SandboxConfig) -> (Launch, Action) {
    Launch::begin(plan(config).unwrap(), config)
}

/// Feeds the events one by one and returns the actions asked for, the first
/// one included.
fn drive(config: &SandboxConfig, events: &[Event]) -> (Launch, Vec<Action>) {
    let (mut launch, first) = start(config);
    let mut actions = vec![first];
    for event in events {
        let (next, action) = launch.step(*event);
        launch = next;
        actions.push(action);
    }
    (launch, actions)
}

#[test]
fn launch_without_mounts_starts_with_the_control_group() {
    let (launch, action) = start(&SandboxConfig::default());
    assert_eq!(action, Action::CreateCgroup);
    assert_eq!(launch.phase(), Phase::CreatingCgroup);
    assert!(launch.plan().is_empty());
}

#[test]
fn plain_run_that_exits_with_seven() {
    let config = SandboxConfig::default();
    let (launch, actions) = drive(
        &config,
        &[
            Event::Completed,
            Event::Completed,
            Event::ExecStarted,
            Event::Terminated(Termination::Exited(7), usage()),
            Event::PeakMemory(3 * 1024 * 1024),
            Event::Completed,
        ],
    );
    assert_eq!(
        actions,
        vec![
            Action::CreateCgroup,
            Action::Spawn,
            Action::AwaitExec,
            Action::Wait { deadline: None },
            Action::ReadPeakMemory,
            Action::RemoveCgroup,
            Action::Finish(Ok(SandboxOutput {
                code: 7,
                signal: 0,
                real_time: 1500,
                sys_time: 20,
                user_time: 400,
                memory: 3072
            })),
        ]
    );
    assert_eq!(launch.phase(), Phase::Done);
}

#[test]
fn run_killed_by_a_segmentation_fault() {
    let config = SandboxConfig::default();
    let (_, actions) = drive(
        &config,
        &[
            Event::Completed,
            Event::Completed,
            Event::ExecStarted,
            Event::Terminated(Termination::Signaled(11), usage()),
            Event::PeakMemory(2048),
            Event::Completed,
        ],
    );
    assert_eq!(
        actions.last(),
        Some(&Action::Finish(Ok(SandboxOutput {
            code: 0,
            signal: 11,
            real_time: 1500,
            sys_time: 20,
            user_time: 400,
            memory: 2
        })))
    );
}

#[test]
fn full_run_mounts_in_order_and_unmounts_in_reverse() {
    let mut config = mounting_config();
    config.cg_limit_memory = Some(1 << 26);
    config.cg_limit_max_pids = Some(16);
    config.real_time_limit = Some(2000);
    let (launch, actions) = drive(
        &config,
        &[
            Event::Completed,
            Event::Completed,
            Event::Completed,
            Event::Completed,
            Event::Completed,
            Event::Completed,
            Event::Completed,
            Event::Completed,
            Event::Completed,
            Event::ExecStarted,
            Event::Terminated(Termination::Exited(0), usage()),
            Event::PeakMemory(1 << 20),
            Event::Completed,
            Event::Completed,
            Event::Completed,
            Event::Completed,
            Event::Completed,
        ],
    );
    assert_eq!(
        actions,
        vec![
            Action::Mount(0),
            Action::Mount(1),
            Action::Mount(2),
            Action::Mount(3),
            Action::Mount(4),
            Action::CreateCgroup,
            Action::SetMemoryLimit(1 << 26),
            Action::SetPidsLimit(16),
            Action::Spawn,
            Action::AwaitExec,
            Action::Wait { deadline: Some(2000) },
            Action::ReadPeakMemory,
            Action::RemoveCgroup,
            Action::Unmount(4),
            Action::Unmount(3),
            Action::Unmount(1),
            Action::Unmount(0),
            Action::Finish(Ok(SandboxOutput {
                code: 0,
                signal: 0,
                real_time: 1500,
                sys_time: 20,
                user_time: 400,
                memory: 1024
            })),
        ]
    );
    assert_eq!(launch.phase(), Phase::Done);
    assert_eq!(launch.plan().len(), 5);
}

#[test]
fn child_past_its_deadline_is_killed_and_waited_for() {
    let mut config = SandboxConfig::default();
    config.real_time_limit = Some(1000);
    let (_, actions) = drive(
        &config,
        &[
            Event::Completed,
            Event::Completed,
            Event::ExecStarted,
            Event::DeadlineReached,
            Event::Completed,
            Event::Terminated(Termination::Signaled(9), usage()),
            Event::PeakMemory(4096),
            Event::Completed,
        ],
    );
    assert_eq!(
        actions,
        vec![
            Action::CreateCgroup,
            Action::Spawn,
            Action::AwaitExec,
            Action::Wait { deadline: Some(1000) },
            Action::Kill,
            Action::Wait { deadline: None },
            Action::ReadPeakMemory,
            Action::RemoveCgroup,
            Action::Finish(Ok(SandboxOutput {
                code: 0,
                signal: 9,
                real_time: 1500,
                sys_time: 20,
                user_time: 400,
                memory: 4
            })),
        ]
    );
}

#[test]
fn child_that_ends_while_being_killed_is_reported_as_it_ended() {
    let mut config = SandboxConfig::default();
    config.real_time_limit = Some(1000);
    let (_, actions) = drive(
        &config,
        &[
            Event::Completed,
            Event::Completed,
            Event::ExecStarted,
            Event::DeadlineReached,
            Event::Failed,
            Event::Terminated(Termination::Exited(3), usage()),
            Event::PeakMemory(0),
            Event::Completed,
        ],
    );
    assert_eq!(actions[5], Action::Wait { deadline: None });
    assert_eq!(
        actions.last(),
        Some(&Action::Finish(Ok(SandboxOutput {
            code: 3,
            signal: 0,
            real_time: 1500,
            sys_time: 20,
            user_time: 400,
            memory: 0
        })))
    );
}

#[test]
fn failed_mount_undoes_the_mounts_made_before_it() {
    let config = mounting_config();
    let (launch, actions) = drive(
        &config,
        &[
            Event::Completed,
            Event::Completed,
            Event::Failed,
            Event::Completed,
            Event::Completed,
        ],
    );
    assert_eq!(
        actions,
        vec![
            Action::Mount(0),
            Action::Mount(1),
            Action::Mount(2),
            Action::Unmount(1),
            Action::Unmount(0),
            Action::Finish(Err(SetupError::MountFailed)),
        ]
    );
    assert_eq!(launch.phase(), Phase::Done);
}

#[test]
fn failed_first_mount_finishes_at_once() {
    let config = mounting_config();
    let (launch, actions) = drive(&config, &[Event::Failed]);
    assert_eq!(actions, vec![Action::Mount(0), Action::Finish(Err(SetupError::MountFailed))]);
    assert_eq!(launch.phase(), Phase::Done);
}

#[test]
fn failed_unmount_does_not_stop_the_release() {
    let config = mounting_config();
    let (_, actions) = drive(
        &config,
        &[
            Event::Completed,
            Event::Completed,
            Event::Completed,
            Event::Completed,
            Event::Failed,
            Event::Failed,
            Event::Failed,
            Event::Failed,
        ],
    );
    assert_eq!(
        actions[4..].to_vec(),
        vec![
            Action::Mount(4),
            Action::Unmount(3),
            Action::Unmount(1),
            Action::Unmount(0),
            Action::Finish(Err(SetupError::MountFailed)),
        ]
    );
}

#[test]
fn failed_control_group_holds_nothing_to_remove() {
    let (_, actions) = drive(&SandboxConfig::default(), &[Event::Failed]);
    assert_eq!(
        actions,
        vec![Action::CreateCgroup, Action::Finish(Err(SetupError::CgroupFailed))]
    );
}

#[test]
fn failed_ceiling_removes_the_control_group() {
    let mut config = SandboxConfig::default();
    config.cg_limit_memory = Some(1024);
    let (_, actions) = drive(&config, &[Event::Completed, Event::Failed, Event::Completed]);
    assert_eq!(
        actions,
        vec![
            Action::CreateCgroup,
            Action::SetMemoryLimit(1024),
            Action::RemoveCgroup,
            Action::Finish(Err(SetupError::CgroupFailed)),
        ]
    );
    let mut config = SandboxConfig::default();
    config.cg_limit_max_pids = Some(8);
    let (_, actions) = drive(&config, &[Event::Completed, Event::Failed, Event::Completed]);
    assert_eq!(
        actions,
        vec![
            Action::CreateCgroup,
            Action::SetPidsLimit(8),
            Action::RemoveCgroup,
            Action::Finish(Err(SetupError::CgroupFailed)),
        ]
    );
}

#[test]
fn failed_spawn_releases_everything() {
    let mut config = SandboxConfig::default();
    config.mount_tmpfs = Some(b"/tmp".to_vec());
    let (_, actions) = drive(
        &config,
        &[Event::Completed, Event::Completed, Event::Failed, Event::Completed, Event::Completed],
    );
    assert_eq!(
        actions,
        vec![
            Action::Mount(0),
            Action::CreateCgroup,
            Action::Spawn,
            Action::RemoveCgroup,
            Action::Unmount(0),
            Action::Finish(Err(SetupError::SpawnFailed)),
        ]
    );
}

#[test]
fn child_that_fails_its_setup_is_not_waited_for() {
    let (_, actions) = drive(
        &SandboxConfig::default(),
        &[
            Event::Completed,
            Event::Completed,
            Event::ChildSetupFailed(SetupFailure { step: 2, errno: 13 }),
            Event::Completed,
        ],
    );
    assert_eq!(
        actions,
        vec![
            Action::CreateCgroup,
            Action::Spawn,
            Action::AwaitExec,
            Action::RemoveCgroup,
            Action::Finish(Err(SetupError::ChildSetupFailed(SetupFailure { step: 2, errno: 13 }))),
        ]
    );
}

#[test]
fn broken_channel_kills_the_child_first() {
    let (_, actions) = drive(
        &SandboxConfig::default(),
        &[
            Event::Completed,
            Event::Completed,
            Event::Failed,
            Event::Completed,
            Event::Terminated(Termination::Signaled(9), usage()),
            Event::Completed,
        ],
    );
    assert_eq!(
        actions,
        vec![
            Action::CreateCgroup,
            Action::Spawn,
            Action::AwaitExec,
            Action::Kill,
            Action::Wait { deadline: None },
            Action::RemoveCgroup,
            Action::Finish(Err(SetupError::ChannelBroken)),
        ]
    );
}

#[test]
fn child_that_cannot_be_reaped_gives_no_record() {
    let (_, actions) = drive(
        &SandboxConfig::default(),
        &[
            Event::Completed,
            Event::Completed,
            Event::ExecStarted,
            Event::Failed,
            Event::Completed,
            Event::Failed,
            Event::Completed,
        ],
    );
    assert_eq!(
        actions[4..].to_vec(),
        vec![
            Action::Kill,
            Action::Wait { deadline: None },
            Action::RemoveCgroup,
            Action::Finish(Err(SetupError::ReapFailed)),
        ]
    );
}

#[test]
fn unreadable_peak_memory_gives_no_record() {
    let (_, actions) = drive(
        &SandboxConfig::default(),
        &[
            Event::Completed,
            Event::Completed,
            Event::ExecStarted,
            Event::Terminated(Termination::Exited(0), usage()),
            Event::Failed,
            Event::Completed,
        ],
    );
    assert_eq!(
        actions[5..].to_vec(),
        vec![Action::RemoveCgroup, Action::Finish(Err(SetupError::AccountingFailed))]
    );
}

#[test]
fn deadline_without_a_limit_is_not_expected() {
    let (_, actions) = drive(
        &SandboxConfig::default(),
        &[
            Event::Completed,
            Event::Completed,
            Event::ExecStarted,
            Event::DeadlineReached,
            Event::Completed,
            Event::Completed,
            Event::Completed,
        ],
    );
    assert_eq!(
        actions[4..].to_vec(),
        vec![
            Action::Kill,
            Action::Wait { deadline: None },
            Action::RemoveCgroup,
            Action::Finish(Err(SetupError::UnexpectedEvent)),
        ]
    );
}

#[test]
fn event_that_fits_no_action_ends_the_launch() {
    let (_, actions) = drive(
        &mounting_config(),
        &[Event::Completed, Event::PeakMemory(1), Event::Completed],
    );
    assert_eq!(
        actions,
        vec![
            Action::Mount(0),
            Action::Mount(1),
            Action::Unmount(0),
            Action::Finish(Err(SetupError::UnexpectedEvent)),
        ]
    );
}

#[test]
fn finished_launch_repeats_its_result() {
    let (launch, actions) = drive(&SandboxConfig::default(), &[Event::Failed]);
    assert_eq!(actions[1], Action::Finish(Err(SetupError::CgroupFailed)));
    let (launch, again) = launch.step(Event::Completed);
    assert_eq!(again, Action::Finish(Err(SetupError::CgroupFailed)));
    assert_eq!(launch.phase(), Phase::Done);
}

#[test]
fn every_way_out_releases_what_was_made() {
    let config = mounting_config();
    let outcomes = [
        Event::Completed,
        Event::Failed,
        Event::ExecStarted,
        Event::ChildSetupFailed(SetupFailure { step: 0, errno: 1 }),
        Event::Terminated(Termination::Exited(1), usage()),
        Event::DeadlineReached,
        Event::PeakMemory(1),
    ];
    // Every script of up to five events out of the seven, each followed by
    // events that let the launch run to its end.
    let mut script = [0usize; 5];
    loop {
        let (mut launch, mut action) = start(&config);
        let mut held: Vec<usize> = Vec::new();
        let mut group = false;
        let mut steps = 0;
        let mut at = 0;
        loop {
            let event = if at < script.len() { outcomes[script[at]] } else { Event::Completed };
            at += 1;
            match action {
                Action::Mount(i) => {
                    if event == Event::Completed && launch.plan()[i].creates_mount() {
                        held.push(i);
                    }
                }
                Action::Unmount(i) => assert_eq!(held.pop(), Some(i)),
                Action::CreateCgroup => group = event == Event::Completed,
                Action::RemoveCgroup => group = false,
                Action::Finish(_) => break,
                _ => {}
            }
            let (next, asked) = launch.step(event);
            launch = next;
            action = asked;
            steps += 1;
            assert!(steps < 64);
        }
        assert!(held.is_empty());
        assert!(!group);
        assert_eq!(launch.phase(), Phase::Done);
        let mut k = 0;
        while k < script.len() {
            script[k] += 1;
            if script[k] < outcomes.len() {
                break;
            }
            script[k] = 0;
            k += 1;
        }
        if k == script.len() {
            break;
        }
    }
}

#[test]
fn prepared_launch_starts_with_the_first_mount() {
    let config = mounting_config();
    match Launch::prepare(&config) {
        Ok((launch, action)) => {
            assert_eq!(action, Action::Mount(0));
            assert_eq!(launch.phase(), Phase::Mounting);
            assert_eq!(launch.plan(), &plan(&config).unwrap());
        }
        Err(e) => panic!("refused: {:?}", e),
    }
}

#[test]
fn conflicting_streams_are_refused_before_anything_is_done() {
    let mut config = mounting_config();
    config.stderr = Some(b"err".to_vec());
    config.stderr_fd = Some(2);
    assert_eq!(
        Launch::prepare(&config).err(),
        Some(LaunchError::Config(ConfigError::ConflictingStdio(Stream::Stderr)))
    );
}

#[test]
fn destination_outside_the_root_is_refused_before_anything_is_done() {
    let mut config = mounting_config();
    config.mount_tmpfs = Some(b"/../tmp".to_vec());
    assert_eq!(
        Launch::prepare(&config).err(),
        Some(LaunchError::Setup(SetupError::DestinationOutsideRoot))
    );
}

#[test]
fn conflict_is_reported_before_a_bad_destination() {
    let mut config = mounting_config();
    config.mount_proc = Some(b"proc".to_vec());
    config.stdin = Some(b"in".to_vec());
    config.stdin_fd = Some(0);
    assert_eq!(
        Launch::prepare(&config).err(),
        Some(LaunchError::Config(ConfigError::ConflictingStdio(Stream::Stdin)))
    );
}

#[test]
fn reading_of_the_channel_becomes_the_outcome_of_the_wait_for_exec() {
    assert_eq!(Event::from_reading(Reading::Started), Event::ExecStarted);
    let failure = SetupFailure { step: 4, errno: 2 };
    assert_eq!(Event::from_reading(Reading::Failed(failure)), Event::ChildSetupFailed(failure));
    assert_eq!(Event::from_reading(Reading::Malformed), Event::Failed);
}

#[test]
fn message_of_the_child_ends_the_launch_with_its_failure() {
    let failure = SetupFailure { step: 3, errno: 24 };
    let read = decode(&encode(failure));
    let (_, actions) = drive(
        &SandboxConfig::default(),
        &[Event::Completed, Event::Completed, Event::from_reading(read), Event::Completed],
    );
    assert_eq!(actions.last(), Some(&Action::Finish(Err(SetupError::ChildSetupFailed(failure)))));
}

#[test]
fn garbled_message_counts_as_a_broken_channel() {
    let read = decode(&[1, 2, 3]);
    let (_, actions) = drive(
        &SandboxConfig::default(),
        &[
            Event::Completed,
            Event::Completed,
            Event::from_reading(read),
            Event::Completed,
            Event::Completed,
            Event::Completed,
        ],
    );
    assert_eq!(actions[3], Action::Kill);
    assert_eq!(actions.last(), Some(&Action::Finish(Err(SetupError::ChannelBroken))));
}
