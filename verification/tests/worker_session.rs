//! The worker's per-command decisions and the serialized session over an
//! in-memory endpoint level.

use volume_control::level::VolumeLevel;
use volume_control::protocol::VolumeCommand;
use volume_control::worker::{worker_step, WorkerSession};

#[test]
fn get_reads_without_touching_the_endpoint() {
    let step = worker_step(&VolumeCommand::GetVolume, VolumeLevel::from_units(4200));
    assert!(step.apply.is_none());
    assert_eq!(step.reply.unwrap().units(), 4200);
    assert!(!step.exit);
}

#[test]
fn set_applies_and_reports_the_clamped_level() {
    let step = worker_step(&VolumeCommand::SetVolume(15000), VolumeLevel::from_units(0));
    assert_eq!(step.apply.unwrap().units(), 10000);
    assert_eq!(step.reply.unwrap().units(), 10000);
    assert!(!step.exit);
}

#[test]
fn up_and_down_step_from_the_current_level() {
    let up = worker_step(&VolumeCommand::VolumeUp, VolumeLevel::from_units(9700));
    assert_eq!(up.apply.unwrap().units(), 10000);
    assert_eq!(up.reply.unwrap().units(), 10000);

    let down = worker_step(&VolumeCommand::VolumeDown, VolumeLevel::from_units(0));
    assert_eq!(down.apply.unwrap().units(), 0);
    assert_eq!(down.reply.unwrap().units(), 0);
}

#[test]
fn shutdown_ends_the_loop_without_a_reply() {
    let step = worker_step(&VolumeCommand::Shutdown, VolumeLevel::from_units(5000));
    assert!(step.apply.is_none());
    assert!(step.reply.is_none());
    assert!(step.exit);
}

#[test]
fn only_reads_and_steps_need_the_current_level() {
    assert!(VolumeCommand::GetVolume.needs_current_level());
    assert!(VolumeCommand::VolumeUp.needs_current_level());
    assert!(VolumeCommand::VolumeDown.needs_current_level());
    assert!(!VolumeCommand::SetVolume(5000).needs_current_level());
    assert!(!VolumeCommand::Shutdown.needs_current_level());
    assert!(VolumeCommand::Shutdown.is_shutdown());
    assert!(!VolumeCommand::GetVolume.is_shutdown());
}

#[test]
fn a_session_serves_commands_one_at_a_time() {
    let mut session = WorkerSession::start(VolumeLevel::from_units(5000));
    assert_eq!(session.current_level().units(), 5000);

    let out = session.handle_command(&VolumeCommand::VolumeUp);
    assert_eq!(out.reply.unwrap().unwrap().units(), 5500);
    assert!(!out.exit);

    let out = session.handle_command(&VolumeCommand::SetVolume(-2000));
    assert_eq!(out.reply.unwrap().unwrap().units(), 0);
    assert!(!out.exit);

    let out = session.handle_command(&VolumeCommand::GetVolume);
    assert_eq!(out.reply.unwrap().unwrap().units(), 0);
    assert!(!out.exit);

    let out = session.handle_command(&VolumeCommand::Shutdown);
    assert!(out.reply.is_none());
    assert!(out.exit);
}
