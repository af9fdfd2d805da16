use dis86::dosemu::dosemu_command;
use dis86::fixture::Fixture;
use dis86::mz::Exe;

fn mz_image(cs: u16, ip: u16) -> Vec<u8> {
  let mut image = vec![0u8; 28];
  image[0..2].copy_from_slice(b"MZ");
  image[2..4].copy_from_slice(&(28u16).to_le_bytes());
  image[4..6].copy_from_slice(&(1u16).to_le_bytes());
  image[8..10].copy_from_slice(&(1u16).to_le_bytes());
  image[20..22].copy_from_slice(&ip.to_le_bytes());
  image[22..24].copy_from_slice(&cs.to_le_bytes());
  image[24..26].copy_from_slice(&(28u16).to_le_bytes());
  image
}

#[test]
fn command_arguments_environment_and_entry_point() {
  let exe = Exe::decode(&mz_image(0x1234, 0xabcd)).unwrap();
  let spec = dosemu_command("dosemu-test".to_string(), "/tmp/work", "target.exe", &exe);
  assert_eq!(spec.program, "dosemu-test");
  assert_eq!(
    spec.args,
    vec![
      "-dumb", "-quiet", "-K", "/tmp/work", "-E", "target.exe", "-I", "cpu_vm emulated", "-I", "cpuemu 1", "-I",
      "cpu_vm_dpmi emulated", "-I", "mappingdriver mapshm"
    ]
  );
  assert_eq!(
    spec.env,
    vec![
      ("DIIS_DOSEMU_VALIDATOR".to_string(), "1".to_string()),
      ("DIIS_DOSEMU_MZ_CS".to_string(), "4660".to_string()),
      ("DIIS_DOSEMU_MZ_IP".to_string(), "43981".to_string()),
      ("DIIS_DOSEMU_TARGET_DOS_PATH".to_string(), "?:\\target.exe".to_string())
    ]
  );
}

#[test]
fn command_for_a_fixture_starts_at_its_entry() {
  let fx = Fixture::new("smoke", vec![0x90]);
  let exe = Exe::decode(&fx.build_mz()).unwrap();
  let spec = dosemu_command("dosemu".to_string(), "/d", "smoke.exe", &exe);
  assert_eq!(spec.env[1].1, "0");
  assert_eq!(spec.env[2].1, "0");
  assert_eq!(spec.env[3].1, "?:\\smoke.exe");
}

// ---------------------------------------------------------------------------
// Shutting the reference down
// ---------------------------------------------------------------------------

use dis86::dosemu::{
  init_error_text, init_wait_begin, init_wait_step, shutdown_begin, shutdown_error_text, shutdown_step, step_guard,
  InitAction, InitError, InitEvent, InitPhase, STARTUP_TIMEOUT_MS, ShutdownAction, ShutdownError, ShutdownEvent,
  ShutdownPhase, ShutdownState, SHUTDOWN_TIMEOUT_MS,
};

/// Drives a shutdown through the events, returning the final state and
/// the actions asked for.
fn drive(shut_down: bool, finished: bool, events: &[ShutdownEvent]) -> (ShutdownState, Vec<ShutdownAction>) {
  let (mut s, a) = shutdown_begin(shut_down, finished);
  let mut actions = vec![a];
  for ev in events {
    let (next, a) = shutdown_step(s, *ev);
    s = next;
    actions.push(a);
  }
  (s, actions)
}

#[test]
fn shutdown_after_shutdown_succeeds_at_once() {
  let (s, actions) = drive(true, false, &[]);
  assert_eq!(actions, vec![ShutdownAction::Succeed]);
  assert_eq!(s.phase, ShutdownPhase::Closed);
  let (s2, a) = shutdown_step(s, ShutdownEvent::Clock(7));
  assert_eq!(a, ShutdownAction::Succeed);
  assert_eq!(s2, s);
}

#[test]
fn child_exited_before_the_request() {
  let (s, actions) = drive(false, true, &[ShutdownEvent::Exited(Some(true))]);
  assert_eq!(actions, vec![ShutdownAction::PollExit, ShutdownAction::Succeed]);
  assert!(s.shut_down);
  let (s, actions) = drive(false, false, &[ShutdownEvent::Exited(Some(true))]);
  assert_eq!(actions[1], ShutdownAction::Fail(ShutdownError::ExitedEarly));
  assert!(s.shut_down);
  let (_, actions) = drive(false, true, &[ShutdownEvent::Exited(Some(false))]);
  assert_eq!(actions[1], ShutdownAction::Fail(ShutdownError::ExitedEarly));
}

#[test]
fn acknowledged_shutdown_waits_for_a_clean_exit() {
  let (s, actions) = drive(
    false,
    false,
    &[
      ShutdownEvent::Exited(None),
      ShutdownEvent::Clock(100),
      ShutdownEvent::EndAck(false),
      ShutdownEvent::Exited(None),
      ShutdownEvent::Clock(101),
      ShutdownEvent::EndAck(true),
      ShutdownEvent::Clock(200),
      ShutdownEvent::Exited(None),
      ShutdownEvent::Clock(201),
      ShutdownEvent::Exited(Some(true)),
    ],
  );
  assert_eq!(
    actions,
    vec![
      ShutdownAction::PollExit,
      ShutdownAction::RequestEnd,
      ShutdownAction::ReadAck,
      ShutdownAction::PollExit,
      ShutdownAction::ReadClock,
      ShutdownAction::SleepThenReadAck,
      ShutdownAction::ReadClock,
      ShutdownAction::PollExit,
      ShutdownAction::ReadClock,
      ShutdownAction::SleepThenPollExit,
      ShutdownAction::Succeed,
    ]
  );
  assert!(s.shut_down);
  assert_eq!(s.deadline, 200 + SHUTDOWN_TIMEOUT_MS);
}

#[test]
fn failures_after_the_request() {
  let start = [ShutdownEvent::Exited(None), ShutdownEvent::Clock(0)];
  // The child exits while the acknowledgement is awaited.
  let mut events = start.to_vec();
  events.extend([ShutdownEvent::EndAck(false), ShutdownEvent::Exited(Some(true))]);
  let (_, actions) = drive(false, false, &events);
  assert_eq!(*actions.last().unwrap(), ShutdownAction::Fail(ShutdownError::ExitedEarly));
  // No acknowledgement before the deadline.
  let mut events = start.to_vec();
  events.extend([ShutdownEvent::EndAck(false), ShutdownEvent::Exited(None), ShutdownEvent::Clock(SHUTDOWN_TIMEOUT_MS)]);
  let (s, actions) = drive(false, false, &events);
  assert_eq!(*actions.last().unwrap(), ShutdownAction::Terminate(ShutdownError::AckTimeout));
  assert!(s.shut_down);
  // The child fails after acknowledging.
  let mut events = start.to_vec();
  events.extend([ShutdownEvent::EndAck(true), ShutdownEvent::Clock(1), ShutdownEvent::Exited(Some(false))]);
  let (_, actions) = drive(false, true, &events);
  assert_eq!(*actions.last().unwrap(), ShutdownAction::Fail(ShutdownError::FailedAfterAck));
  // The child does not exit before the deadline.
  let mut events = start.to_vec();
  events.extend([
    ShutdownEvent::EndAck(true),
    ShutdownEvent::Clock(1),
    ShutdownEvent::Exited(None),
    ShutdownEvent::Clock(1 + SHUTDOWN_TIMEOUT_MS),
  ]);
  let (s, actions) = drive(false, false, &events);
  assert_eq!(*actions.last().unwrap(), ShutdownAction::Terminate(ShutdownError::ExitTimeout));
  assert!(s.shut_down);
}

#[test]
fn unexpected_events_ask_again_and_deadlines_saturate() {
  let (s, _) = shutdown_begin(false, false);
  assert_eq!(shutdown_step(s, ShutdownEvent::Clock(3)), (s, ShutdownAction::PollExit));
  let (s, _) = shutdown_step(s, ShutdownEvent::Exited(None));
  let (s, a) = shutdown_step(s, ShutdownEvent::Clock(u64::MAX - 1));
  assert_eq!(a, ShutdownAction::ReadAck);
  assert_eq!(s.deadline, u64::MAX);
}

#[test]
fn shutdown_messages() {
  assert_eq!(
    shutdown_error_text(ShutdownError::ExitedEarly, "exit status: 1"),
    "dosemu2 exited before shutdown acknowledgement: exit status: 1"
  );
  assert_eq!(
    shutdown_error_text(ShutdownError::AckTimeout, ""),
    "Timed out waiting for dosemu2 shutdown acknowledgement"
  );
  assert_eq!(
    shutdown_error_text(ShutdownError::FailedAfterAck, "signal: 9"),
    "dosemu2 failed after shutdown acknowledgement: signal: 9"
  );
  assert_eq!(
    shutdown_error_text(ShutdownError::ExitTimeout, ""),
    "Timed out waiting for dosemu2 to exit after shutdown acknowledgement"
  );
}

#[test]
fn stepping_is_refused_after_the_end() {
  assert_eq!(step_guard(false, false, false), Ok(()));
  assert_eq!(step_guard(true, true, true), Err("cannot step dosemu2 validator after shutdown".to_string()));
  assert_eq!(step_guard(false, true, true), Err("cannot step dosemu2 validator after target exit".to_string()));
  assert_eq!(
    step_guard(false, false, true),
    Err("cannot step dosemu2 validator after shutdown acknowledgement".to_string())
  );
}

#[test]
fn init_wait_covers_every_branch() {
  let (s, a) = init_wait_begin();
  assert_eq!(a, InitAction::ReadClock);
  let (s, a) = init_wait_step(s, InitEvent::Clock(100));
  assert_eq!(a, InitAction::ReadInitFlag);
  assert_eq!(s.deadline, 100 + STARTUP_TIMEOUT_MS);
  let (s1, a) = init_wait_step(s, InitEvent::InitFlag(false));
  assert_eq!(a, InitAction::PollExit);
  assert_eq!(init_wait_step(s1, InitEvent::Exited(true)).1, InitAction::Fail(InitError::Exited));
  let (s2, a) = init_wait_step(s1, InitEvent::Exited(false));
  assert_eq!(a, InitAction::ReadClock);
  assert_eq!(init_wait_step(s2, InitEvent::Clock(100 + STARTUP_TIMEOUT_MS)).1, InitAction::Fail(InitError::TimedOut));
  let (s3, a) = init_wait_step(s2, InitEvent::Clock(150));
  assert_eq!(a, InitAction::SleepThenReadInitFlag);
  let (s4, a) = init_wait_step(s3, InitEvent::InitFlag(true));
  assert_eq!(a, InitAction::ReadOwner);
  assert_eq!(init_wait_step(s4, InitEvent::Owner(false)).1, InitAction::Fail(InitError::ForeignOwner));
  let (s5, a) = init_wait_step(s4, InitEvent::Owner(true));
  assert_eq!(a, InitAction::ReadAbi);
  assert_eq!(init_wait_step(s5, InitEvent::Abi(2, 88, 88)).1, InitAction::Fail(InitError::Unsupported));
  assert_eq!(init_wait_step(s5, InitEvent::Abi(1, 80, 88)).1, InitAction::Fail(InitError::Unsupported));
  let (s6, a) = init_wait_step(s5, InitEvent::Abi(1, 96, 88));
  assert_eq!(a, InitAction::Succeed);
  assert_eq!(s6.phase, InitPhase::Done);
  // An unexpected event asks again.
  assert_eq!(init_wait_step(s1, InitEvent::Clock(3)), (s1, InitAction::PollExit));
}

#[test]
fn init_wait_messages() {
  assert_eq!(
    init_error_text(InitError::Exited, "exit status: 2", 0, 0, 0, 0),
    "dosemu2 exited before Hydra initialized: exit status: 2"
  );
  assert_eq!(
    init_error_text(InitError::ForeignOwner, "", 42, 7, 0, 0),
    "hydra_remote belongs to PID 42, which is not launcher PID 7 or its descendant"
  );
  assert_eq!(
    init_error_text(InitError::Unsupported, "", 0, 0, 3, 64),
    "unsupported dosemu2 validator ABI version 3 size 64"
  );
  assert_eq!(
    init_error_text(InitError::TimedOut, "", 0, 0, 0, 0),
    "Timed out waiting for Hydra initialization in dosemu2"
  );
}
