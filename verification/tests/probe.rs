use dis86::emu::StepOutcome;
use dis86::probe::{
  abi_verdict, entry_verdict, fault_verdict, handler_register_verdict, initialized_verdict, return_boundary_verdict,
  sentinel_read_verdict, sentinel_verdict, service_result_verdict, service_return_verdict, single_verdict,
  step_verdict, target_exit_verdict, vector_verdict, HandlerCheck, SentinelRead,
};

#[test]
fn control_block_and_entry_checks() {
  assert_eq!(abi_verdict(1, 88), Ok(()));
  assert_eq!(abi_verdict(2, 88), Err("unexpected control ABI: version=2, size=88".to_string()));
  assert_eq!(entry_verdict(0x0813, 0x0823), Ok(0x0823));
  assert_eq!(entry_verdict(0, 0), Err("runtime PSP was not published".to_string()));
  assert_eq!(entry_verdict(0x0813, 0x0800), Err("expected entry CS=0823 from PSP=0813, got 0800".to_string()));
  assert_eq!(entry_verdict(0xfff8, 0x0008), Ok(0x0008));
  assert_eq!(sentinel_verdict(0x0823, 0x10000), Ok(0x8250));
  assert_eq!(
    sentinel_verdict(0x0823, 0x8251),
    Err("sentinel linear address 0x8250 exceeds /dosemu_mem size 0x8251".to_string())
  );
  assert_eq!(initialized_verdict(1, 88, 0x0813), Ok(()));
  assert_eq!(initialized_verdict(1, 88, 0), Err("invalid initialized control block".to_string()));
}

#[test]
fn step_checks_in_order() {
  assert_eq!(step_verdict(1, 0, 1, 0x1234, 4, 4, 0x1234), Ok(()));
  assert_eq!(
    step_verdict(3, StepOutcome::TARGET_EXIT | StepOutcome::END_ACK, 0, 0, 0, 4, 0),
    Err("target exited while waiting for request 3".to_string())
  );
  assert_eq!(
    step_verdict(3, StepOutcome::END_ACK, 0, 0, 0, 4, 0),
    Err("unexpected END_ACK while waiting for request 3".to_string())
  );
  assert_eq!(
    step_verdict(2, 0, 2, 0, 0, 4, 0),
    Err("request 2: expected one decoded instruction, got 2".to_string())
  );
  assert_eq!(
    step_verdict(2, 0, 1, 0x1235, 5, 4, 0x1234),
    Err("request 2: expected AX=1234 IP=0004, got AX=1235 IP=0005".to_string())
  );
  assert_eq!(single_verdict(1, 3, 0, 3), Ok(()));
  assert_eq!(single_verdict(1, 3, StepOutcome::END_ACK, 3), Err("expected single instruction ending at IP=0003".to_string()));
}

#[test]
fn sentinel_service_and_exit_checks() {
  assert_eq!(sentinel_read_verdict(SentinelRead::Loaded, 0x1111), Ok(()));
  assert_eq!(
    sentinel_read_verdict(SentinelRead::Loaded, 0x0000),
    Err("probe image sentinel not visible through /dosemu_mem: expected 1111, got 0000".to_string())
  );
  assert_eq!(
    sentinel_read_verdict(SentinelRead::AfterEnd, 0x1236),
    Err("instruction after end barrier executed: sentinel changed to 1236".to_string())
  );
  assert_eq!(service_return_verdict(0, 1, 0x0005, 0x0823, 0x000e, 0x0823), Ok(()));
  assert!(service_return_verdict(0, 1, 0x3000, 0x0823, 0x000e, 0x0823).is_err());
  assert_eq!(
    service_result_verdict(0x0005, 0x0004),
    Err("post-service AX was not consumable by target code: AX=0005, BX=0004".to_string())
  );
  assert_eq!(target_exit_verdict(StepOutcome::TARGET_EXIT, 0, 0), Ok(()));
  assert_eq!(target_exit_verdict(StepOutcome::TARGET_EXIT, 0, 0x813), Err("inconsistent TARGET_EXIT publication".to_string()));
  assert_eq!(vector_verdict(0x000a, 0x0823, 0x0823), Ok(()));
  assert_eq!(
    vector_verdict(0x0000, 0x0000, 0x0823),
    Err("DOS service had not completed at ACK: vector 60h=0000:0000".to_string())
  );
  assert_eq!(handler_register_verdict(HandlerCheck::MovDx, 0x000a, 0x000a), Ok(()));
  assert_eq!(handler_register_verdict(HandlerCheck::MovAx, 0, 0x2560), Err("MOV AX did not execute".to_string()));
  assert_eq!(return_boundary_verdict(0x0823, 0x1234, 0x0823), Ok(()));
  assert!(return_boundary_verdict(0x0823, 0x0005, 0x0823).is_err());
  assert_eq!(fault_verdict(StepOutcome::FAULT, 1, 0x1234, 0, 0, 7), Ok(()));
  assert_eq!(fault_verdict(0, 1, 0x1234, 0, 0, 7), Err("inconsistent post-fault publication".to_string()));
}
