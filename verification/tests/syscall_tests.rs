use tmr_kernel::process::{init, Kernel, KernelError, State, TrapFrame};
use tmr_kernel::syscall::{
    make_syscall, run_tmr_pipeline, verify_vote, Syscall, SyscallOutcome,
};

#[test]
fn opcode_numbers_decode() {
    assert_eq!(Syscall::try_from(0), Ok(Syscall::Nop));
    assert_eq!(Syscall::try_from(1), Ok(Syscall::DumpRegisters));
    assert_eq!(Syscall::try_from(2), Ok(Syscall::Sleep));
    assert_eq!(Syscall::try_from(3), Ok(Syscall::Exit));
    assert_eq!(Syscall::try_from(4), Ok(Syscall::TmrAdd));
    assert_eq!(Syscall::try_from(5), Ok(Syscall::Verify));
    assert_eq!(Syscall::try_from(6), Ok(Syscall::PrintTotal));
    assert_eq!(Syscall::try_from(7), Ok(Syscall::Print));
    assert_eq!(Syscall::try_from(8), Ok(Syscall::Sum));
    assert_eq!(Syscall::try_from(9), Err(()));
    assert_eq!(Syscall::try_from(1000), Err(()));
}

#[test]
fn voter_picks_the_majority() {
    let buf = vec![
        Some(vec![1, 2, 3]),
        Some(vec![1, 2, 3]),
        Some(vec![9, 9, 9]),
    ];
    let rep = verify_vote(&buf).unwrap();
    assert_eq!(rep.index, 0);
    assert_eq!(rep.score, 1);
    assert_eq!(rep.accepted, Some(vec![1, 2, 3]));
}

#[test]
fn voter_majority_at_the_back() {
    let buf = vec![
        Some(vec![9, 9, 9]),
        Some(vec![1, 2, 3]),
        Some(vec![1, 2, 3]),
    ];
    let rep = verify_vote(&buf).unwrap();
    assert_eq!(rep.index, 1);
    assert_eq!(rep.score, 1);
    assert_eq!(rep.accepted, Some(vec![1, 2, 3]));
}

#[test]
fn voter_no_majority_falls_back_to_first() {
    let buf = vec![
        Some(vec![1, 2, 3]),
        Some(vec![4, 5, 6]),
        Some(vec![7, 8, 9]),
    ];
    let rep = verify_vote(&buf).unwrap();
    // the defined (if unsatisfying) behavior: first entry, score 0
    assert_eq!(rep.index, 0);
    assert_eq!(rep.score, 0);
    assert_eq!(rep.accepted, Some(vec![1, 2, 3]));
}

#[test]
fn voter_on_empty_buffer() {
    let buf: Vec<Option<Vec<usize>>> = Vec::new();
    assert!(verify_vote(&buf).is_none());
}

#[test]
fn voter_with_absent_entries() {
    let buf: Vec<Option<Vec<usize>>> = vec![None, None, None];
    let rep = verify_vote(&buf).unwrap();
    // absent entries never agree with anything
    assert_eq!(rep.index, 0);
    assert_eq!(rep.score, 0);
    assert_eq!(rep.accepted, None);
}

#[test]
fn voter_length_mismatch_is_disagreement() {
    let buf = vec![
        Some(vec![1, 2, 3]),
        Some(vec![1, 2]),
        Some(vec![1, 2, 3, 4]),
    ];
    let rep = verify_vote(&buf).unwrap();
    assert_eq!(rep.index, 0);
    assert_eq!(rep.score, 0);
}

#[test]
fn null_frame_is_reported() {
    let mut k = Kernel::new();
    let (f, res) = make_syscall(&mut k, 100, None);
    assert!(f.is_none());
    assert!(matches!(res, Err(KernelError::NullFrame)));
}

#[test]
fn pc_skips_the_trap_instruction_for_every_opcode() {
    for id in [0usize, 1, 2, 3, 4, 5, 6, 7, 8, 42] {
        let mut k = Kernel::new();
        let frame = TrapFrame { pc: 100, syscall_id: id, pid: 1 };
        let (f, _res) = make_syscall(&mut k, 100, Some(frame));
        let f = f.unwrap();
        assert_eq!(f.pc, 104);
        assert_eq!(f.syscall_id, id);
        assert_eq!(f.pid, 1);
    }
}

#[test]
fn unknown_opcode_is_fatal() {
    let mut k = Kernel::new();
    let frame = TrapFrame { pc: 0, syscall_id: 42, pid: 1 };
    let (_f, res) = make_syscall(&mut k, 0, Some(frame));
    assert!(matches!(res, Err(KernelError::UnknownSyscall)));
}

#[test]
fn exit_requests_a_halt() {
    let mut k = Kernel::new();
    let frame = TrapFrame { pc: 0, syscall_id: 3, pid: 1 };
    let (_f, res) = make_syscall(&mut k, 0, Some(frame));
    assert!(matches!(res, Ok(SyscallOutcome::Exit)));
}

#[test]
fn sleep_syscall_marks_the_caller() {
    let mut k = Kernel::new();
    k.init_process_list();
    k.create_process(0x1000, false).unwrap();
    let frame = TrapFrame { pc: 8, syscall_id: 2, pid: 1 };
    let (_f, res) = make_syscall(&mut k, 8, Some(frame));
    assert!(matches!(res, Ok(SyscallOutcome::Sleep(true))));
    let tbl = k.process_list.as_ref().unwrap();
    assert_eq!(*tbl[0].get_state(), State::Sleeping);
    assert_eq!(tbl[0].sleep_until, 1);
}

#[test]
fn sleep_syscall_for_unknown_pid() {
    let mut k = Kernel::new();
    k.init_process_list();
    k.create_process(0x1000, false).unwrap();
    let frame = TrapFrame { pc: 8, syscall_id: 2, pid: 77 };
    let (_f, res) = make_syscall(&mut k, 8, Some(frame));
    assert!(matches!(res, Ok(SyscallOutcome::Sleep(false))));
}

#[test]
fn sum_without_tmr_prints_the_total() {
    let mut k = Kernel::new();
    let frame = TrapFrame { pc: 0, syscall_id: 8, pid: 1 };
    let (_f, res) = make_syscall(&mut k, 0, Some(frame));
    assert!(matches!(res, Ok(SyscallOutcome::Sum(None))));
    assert_eq!(k.total, Some(vec![2, 4, 6]));
    assert_eq!(k.tmr_values_list.len(), 0);
}

#[test]
fn tmr_add_reaches_quorum_on_the_third_entry() {
    let mut k = Kernel::new();
    k.total = Some(vec![5, 5, 5]);
    for expect_report in [false, false, true] {
        let frame = TrapFrame { pc: 0, syscall_id: 4, pid: 1 };
        let (_f, res) = make_syscall(&mut k, 0, Some(frame));
        match res {
            Ok(SyscallOutcome::TmrAdd(rep)) => {
                assert_eq!(rep.is_some(), expect_report);
                if let Some(rep) = rep {
                    assert_eq!(rep.accepted, Some(vec![5, 5, 5]));
                    assert_eq!(rep.score, 2);
                    assert_eq!(rep.index, 0);
                }
            },
            other => panic!("unexpected dispatch result: {:?}", other),
        }
    }
    assert_eq!(k.tmr_values_list.len(), 3);
}

#[test]
fn verify_syscall_reports_the_current_buffer() {
    let mut k = Kernel::new();
    k.tmr_values_list = vec![Some(vec![1, 1, 1]), Some(vec![1, 1, 1])];
    let frame = TrapFrame { pc: 0, syscall_id: 5, pid: 1 };
    let (_f, res) = make_syscall(&mut k, 0, Some(frame));
    match res {
        Ok(SyscallOutcome::Verify(Some(rep))) => {
            assert_eq!(rep.accepted, Some(vec![1, 1, 1]));
            assert_eq!(rep.score, 1);
        },
        other => panic!("unexpected dispatch result: {:?}", other),
    }
}

#[test]
fn end_to_end_tmr_round() {
    let (k, pc) = init(0x4000);
    assert_eq!(pc, 0x4000);
    let mut k = k;
    let mut reports = Vec::new();
    for pid in [2usize, 3, 4] {
        let frame = TrapFrame { pc: 16, syscall_id: 8, pid };
        let (f, res) = make_syscall(&mut k, 16, Some(frame));
        assert_eq!(f.unwrap().pc, 20);
        match res {
            Ok(SyscallOutcome::Sum(rep)) => reports.push(rep),
            other => panic!("unexpected dispatch result: {:?}", other),
        }
    }
    // the vote runs exactly once, when the third result lands
    assert!(reports[0].is_none());
    assert!(reports[1].is_none());
    let rep = reports[2].as_ref().unwrap();
    assert_eq!(rep.accepted, Some(vec![2, 4, 6]));
    assert_eq!(rep.score, 2);
    assert_eq!(rep.index, 0);
    assert_eq!(k.tmr_values_list.len(), 3);
}

#[test]
fn pipeline_runner_reports_once() {
    let (k, r1, r2, r3) = run_tmr_pipeline(0x800, 4, 8, 12);
    assert!(r1.is_none());
    assert!(r2.is_none());
    let rep = r3.unwrap();
    assert_eq!(rep.accepted, Some(vec![2, 4, 6]));
    assert_eq!(k.tmr_values_list.len(), 3);
}
