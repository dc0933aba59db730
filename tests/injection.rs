use fluffy_injector::injector::{
    win32_code,
    InjectionAction, InjectionError, InjectionOutcome, InjectionSession, StepResult,
    ERROR_ACCESS_DENIED, ERROR_INVALID_PARAMETER,
};

fn run(session: &mut InjectionSession, results: &[StepResult]) -> Vec<String> {
    let mut seen = Vec::new();
    for r in results {
        seen.push(format!("{:?}", session.next_action()));
        session.advance(*r);
    }
    seen
}

#[test]
fn first_action_opens_the_target() {
    let s = InjectionSession::new(4242, "C:\\lib.dll");
    match s.next_action() {
        InjectionAction::OpenProcess { pid } => assert_eq!(pid, 4242),
        other => panic!("unexpected {:?}", other),
    }
    assert_eq!(s.outcome(), None);
}

#[test]
fn remote_buffer_has_room_for_the_terminator() {
    let mut s = InjectionSession::new(7, "abc.dll");
    s.advance(StepResult::Done);
    match s.next_action() {
        InjectionAction::AllocateRemote { size } => assert_eq!(size, 8),
        other => panic!("unexpected {:?}", other),
    }
    s.advance(StepResult::Done);
    match s.next_action() {
        InjectionAction::WriteRemote { bytes } => assert_eq!(bytes, b"abc.dll".to_vec()),
        other => panic!("unexpected {:?}", other),
    }
}

#[test]
fn empty_path_allocates_one_byte_and_succeeds_like_any_other() {
    let mut s = InjectionSession::new(7, "");
    s.advance(StepResult::Done);
    match s.next_action() {
        InjectionAction::AllocateRemote { size } => assert_eq!(size, 1),
        other => panic!("unexpected {:?}", other),
    }
    s.advance(StepResult::Done);
    match s.next_action() {
        InjectionAction::WriteRemote { bytes } => assert!(bytes.is_empty()),
        other => panic!("unexpected {:?}", other),
    }
    let mut t = InjectionSession::new(7, "x.dll");
    run(&mut t, &[StepResult::Done, StepResult::Done, StepResult::Failed(998)]);
    let mut u = InjectionSession::new(7, "");
    run(&mut u, &[StepResult::Done, StepResult::Done, StepResult::Failed(998)]);
    assert_eq!(t.outcome(), u.outcome());
}

#[test]
fn all_steps_done_is_success() {
    let mut s = InjectionSession::new(1, "a.dll");
    let seen = run(&mut s, &[StepResult::Done; 5]);
    assert_eq!(seen.len(), 5);
    assert!(seen[3].contains("ResolveLoader"));
    assert!(seen[4].contains("SpawnRemoteThread"));
    assert_eq!(s.outcome(), Some(InjectionOutcome::Success));
    match s.next_action() {
        InjectionAction::Finish(o) => assert_eq!(o, InjectionOutcome::Success),
        other => panic!("unexpected {:?}", other),
    }
}

#[test]
fn unknown_pid_is_not_found() {
    for pid in [0u32, 999_999] {
        let mut s = InjectionSession::new(pid, "a.dll");
        s.advance(StepResult::Failed(ERROR_INVALID_PARAMETER));
        assert_eq!(
            s.outcome(),
            Some(InjectionOutcome::Failure { kind: InjectionError::NotFound, code: 87 })
        );
        s.advance(StepResult::Done);
        assert_ne!(s.outcome(), Some(InjectionOutcome::Success));
    }
}

#[test]
fn refused_open_is_access_denied() {
    let mut s = InjectionSession::new(4, "a.dll");
    s.advance(StepResult::Failed(ERROR_ACCESS_DENIED));
    assert_eq!(
        s.outcome(),
        Some(InjectionOutcome::Failure { kind: InjectionError::AccessDenied, code: 5 })
    );
}

#[test]
fn each_later_step_has_its_own_failure() {
    let kinds = [
        InjectionError::AllocationFailed,
        InjectionError::WriteFailed,
        InjectionError::LoaderResolutionFailed,
        InjectionError::RemoteThreadCreationFailed,
    ];
    for (k, kind) in kinds.iter().enumerate() {
        let mut s = InjectionSession::new(10, "a.dll");
        let mut results = vec![StepResult::Done; k + 1];
        results.push(StepResult::Failed(8));
        run(&mut s, &results);
        assert_eq!(s.outcome(), Some(InjectionOutcome::Failure { kind: *kind, code: 8 }));
    }
}

#[test]
fn hresult_carries_the_system_error_code() {
    assert_eq!(win32_code(0x8007_0057u32 as i32), 87);
    assert_eq!(win32_code(0x8007_0005u32 as i32), 5);
    assert_eq!(win32_code(0), 0);
}
