use vstd::prelude::*;
use vstd::string::StringSliceAdditionalSpecFns;

verus! {

/// The OS error code reported when a process id names no running process.
pub const ERROR_INVALID_PARAMETER: u32 = 87;

/// The OS error code reported when the caller may not open the process.
pub const ERROR_ACCESS_DENIED: u32 = 5;

/// The OS error code carried in the low sixteen bits of an `HRESULT`.
pub open spec fn code_of_hresult(hresult: i32) -> u32 {
    ((hresult as u32) % 0x1_0000) as u32
}

/// The OS error code that an `HRESULT` reporting a system error carries.
pub fn win32_code(hresult: i32) -> (r: u32)
    ensures
        r == code_of_hresult(hresult),
{
    (hresult as u32) % 0x1_0000
}

/// Why an injection attempt did not take effect.
#[derive(Clone, Copy, Debug, PartialEq, Eq, Structural)]
pub enum InjectionError {
    /// The target process does not exist (any more).
    NotFound,
    /// The target process exists but may not be opened with full access.
    AccessDenied,
    /// No buffer could be mapped inside the target.
    AllocationFailed,
    /// The library path could not be copied into the target.
    WriteFailed,
    /// The loader entry point could not be resolved.
    LoaderResolutionFailed,
    /// No thread could be started inside the target.
    RemoteThreadCreationFailed,
}

/// The result of one injection attempt. `Success` certifies only that the loader call was
/// scheduled inside the target, not that the library initialised.
#[derive(Clone, Copy, Debug, PartialEq, Eq, Structural)]
pub enum InjectionOutcome {
    Success,
    /// The failed step's kind and the OS error code it reported.
    Failure { kind: InjectionError, code: u32 },
}

/// What the OS reported for the step that was last requested.
#[derive(Clone, Copy, Debug, PartialEq, Eq, Structural)]
pub enum StepResult {
    Done,
    /// The step failed with this OS error code.
    Failed(u32),
}

/// Where an injection attempt stands. The steps run in this order, never backwards.
#[derive(Clone, Copy, Debug, PartialEq, Eq, Structural)]
pub enum InjectionStage {
    OpenTarget,
    AllocateBuffer,
    WritePath,
    ResolveLoader,
    SpawnThread,
    Finished(InjectionOutcome),
}

/// The OS operation the caller performs next.
#[derive(Debug)]
pub enum InjectionAction {
    /// Open the process with full access rights.
    OpenProcess { pid: u32 },
    /// Map a read/write region of `size` bytes inside the opened process.
    AllocateRemote { size: usize },
    /// Copy `bytes` to the start of the mapped region.
    WriteRemote { bytes: Vec<u8> },
    /// Resolve the address of the loader's load-by-path entry point.
    ResolveLoader,
    /// Start a thread in the target at the loader entry, with the region as its argument.
    SpawnRemoteThread,
    /// Nothing is left to do; report this outcome.
    Finish(InjectionOutcome),
}

/// Which failure a refused open stands for: a pid that names no process, or anything else,
/// which is a refusal of access.
pub open spec fn open_failure_kind(code: u32) -> InjectionError {
    if code == ERROR_INVALID_PARAMETER {
        InjectionError::NotFound
    } else {
        InjectionError::AccessDenied
    }
}

/// The stage that follows `stage` once its step reported `result`.
pub open spec fn next_stage(stage: InjectionStage, result: StepResult) -> InjectionStage {
    match stage {
        InjectionStage::Finished(o) => InjectionStage::Finished(o),
        _ => match result {
            StepResult::Done => match stage {
                InjectionStage::OpenTarget => InjectionStage::AllocateBuffer,
                InjectionStage::AllocateBuffer => InjectionStage::WritePath,
                InjectionStage::WritePath => InjectionStage::ResolveLoader,
                InjectionStage::ResolveLoader => InjectionStage::SpawnThread,
                _ => InjectionStage::Finished(InjectionOutcome::Success),
            },
            StepResult::Failed(code) => InjectionStage::Finished(
                InjectionOutcome::Failure { kind: failure_kind(stage, code), code },
            ),
        },
    }
}

/// The failure kind of each step.
pub open spec fn failure_kind(stage: InjectionStage, code: u32) -> InjectionError {
    match stage {
        InjectionStage::OpenTarget => open_failure_kind(code),
        InjectionStage::AllocateBuffer => InjectionError::AllocationFailed,
        InjectionStage::WritePath => InjectionError::WriteFailed,
        InjectionStage::ResolveLoader => InjectionError::LoaderResolutionFailed,
        _ => InjectionError::RemoteThreadCreationFailed,
    }
}

/// The stage reached from `stage` after the steps reported `results`, in order.
pub open spec fn run_steps(stage: InjectionStage, results: Seq<StepResult>) -> InjectionStage
    decreases results.len(),
{
    if results.len() == 0 {
        stage
    } else {
        run_steps(next_stage(stage, results[0]), results.drop_first())
    }
}

/// One injection attempt of a library into a process, driven step by step by the caller.
pub struct InjectionSession {
    pid: u32,
    path: Vec<u8>,
    stage: InjectionStage,
}

impl InjectionSession {
    pub closed spec fn target(&self) -> u32 {
        self.pid
    }

    /// The library path, as the bytes handed to the loader.
    pub closed spec fn path_bytes(&self) -> Seq<u8> {
        self.path@
    }

    pub closed spec fn stage(&self) -> InjectionStage {
        self.stage
    }

    /// The path leaves room for its terminator in an addressable region.
    pub open spec fn wf(&self) -> bool {
        self.path_bytes().len() < usize::MAX
    }

    /// A fresh attempt to load `library_path` into process `pid`.
    pub fn new(pid: u32, library_path: &str) -> (r: Self)
        ensures
            r.wf(),
            r.target() == pid,
            r.path_bytes() == library_path.spec_bytes(),
            r.stage() == InjectionStage::OpenTarget,
    {
        let bytes = library_path.as_bytes();
        let mut path: Vec<u8> = Vec::new();
        let mut i: usize = 0;
        while i < bytes.len()
            invariant
                i <= bytes@.len(),
                path@ == bytes@.subrange(0, i as int),
            decreases bytes@.len() - i,
        {
            path.push(bytes[i]);
            i = i + 1;
        }
        assert(path@ == bytes@);
        // A vector holding the path and its terminator exists, so the path leaves room for it.
        path.push(0u8);
        let _with_terminator = path.len();
        path.pop();
        InjectionSession { pid, path, stage: InjectionStage::OpenTarget }
    }

    /// The operation the current stage asks for. The region mapped in the target is one
    /// byte longer than the path written to it; the extra byte, zeroed by the allocation,
    /// terminates the path.
    pub fn next_action(&self) -> (r: InjectionAction)
        requires
            self.wf(),
        ensures
            match self.stage() {
                InjectionStage::OpenTarget => r == (InjectionAction::OpenProcess { pid: self.target() }),
                InjectionStage::AllocateBuffer => r == (InjectionAction::AllocateRemote {
                    size: (self.path_bytes().len() + 1) as usize,
                }),
                InjectionStage::WritePath => r matches InjectionAction::WriteRemote { bytes }
                    && bytes@ == self.path_bytes(),
                InjectionStage::ResolveLoader => r == InjectionAction::ResolveLoader,
                InjectionStage::SpawnThread => r == InjectionAction::SpawnRemoteThread,
                InjectionStage::Finished(o) => r == InjectionAction::Finish(o),
            },
    {
        match self.stage {
            InjectionStage::OpenTarget => InjectionAction::OpenProcess { pid: self.pid },
            InjectionStage::AllocateBuffer => InjectionAction::AllocateRemote {
                size: self.path.len() + 1,
            },
            InjectionStage::WritePath => InjectionAction::WriteRemote { bytes: self.path.clone() },
            InjectionStage::ResolveLoader => InjectionAction::ResolveLoader,
            InjectionStage::SpawnThread => InjectionAction::SpawnRemoteThread,
            InjectionStage::Finished(o) => InjectionAction::Finish(o),
        }
    }

    /// Records what the OS reported for the last requested step.
    pub fn advance(&mut self, result: StepResult)
        ensures
            final(self).target() == old(self).target(),
            final(self).path_bytes() == old(self).path_bytes(),
            final(self).stage() == next_stage(old(self).stage(), result),
    {
        let next = match self.stage {
            InjectionStage::Finished(o) => InjectionStage::Finished(o),
            InjectionStage::OpenTarget => match result {
                StepResult::Done => InjectionStage::AllocateBuffer,
                StepResult::Failed(code) => {
                    let kind = if code == ERROR_INVALID_PARAMETER {
                        InjectionError::NotFound
                    } else {
                        InjectionError::AccessDenied
                    };
                    InjectionStage::Finished(InjectionOutcome::Failure { kind, code })
                },
            },
            InjectionStage::AllocateBuffer => match result {
                StepResult::Done => InjectionStage::WritePath,
                StepResult::Failed(code) => InjectionStage::Finished(
                    InjectionOutcome::Failure { kind: InjectionError::AllocationFailed, code },
                ),
            },
            InjectionStage::WritePath => match result {
                StepResult::Done => InjectionStage::ResolveLoader,
                StepResult::Failed(code) => InjectionStage::Finished(
                    InjectionOutcome::Failure { kind: InjectionError::WriteFailed, code },
                ),
            },
            InjectionStage::ResolveLoader => match result {
                StepResult::Done => InjectionStage::SpawnThread,
                StepResult::Failed(code) => InjectionStage::Finished(
                    InjectionOutcome::Failure { kind: InjectionError::LoaderResolutionFailed, code },
                ),
            },
            InjectionStage::SpawnThread => match result {
                StepResult::Done => InjectionStage::Finished(InjectionOutcome::Success),
                StepResult::Failed(code) => InjectionStage::Finished(
                    InjectionOutcome::Failure {
                        kind: InjectionError::RemoteThreadCreationFailed,
                        code,
                    },
                ),
            },
        };
        self.stage = next;
    }

    /// The outcome, once the attempt has finished.
    pub fn outcome(&self) -> (r: Option<InjectionOutcome>)
        ensures
            match self.stage() {
                InjectionStage::Finished(o) => r == Some(o),
                _ => r is None,
            },
    {
        match self.stage {
            InjectionStage::Finished(o) => Some(o),
            _ => None,
        }
    }
}

/// How many steps remain before `stage` can succeed.
pub open spec fn steps_left(stage: InjectionStage) -> nat {
    match stage {
        InjectionStage::OpenTarget => 5,
        InjectionStage::AllocateBuffer => 4,
        InjectionStage::WritePath => 3,
        InjectionStage::ResolveLoader => 2,
        InjectionStage::SpawnThread => 1,
        InjectionStage::Finished(_) => 0,
    }
}

/// A finished attempt stays finished with the same outcome, whatever is reported later.
pub proof fn lemma_finished_is_final(o: InjectionOutcome, results: Seq<StepResult>)
    ensures
        run_steps(InjectionStage::Finished(o), results) == InjectionStage::Finished(o),
    decreases results.len(),
{
    if results.len() > 0 {
        lemma_finished_is_final(o, results.drop_first());
    }
}

/// From an unfinished stage, success comes exactly when each of the remaining steps
/// reports `Done`.
pub proof fn lemma_success_from(stage: InjectionStage, results: Seq<StepResult>)
    requires
        !(stage is Finished),
    ensures
        run_steps(stage, results) == InjectionStage::Finished(InjectionOutcome::Success) <==> (
        results.len() >= steps_left(stage) && forall|i: int|
            0 <= i < steps_left(stage) ==> results[i] == StepResult::Done),
    decreases results.len(),
{
    if results.len() > 0 {
        let next = next_stage(stage, results[0]);
        let rest = results.drop_first();
        match next {
            InjectionStage::Finished(o) => {
                lemma_finished_is_final(o, rest);
            },
            _ => {
                lemma_success_from(next, rest);
                assert forall|i: int| 0 < i < results.len() implies #[trigger] results[i]
                    == rest[i - 1] by {}
                if results.len() >= steps_left(stage) && forall|i: int|
                    0 <= i < steps_left(stage) ==> results[i] == StepResult::Done {
                    assert forall|i: int| 0 <= i < steps_left(next) implies rest[i]
                        == StepResult::Done by {
                        assert(results[i + 1] == StepResult::Done);
                    }
                }
            },
        }
        if results[0] is Failed {
            assert(results[0] != StepResult::Done);
        }
    }
}

/// An attempt succeeds only when opening, allocating, writing, resolving and spawning all
/// succeeded, in that order; success is declared as soon as the thread is created.
pub proof fn lemma_success_needs_every_step(results: Seq<StepResult>)
    ensures
        run_steps(InjectionStage::OpenTarget, results) == InjectionStage::Finished(
            InjectionOutcome::Success,
        ) <==> (results.len() >= 5 && forall|i: int| 0 <= i < 5 ==> results[i] == StepResult::Done),
{
    lemma_success_from(InjectionStage::OpenTarget, results);
}

/// An attempt whose target cannot be opened (a pid that names no process, or one that
/// may not be opened) ends as `NotFound` or `AccessDenied` and never as a success,
/// whatever is reported afterwards; an unknown pid gives `NotFound`.
pub proof fn lemma_unopenable_target_fails(code: u32, later: Seq<StepResult>)
    ensures
        ({
            let end = run_steps(InjectionStage::OpenTarget, seq![StepResult::Failed(code)] + later);
            &&& end == InjectionStage::Finished(
                InjectionOutcome::Failure { kind: open_failure_kind(code), code },
            )
            &&& open_failure_kind(code) == InjectionError::NotFound || open_failure_kind(code)
                == InjectionError::AccessDenied
            &&& code == ERROR_INVALID_PARAMETER ==> open_failure_kind(code)
                == InjectionError::NotFound
        }),
{
    let results = seq![StepResult::Failed(code)] + later;
    assert(results.drop_first() == later);
    lemma_finished_is_final(
        InjectionOutcome::Failure { kind: open_failure_kind(code), code },
        later,
    );
}

} // verus!
