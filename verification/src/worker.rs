use vstd::prelude::*;
use crate::fetch_and_compare::{FetchError, FetchResult};
use crate::git::{CommitId, GitError};

verus! {

/// A terminal failure of the poll worker. Every error aborts the whole
/// worker; none is silently retried.
#[derive(Debug)]
pub enum PollError {
    /// Accessing the local repository failed.
    Git(GitError),
    /// The fetch-compare step failed.
    Fetch(FetchError),
    /// Creating the updates directory failed.
    Directory,
    /// Creating the captured output files failed.
    File,
    /// Spawning the update command failed.
    Spawn,
    /// Waiting for the update command failed.
    Complete,
    /// The update command exited with a non-zero status; `path` names where
    /// its captured output was written.
    NonZeroExit { path: String },
    /// After the update command succeeded, the local commit still equals
    /// the pre-cycle snapshot.
    BranchWasNotUpdated,
    /// After the update command succeeded, the local commit differs from
    /// the snapshot but does not equal the fetched remote tip.
    UnexpectedCommitId { remote_commit_id: CommitId, updated_commit_id: CommitId },
}

impl From<GitError> for PollError {
    fn from(value: GitError) -> (r: Self)
        ensures
            r == PollError::Git(value),
    {
        PollError::Git(value)
    }
}

impl vstd::std_specs::convert::FromSpecImpl<GitError> for PollError {
    open spec fn obeys_from_spec() -> bool {
        true
    }

    open spec fn from_spec(v: GitError) -> Self {
        PollError::Git(v)
    }
}

impl From<FetchError> for PollError {
    fn from(value: FetchError) -> (r: Self)
        ensures
            r == PollError::Fetch(value),
    {
        PollError::Fetch(value)
    }
}

impl vstd::std_specs::convert::FromSpecImpl<FetchError> for PollError {
    open spec fn obeys_from_spec() -> bool {
        true
    }

    open spec fn from_spec(v: FetchError) -> Self {
        PollError::Fetch(v)
    }
}

/// What the update executor reported of a completed run: whether the
/// command exited successfully, and where its output went.
#[derive(Debug)]
pub struct ExitReport {
    pub success: bool,
    pub output_path: String,
}

/// A failure of the update executor before or while running the command.
#[derive(Debug, Clone, PartialEq, Eq)]
pub enum ExecError {
    /// The updates directory could not be created.
    Directory,
    /// The captured output files could not be created.
    File,
    /// The command could not be spawned.
    Spawn,
    /// Waiting for the command to finish failed.
    Complete,
}

/// Where the poll worker stands inside one cycle.
#[derive(Debug)]
pub enum PollPhase {
    /// About to start a cycle: the local commit is snapshotted next.
    Idle,
    /// The snapshot is taken; a fetch-compare against the remote tip is next.
    Fetching { snapshot: CommitId },
    /// The remote has advanced; the update command runs next.
    Executing { snapshot: CommitId, remote_tip: CommitId },
    /// The command succeeded; the local commit is re-read and verified next.
    Verifying { snapshot: CommitId, remote_tip: CommitId },
    /// The cycle is complete; the inter-cycle delay runs next.
    Sleeping,
    /// The worker is done: the iteration bound was reached, or a single
    /// verified update succeeded without resume mode.
    Finished,
    /// The worker aborted with a terminal error.
    Failed(PollError),
}

/// The one outside step the driver performs next for a given phase.
#[derive(Debug)]
pub enum PollAction {
    /// Read the current local commit and answer with `CommitRead`.
    ReadCommit,
    /// Fetch-compare against the remote and answer with `FetchCompared`.
    Fetch,
    /// Run the update command and answer with `Executed`.
    RunCommand,
    /// Wait for the configured interval and answer with `Slept`.
    Sleep,
    /// The worker is finished or failed; no further step.
    Stop,
}

/// What the driver's last outside step reported back.
#[derive(Debug)]
pub enum PollEvent {
    /// The current local commit, or why it could not be read.
    CommitRead(Result<CommitId, GitError>),
    /// The outcome of one fetch-compare.
    FetchCompared(Result<FetchResult, FetchError>),
    /// The outcome of one run of the update command.
    Executed(Result<ExitReport, ExecError>),
    /// The inter-cycle delay elapsed.
    Slept,
}

/// The poll worker's state between outside steps: the current phase, how
/// many further cycles the iteration bound permits (`None`: unbounded), and
/// whether a verified update resumes cycling instead of finishing.
#[derive(Debug)]
pub struct Poller {
    pub phase: PollPhase,
    pub cycles_left: Option<u64>,
    pub resume: bool,
}

/// The starting state: ready for the first cycle, or already finished when
/// the bound permits no cycle at all.
pub open spec fn spec_new_poller(iterations: Option<u64>, resume: bool) -> Poller {
    Poller {
        phase: if iterations matches Some(n) && n == 0 {
            PollPhase::Finished
        } else {
            PollPhase::Idle
        },
        cycles_left: iterations,
        resume,
    }
}

/// The action the driver performs in a given phase.
pub open spec fn spec_action(phase: PollPhase) -> PollAction {
    match phase {
        PollPhase::Idle => PollAction::ReadCommit,
        PollPhase::Fetching { .. } => PollAction::Fetch,
        PollPhase::Executing { .. } => PollAction::RunCommand,
        PollPhase::Verifying { .. } => PollAction::ReadCommit,
        PollPhase::Sleeping => PollAction::Sleep,
        PollPhase::Finished => PollAction::Stop,
        PollPhase::Failed(_) => PollAction::Stop,
    }
}

/// The complete transition relation of the poll worker.
///
/// Each cycle snapshots the local commit, fetch-compares it against the
/// remote tip, and either sleeps (up to date) or runs the update command
/// and then verifies that the branch landed exactly on the fetched tip:
/// a commit equal to the snapshot fails with `BranchWasNotUpdated`, any
/// other commit differing from the tip fails with `UnexpectedCommitId`.
/// A verified update finishes the worker unless resume mode is set, in
/// which case the interval delay is applied before the next fetch. The
/// delay also precedes the bound check, so a bounded run sleeps once more
/// after its final cycle. An event that does not answer the phase's action
/// leaves the state unchanged.
pub open spec fn spec_step(p: Poller, event: PollEvent) -> Poller {
    match (p.phase, event) {
        (PollPhase::Idle, PollEvent::CommitRead(res)) => match res {
            Ok(snapshot) => Poller { phase: PollPhase::Fetching { snapshot }, ..p },
            Err(e) => Poller { phase: PollPhase::Failed(PollError::Git(e)), ..p },
        },
        (PollPhase::Fetching { snapshot }, PollEvent::FetchCompared(res)) => match res {
            Ok(FetchResult::UpToDate) => Poller { phase: PollPhase::Sleeping, ..p },
            Ok(FetchResult::OutOfDate { remote_commit_id }) => Poller {
                phase: PollPhase::Executing { snapshot, remote_tip: remote_commit_id },
                ..p
            },
            Err(e) => Poller { phase: PollPhase::Failed(PollError::Fetch(e)), ..p },
        },
        (PollPhase::Executing { snapshot, remote_tip }, PollEvent::Executed(res)) => match res {
            Ok(report) => if report.success {
                Poller { phase: PollPhase::Verifying { snapshot, remote_tip }, ..p }
            } else {
                Poller {
                    phase: PollPhase::Failed(PollError::NonZeroExit { path: report.output_path }),
                    ..p
                }
            },
            Err(e) => Poller { phase: PollPhase::Failed(exec_error_to_poll(e)), ..p },
        },
        (PollPhase::Verifying { snapshot, remote_tip }, PollEvent::CommitRead(res)) => match res {
            Ok(updated) => if updated@ == snapshot@ {
                Poller { phase: PollPhase::Failed(PollError::BranchWasNotUpdated), ..p }
            } else if updated@ != remote_tip@ {
                Poller {
                    phase: PollPhase::Failed(
                        PollError::UnexpectedCommitId {
                            remote_commit_id: remote_tip,
                            updated_commit_id: updated,
                        },
                    ),
                    ..p
                }
            } else if p.resume {
                Poller { phase: PollPhase::Sleeping, ..p }
            } else {
                Poller { phase: PollPhase::Finished, ..p }
            },
            Err(e) => Poller { phase: PollPhase::Failed(PollError::Git(e)), ..p },
        },
        (PollPhase::Sleeping, PollEvent::Slept) => match p.cycles_left {
            None => Poller { phase: PollPhase::Idle, ..p },
            Some(n) => if n <= 1 {
                Poller { phase: PollPhase::Finished, cycles_left: Some(0), ..p }
            } else {
                Poller { phase: PollPhase::Idle, cycles_left: Some((n - 1) as u64), ..p }
            },
        },
        _ => p,
    }
}

/// How an executor failure maps onto the worker's terminal error.
pub open spec fn exec_error_to_poll(e: ExecError) -> PollError {
    match e {
        ExecError::Directory => PollError::Directory,
        ExecError::File => PollError::File,
        ExecError::Spawn => PollError::Spawn,
        ExecError::Complete => PollError::Complete,
    }
}

impl Poller {
    pub fn new(iterations: Option<u64>, resume: bool) -> (r: Poller)
        ensures
            r == spec_new_poller(iterations, resume),
    {
        let finished = match iterations {
            Some(n) => n == 0,
            None => false,
        };
        Poller {
            phase: if finished {
                PollPhase::Finished
            } else {
                PollPhase::Idle
            },
            cycles_left: iterations,
            resume,
        }
    }

    /// The one outside step to perform next.
    pub fn action(&self) -> (r: PollAction)
        ensures
            r == spec_action(self.phase),
    {
        match &self.phase {
            PollPhase::Idle => PollAction::ReadCommit,
            PollPhase::Fetching { .. } => PollAction::Fetch,
            PollPhase::Executing { .. } => PollAction::RunCommand,
            PollPhase::Verifying { .. } => PollAction::ReadCommit,
            PollPhase::Sleeping => PollAction::Sleep,
            PollPhase::Finished => PollAction::Stop,
            PollPhase::Failed(_) => PollAction::Stop,
        }
    }

    /// Advances the worker by one event: the executable form of
    /// [`spec_step`], which its result equals exactly.
    pub fn step(self, event: PollEvent) -> (r: Poller)
        ensures
            r == spec_step(self, event),
    {
        match (self.phase, event) {
            (PollPhase::Idle, PollEvent::CommitRead(res)) => match res {
                Ok(snapshot) => Poller {
                    phase: PollPhase::Fetching { snapshot },
                    cycles_left: self.cycles_left,
                    resume: self.resume,
                },
                Err(e) => Poller {
                    phase: PollPhase::Failed(PollError::Git(e)),
                    cycles_left: self.cycles_left,
                    resume: self.resume,
                },
            },
            (PollPhase::Fetching { snapshot }, PollEvent::FetchCompared(res)) => match res {
                Ok(FetchResult::UpToDate) => Poller {
                    phase: PollPhase::Sleeping,
                    cycles_left: self.cycles_left,
                    resume: self.resume,
                },
                Ok(FetchResult::OutOfDate { remote_commit_id }) => Poller {
                    phase: PollPhase::Executing { snapshot, remote_tip: remote_commit_id },
                    cycles_left: self.cycles_left,
                    resume: self.resume,
                },
                Err(e) => Poller {
                    phase: PollPhase::Failed(PollError::Fetch(e)),
                    cycles_left: self.cycles_left,
                    resume: self.resume,
                },
            },
            (PollPhase::Executing { snapshot, remote_tip }, PollEvent::Executed(res)) => match res {
                Ok(report) => if report.success {
                    Poller {
                        phase: PollPhase::Verifying { snapshot, remote_tip },
                        cycles_left: self.cycles_left,
                        resume: self.resume,
                    }
                } else {
                    Poller {
                        phase: PollPhase::Failed(
                            PollError::NonZeroExit { path: report.output_path },
                        ),
                        cycles_left: self.cycles_left,
                        resume: self.resume,
                    }
                },
                Err(e) => Poller {
                    phase: PollPhase::Failed(
                        match e {
                            ExecError::Directory => PollError::Directory,
                            ExecError::File => PollError::File,
                            ExecError::Spawn => PollError::Spawn,
                            ExecError::Complete => PollError::Complete,
                        },
                    ),
                    cycles_left: self.cycles_left,
                    resume: self.resume,
                },
            },
            (PollPhase::Verifying { snapshot, remote_tip }, PollEvent::CommitRead(res)) => match res {
                Ok(updated) => if updated.eq(&snapshot) {
                    Poller {
                        phase: PollPhase::Failed(PollError::BranchWasNotUpdated),
                        cycles_left: self.cycles_left,
                        resume: self.resume,
                    }
                } else if !updated.eq(&remote_tip) {
                    Poller {
                        phase: PollPhase::Failed(
                            PollError::UnexpectedCommitId {
                                remote_commit_id: remote_tip,
                                updated_commit_id: updated,
                            },
                        ),
                        cycles_left: self.cycles_left,
                        resume: self.resume,
                    }
                } else if self.resume {
                    Poller {
                        phase: PollPhase::Sleeping,
                        cycles_left: self.cycles_left,
                        resume: self.resume,
                    }
                } else {
                    Poller {
                        phase: PollPhase::Finished,
                        cycles_left: self.cycles_left,
                        resume: self.resume,
                    }
                },
                Err(e) => Poller {
                    phase: PollPhase::Failed(PollError::Git(e)),
                    cycles_left: self.cycles_left,
                    resume: self.resume,
                },
            },
            (PollPhase::Sleeping, PollEvent::Slept) => match self.cycles_left {
                None => Poller {
                    phase: PollPhase::Idle,
                    cycles_left: None,
                    resume: self.resume,
                },
                Some(n) => if n <= 1 {
                    Poller {
                        phase: PollPhase::Finished,
                        cycles_left: Some(0),
                        resume: self.resume,
                    }
                } else {
                    Poller {
                        phase: PollPhase::Idle,
                        cycles_left: Some(n - 1),
                        resume: self.resume,
                    }
                },
            },
            (phase, _) => Poller {
                phase,
                cycles_left: self.cycles_left,
                resume: self.resume,
            },
        }
    }
}

/// Enforces the two post-execution conditions of a cycle: the update
/// command must have advanced the branch away from the pre-cycle snapshot,
/// and it must have landed exactly on the fetched remote tip. Equality with
/// the snapshot fails with `BranchWasNotUpdated`; any other difference from
/// the tip fails with `UnexpectedCommitId`, carrying the expected and the
/// actual commit; only exact equality with the tip succeeds.
pub fn verify_update(snapshot: &CommitId, remote_tip: &CommitId, updated: &CommitId) -> (r: Result<
    (),
    PollError,
>)
    ensures
        updated@ == snapshot@ ==> r matches Err(PollError::BranchWasNotUpdated),
        updated@ != snapshot@ && updated@ != remote_tip@ ==> (r matches Err(
            PollError::UnexpectedCommitId { remote_commit_id, updated_commit_id },
        ) && remote_commit_id@ == remote_tip@ && updated_commit_id@ == updated@),
        updated@ != snapshot@ && updated@ == remote_tip@ ==> r matches Ok(()),
{
    if updated.eq(snapshot) {
        return Err(PollError::BranchWasNotUpdated);
    }
    if !updated.eq(remote_tip) {
        return Err(
            PollError::UnexpectedCommitId {
                remote_commit_id: remote_tip.duplicate(),
                updated_commit_id: updated.duplicate(),
            },
        );
    }
    Ok(())
}

/// The verification law of the poll cycle, over the transition relation:
/// when the worker stands in the verifying phase, a re-read commit equal to
/// the pre-cycle snapshot always fails the cycle with
/// `BranchWasNotUpdated`; one differing from both the snapshot and the
/// fetched remote tip always fails with `UnexpectedCommitId`, carrying
/// exactly that tip and that commit; and only a commit equal to the tip
/// continues, finishing the worker or, in resume mode, entering the
/// inter-cycle delay.
pub proof fn lemma_verification_decision(
    p: Poller,
    snapshot: CommitId,
    remote_tip: CommitId,
    updated: CommitId,
)
    requires
        p.phase == (PollPhase::Verifying { snapshot, remote_tip }),
    ensures
        updated@ == snapshot@ ==> spec_step(p, PollEvent::CommitRead(Ok(updated))).phase matches
            PollPhase::Failed(PollError::BranchWasNotUpdated),
        updated@ != snapshot@ && updated@ != remote_tip@ ==> spec_step(
            p,
            PollEvent::CommitRead(Ok(updated)),
        ).phase == PollPhase::Failed(
            PollError::UnexpectedCommitId {
                remote_commit_id: remote_tip,
                updated_commit_id: updated,
            },
        ),
        updated@ != snapshot@ && updated@ == remote_tip@ ==> spec_step(
            p,
            PollEvent::CommitRead(Ok(updated)),
        ).phase == (if p.resume {
            PollPhase::Sleeping
        } else {
            PollPhase::Finished
        }),
{
}

} // verus!

