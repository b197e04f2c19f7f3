//! One staging-worker pass over a page of a tenant's evaluation jobs, as a
//! machine that decides each step from what the runner reports: the page's
//! continuation is saved before any job is touched, only created jobs have
//! their Party read, a Party that cannot be found defers its job, any other
//! failed read ends the pass, and each job whose Party was read is staged.
use vstd::prelude::*;
use crate::dq_stage::{EvaluationStageTenantCycle, StageWorkerError, saturating_succ};
use crate::privacy_associations::EvaluationJobStatus;

verus! {

/// What the Party quality source answered for the Party of a job.
#[derive(Debug, Clone, Copy, PartialEq, Eq, Structural)]
pub enum PartyRead {
    Found,
    /// The Party is not there (yet); the job waits for a later pass.
    NotFound,
    /// Any other failure; it ends the pass and is reported to the caller.
    Failed,
}

/// What the runner of a pass reports after doing a step.
#[derive(Debug, Clone, Copy, PartialEq, Eq, Structural)]
pub enum CycleEvent {
    CursorSaved,
    SourceRead(PartyRead),
    Staged,
}

/// What a pass is waiting for.
#[derive(Debug, Clone, Copy, PartialEq, Eq, Structural)]
pub enum CyclePhase {
    AwaitCursor,
    AwaitSource,
    AwaitStage,
    Done,
    Aborted,
}

/// What the runner must do next.
#[derive(Debug, Clone, Copy, PartialEq, Eq, Structural)]
pub enum CycleStep {
    /// Save the page's continuation for the tenant.
    SaveCursor,
    /// Read the Party of the job at this index of the page.
    ReadSource(usize),
    /// Stage the job at this index with the Party just read.
    Stage(usize),
    /// The pass is over; this is its tally.
    Complete(EvaluationStageTenantCycle),
    /// The pass ends with the failure the runner holds.
    Abort,
}

/// A pass over one page: the statuses of its jobs in page order, the tally so
/// far, the index of the job in hand, and what the pass waits for.
pub struct TenantStageCycle {
    pub statuses: Vec<EvaluationJobStatus>,
    pub tally: EvaluationStageTenantCycle,
    pub position: usize,
    pub phase: CyclePhase,
}

/// How many of the first `n` jobs are created jobs.
pub open spec fn created_count(s: Seq<EvaluationJobStatus>, n: int) -> nat
    decreases n,
{
    if n <= 0 {
        0
    } else {
        created_count(s, n - 1) + if s[n - 1] == EvaluationJobStatus::Created { 1nat } else { 0nat }
    }
}

/// The index of the first created job at or after `i`, or the page length.
pub open spec fn next_created(s: Seq<EvaluationJobStatus>, i: int) -> int
    decreases s.len() - i,
{
    if i >= s.len() {
        s.len() as int
    } else if s[i] == EvaluationJobStatus::Created {
        i
    } else {
        next_created(s, i + 1)
    }
}

impl TenantStageCycle {
    /// The invariant of a pass: the tally counts the whole page, and what was
    /// staged or deferred never outnumbers the created jobs passed so far.
    pub open spec fn wf(&self) -> bool {
        let s = self.statuses@;
        &&& s.len() <= u32::MAX
        &&& self.position <= s.len()
        &&& self.tally.scanned_jobs == s.len()
        &&& self.tally.staged_jobs + self.tally.deferred_jobs <= created_count(s, self.position as int)
        &&& (self.phase == CyclePhase::AwaitSource || self.phase == CyclePhase::AwaitStage) ==> (self.position
            < s.len() && s[self.position as int] == EvaluationJobStatus::Created)
        &&& self.phase == CyclePhase::Done ==> self.position == s.len()
        &&& self.phase == CyclePhase::AwaitCursor ==> (self.position == 0 && self.tally.staged_jobs == 0
            && self.tally.deferred_jobs == 0)
    }

    /// `after` has moved on to the first created job at or after `from`,
    /// asking for its Party, or has finished the page with its tally.
    pub open spec fn moved_on(self, after: Self, from: int, step: CycleStep) -> bool {
        let j = next_created(self.statuses@, from);
        &&& after.position == j
        &&& j == self.statuses@.len() ==> (after.phase == CyclePhase::Done && step == CycleStep::Complete(
            after.tally))
        &&& j < self.statuses@.len() ==> (after.phase == CyclePhase::AwaitSource && step == CycleStep::ReadSource(
            j as usize))
    }

    /// The step a pass takes on an event, and the pass after it.
    pub open spec fn advanced(self, event: CycleEvent, after: Self, step: CycleStep) -> bool {
        let t = self.tally;
        &&& after.statuses@ == self.statuses@
        &&& after.tally.scanned_jobs == t.scanned_jobs
        &&& after.tally.has_more == t.has_more
        &&& match (self.phase, event) {
            (CyclePhase::AwaitCursor, CycleEvent::CursorSaved) => after.tally == t && self.moved_on(after, 0,
                step),
            (CyclePhase::AwaitSource, CycleEvent::SourceRead(PartyRead::Found)) => after.tally == t
                && after.position == self.position && after.phase == CyclePhase::AwaitStage && step
                == CycleStep::Stage(self.position),
            (CyclePhase::AwaitSource, CycleEvent::SourceRead(PartyRead::NotFound)) => after.tally.staged_jobs
                == t.staged_jobs && after.tally.deferred_jobs == saturating_succ(t.deferred_jobs)
                && self.moved_on(after, self.position + 1, step),
            (CyclePhase::AwaitStage, CycleEvent::Staged) => after.tally.deferred_jobs == t.deferred_jobs
                && after.tally.staged_jobs == saturating_succ(t.staged_jobs) && self.moved_on(
                after,
                self.position + 1,
                step,
            ),
            _ => after.tally == t && after.phase == CyclePhase::Aborted && step == CycleStep::Abort,
        }
    }

    /// Opens a pass over a page whose jobs have `statuses`; its first step
    /// saves the page's continuation. A page too large to count leaves the
    /// worker unavailable.
    pub fn start(statuses: Vec<EvaluationJobStatus>, has_more: bool) -> (r: Result<
        (TenantStageCycle, CycleStep),
        StageWorkerError,
    >)
        ensures
            statuses@.len() <= u32::MAX ==> match r {
                Ok((c, step)) => c.wf() && c.statuses@ == statuses@ && c.phase == CyclePhase::AwaitCursor
                    && c.tally.has_more == has_more && step == CycleStep::SaveCursor,
                Err(_) => false,
            },
            statuses@.len() > u32::MAX ==> r == Err::<(TenantStageCycle, CycleStep), StageWorkerError>(
                StageWorkerError::StateUnavailable,
            ),
    {
        match EvaluationStageTenantCycle::begin(statuses.len(), has_more) {
            Err(e) => Err(e),
            Ok(tally) => Ok((TenantStageCycle { statuses, tally, position: 0, phase: CyclePhase::AwaitCursor },
                CycleStep::SaveCursor)),
        }
    }

    fn move_on(&mut self, from: usize) -> (step: CycleStep)
        requires
            old(self).statuses@.len() <= u32::MAX,
            from <= old(self).statuses@.len(),
            old(self).tally.scanned_jobs == old(self).statuses@.len(),
            old(self).tally.staged_jobs + old(self).tally.deferred_jobs <= created_count(
                old(self).statuses@,
                from as int,
            ),
        ensures
            final(self).wf(),
            final(self).statuses@ == old(self).statuses@,
            final(self).tally == old(self).tally,
            old(self).moved_on(*final(self), from as int, step),
    {
        let ghost s = self.statuses@;
        let mut j = from;
        while j < self.statuses.len() && self.statuses[j] != EvaluationJobStatus::Created
            invariant
                self.statuses@ == s,
                from <= j <= s.len(),
                next_created(s, from as int) == next_created(s, j as int),
                created_count(s, j as int) == created_count(s, from as int),
            decreases s.len() - j,
        {
            j = j + 1;
        }
        self.position = j;
        if j == self.statuses.len() {
            self.phase = CyclePhase::Done;
            CycleStep::Complete(self.tally)
        } else {
            self.phase = CyclePhase::AwaitSource;
            CycleStep::ReadSource(j)
        }
    }

    /// Takes the step that follows `event`. A saved cursor lets the pass move
    /// to the first created job; a found Party has its job staged; a Party
    /// not found defers its job; a staged job is counted; then the pass moves
    /// on to the next created job or completes. A failed read, or an event
    /// the pass does not wait for, ends it.
    pub fn advance(&mut self, event: CycleEvent) -> (step: CycleStep)
        requires
            old(self).wf(),
        ensures
            final(self).wf(),
            old(self).advanced(event, *final(self), step),
    {
        proof {
            created_count_is_bounded(self.statuses@, self.position as int);
        }
        match (self.phase, event) {
            (CyclePhase::AwaitCursor, CycleEvent::CursorSaved) => self.move_on(0),
            (CyclePhase::AwaitSource, CycleEvent::SourceRead(PartyRead::Found)) => {
                self.phase = CyclePhase::AwaitStage;
                CycleStep::Stage(self.position)
            },
            (CyclePhase::AwaitSource, CycleEvent::SourceRead(PartyRead::NotFound)) => {
                self.tally.record_deferred();
                let next = self.position + 1;
                self.move_on(next)
            },
            (CyclePhase::AwaitStage, CycleEvent::Staged) => {
                self.tally.record_staged();
                let next = self.position + 1;
                self.move_on(next)
            },
            _ => {
                self.phase = CyclePhase::Aborted;
                CycleStep::Abort
            },
        }
    }
}

/// At most `n` of the first `n` jobs are created jobs.
pub proof fn created_count_is_bounded(s: Seq<EvaluationJobStatus>, n: int)
    requires
        0 <= n,
    ensures
        created_count(s, n) <= n,
    decreases n,
{
    if n > 0 {
        created_count_is_bounded(s, n - 1);
    }
}

/// Counting more jobs never counts fewer created jobs.
pub proof fn created_count_grows(s: Seq<EvaluationJobStatus>, a: int, b: int)
    requires
        0 <= a <= b,
    ensures
        created_count(s, a) <= created_count(s, b),
    decreases b - a,
{
    if a < b {
        created_count_grows(s, a, b - 1);
    }
}

/// Whatever a pass has done, the jobs it staged and deferred together are at
/// most the created jobs of its page, which are at most the jobs scanned.
pub proof fn cycle_counts_only_created_jobs(c: TenantStageCycle)
    requires
        c.wf(),
    ensures
        c.tally.staged_jobs + c.tally.deferred_jobs <= created_count(c.statuses@, c.statuses@.len() as int),
        created_count(c.statuses@, c.statuses@.len() as int) <= c.tally.scanned_jobs,
{
    created_count_grows(c.statuses@, c.position as int, c.statuses@.len() as int);
    created_count_is_bounded(c.statuses@, c.statuses@.len() as int);
}

/// A pass only ever asks for the Party of a created job, and only after the
/// page's continuation was saved; the continuation is asked to be saved
/// once, as the first step of the pass, and never again.
pub proof fn cycle_reads_only_created_jobs(c: TenantStageCycle, event: CycleEvent, after: TenantStageCycle,
    step: CycleStep)
    requires
        c.wf(),
        after.wf(),
        c.advanced(event, after, step),
    ensures
        step matches CycleStep::ReadSource(j) ==> (j < c.statuses@.len() && c.statuses@[j as int]
            == EvaluationJobStatus::Created),
        c.phase == CyclePhase::AwaitCursor && event != CycleEvent::CursorSaved ==> step == CycleStep::Abort,
        step != CycleStep::SaveCursor,
        after.phase != CyclePhase::AwaitCursor,
{
}


/// A pass that completes reports its whole page as scanned, whether more
/// jobs follow as its page said, and at most as many staged and deferred
/// jobs together as its page has created jobs.
pub proof fn completed_pass_tallies_its_page(c: TenantStageCycle, event: CycleEvent, after: TenantStageCycle,
    step: CycleStep)
    requires
        c.wf(),
        after.wf(),
        c.advanced(event, after, step),
    ensures
        step matches CycleStep::Complete(t) ==> (t.scanned_jobs == c.statuses@.len() && t.has_more
            == c.tally.has_more && t.staged_jobs + t.deferred_jobs <= created_count(
            c.statuses@,
            c.statuses@.len() as int,
        )),
{
    cycle_counts_only_created_jobs(after);
}


/// Each answer about a job's Party decides that job: a Party that was found
/// has that very job staged next; a Party not found defers the job, counted
/// once, without staging it; a failed read ends the pass; a staged job is
/// counted once as staged. The pass then moves past the job.
pub proof fn each_party_answer_decides_its_job(c: TenantStageCycle, event: CycleEvent, after: TenantStageCycle,
    step: CycleStep)
    requires
        c.wf(),
        after.wf(),
        c.advanced(event, after, step),
    ensures
        c.phase == CyclePhase::AwaitSource && event == CycleEvent::SourceRead(PartyRead::Found) ==> step
            == CycleStep::Stage(c.position) && after.tally == c.tally,
        c.phase == CyclePhase::AwaitSource && event == CycleEvent::SourceRead(PartyRead::NotFound) ==> (
            after.tally.deferred_jobs == c.tally.deferred_jobs + 1 && after.tally.staged_jobs == c.tally.staged_jobs
            && after.position > c.position && !(step matches CycleStep::Stage(_))),
        c.phase == CyclePhase::AwaitSource && event == CycleEvent::SourceRead(PartyRead::Failed) ==> step
            == CycleStep::Abort && after.phase == CyclePhase::Aborted,
        c.phase == CyclePhase::AwaitStage && event == CycleEvent::Staged ==> (after.tally.staged_jobs
            == c.tally.staged_jobs + 1 && after.tally.deferred_jobs == c.tally.deferred_jobs && after.position
            > c.position),
{
    created_count_is_bounded(c.statuses@, c.position as int);
    next_created_is_not_before(c.statuses@, c.position + 1);
}

proof fn next_created_is_not_before(s: Seq<EvaluationJobStatus>, i: int)
    ensures
        i <= s.len() ==> next_created(s, i) >= i,
    decreases s.len() - i,
{
    if i < s.len() {
        next_created_is_not_before(s, i + 1);
    }
}

} // verus!
