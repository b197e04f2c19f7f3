use crm_adapters::dq_stage::{EvaluationStageTenantCycle, StageWorkerError};
use crm_adapters::dq_stage_cycle::{CycleEvent, CyclePhase, CycleStep, PartyRead, TenantStageCycle};
use crm_adapters::privacy_associations::EvaluationJobStatus::{Completed, Created, Staged};

#[test]
fn a_pass_saves_the_cursor_first_and_reads_only_created_jobs() {
    let (mut cycle, first) = TenantStageCycle::start(vec![Completed, Created, Staged, Created, Created], true).unwrap();
    assert_eq!(first, CycleStep::SaveCursor);
    assert_eq!(cycle.advance(CycleEvent::CursorSaved), CycleStep::ReadSource(1));
    assert_eq!(cycle.advance(CycleEvent::SourceRead(PartyRead::Found)), CycleStep::Stage(1));
    assert_eq!(cycle.advance(CycleEvent::Staged), CycleStep::ReadSource(3));
    assert_eq!(cycle.advance(CycleEvent::SourceRead(PartyRead::NotFound)), CycleStep::ReadSource(4));
    assert_eq!(cycle.advance(CycleEvent::SourceRead(PartyRead::Found)), CycleStep::Stage(4));
    let done = cycle.advance(CycleEvent::Staged);
    assert_eq!(
        done,
        CycleStep::Complete(EvaluationStageTenantCycle { scanned_jobs: 5, staged_jobs: 2, deferred_jobs: 1, has_more: true })
    );
    assert_eq!(cycle.phase, CyclePhase::Done);
}

#[test]
fn a_failed_party_read_ends_the_pass() {
    let (mut cycle, _) = TenantStageCycle::start(vec![Created, Created], false).unwrap();
    assert_eq!(cycle.advance(CycleEvent::CursorSaved), CycleStep::ReadSource(0));
    assert_eq!(cycle.advance(CycleEvent::SourceRead(PartyRead::Failed)), CycleStep::Abort);
    assert_eq!(cycle.phase, CyclePhase::Aborted);
    assert_eq!(cycle.advance(CycleEvent::Staged), CycleStep::Abort);
}

#[test]
fn nothing_is_read_before_the_cursor_is_saved() {
    let (mut cycle, _) = TenantStageCycle::start(vec![Created], false).unwrap();
    assert_eq!(cycle.advance(CycleEvent::SourceRead(PartyRead::Found)), CycleStep::Abort);
}

#[test]
fn a_page_without_created_jobs_completes_at_once() {
    let (mut cycle, _) = TenantStageCycle::start(vec![Staged, Completed], false).unwrap();
    assert_eq!(
        cycle.advance(CycleEvent::CursorSaved),
        CycleStep::Complete(EvaluationStageTenantCycle { scanned_jobs: 2, staged_jobs: 0, deferred_jobs: 0, has_more: false })
    );
    let (mut empty, _) = TenantStageCycle::start(Vec::new(), true).unwrap();
    assert_eq!(
        empty.advance(CycleEvent::CursorSaved),
        CycleStep::Complete(EvaluationStageTenantCycle { scanned_jobs: 0, staged_jobs: 0, deferred_jobs: 0, has_more: true })
    );
    assert_eq!(StageWorkerError::StateUnavailable.code(), "DATA_QUALITY_EVALUATION_WORKER_STATE_UNAVAILABLE");
}
