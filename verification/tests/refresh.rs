use spaghetti_catalog::build_rules::{CatalogBuildOutcome, CatalogConfiguredSource, CatalogPublicationKind};
use spaghetti_catalog::error::EngineError;
use spaghetti_catalog::refresh::{
    coalesce_step, CoalesceStep, RefreshWait, RefreshWaitStep, refresh_run_result, validate_refresh_policy, wake_outcome, ConfiguredCatalogRefreshRuntime,
    RefreshRequest, RefreshRunResult, RefreshWorkerState, RefreshWorkerStep, WakeResult,
    MAX_AUTOMATIC_REFRESH_ATTEMPTS,
};

fn source(adapter: &str) -> CatalogConfiguredSource {
    CatalogConfiguredSource::new(adapter.to_owned(), Vec::new(), [1; 32])
}

#[test]
fn refresh_runtime_stages_once_and_defers_requests_until_active() {
    let mut runtime = ConfiguredCatalogRefreshRuntime::new();
    assert_eq!(runtime.request_configured_catalog_refresh(), RefreshRequest::Ignored);
    assert!(matches!(runtime.stage_configured_catalog_refresh(Vec::new()), Err(EngineError::InvalidConfig(_))));
    assert!(runtime.activate_configured_catalog_refresh().is_err());
    runtime.stage_configured_catalog_refresh(vec![source("alpha")]).unwrap();
    assert!(runtime.stage_configured_catalog_refresh(vec![source("beta")]).is_err());
    assert_eq!(runtime.request_configured_catalog_refresh(), RefreshRequest::Deferred);
    assert_eq!(runtime.activate_configured_catalog_refresh(), Ok(true));
    runtime.activated();
    assert!(runtime.activate_configured_catalog_refresh().is_err());
    assert_eq!(runtime.request_configured_catalog_refresh(), RefreshRequest::Wake);
    runtime.wake_failed();
    assert!(runtime.pending);
    assert!(runtime.configures_adapter("alpha"));
    assert!(!runtime.configures_adapter("beta"));
    assert!(runtime.clear_configured_catalog_refresh());
    assert!(!runtime.clear_configured_catalog_refresh());
    assert_eq!(runtime.request_configured_catalog_refresh(), RefreshRequest::Ignored);
}

#[test]
fn clearing_for_an_adapter_touches_only_a_configuration_that_names_it() {
    let mut runtime = ConfiguredCatalogRefreshRuntime::new();
    runtime.stage_configured_catalog_refresh(vec![source("alpha"), source("gamma")]).unwrap();
    runtime.activated();
    assert!(runtime.configured_catalog_refresh_is_active());
    let before = runtime.clone();
    assert!(!runtime.clear_catalog_refresh_for_adapter("beta"));
    assert_eq!(runtime, before);
    assert!(runtime.clear_catalog_refresh_for_adapter("gamma"));
    assert!(runtime.configured.is_none());
    assert!(!runtime.configured_catalog_refresh_is_active());
    assert!(!runtime.clear_catalog_refresh_for_adapter("gamma"));
}

#[test]
fn refresh_failures_retry_a_bounded_number_of_times_per_signal() {
    let mut state = RefreshWorkerState::new().woken(true);
    let mut runs = 0;
    loop {
        runs += 1;
        match state.after_run(RefreshRunResult::Failed, MAX_AUTOMATIC_REFRESH_ATTEMPTS) {
            RefreshWorkerStep::Continue(next) => state = next,
            RefreshWorkerStep::Stop => unreachable!(),
        }
        if !state.retry {
            break;
        }
    }
    assert_eq!(runs, 3);
    assert_eq!(state.attempts, 3);
    // A new external signal starts a fresh budget.
    let state = state.woken(true);
    assert_eq!(state.attempts, 0);
    assert_eq!(
        state.after_run(RefreshRunResult::Succeeded, 3),
        RefreshWorkerStep::Continue(RefreshWorkerState { attempts: 0, retry: false })
    );
    assert_eq!(state.after_run(RefreshRunResult::Cancelled, 3), RefreshWorkerStep::Stop);
    assert_eq!(RefreshWorkerState { attempts: 2, retry: true }.woken(false).attempts, 2);
}

#[test]
fn refresh_policy_wakes_and_run_outcomes() {
    assert!(validate_refresh_policy(0).is_err());
    assert_eq!(validate_refresh_policy(1), Ok(()));
    assert_eq!(wake_outcome(true, WakeResult::Full), Ok(()));
    assert_eq!(wake_outcome(true, WakeResult::Sent), Ok(()));
    assert!(matches!(wake_outcome(true, WakeResult::Disconnected), Err(EngineError::WorkerUnavailable { .. })));
    assert!(wake_outcome(false, WakeResult::Sent).is_err());
    let refreshed = CatalogBuildOutcome::Published { kind: CatalogPublicationKind::Refresh, commit_seq: Some(3), source_count: 1, member_count: 2 };
    assert_eq!(refresh_run_result(&refreshed), Ok(()));
    assert!(matches!(refresh_run_result(&CatalogBuildOutcome::LastCompleteRetained), Err(EngineError::InvalidCommit(_))));
    let initial = CatalogBuildOutcome::Published { kind: CatalogPublicationKind::Initial, commit_seq: None, source_count: 0, member_count: 0 };
    assert!(refresh_run_result(&initial).is_err());
}

#[test]
fn a_burst_of_wakes_in_one_window_leads_to_one_run() {
    let spent = RefreshWorkerState { attempts: 2, retry: true };
    assert_eq!(
        spent.after_wait(RefreshWait::Woken, false),
        RefreshWaitStep::Coalesce(RefreshWorkerState { attempts: 0, retry: true })
    );
    assert_eq!(spent.after_wait(RefreshWait::TimedOut, false), RefreshWaitStep::Coalesce(spent));
    assert_eq!(spent.after_wait(RefreshWait::Woken, true), RefreshWaitStep::Stop);
    assert_eq!(spent.after_wait(RefreshWait::Disconnected, false), RefreshWaitStep::Stop);

    let mut burst = vec![RefreshWait::Woken; 16];
    burst.push(RefreshWait::TimedOut);
    let runs = burst.iter().filter(|wait| coalesce_step(**wait) == CoalesceStep::Run).count();
    assert_eq!(runs, 1);
    assert!(burst[..16].iter().all(|wait| coalesce_step(*wait) == CoalesceStep::Absorb));
    assert_eq!(coalesce_step(RefreshWait::Disconnected), CoalesceStep::Abandon);
}
