use spaghetti_catalog::error::EngineError;
use spaghetti_catalog::hydration::{
    classify_hydration_result, outcome_requires_worker, retryable_outcome, terminal_outcome,
    CatalogHydrationCommand, CatalogHydrationFailure, CatalogHydrationFailureDisposition,
    CatalogHydrationSchedulerState, CatalogHydrationSchedulingOutcome, HydrationAuthorization,
    HydrationFailureCode, ReconcileOutcome, MAX_ACTIVE_HYDRATIONS, SOURCE_BUSY_RETRY_MILLIS,
};
use spaghetti_catalog::snapshot::{CatalogCoveragePlanId, CatalogSnapshotId};

fn digest(parts: &[&[u8]]) -> [u8; 32] {
    let mut hasher = blake3::Hasher::new();
    for part in parts {
        hasher.update(part);
        hasher.update(&[0]);
    }
    *hasher.finalize().as_bytes()
}

/// A command whose request key is derived from `request` and whose work
/// (coalescing key) is derived from the selected session.
fn scheduler_fixture_command(request: &[u8], selected_session: &str) -> CatalogHydrationCommand {
    let snapshot_id = CatalogSnapshotId::new(
        1,
        CatalogCoveragePlanId { bytes: digest(&[b"fixture-plan"]) },
        1,
        10,
    )
    .unwrap();
    CatalogHydrationCommand {
        command_id: digest(&[b"command", request, selected_session.as_bytes()]),
        request_key: digest(&[b"request", request]),
        coalescing_key: digest(&[b"work", selected_session.as_bytes()]),
        snapshot_id,
        authorization: HydrationAuthorization {
            adapter_id: "fixture-agent".to_string(),
            source_instance_id: 1,
            object_key: digest(&[b"object", selected_session.as_bytes()]),
        },
    }
}

fn emitted(command: &CatalogHydrationCommand) -> u64 {
    command.snapshot_id.complete_commit.saturating_add(1)
}

#[test]
fn scheduler_state_replays_rejects_retargeting_and_coalesces_exact_work() {
    let first = scheduler_fixture_command(b"scheduler-first", "selected-session");
    let coalesced = scheduler_fixture_command(b"scheduler-second", "selected-session");
    assert_ne!(first.request_key, coalesced.request_key);
    assert_eq!(first.coalescing_key, coalesced.coalescing_key);
    let mut state = CatalogHydrationSchedulerState::new();

    let accepted = state.admit_command(&first, emitted(&first)).unwrap();
    assert!(accepted.execute);
    assert!(accepted.active_schedule.is_none());
    assert!(matches!(
        accepted.receipt.outcome,
        CatalogHydrationSchedulingOutcome::Accepted
    ));
    let replay = state.admit_command(&first, emitted(&first) + 1).unwrap();
    assert!(!replay.execute);
    assert_eq!(replay.receipt, accepted.receipt);

    let follower = state
        .admit_command(&coalesced, emitted(&coalesced) + 1)
        .unwrap();
    assert!(!follower.execute);
    let active_schedule = follower.active_schedule.as_ref().unwrap();
    assert_eq!(active_schedule.command, first.binding());
    assert_eq!(active_schedule.receipt, accepted.receipt);
    assert!(matches!(
        follower.receipt.outcome,
        CatalogHydrationSchedulingOutcome::InProgress {
            active_command_id,
            active_receipt_id,
        } if active_command_id == first.command_id
            && active_receipt_id == accepted.receipt.receipt_id
    ));

    let retargeted = scheduler_fixture_command(b"scheduler-first", "another-selected-session");
    assert!(matches!(
        state.admit_command(&retargeted, emitted(&retargeted)),
        Err(EngineError::InvalidQuery(_))
    ));

    state
        .complete(
            &first.coalescing_key,
            emitted(&first) + 2,
            CatalogHydrationSchedulingOutcome::AlreadySatisfied,
        )
        .unwrap();
    for command in [&first, &coalesced] {
        let terminal = state.admit_command(command, emitted(command) + 3).unwrap();
        assert!(!terminal.execute);
        assert!(matches!(
            terminal.receipt.outcome,
            CatalogHydrationSchedulingOutcome::AlreadySatisfied
        ));
    }
    let later = scheduler_fixture_command(b"scheduler-third", "selected-session");
    let satisfied = state.admit_command(&later, emitted(&later) + 4).unwrap();
    assert!(!satisfied.execute);
    assert!(matches!(
        satisfied.receipt.outcome,
        CatalogHydrationSchedulingOutcome::AlreadySatisfied
    ));
}

#[test]
fn retryable_completion_requires_a_new_attempt_while_terminal_is_sticky() {
    let retry = scheduler_fixture_command(b"scheduler-retry", "selected-session");
    let terminal = scheduler_fixture_command(b"scheduler-terminal", "terminal-session");
    let mut state = CatalogHydrationSchedulerState::new();

    let first = state.admit_command(&retry, emitted(&retry)).unwrap();
    state
        .complete(
            &retry.coalescing_key,
            emitted(&retry) + 1,
            retryable_outcome(HydrationFailureCode::SourceBusy, SOURCE_BUSY_RETRY_MILLIS),
        )
        .unwrap();
    let retryable_receipt = state.receipt_for(&retry.request_key).unwrap();
    let retried = state.admit_command(&retry, emitted(&retry) + 2).unwrap();
    assert!(retried.execute);
    assert_eq!(retried.receipt.attempt, 2);
    assert_eq!(
        retried.receipt.prior_receipt_id,
        Some(retryable_receipt.receipt_id)
    );
    assert_ne!(retried.receipt.receipt_id, first.receipt.receipt_id);

    state.admit_command(&terminal, emitted(&terminal)).unwrap();
    state
        .complete(
            &terminal.coalescing_key,
            emitted(&terminal) + 1,
            terminal_outcome(HydrationFailureCode::StaleLocator),
        )
        .unwrap();
    let replay = state.admit_command(&terminal, emitted(&terminal) + 2).unwrap();
    assert!(!replay.execute);
    assert_eq!(replay.receipt.attempt, 1);
    assert!(matches!(
        replay.receipt.outcome,
        CatalogHydrationSchedulingOutcome::Rejected {
            failure: CatalogHydrationFailure {
                disposition: CatalogHydrationFailureDisposition::Terminal,
                ..
            }
        }
    ));
}

#[test]
fn scheduler_bounds_active_work_before_admitting_an_excess_command() {
    let mut state = CatalogHydrationSchedulerState::new();
    for index in 0..MAX_ACTIVE_HYDRATIONS {
        let command = scheduler_fixture_command(
            format!("scheduler-bound-{index}").as_bytes(),
            &format!("selected-{index}"),
        );
        let admission = state.admit_command(&command, emitted(&command)).unwrap();
        assert!(admission.execute);
    }
    let excess = scheduler_fixture_command(b"scheduler-bound-excess", "selected-excess");
    let rejected = state.admit_command(&excess, emitted(&excess)).unwrap();
    assert!(!rejected.execute);
    assert!(matches!(
        rejected.receipt.outcome,
        CatalogHydrationSchedulingOutcome::Rejected {
            failure: CatalogHydrationFailure {
                disposition: CatalogHydrationFailureDisposition::Retryable,
                code,
                ..
            }
        } if code.as_str() == "scheduler_busy"
    ));
    assert_eq!(state.active_len(), MAX_ACTIVE_HYDRATIONS);
}

#[test]
fn adapter_cancellation_preserves_retained_receipts_and_only_cancels_matching_work() {
    let command = scheduler_fixture_command(b"scheduler-cancel", "selected-session");
    let mut state = CatalogHydrationSchedulerState::new();
    let admission = state.admit_command(&command, emitted(&command)).unwrap();
    assert!(admission.execute);

    state.cancel_adapter("another-adapter");
    assert!(!state.is_cancel_requested(&command.coalescing_key));
    state.cancel_adapter(&command.authorization.adapter_id);
    assert!(state.is_cancel_requested(&command.coalescing_key));
    assert_eq!(state.command_for(&command.request_key), Some(command.clone()));
    assert_eq!(
        state.receipt_for(&command.request_key),
        Some(admission.receipt)
    );
}

#[test]
fn dead_worker_detection_covers_only_unfinished_receipts() {
    let command = scheduler_fixture_command(b"scheduler-active-command", "selected-session");
    let mut state = CatalogHydrationSchedulerState::new();
    let accepted = state.admit_command(&command, emitted(&command)).unwrap();
    assert!(outcome_requires_worker(
        &CatalogHydrationSchedulingOutcome::Accepted
    ));
    assert!(outcome_requires_worker(
        &CatalogHydrationSchedulingOutcome::InProgress {
            active_command_id: command.command_id,
            active_receipt_id: accepted.receipt.receipt_id,
        }
    ));
    assert!(!outcome_requires_worker(
        &CatalogHydrationSchedulingOutcome::AlreadySatisfied
    ));
    assert!(!outcome_requires_worker(&terminal_outcome(
        HydrationFailureCode::StaleLocator
    )));
    assert!(matches!(
        state.replay(&command.request_key, false),
        Err(EngineError::WorkerUnavailable { .. })
    ));
}

#[test]
fn execution_results_map_only_to_closed_path_free_machine_codes() {
    let busy = classify_hydration_result(&Err(EngineError::ObservationBusy));
    let stale = classify_hydration_result(&Err(EngineError::Observation {
        operation: "hydrate selected catalog object",
        detail: "/Users/alice/private/session.jsonl".to_string(),
    }));
    let incomplete = classify_hydration_result(&Ok(ReconcileOutcome {
        backlog_remaining: 1,
        ..ReconcileOutcome::default()
    }));
    let encoded = format!("{busy:?} {stale:?} {incomplete:?}");
    assert!(!encoded.contains("/Users/"));
    assert!(!encoded.contains("alice"));
    let code = |outcome: CatalogHydrationSchedulingOutcome| match outcome {
        CatalogHydrationSchedulingOutcome::Rejected { failure } => failure.code.as_str(),
        _ => "",
    };
    assert_eq!(code(busy), "source_busy");
    assert_eq!(code(stale), "stale_locator");
    assert_eq!(code(incomplete), "hydration_incomplete");
}

#[test]
fn replay_reports_coalesced_context_and_retryability() {
    let first = scheduler_fixture_command(b"replay-first", "replay-session");
    let second = scheduler_fixture_command(b"replay-second", "replay-session");
    let mut state = CatalogHydrationSchedulerState::new();
    assert!(state.replay(&first.request_key, true).unwrap().is_none());
    let accepted = state.admit_command(&first, emitted(&first)).unwrap();
    state.admit_command(&second, emitted(&second)).unwrap();
    let replay = state.replay(&second.request_key, true).unwrap().unwrap();
    assert!(!replay.retryable);
    assert_eq!(replay.active_schedule.unwrap().receipt, accepted.receipt);

    state
        .complete(
            &first.coalescing_key,
            emitted(&first) + 1,
            retryable_outcome(HydrationFailureCode::SourceBusy, SOURCE_BUSY_RETRY_MILLIS),
        )
        .unwrap();
    let replay = state.replay(&second.request_key, false).unwrap().unwrap();
    assert!(replay.retryable);
    assert!(replay.active_schedule.is_none());
    assert_eq!(replay.receipt.prior_receipt_id.is_some(), true);
}

#[test]
fn receipts_before_their_snapshot_are_refused_without_losing_the_command() {
    let command = scheduler_fixture_command(b"too-early", "early-session");
    let mut state = CatalogHydrationSchedulerState::new();
    assert!(matches!(
        state.admit_command(&command, command.snapshot_id.complete_commit - 1),
        Err(EngineError::ContractViolation(_))
    ));
    assert_eq!(state.command_for(&command.request_key), Some(command.clone()));
    assert!(state.receipt_for(&command.request_key).is_none());
    assert!(matches!(
        state.admit_command(&command, emitted(&command)),
        Err(EngineError::InvalidCommit(_))
    ));
}

#[test]
fn unpublished_admission_is_rejected_retryably_and_leaves_the_lane() {
    let command = scheduler_fixture_command(b"unpublished", "unpublished-session");
    let mut state = CatalogHydrationSchedulerState::new();
    let admission = state.admit_command(&command, emitted(&command)).unwrap();
    let receipt = state
        .reject_unpublished_admission(
            &command,
            admission.prior_before_acceptance,
            emitted(&command),
            HydrationFailureCode::SchedulerUnavailable,
        )
        .unwrap();
    assert_eq!(state.active_len(), 0);
    assert!(matches!(
        receipt.outcome,
        CatalogHydrationSchedulingOutcome::Rejected { failure } if failure.code == HydrationFailureCode::SchedulerUnavailable
            && failure.disposition == CatalogHydrationFailureDisposition::Retryable
    ));
    let again = state.admit_command(&command, emitted(&command) + 1).unwrap();
    assert!(again.execute);
    assert_eq!(again.receipt.attempt, 2);
}
