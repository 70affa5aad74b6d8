//! Decisions of the all-source catalog refresh: the installed refresh
//! runtime (staged sources, an active worker, a pending request) and the
//! worker's bounded retry policy. The worker thread and its wake channel
//! perform what these decisions say.
use vstd::prelude::*;
use crate::build_rules::{CatalogBuildOutcome, CatalogConfiguredSource, CatalogPublicationKind};
use crate::error::EngineError;

verus! {

broadcast use vstd::seq::group_seq_axioms;

/// Capacity of the worker's wake channel: one pending wake coalesces any
/// number of requests.
pub const CATALOG_REFRESH_WAKE_CAPACITY: usize = 1;

/// Window in which further wakes are folded into one refresh, in ms.
pub const CATALOG_REFRESH_COALESCE_WINDOW_MS: u64 = 50;

/// Delay before retrying a failed refresh, in ms.
pub const CATALOG_REFRESH_RETRY_DELAY_MS: u64 = 1000;

/// Attempts per external signal before the worker waits for the next one.
pub const MAX_AUTOMATIC_REFRESH_ATTEMPTS: usize = 3;

/// The installed refresh runtime.
#[derive(Debug, Clone, PartialEq, Eq)]
pub struct ConfiguredCatalogRefreshRuntime {
    pub configured: Option<Vec<CatalogConfiguredSource>>,
    /// A refresh worker is running.
    pub active: bool,
    /// A refresh was requested while no worker could take it.
    pub pending: bool,
}

impl ConfiguredCatalogRefreshRuntime {
    pub fn new() -> (r: Self)
        ensures
            r.configured is None,
            !r.active,
            !r.pending,
    {
        ConfiguredCatalogRefreshRuntime { configured: None, active: false, pending: false }
    }

    /// Stage the configured sources; only one configuration can be
    /// installed.
    pub fn stage_configured_catalog_refresh(&mut self, configured: Vec<CatalogConfiguredSource>) -> (r: Result<(), EngineError>)
        ensures
            r is Ok <==> configured@.len() > 0 && old(self).configured is None && !old(self).active,
            r is Ok ==> final(self).configured == Some(configured) && final(self).active == old(self).active
                && !final(self).pending,
            r is Err ==> *final(self) == *old(self),
            r matches Err(e) ==> e is InvalidConfig,
    {
        if configured.len() == 0 {
            return Err(EngineError::InvalidConfig("configured catalog refresh requires at least one source".to_owned()));
        }
        if self.configured.is_some() || self.active {
            return Err(EngineError::InvalidConfig("configured catalog refresh is already installed".to_owned()));
        }
        self.configured = Some(configured);
        self.pending = false;
        Ok(())
    }

    /// Whether a worker may be started now, and whether it must be woken at
    /// once for a request made while it was not running.
    pub fn activate_configured_catalog_refresh(&self) -> (r: Result<bool, EngineError>)
        ensures
            r is Ok <==> !self.active && self.configured is Some,
            r matches Ok(wake) ==> wake == self.pending,
            r matches Err(e) ==> e is InvalidConfig,
    {
        if self.active {
            return Err(EngineError::InvalidConfig("configured catalog refresh is already active".to_owned()));
        }
        if self.configured.is_none() {
            return Err(EngineError::InvalidConfig(
                "configured catalog refresh was not staged before activation".to_owned(),
            ));
        }
        Ok(self.pending)
    }

    /// Record a worker that started (and took any pending wake).
    pub fn activated(&mut self)
        ensures
            final(self).configured == old(self).configured,
            final(self).active,
            !final(self).pending,
    {
        self.active = true;
        self.pending = false;
    }

    /// Decide a refresh request: ignored without configuration, remembered
    /// while no worker runs, otherwise a wake for the worker.
    pub fn request_configured_catalog_refresh(&mut self) -> (r: RefreshRequest)
        ensures
            old(self).configured is None ==> r == RefreshRequest::Ignored && *final(self) == *old(self),
            old(self).configured is Some && !old(self).active ==> r == RefreshRequest::Deferred
                && final(self).pending && final(self).configured == old(self).configured
                && final(self).active == old(self).active,
            old(self).configured is Some && old(self).active ==> r == RefreshRequest::Wake && *final(self) == *old(self),
    {
        if self.configured.is_none() {
            return RefreshRequest::Ignored;
        }
        if !self.active {
            self.pending = true;
            return RefreshRequest::Deferred;
        }
        RefreshRequest::Wake
    }

    /// A wake the worker could not take stays pending.
    pub fn wake_failed(&mut self)
        ensures
            final(self).configured == old(self).configured,
            final(self).active == old(self).active,
            final(self).pending,
    {
        self.pending = true;
    }

    /// Remove the configuration; returns whether a running worker must be
    /// shut down.
    pub fn clear_configured_catalog_refresh(&mut self) -> (r: bool)
        ensures
            r == old(self).active,
            final(self).configured is None,
            !final(self).active,
            !final(self).pending,
    {
        let was_active = self.active;
        self.configured = None;
        self.pending = false;
        self.active = false;
        was_active
    }

    /// Remove the configuration when it names `adapter_id`; returns whether
    /// a running worker must be shut down.
    pub fn clear_catalog_refresh_for_adapter(&mut self, adapter_id: &str) -> (r: bool)
        ensures
            configuration_names(old(self).configured, adapter_id@) ==> {
                &&& r == old(self).active
                &&& final(self).configured is None
                &&& !final(self).active
                &&& !final(self).pending
            },
            !configuration_names(old(self).configured, adapter_id@) ==> !r && *final(self) == *old(self),
    {
        if self.configures_adapter(adapter_id) {
            self.clear_configured_catalog_refresh()
        } else {
            false
        }
    }

    /// Whether a refresh worker is running.
    pub fn configured_catalog_refresh_is_active(&self) -> (r: bool)
        ensures
            r == self.active,
    {
        self.active
    }

    /// Whether the installed configuration names `adapter_id`.
    pub fn configures_adapter(&self, adapter_id: &str) -> (r: bool)
        ensures
            r == configuration_names(self.configured, adapter_id@),
    {
        match &self.configured {
            None => false,
            Some(c) => {
                let mut i: usize = 0;
                while i < c.len()
                    invariant
                        self.configured is Some,
                        self.configured->0@ == c@,
                        i <= c@.len(),
                        forall|k: int| 0 <= k < i ==> (#[trigger] c@[k]).adapter_id@ != adapter_id@,
                    decreases c@.len() - i,
                {
                    if crate::util::str_equal(c[i].adapter_id.as_str(), adapter_id) {
                        assert(c@[i as int].adapter_id@ == adapter_id@);
                        return true;
                    }
                    i = i + 1;
                }
                false
            },
        }
    }
}

/// The configuration names the adapter.
pub open spec fn configuration_names(configured: Option<Vec<CatalogConfiguredSource>>, adapter_id: Seq<char>) -> bool {
    match configured {
        Some(c) => exists|i: int| 0 <= i < c@.len() && (#[trigger] c@[i]).adapter_id@ == adapter_id,
        None => false,
    }
}

/// What a refresh request asks of the caller.
#[derive(Debug, Clone, Copy, PartialEq, Eq, Structural)]
pub enum RefreshRequest {
    /// No refresh is configured; nothing happens.
    Ignored,
    /// No worker runs; the request waits for activation.
    Deferred,
    /// Wake the running worker.
    Wake,
}

/// Whether a refresh worker's wake succeeded: a full channel already holds
/// a wake, so it coalesces.
#[derive(Debug, Clone, Copy, PartialEq, Eq, Structural)]
pub enum WakeResult {
    Sent,
    Full,
    Disconnected,
}

/// Outcome of waking a worker that is or is not alive.
pub fn wake_outcome(alive: bool, result: WakeResult) -> (r: Result<(), EngineError>)
    ensures
        r is Ok <==> alive && result != WakeResult::Disconnected,
        r matches Err(e) ==> e is WorkerUnavailable,
{
    if !alive {
        return Err(EngineError::WorkerUnavailable { worker: "catalog refresh" });
    }
    match result {
        WakeResult::Sent | WakeResult::Full => Ok(()),
        WakeResult::Disconnected => Err(EngineError::WorkerUnavailable { worker: "catalog refresh" }),
    }
}

/// A refresh worker needs at least one attempt per signal.
pub fn validate_refresh_policy(max_attempts: usize) -> (r: Result<(), EngineError>)
    ensures
        r is Ok <==> max_attempts > 0,
        r matches Err(e) ==> e is InvalidConfig,
{
    if max_attempts == 0 {
        return Err(EngineError::InvalidConfig("catalog refresh scheduler requires at least one attempt".to_owned()));
    }
    Ok(())
}

/// A refresh run succeeded only if it published a refresh; any other build
/// outcome means the active lineage was lost.
pub fn refresh_run_result(outcome: &CatalogBuildOutcome) -> (r: Result<(), EngineError>)
    ensures
        r is Ok <==> outcome matches CatalogBuildOutcome::Published { kind: CatalogPublicationKind::Refresh, .. },
        r matches Err(e) ==> e is InvalidCommit,
{
    match outcome {
        CatalogBuildOutcome::Published { kind: CatalogPublicationKind::Refresh, .. } => Ok(()),
        _ => Err(EngineError::InvalidCommit("configured catalog refresh lost its active promoted lineage".to_owned())),
    }
}

/// Retry state of the refresh worker.
#[derive(Debug, Clone, Copy, PartialEq, Eq, Structural)]
pub struct RefreshWorkerState {
    /// Consecutive failed runs since the last external signal or success.
    pub attempts: usize,
    /// The worker retries after a delay instead of waiting for a signal.
    pub retry: bool,
}

/// How a refresh run ended.
#[derive(Debug, Clone, Copy, PartialEq, Eq, Structural)]
pub enum RefreshRunResult {
    Succeeded,
    /// Cancelled or shutting down while the worker itself is cancelled.
    Cancelled,
    Failed,
}

/// What the worker does after a run.
#[derive(Debug, Clone, Copy, PartialEq, Eq, Structural)]
pub enum RefreshWorkerStep {
    Continue(RefreshWorkerState),
    Stop,
}

impl RefreshWorkerState {
    pub fn new() -> (r: Self)
        ensures
            r.attempts == 0,
            !r.retry,
    {
        RefreshWorkerState { attempts: 0, retry: false }
    }

    /// An external signal starts a fresh budget of attempts.
    pub fn woken(self, external: bool) -> (r: Self)
        ensures
            r.attempts == (if external { 0 } else { self.attempts }),
            r.retry == self.retry,
    {
        if external {
            RefreshWorkerState { attempts: 0, retry: self.retry }
        } else {
            self
        }
    }

    /// The state after a run: a success clears the budget, a cancellation
    /// stops the worker, a failure spends one attempt and retries while the
    /// budget lasts.
    pub fn after_run(self, result: RefreshRunResult, max_attempts: usize) -> (r: RefreshWorkerStep)
        ensures
            result == RefreshRunResult::Succeeded ==> r == RefreshWorkerStep::Continue(RefreshWorkerState { attempts: 0, retry: false }),
            result == RefreshRunResult::Cancelled ==> r == RefreshWorkerStep::Stop,
            result == RefreshRunResult::Failed ==> ({
                let attempts = if self.attempts == usize::MAX { usize::MAX } else { (self.attempts + 1) as usize };
                r == RefreshWorkerStep::Continue(RefreshWorkerState { attempts, retry: attempts < max_attempts })
            }),
    {
        match result {
            RefreshRunResult::Succeeded => RefreshWorkerStep::Continue(RefreshWorkerState { attempts: 0, retry: false }),
            RefreshRunResult::Cancelled => RefreshWorkerStep::Stop,
            RefreshRunResult::Failed => {
                let attempts = self.attempts.saturating_add(1);
                RefreshWorkerStep::Continue(RefreshWorkerState { attempts, retry: attempts < max_attempts })
            },
        }
    }
}

/// What ended one wait of the refresh worker on its wake channel.
#[derive(Debug, Clone, Copy, PartialEq, Eq, Structural)]
pub enum RefreshWait {
    /// A signal arrived.
    Woken,
    /// The wait's delay passed without a signal.
    TimedOut,
    /// Every sender is gone.
    Disconnected,
}

/// What the worker does after waiting for work.
#[derive(Debug, Clone, Copy, PartialEq, Eq, Structural)]
pub enum RefreshWaitStep {
    /// Open a coalescing window, then run with this state.
    Coalesce(RefreshWorkerState),
    /// Leave the worker loop.
    Stop,
}

/// What the worker does with one wait inside a coalescing window.
#[derive(Debug, Clone, Copy, PartialEq, Eq, Structural)]
pub enum CoalesceStep {
    /// A signal joined the burst; keep waiting until the window closes.
    Absorb,
    /// The window closed; run once.
    Run,
    /// The channel is gone; the worker is no longer alive.
    Abandon,
}

impl RefreshWorkerState {
    /// The state after waiting for work: a signal starts a fresh budget, a
    /// retry delay that passed keeps the spent one, and a closed channel or a
    /// cancelled worker stops the loop.
    pub fn after_wait(self, wait: RefreshWait, cancelled: bool) -> (r: RefreshWaitStep)
        ensures
            wait == RefreshWait::Disconnected || cancelled ==> r == RefreshWaitStep::Stop,
            wait == RefreshWait::Woken && !cancelled ==> r == RefreshWaitStep::Coalesce(
                RefreshWorkerState { attempts: 0, retry: self.retry }),
            wait == RefreshWait::TimedOut && !cancelled ==> r == RefreshWaitStep::Coalesce(self),
    {
        if cancelled {
            return RefreshWaitStep::Stop;
        }
        match wait {
            RefreshWait::Woken => RefreshWaitStep::Coalesce(self.woken(true)),
            RefreshWait::TimedOut => RefreshWaitStep::Coalesce(self.woken(false)),
            RefreshWait::Disconnected => RefreshWaitStep::Stop,
        }
    }
}

/// Decide one wait inside a coalescing window: signals that arrive while the
/// window is open join the same run.
pub fn coalesce_step(wait: RefreshWait) -> (r: CoalesceStep)
    ensures
        wait == RefreshWait::Woken ==> r == CoalesceStep::Absorb,
        wait == RefreshWait::TimedOut ==> r == CoalesceStep::Run,
        wait == RefreshWait::Disconnected ==> r == CoalesceStep::Abandon,
{
    match wait {
        RefreshWait::Woken => CoalesceStep::Absorb,
        RefreshWait::TimedOut => CoalesceStep::Run,
        RefreshWait::Disconnected => CoalesceStep::Abandon,
    }
}

/// Runs a coalescing window starts for a sequence of waits: the window
/// absorbs signals and runs once when a wait times out.
pub open spec fn window_runs(waits: Seq<RefreshWait>) -> nat
    decreases waits.len(),
{
    if waits.len() == 0 {
        0
    } else if waits[0] == RefreshWait::TimedOut {
        1
    } else if waits[0] == RefreshWait::Woken {
        window_runs(waits.drop_first())
    } else {
        0
    }
}

/// A burst of signals, however long, that arrives while a window is open
/// and is followed by the window closing leads to exactly one run.
pub proof fn lemma_burst_runs_once(burst: nat)
    ensures
        window_runs(Seq::new(burst, |i: int| RefreshWait::Woken).push(RefreshWait::TimedOut)) == 1,
    decreases burst,
{
    let waits = Seq::new(burst, |i: int| RefreshWait::Woken).push(RefreshWait::TimedOut);
    if burst > 0 {
        lemma_burst_runs_once((burst - 1) as nat);
        assert(waits.drop_first() =~= Seq::new((burst - 1) as nat, |i: int| RefreshWait::Woken).push(RefreshWait::TimedOut));
    }
}

/// State after `n` consecutive failed runs following an external signal.
pub open spec fn after_failures(n: nat, max_attempts: usize) -> RefreshWorkerState {
    RefreshWorkerState { attempts: n as usize, retry: n < max_attempts }
}

/// Failures are retried a bounded number of times per signal: after `n`
/// consecutive failures from a fresh signal the worker has spent `n`
/// attempts and retries exactly while `n` is below the budget, so at most
/// `max_attempts` runs follow one signal.
pub proof fn lemma_failures_spend_the_budget(n: nat, max_attempts: usize)
    requires
        n < usize::MAX,
    ensures
        ({
            let s = after_failures(n, max_attempts);
            let attempts = if s.attempts == usize::MAX { usize::MAX } else { (s.attempts + 1) as usize };
            RefreshWorkerStep::Continue(RefreshWorkerState { attempts, retry: attempts < max_attempts })
                == RefreshWorkerStep::Continue(after_failures(n + 1, max_attempts))
        }),
        after_failures(max_attempts as nat, max_attempts).retry == false,
{
}

} // verus!
