use vstd::prelude::*;
use crate::forwarder::ForwardRule;
use crate::identify::IdentifyCoordinator;
use crate::shard::{initial, ShardState};
use crate::shard_info::{spec_shard_of, ShardInfo, ShardInfoError};
use crate::worker::ShardWorker;

verus! {

/// The failures that a shard reports.
#[derive(Debug, Clone, Copy, PartialEq, Eq, Structural)]
pub enum GatewayError {
    /// The transport failed; always retried with backoff.
    TransportError,
    /// No Hello arrived in time; retried and counted toward the alert threshold.
    HandshakeTimeout,
    /// The session was invalidated and may be resumed.
    InvalidSessionResumable,
    /// The session was invalidated and must be identified afresh.
    InvalidSessionNonResumable,
    /// The shared lease store could not be reached; the limiter is never bypassed.
    RateLimiterUnavailable,
    /// Credentials or signature were refused; fatal.
    AuthFailure,
    /// A dispatch could not be published and was dropped.
    ForwardingFailed,
}

impl GatewayError {
    /// Every failure but bad credentials is retried.
    pub fn is_retryable(&self) -> (r: bool)
        ensures
            r == (*self != GatewayError::AuthFailure),
    {
        match self {
            GatewayError::AuthFailure => false,
            _ => true,
        }
    }
}

/// Longest reconnect delay, reached from the seventh attempt on.
pub const RECONNECT_CAP_MS: u64 = 60_000;

/// Upper bound (exclusive) of the random part added to a reconnect delay.
pub const RECONNECT_JITTER_MS: u64 = 1000;

/// The capped backoff table: the delay before reconnect attempt `attempt`
/// (counted from 0), doubling from one second.
pub open spec fn backoff_base_ms(attempt: u32) -> u64 {
    if attempt == 0 {
        1000
    } else if attempt == 1 {
        2000
    } else if attempt == 2 {
        4000
    } else if attempt == 3 {
        8000
    } else if attempt == 4 {
        16_000
    } else if attempt == 5 {
        32_000
    } else {
        RECONNECT_CAP_MS
    }
}

/// The delay before reconnect attempt `attempt`: its entry of the backoff
/// table plus the jitter `jitter_ms` reduced below one second.
pub fn reconnect_delay_ms(attempt: u32, jitter_ms: u64) -> (r: u64)
    ensures
        r == backoff_base_ms(attempt) + jitter_ms % RECONNECT_JITTER_MS,
        r < RECONNECT_CAP_MS + RECONNECT_JITTER_MS,
{
    let base: u64 = if attempt == 0 {
        1000
    } else if attempt == 1 {
        2000
    } else if attempt == 2 {
        4000
    } else if attempt == 3 {
        8000
    } else if attempt == 4 {
        16_000
    } else if attempt == 5 {
        32_000
    } else {
        RECONNECT_CAP_MS
    };
    base + jitter_ms % RECONNECT_JITTER_MS
}

/// What the supervisor does about a failure a shard reported.
#[derive(Debug, Clone, Copy, PartialEq, Eq, Structural)]
pub enum SupervisorAction {
    /// Restart the shard after the delay.
    Restart { delay_ms: u64 },
    /// Raise an alert and keep retrying after the delay: a shard is never
    /// abandoned.
    AlertAndRestart { delay_ms: u64 },
    /// Surface the failure to the operator and do not retry.
    Surface,
}

/// Decides what follows a failure: bad credentials are surfaced and never
/// retried; handshake timeouts raise an alert once `consecutive_timeouts`
/// reaches `alert_threshold`; everything else is restarted after the backoff
/// of `attempt`.
pub fn on_failure(
    error: GatewayError,
    attempt: u32,
    consecutive_timeouts: u32,
    alert_threshold: u32,
    jitter_ms: u64,
) -> (r: SupervisorAction)
    ensures
        error == GatewayError::AuthFailure ==> r == SupervisorAction::Surface,
        error == GatewayError::HandshakeTimeout && consecutive_timeouts >= alert_threshold ==> r
            == (SupervisorAction::AlertAndRestart {
            delay_ms: (backoff_base_ms(attempt) + jitter_ms % RECONNECT_JITTER_MS) as u64,
        }),
        error != GatewayError::AuthFailure && !(error == GatewayError::HandshakeTimeout
            && consecutive_timeouts >= alert_threshold) ==> r == (SupervisorAction::Restart {
            delay_ms: (backoff_base_ms(attempt) + jitter_ms % RECONNECT_JITTER_MS) as u64,
        }),
{
    if !error.is_retryable() {
        return SupervisorAction::Surface;
    }
    let delay_ms = reconnect_delay_ms(attempt, jitter_ms);
    if error == GatewayError::HandshakeTimeout && consecutive_timeouts >= alert_threshold {
        SupervisorAction::AlertAndRestart { delay_ms }
    } else {
        SupervisorAction::Restart { delay_ms }
    }
}

/// Number of shards that report `state`.
pub open spec fn count_in<T>(states: Seq<T>, state: T) -> nat
    decreases states.len(),
{
    if states.len() == 0 {
        0
    } else {
        count_in(states.drop_last(), state) + if states.last() == state {
            1nat
        } else {
            0nat
        }
    }
}

/// Aggregated health: how many of the shards are in `state`.
pub fn count_shards_in(states: &Vec<ShardState>, state: ShardState) -> (r: usize)
    ensures
        r == count_in(states@, state),
{
    let mut n: usize = 0;
    let mut i: usize = 0;
    while i < states.len()
        invariant
            0 <= i <= states@.len(),
            n == count_in(states@.subrange(0, i as int), state),
            n <= i,
        decreases states@.len() - i,
    {
        assert(states@.subrange(0, i + 1).drop_last() =~= states@.subrange(0, i as int));
        if states[i] == state {
            n = n + 1;
        }
        i = i + 1;
    }
    assert(states@.subrange(0, i as int) =~= states@);
    n
}

/// One whitelabel unit: a bot's credentials.
pub struct BotIdentity {
    pub token: String,
    pub application_id: u64,
    pub public_key: ed25519_dalek::PublicKey,
}

/// A bot identity with everything it owns alone: its identify coordinator and
/// one worker per shard, each with its own guild cache.
pub struct IdentityShards {
    pub identity: BotIdentity,
    pub coordinator: IdentifyCoordinator,
    pub workers: Vec<ShardWorker>,
}

impl IdentityShards {
    /// Spawns `total_shards` disconnected workers for `identity`; worker `i`
    /// owns exactly the guilds that route to shard `i`. The identity gets a
    /// coordinator of its own, with `max_concurrency` buckets and leases of
    /// `spacing_ms`. Refuses a layout without shards.
    pub fn spawn(
        identity: BotIdentity,
        total_shards: u64,
        max_concurrency: u64,
        spacing_ms: u64,
        alert_threshold: u32,
        capacity: usize,
        rules: &Vec<ForwardRule>,
        default_allow: bool,
    ) -> (r: Result<IdentityShards, ShardInfoError>)
        requires
            max_concurrency > 0,
            capacity > 0,
            total_shards <= usize::MAX,
        ensures
            total_shards == 0 <==> r is Err,
            r matches Ok(s) ==> {
                &&& s.workers@.len() == total_shards
                &&& s.coordinator.well_formed()
                &&& s.coordinator.spec_max_concurrency() == max_concurrency
                &&& s.coordinator.spec_spacing_ms() == spacing_ms
                &&& s.coordinator.history().len() == 0
                &&& forall|i: int| 0 <= i < total_shards ==> {
                    &&& (#[trigger] s.workers@[i]).well_formed()
                    &&& s.workers@[i].spec_shard() == initial(alert_threshold)
                    &&& s.workers@[i].spec_cache().is_empty()
                    &&& forall|g: u64| s.workers@[i].owns(g) == (spec_shard_of(g, total_shards) == i)
                }
            },
    {
        if total_shards == 0 {
            return Err(ShardInfoError::NoShards);
        }
        let mut workers: Vec<ShardWorker> = Vec::new();
        let mut i: u64 = 0;
        while i < total_shards
            invariant
                0 <= i <= total_shards,
                total_shards <= usize::MAX,
                capacity > 0,
                workers@.len() == i,
                forall|k: int| 0 <= k < i ==> {
                    &&& (#[trigger] workers@[k]).well_formed()
                    &&& workers@[k].spec_shard() == initial(alert_threshold)
                    &&& workers@[k].spec_cache().is_empty()
                    &&& forall|g: u64| workers@[k].owns(g) == (spec_shard_of(g, total_shards) == k)
                },
            decreases total_shards - i,
        {
            let info = match ShardInfo::new(i, total_shards) {
                Ok(info) => info,
                Err(e) => return Err(e),
            };
            let w = ShardWorker::new(info, alert_threshold, capacity, rules.clone(), default_allow);
            assert(w.spec_cache() =~= Map::empty());
            workers.push(w);
            i = i + 1;
        }
        Ok(
            IdentityShards {
                identity,
                coordinator: IdentifyCoordinator::new(max_concurrency, spacing_ms),
                workers,
            },
        )
    }
}

} // verus!
