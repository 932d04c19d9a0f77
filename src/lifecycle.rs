//! The manager's decisions: what a request resolves to, whether a pool can be
//! reused, how pool readiness is polled, and which instances are idle.
use vstd::prelude::*;
use vstd::string::StringExecFns;

use crate::dialect::DialectKind;
use crate::error::AppError;
use crate::record::{
    copy_opt_string, DbInstance, InstanceState, InstanceStatus, PoolContainer, StoredInstance,
};
use crate::text::owned;

verus! {

broadcast use vstd::string::group_string_axioms;

/// What `get_or_create` does for a request.
#[derive(Debug, Clone, Copy, PartialEq, Eq, Structural)]
pub enum Resolution {
    /// Create an instance with a new id.
    CreateFresh,
    /// Create an instance with the requested id.
    CreateAt(u128),
    /// Hand back the cached instance.
    ReturnCached,
    /// Rebuild the cache entry from the active record.
    Reconcile,
    /// Restore the archived record.
    Restore,
}

/// The decision table of `get_or_create`, from the requested id, the state of
/// its record (if one exists) and whether it is cached.
pub open spec fn spec_resolve(
    requested: Option<u128>,
    stored: Option<InstanceState>,
    cached: bool,
) -> Result<Resolution, AppError> {
    match requested {
        None => Ok(Resolution::CreateFresh),
        Some(id) => match stored {
            None => Ok(Resolution::CreateAt(id)),
            Some(InstanceState::Active) => if cached {
                Ok(Resolution::ReturnCached)
            } else {
                Ok(Resolution::Reconcile)
            },
            Some(InstanceState::Archived) => Ok(Resolution::Restore),
            Some(InstanceState::Restoring) => Err(AppError::RestoreInProgress),
        },
    }
}

pub fn resolve_request(requested: Option<u128>, stored: Option<InstanceState>, cached: bool) -> (r:
    Result<Resolution, AppError>)
    ensures
        r == spec_resolve(requested, stored, cached),
{
    match requested {
        None => Ok(Resolution::CreateFresh),
        Some(id) => match stored {
            None => Ok(Resolution::CreateAt(id)),
            Some(InstanceState::Active) => if cached {
                Ok(Resolution::ReturnCached)
            } else {
                Ok(Resolution::Reconcile)
            },
            Some(InstanceState::Archived) => Ok(Resolution::Restore),
            Some(InstanceState::Restoring) => Err(AppError::RestoreInProgress),
        },
    }
}

/// What `get` does for an id.
#[derive(Debug, Clone, Copy, PartialEq, Eq, Structural)]
pub enum Lookup {
    Cached,
    Reconcile,
}

/// `get`: the cache first; an active record is reconciled; an archived or
/// unknown id is `DbNotFound`; a restoring one is `RestoreInProgress`.
pub open spec fn spec_lookup(cached: bool, stored: Option<InstanceState>) -> Result<Lookup, AppError> {
    if cached {
        Ok(Lookup::Cached)
    } else {
        match stored {
            Some(InstanceState::Active) => Ok(Lookup::Reconcile),
            Some(InstanceState::Restoring) => Err(AppError::RestoreInProgress),
            _ => Err(AppError::DbNotFound),
        }
    }
}

pub fn resolve_get(cached: bool, stored: Option<InstanceState>) -> (r: Result<Lookup, AppError>)
    ensures
        r == spec_lookup(cached, stored),
{
    if cached {
        Ok(Lookup::Cached)
    } else {
        match stored {
            Some(InstanceState::Active) => Ok(Lookup::Reconcile),
            Some(InstanceState::Restoring) => Err(AppError::RestoreInProgress),
            _ => Err(AppError::DbNotFound),
        }
    }
}

/// Backups are taken only when switched on and every credential of the
/// object store is present.
pub fn backup_enabled(
    switched_on: bool,
    account_id: &str,
    access_key_id: &str,
    secret_access_key: &str,
) -> (r: bool)
    ensures
        r == (switched_on && account_id@.len() > 0 && access_key_id@.len() > 0
            && secret_access_key@.len() > 0),
{
    switched_on && !account_id.is_empty() && !access_key_id.is_empty()
        && !secret_access_key.is_empty()
}

/// The record an operation works on; an unknown id is `DbNotFound`.
pub open spec fn spec_require(stored: Option<StoredInstance>) -> Result<StoredInstance, AppError> {
    match stored {
        Some(s) => Ok(s),
        None => Err(AppError::DbNotFound),
    }
}

pub fn require_record(stored: Option<StoredInstance>) -> (r: Result<StoredInstance, AppError>)
    ensures
        r == spec_require(stored),
{
    match stored {
        Some(s) => Ok(s),
        None => Err(AppError::DbNotFound),
    }
}

/// `touch` succeeds exactly when the instance is recorded: the metadata
/// store is authoritative, so a cached instance without a record does not
/// exist.
pub fn resolve_touch(recorded: bool) -> (r: Result<(), AppError>)
    ensures
        r is Ok <==> recorded,
        !recorded ==> r == Err::<(), AppError>(AppError::DbNotFound),
{
    if recorded {
        Ok(())
    } else {
        Err(AppError::DbNotFound)
    }
}

/// The cache entry rebuilt from an active record, used from `now`.
pub fn reconciled_instance(stored: &StoredInstance, now: i64) -> (r: DbInstance)
    ensures
        r.id == stored.db_id,
        r.dialect == stored.dialect,
        r.db_name == stored.db_name && r.db_user == stored.db_user && r.db_password
            == stored.db_password,
        match stored.container_id {
            Some(c) => r.container_id == c,
            None => r.container_id@.len() == 0,
        },
        r.host_port == match stored.host_port {
            Some(p) => p,
            None => 0u16,
        },
        r.status == InstanceStatus::Running,
        r.created_at == stored.created_at,
        r.last_activity == now,
{
    let container_id = match copy_opt_string(&stored.container_id) {
        Some(c) => c,
        None => String::new(),
    };
    let host_port = match stored.host_port {
        Some(p) => p,
        None => 0,
    };
    DbInstance {
        id: stored.db_id,
        dialect: stored.dialect.clone(),
        container_id,
        host_port,
        db_name: stored.db_name.clone(),
        db_user: stored.db_user.clone(),
        db_password: stored.db_password.clone(),
        status: InstanceStatus::Running,
        created_at: stored.created_at,
        last_activity: now,
    }
}

/// The status record of an instance, archived ones included.
#[derive(Debug)]
pub struct StatusReport {
    pub db_id: u128,
    pub dialect: String,
    pub status: InstanceStatus,
    pub created_at: i64,
    pub last_activity: i64,
    /// When the instance will be archived if left idle.
    pub expires_at: i128,
    pub backup_available: bool,
    pub archived_at: Option<i64>,
}

/// The status of an instance: a live one as served, with whether a backup
/// exists; one that `get` does not find but that is recorded, as archived;
/// else the error of `get`.
pub fn db_status(
    found: Result<DbInstance, AppError>,
    stored: Option<&StoredInstance>,
    timeout_secs: u64,
) -> (r: Result<StatusReport, AppError>)
    ensures
        match found {
            Ok(i) => r matches Ok(s) && s.db_id == i.id && s.dialect == i.dialect && s.status
                == i.status && s.created_at == i.created_at && s.last_activity == i.last_activity
                && s.expires_at == i.last_activity + timeout_secs && s.backup_available == (
            stored matches Some(x) && x.backup_key is Some) && s.archived_at is None,
            Err(AppError::DbNotFound) => match stored {
                Some(x) => r matches Ok(s) && s.db_id == x.db_id && s.dialect == x.dialect
                    && s.status == InstanceStatus::Archived && s.created_at == x.created_at
                    && s.last_activity == x.last_activity && s.expires_at == x.last_activity
                    + timeout_secs && s.backup_available == x.backup_key is Some && s.archived_at
                    == x.archived_at,
                None => r matches Err(AppError::DbNotFound),
            },
            Err(e) => r == Err::<StatusReport, AppError>(e),
        },
{
    match found {
        Ok(i) => {
            let backup_available = match stored {
                Some(x) => x.backup_key.is_some(),
                None => false,
            };
            let expires_at = i.last_activity as i128 + timeout_secs as i128;
            Ok(
                StatusReport {
                    db_id: i.id,
                    dialect: i.dialect,
                    status: i.status,
                    created_at: i.created_at,
                    last_activity: i.last_activity,
                    expires_at,
                    backup_available,
                    archived_at: None,
                },
            )
        },
        Err(AppError::DbNotFound) => match stored {
            Some(x) => Ok(
                StatusReport {
                    db_id: x.db_id,
                    dialect: x.dialect.clone(),
                    status: InstanceStatus::Archived,
                    created_at: x.created_at,
                    last_activity: x.last_activity,
                    expires_at: x.expires_at(timeout_secs),
                    backup_available: x.backup_key.is_some(),
                    archived_at: x.archived_at,
                },
            ),
            None => Err(AppError::DbNotFound),
        },
        Err(e) => Err(e),
    }
}

/// What to do about a dialect's pool.
#[derive(Debug, Clone, Copy, PartialEq, Eq, Structural)]
pub enum PoolDecision {
    /// The recorded pool runs: use it.
    Reuse,
    /// The recorded pool is gone: delete its record, then create a new one.
    ReplaceStale,
    /// No pool is recorded: create one.
    Create,
}

/// A recorded pool is reused only while its container runs (a failed
/// inspection counts as not running).
pub open spec fn spec_pool_decision(recorded: bool, running: bool) -> PoolDecision {
    if !recorded {
        PoolDecision::Create
    } else if running {
        PoolDecision::Reuse
    } else {
        PoolDecision::ReplaceStale
    }
}

pub fn pool_decision(recorded: bool, running: bool) -> (r: PoolDecision)
    ensures
        r == spec_pool_decision(recorded, running),
{
    if !recorded {
        PoolDecision::Create
    } else if running {
        PoolDecision::Reuse
    } else {
        PoolDecision::ReplaceStale
    }
}

/// The record of a pool that just became ready.
pub fn pool_record(
    d: DialectKind,
    container_id: String,
    host_port: u16,
    root_password: String,
    now: i64,
) -> (r: PoolContainer)
    ensures
        r.dialect@ == d.spec_name(),
        r.container_id == container_id,
        r.host_port == host_port,
        r.root_password == root_password,
        r.created_at == now,
        r.status@ == "running"@,
{
    PoolContainer {
        dialect: owned(d.name()),
        container_id,
        host_port,
        root_password,
        created_at: now,
        status: owned("running"),
    }
}

/// The error of a pool that did not answer within its dialect's startup timeout.
pub fn pool_timeout_error(d: DialectKind) -> (r: AppError)
    ensures
        r matches AppError::Internal(m) && m@ == "Pool container for "@ + d.spec_name()
            + " failed to start within timeout"@,
{
    let mut m = owned("Pool container for ");
    m.append(d.name());
    m.append(" failed to start within timeout");
    AppError::Internal(m)
}

/// The probe that tells whether a pool's engine answers: `SELECT 1` as root.
pub fn readiness_probe(d: DialectKind, root_password: &str) -> (r: (String, Vec<String>))
    ensures
        crate::dialect::command_view(r) == d.spec_exec_sql(root_password@, "SELECT 1"@),
{
    d.exec_sql_command(root_password, "SELECT 1")
}

/// Where readiness polling stands.
#[derive(Debug, Clone, Copy, PartialEq, Eq, Structural)]
pub enum Readiness {
    /// Ask whether the container runs.
    CheckRunning,
    /// Run the probe.
    Probe,
    /// Sleep for the poll interval.
    Wait,
    Ready,
    NotReady,
}

/// What happened since the last decision.
#[derive(Debug, Clone, Copy, PartialEq, Eq, Structural)]
pub enum ReadyEvent {
    Begin,
    /// Whether the container runs; `None` when the daemon could not say.
    RunningChecked(Option<bool>),
    /// The probe's exit code; `None` when it could not run.
    Probed(Option<Option<i64>>),
    Waited,
}

/// Poll interval of readiness checks.
pub const POLL_INTERVAL_MS: u64 = 1000;

/// Readiness polling: while time remains, check that the container runs
/// (stop if it does not), run the probe (done on exit code 0), then wait.
pub open spec fn spec_readiness(elapsed_ms: u64, timeout_ms: u64, ev: ReadyEvent) -> Readiness {
    match ev {
        ReadyEvent::Begin | ReadyEvent::Waited => if elapsed_ms < timeout_ms {
            Readiness::CheckRunning
        } else {
            Readiness::NotReady
        },
        ReadyEvent::RunningChecked(Some(false)) => Readiness::NotReady,
        ReadyEvent::RunningChecked(_) => Readiness::Probe,
        ReadyEvent::Probed(Some(Some(0))) => Readiness::Ready,
        ReadyEvent::Probed(_) => Readiness::Wait,
    }
}

pub fn readiness_next(elapsed_ms: u64, timeout_ms: u64, ev: ReadyEvent) -> (r: Readiness)
    ensures
        r == spec_readiness(elapsed_ms, timeout_ms, ev),
{
    match ev {
        ReadyEvent::Begin | ReadyEvent::Waited => if elapsed_ms < timeout_ms {
            Readiness::CheckRunning
        } else {
            Readiness::NotReady
        },
        ReadyEvent::RunningChecked(Some(false)) => Readiness::NotReady,
        ReadyEvent::RunningChecked(_) => Readiness::Probe,
        ReadyEvent::Probed(Some(Some(c))) => if c == 0 {
            Readiness::Ready
        } else {
            Readiness::Wait
        },
        ReadyEvent::Probed(_) => Readiness::Wait,
    }
}

/// The ids of the records idle past `timeout_secs` at `now`, in order.
pub open spec fn spec_expired_ids(rows: Seq<StoredInstance>, now: i64, timeout_secs: u64) -> Seq<
    u128,
>
    decreases rows.len(),
{
    if rows.len() == 0 {
        Seq::empty()
    } else {
        let pre = spec_expired_ids(rows.drop_last(), now, timeout_secs);
        if rows.last().spec_expired(now, timeout_secs) {
            pre.push(rows.last().db_id)
        } else {
            pre
        }
    }
}

/// The instances the sweeper archives.
pub fn expired_ids(rows: &Vec<StoredInstance>, now: i64, timeout_secs: u64) -> (r: Vec<u128>)
    ensures
        r@ == spec_expired_ids(rows@, now, timeout_secs),
{
    let mut r: Vec<u128> = Vec::new();
    let mut i: usize = 0;
    assert(rows@.subrange(0, 0) =~= Seq::<StoredInstance>::empty());
    while i < rows.len()
        invariant
            i <= rows.len(),
            r@ == spec_expired_ids(rows@.subrange(0, i as int), now, timeout_secs),
        decreases rows.len() - i,
    {
        assert(rows@.subrange(0, i + 1).drop_last() =~= rows@.subrange(0, i as int));
        if rows[i].is_expired(now, timeout_secs) {
            r.push(rows[i].db_id);
        }
        i = i + 1;
    }
    assert(rows@.subrange(0, rows.len() as int) =~= rows@);
    r
}

} // verus!
