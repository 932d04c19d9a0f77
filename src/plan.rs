//! The instance lifecycle as plans: each operation becomes a list of steps
//! (container commands, metadata writes, cache updates, backup transfers),
//! each with what a failure of it means. A runner performs the steps in
//! order; on the first failing step it performs that step's cleanup, best
//! effort, and reports the step's error.
use vstd::prelude::*;

use crate::dialect::{command_view, pair_views, DialectKind};
use crate::error::AppError;
use crate::lifecycle::reconciled_instance;
use crate::names::{backup_key, backup_key_of, stamp_in_range, db_name_for, db_name_of, db_user_for, db_user_of};
use crate::record::{DbInstance, InstanceState, InstanceStatus, PoolContainer, StoredInstance};
use crate::text::owned;
use vstd::string::StringExecFns;

verus! {

broadcast use vstd::string::group_string_axioms;

/// One side effect.
#[derive(Debug)]
pub enum Action {
    /// Run a command inside a container.
    Exec { container_id: String, command: (String, Vec<String>), env: Vec<(String, String)> },
    /// Compress the stdout of the last `Exec` and store it under `key`.
    UploadDump { db_id: u128, key: String },
    /// Record the instance as archived under `key`, with the size of the last upload.
    MarkArchived { db_id: u128, key: String },
    /// Fetch and decompress `backup_key`, and feed it to a command inside the container.
    RestoreDump {
        backup_key: String,
        container_id: String,
        command: (String, Vec<String>),
        env: Vec<(String, String)>,
    },
    InsertInstance(StoredInstance),
    UpdateStatus(u128, InstanceState),
    /// Record the instance as active in the given pool.
    MarkActive { db_id: u128, container_id: String, host_port: u16 },
    DeleteInstance(u128),
    CacheInsert(DbInstance),
    CacheRemove(u128),
}

/// The error kind a failing step reports.
#[derive(Debug, Clone, Copy, PartialEq, Eq, Structural)]
pub enum FailureKind {
    /// The step's own error, unchanged.
    Propagate,
    Internal,
    RestoreFailed,
    BackupFailed,
}

/// What a failure of a step means: cleanup, then an error.
#[derive(Debug)]
pub struct Failure {
    pub kind: FailureKind,
    /// Text put before the cause in the message.
    pub context: String,
    /// Whether an error of the step itself is reported under `kind` too.
    pub wrap: bool,
    pub cleanup: Vec<Action>,
}

#[derive(Debug)]
pub struct Step {
    pub action: Action,
    /// Whether a command's exit code other than 0 is a failure.
    pub check_exit: bool,
    /// `None`: a failure is ignored.
    pub on_failure: Option<Failure>,
}

/// A list of steps, and the instance the operation hands back when all succeed.
#[derive(Debug)]
pub struct Plan {
    pub steps: Vec<Step>,
    pub instance: Option<DbInstance>,
}

/// How a step went.
#[derive(Debug)]
pub enum Outcome {
    Done,
    /// A command ran; its exit code may be missing.
    Exited { exit_code: Option<i64>, stderr: String },
    Failed(AppError),
}

impl Step {
    pub open spec fn spec_succeeded(&self, o: &Outcome) -> bool {
        match o {
            Outcome::Done => true,
            Outcome::Exited { exit_code, .. } => !self.check_exit || *exit_code == Some(0i64),
            Outcome::Failed(_) => false,
        }
    }

    pub fn succeeded(&self, o: &Outcome) -> (r: bool)
        ensures
            r == self.spec_succeeded(o),
    {
        match o {
            Outcome::Done => true,
            Outcome::Exited { exit_code, .. } => !self.check_exit || match exit_code {
                Some(c) => *c == 0,
                None => false,
            },
            Outcome::Failed(_) => false,
        }
    }
}

/// `e` is of kind `kind` and carries `detail`.
pub open spec fn error_is(e: AppError, kind: FailureKind, detail: Seq<char>) -> bool {
    match kind {
        FailureKind::Internal | FailureKind::Propagate => e matches AppError::Internal(s) && s@
            == detail,
        FailureKind::RestoreFailed => e matches AppError::RestoreFailed(s) && s@ == detail,
        FailureKind::BackupFailed => e matches AppError::BackupFailed(s) && s@ == detail,
    }
}

fn make_error(kind: FailureKind, detail: String) -> (r: AppError)
    ensures
        error_is(r, kind, detail@),
{
    match kind {
        FailureKind::Internal | FailureKind::Propagate => AppError::Internal(detail),
        FailureKind::RestoreFailed => AppError::RestoreFailed(detail),
        FailureKind::BackupFailed => AppError::BackupFailed(detail),
    }
}

impl Failure {
    /// The error a failed step reports: its own error where it is passed on,
    /// else the context followed by the cause.
    pub fn error_for(&self, o: Outcome) -> (r: AppError)
        ensures
            match o {
                Outcome::Failed(e) => if self.kind == FailureKind::Propagate || !self.wrap {
                    r == e
                } else {
                    error_is(r, self.kind, self.context@ + e.spec_message())
                },
                Outcome::Exited { stderr, .. } => error_is(r, self.kind, self.context@ + stderr@),
                Outcome::Done => error_is(r, self.kind, self.context@),
            },
    {
        match o {
            Outcome::Failed(e) => {
                if self.kind == FailureKind::Propagate || !self.wrap {
                    e
                } else {
                    let mut d = self.context.clone();
                    let m = e.message();
                    d.append(m.as_str());
                    make_error(self.kind, d)
                }
            },
            Outcome::Exited { stderr, .. } => {
                let mut d = self.context.clone();
                d.append(stderr.as_str());
                make_error(self.kind, d)
            },
            Outcome::Done => make_error(self.kind, self.context.clone()),
        }
    }
}

/// A command run as root inside `pool`.
pub open spec fn is_root_exec(a: Action, d: DialectKind, pool: PoolContainer, sql: Seq<char>) -> bool {
    a matches Action::Exec { container_id, command, env } && container_id@ == pool.container_id@
        && command_view(command) == d.spec_exec_sql(pool.root_password@, sql) && env@.len() == 0
}

/// A step that must succeed, reported as `kind` with `context`.
pub open spec fn is_checked(s: Step, kind: FailureKind, context: Seq<char>, wrap: bool) -> bool {
    s.check_exit && (s.on_failure matches Some(f) && f.kind == kind && f.context@ == context
        && f.wrap == wrap)
}

/// A step whose own error is passed on.
pub open spec fn is_propagating(s: Step) -> bool {
    s.on_failure matches Some(f) && f.kind == FailureKind::Propagate && f.cleanup@.len() == 0
}

pub open spec fn cleanup_of(s: Step) -> Seq<Action> {
    (s.on_failure->0).cleanup@
}

fn root_exec(d: DialectKind, pool: &PoolContainer, sql: &str) -> (r: Action)
    ensures
        is_root_exec(r, d, *pool, sql@),
{
    Action::Exec {
        container_id: pool.container_id.clone(),
        command: d.exec_sql_command(pool.root_password.as_str(), sql),
        env: Vec::new(),
    }
}

fn checked(action: Action, kind: FailureKind, context: &str, wrap: bool, cleanup: Vec<Action>) -> (r:
    Step)
    ensures
        r.action == action,
        is_checked(r, kind, context@, wrap),
        cleanup_of(r) == cleanup@,
{
    Step {
        action,
        check_exit: true,
        on_failure: Some(Failure { kind, context: owned(context), wrap, cleanup }),
    }
}

fn propagating(action: Action) -> (r: Step)
    ensures
        r.action == action,
        is_propagating(r),
        !r.check_exit,
{
    Step {
        action,
        check_exit: false,
        on_failure: Some(
            Failure { kind: FailureKind::Propagate, context: String::new(), wrap: false, cleanup: Vec::new() },
        ),
    }
}

fn best_effort(action: Action) -> (r: Step)
    ensures
        r.action == action,
        r.on_failure is None,
        !r.check_exit,
{
    Step { action, check_exit: false, on_failure: None }
}

/// What a step does to the durable states and to the cache.
pub enum Effect {
    Nothing,
    Put(u128, InstanceState),
    SetState(u128, InstanceState),
    Remove(u128),
    CacheIn(u128),
    CacheOut(u128),
}

pub open spec fn effect(a: Action) -> Effect {
    match a {
        Action::InsertInstance(r) => Effect::Put(r.db_id, r.status),
        Action::UpdateStatus(id, s) => Effect::SetState(id, s),
        Action::MarkActive { db_id, .. } => Effect::SetState(db_id, InstanceState::Active),
        Action::MarkArchived { db_id, .. } => Effect::SetState(db_id, InstanceState::Archived),
        Action::DeleteInstance(id) => Effect::Remove(id),
        Action::CacheInsert(i) => Effect::CacheIn(i.id),
        Action::CacheRemove(id) => Effect::CacheOut(id),
        _ => Effect::Nothing,
    }
}

pub open spec fn effects(steps: Seq<Step>) -> Seq<Effect> {
    steps.map_values(|s: Step| effect(s.action))
}

pub open spec fn action_effects(actions: Seq<Action>) -> Seq<Effect> {
    actions.map_values(|a: Action| effect(a))
}

/// What creating instance `id` does when every step succeeds.
pub open spec fn create_effects(id: u128) -> Seq<Effect> {
    seq![Effect::Nothing, Effect::Nothing, Effect::Put(id, InstanceState::Active), Effect::CacheIn(id)]
}

/// What archiving instance `id` does when every step succeeds.
pub open spec fn archive_effects(id: u128) -> Seq<Effect> {
    seq![
        Effect::Nothing,
        Effect::Nothing,
        Effect::SetState(id, InstanceState::Archived),
        Effect::CacheOut(id),
        Effect::Nothing,
        Effect::Nothing,
    ]
}

/// What restoring instance `id` does when every step succeeds.
pub open spec fn restore_effects(id: u128) -> Seq<Effect> {
    seq![
        Effect::Nothing,
        Effect::Nothing,
        Effect::Nothing,
        Effect::SetState(id, InstanceState::Active),
        Effect::CacheIn(id),
    ]
}

/// What destroying instance `id` does when every step succeeds; the drops
/// run only where the dialect's pool is known.
pub open spec fn destroy_effects(id: u128, with_pool: bool) -> Seq<Effect> {
    if with_pool {
        seq![Effect::CacheOut(id), Effect::Nothing, Effect::Nothing, Effect::Remove(id)]
    } else {
        seq![Effect::CacheOut(id), Effect::Remove(id)]
    }
}

/// The instance a create or restore hands back: running in `pool`, used at `now`.
pub open spec fn served_instance(
    inst: DbInstance,
    id: u128,
    dialect: Seq<char>,
    pool: PoolContainer,
    name: Seq<char>,
    user: Seq<char>,
    password: Seq<char>,
    now: i64,
) -> bool {
    &&& inst.id == id
    &&& inst.dialect@ == dialect
    &&& inst.container_id@ == pool.container_id@
    &&& inst.host_port == pool.host_port
    &&& inst.db_name@ == name
    &&& inst.db_user@ == user
    &&& inst.db_password@ == password
    &&& inst.status == InstanceStatus::Running
    &&& inst.created_at == now
    &&& inst.last_activity == now
}

fn running_instance(
    id: u128,
    dialect: String,
    pool: &PoolContainer,
    name: String,
    user: String,
    password: String,
    now: i64,
) -> (r: DbInstance)
    ensures
        served_instance(r, id, dialect@, *pool, name@, user@, password@, now),
        r == (DbInstance {
            id,
            dialect,
            container_id: pool.container_id,
            host_port: pool.host_port,
            db_name: name,
            db_user: user,
            db_password: password,
            status: InstanceStatus::Running,
            created_at: now,
            last_activity: now,
        }),
{
    let mut i = DbInstance::new(
        id,
        dialect,
        pool.container_id.clone(),
        pool.host_port,
        name,
        user,
        password,
        now,
    );
    i.status = InstanceStatus::Running;
    i
}

/// The instance a restore of `s` into `pool` hands back.
pub open spec fn restored_instance(s: StoredInstance, pool: PoolContainer, now: i64) -> DbInstance {
    DbInstance {
        id: s.db_id,
        dialect: s.dialect,
        container_id: pool.container_id,
        host_port: pool.host_port,
        db_name: s.db_name,
        db_user: s.db_user,
        db_password: s.db_password,
        status: InstanceStatus::Running,
        created_at: now,
        last_activity: now,
    }
}

/// Creating instance `id` of dialect `d` in `pool`: create the database and
/// the user as root (dropping the database if the user cannot be made), then
/// record it as active and cache it.
pub fn create_plan(d: DialectKind, id: u128, password: &str, pool: &PoolContainer, now: i64) -> (r:
    Plan)
    ensures
        r.steps@.len() == 4,
        effects(r.steps@) == create_effects(id),
        is_root_exec(r.steps@[0].action, d, *pool, d.spec_create_database_sql(db_name_of(id))),
        is_checked(r.steps@[0], FailureKind::Internal, "Failed to create database: "@, false),
        cleanup_of(r.steps@[0]).len() == 0,
        is_root_exec(
            r.steps@[1].action,
            d,
            *pool,
            d.spec_create_user_sql(db_user_of(id), password@, db_name_of(id)),
        ),
        is_checked(r.steps@[1], FailureKind::Internal, "Failed to create database user: "@, false),
        cleanup_of(r.steps@[1]).len() == 1,
        is_root_exec(cleanup_of(r.steps@[1])[0], d, *pool, d.spec_drop_database_sql(db_name_of(id))),
        r.steps@[2].action matches Action::InsertInstance(rec) && {
            &&& rec.db_id == id
            &&& rec.dialect@ == d.spec_name()
            &&& rec.db_name@ == db_name_of(id)
            &&& rec.db_user@ == db_user_of(id)
            &&& rec.db_password@ == password@
            &&& rec.status == InstanceState::Active
            &&& rec.container_id matches Some(c) && c@ == pool.container_id@
            &&& rec.host_port == Some(pool.host_port)
            &&& rec.created_at == now && rec.last_activity == now
            &&& rec.archived_at is None && rec.backup_key is None && rec.backup_size_bytes is None
            &&& rec.well_formed()
        },
        is_propagating(r.steps@[2]),
        r.steps@[3].action matches Action::CacheInsert(i) && served_instance(
            i,
            id,
            d.spec_name(),
            *pool,
            db_name_of(id),
            db_user_of(id),
            password@,
            now,
        ),
        r.steps@[3].on_failure is None,
        r.instance matches Some(i) && served_instance(
            i,
            id,
            d.spec_name(),
            *pool,
            db_name_of(id),
            db_user_of(id),
            password@,
            now,
        ),
{
    let name = db_name_for(id);
    let user = db_user_for(id);
    let mut steps: Vec<Step> = Vec::new();
    steps.push(
        checked(
            root_exec(d, pool, d.create_database_sql(name.as_str()).as_str()),
            FailureKind::Internal,
            "Failed to create database: ",
            false,
            Vec::new(),
        ),
    );
    let mut rollback: Vec<Action> = Vec::new();
    rollback.push(root_exec(d, pool, d.drop_database_sql(name.as_str()).as_str()));
    steps.push(
        checked(
            root_exec(d, pool, d.create_user_sql(user.as_str(), password, name.as_str()).as_str()),
            FailureKind::Internal,
            "Failed to create database user: ",
            false,
            rollback,
        ),
    );
    let record = StoredInstance {
        db_id: id,
        dialect: owned(d.name()),
        db_name: name.clone(),
        db_user: user.clone(),
        db_password: owned(password),
        status: InstanceState::Active,
        container_id: Some(pool.container_id.clone()),
        host_port: Some(pool.host_port),
        created_at: now,
        last_activity: now,
        archived_at: None,
        backup_key: None,
        backup_size_bytes: None,
    };
    steps.push(propagating(Action::InsertInstance(record)));
    let cached = running_instance(
        id,
        owned(d.name()),
        pool,
        name.clone(),
        user.clone(),
        owned(password),
        now,
    );
    steps.push(best_effort(Action::CacheInsert(cached)));
    let inst = running_instance(id, owned(d.name()), pool, name, user, owned(password), now);
    assert(effects(steps@) =~= create_effects(id));
    Plan { steps, instance: Some(inst) }
}

/// The drops of an instance's user, then of its database, inside `pool`.
fn drop_actions(d: DialectKind, pool: &PoolContainer, user: &str, name: &str) -> (r: Vec<Action>)
    ensures
        r@.len() == 2,
        is_root_exec(r@[0], d, *pool, d.spec_drop_user_sql(user@)),
        is_root_exec(r@[1], d, *pool, d.spec_drop_database_sql(name@)),
{
    let mut r: Vec<Action> = Vec::new();
    r.push(root_exec(d, pool, d.drop_user_sql(user).as_str()));
    r.push(root_exec(d, pool, d.drop_database_sql(name).as_str()));
    r
}

/// Destroying a stored instance: evict it from the cache, drop its user and
/// database where the dialect's pool is known (best effort), delete its
/// record. Its backup, if any, is kept.
pub fn destroy_plan(d: DialectKind, stored: &StoredInstance, pool: Option<&PoolContainer>) -> (r:
    Plan)
    ensures
        effects(r.steps@) == destroy_effects(stored.db_id, pool is Some),
        r.instance is None,
        r.steps@[0].on_failure is None,
        match pool {
            Some(p) => {
                &&& r.steps@.len() == 4
                &&& is_root_exec(r.steps@[1].action, d, *p, d.spec_drop_user_sql(stored.db_user@))
                &&& is_root_exec(
                    r.steps@[2].action,
                    d,
                    *p,
                    d.spec_drop_database_sql(stored.db_name@),
                )
                &&& r.steps@[1].on_failure is None && r.steps@[2].on_failure is None
                &&& is_propagating(r.steps@[3])
            },
            None => r.steps@.len() == 2 && is_propagating(r.steps@[1]),
        },
{
    let mut steps: Vec<Step> = Vec::new();
    steps.push(best_effort(Action::CacheRemove(stored.db_id)));
    match pool {
        Some(p) => {
            let mut drops = drop_actions(d, p, stored.db_user.as_str(), stored.db_name.as_str());
            let drop_db = drops.pop().unwrap();
            let drop_user = drops.pop().unwrap();
            steps.push(best_effort(drop_user));
            steps.push(best_effort(drop_db));
        },
        None => {},
    }
    steps.push(propagating(Action::DeleteInstance(stored.db_id)));
    assert(effects(steps@) =~= destroy_effects(stored.db_id, pool is Some));
    Plan { steps, instance: None }
}

/// The actions of a destroy, as a cleanup list.
fn destroy_actions(d: DialectKind, stored: &StoredInstance, pool: &PoolContainer) -> (r: Vec<
    Action,
>)
    ensures
        action_effects(r@) == destroy_effects(stored.db_id, true),
        is_root_exec(r@[1], d, *pool, d.spec_drop_user_sql(stored.db_user@)),
        is_root_exec(r@[2], d, *pool, d.spec_drop_database_sql(stored.db_name@)),
{
    let mut r: Vec<Action> = Vec::new();
    r.push(Action::CacheRemove(stored.db_id));
    let mut drops = drop_actions(d, pool, stored.db_user.as_str(), stored.db_name.as_str());
    let drop_db = drops.pop().unwrap();
    let drop_user = drops.pop().unwrap();
    r.push(drop_user);
    r.push(drop_db);
    r.push(Action::DeleteInstance(stored.db_id));
    assert(action_effects(r@) =~= destroy_effects(stored.db_id, true));
    r
}

/// Where an archive request goes.
#[derive(Debug)]
pub enum ArchiveRoute {
    /// Backups are off or the dialect cannot dump: the instance is destroyed.
    Destroy,
    Archive(Plan),
}

/// Archiving a stored instance: dump it with its own credentials (on
/// failure destroy it and report `BackupFailed`), upload the dump (on
/// failure report `BackupFailed`, nothing changed), record it as archived,
/// evict it, then drop its user and database (best effort).
pub fn archive_plan(
    d: DialectKind,
    backup_configured: bool,
    stored: &StoredInstance,
    pool: Option<&PoolContainer>,
    now: i64,
) -> (r: Result<ArchiveRoute, AppError>)
    ensures
        !backup_configured || !d.spec_supports_backup() ==> r matches Ok(ArchiveRoute::Destroy),
        backup_configured && d.spec_supports_backup() && pool is None ==> r matches Err(
            AppError::Internal(_),
        ),
        backup_configured && d.spec_supports_backup() && pool is Some ==> match r {
            Ok(ArchiveRoute::Archive(p)) => {
                let pl = *pool->0;
                let dump = d.spec_dump(stored.db_name@, stored.db_user@)->0;
                &&& p.steps@.len() == 6
                &&& effects(p.steps@) == archive_effects(stored.db_id)
                &&& p.steps@[0].action matches Action::Exec { container_id, command, env }
                    && container_id@ == pl.container_id@ && command_view(command) == dump
                    && pair_views(env@) == d.spec_cli_env(stored.db_password@)
                &&& is_checked(p.steps@[0], FailureKind::BackupFailed, "Dump failed: "@, false)
                &&& action_effects(cleanup_of(p.steps@[0])) == destroy_effects(
                    stored.db_id,
                    true,
                )
                &&& p.steps@[1].action matches Action::UploadDump { db_id, key } && db_id
                    == stored.db_id && key@ == backup_key_of(stored.db_id, now)
                &&& p.steps@[1].on_failure matches Some(f) && f.kind == FailureKind::BackupFailed
                    && f.wrap && f.cleanup@.len() == 0
                &&& p.steps@[2].action matches Action::MarkArchived { db_id, key } && db_id
                    == stored.db_id && key@ == backup_key_of(stored.db_id, now)
                &&& is_propagating(p.steps@[2])
                &&& is_root_exec(p.steps@[4].action, d, pl, d.spec_drop_user_sql(stored.db_user@))
                &&& is_root_exec(
                    p.steps@[5].action,
                    d,
                    pl,
                    d.spec_drop_database_sql(stored.db_name@),
                )
                &&& p.steps@[3].on_failure is None && p.steps@[4].on_failure is None
                    && p.steps@[5].on_failure is None
            },
            Ok(ArchiveRoute::Destroy) => false,
            Err(e) => e is Internal && !stamp_in_range(now),
        },
{
    if !backup_configured || !d.supports_backup() {
        return Ok(ArchiveRoute::Destroy);
    }
    let pool = match pool {
        Some(p) => p,
        None => {
            return Err(AppError::Internal(owned("No pool container for dialect")));
        },
    };
    let key = match backup_key(stored.db_id, now) {
        Some(k) => k,
        None => {
            return Err(AppError::Internal(owned("Clock outside the calendar's range")));
        },
    };
    let dump = match d.dump_command(stored.db_name.as_str(), stored.db_user.as_str()) {
        Some(c) => c,
        None => {
            return Ok(ArchiveRoute::Destroy);
        },
    };
    let mut steps: Vec<Step> = Vec::new();
    steps.push(
        checked(
            Action::Exec {
                container_id: pool.container_id.clone(),
                command: dump,
                env: d.cli_env_vars(stored.db_password.as_str()),
            },
            FailureKind::BackupFailed,
            "Dump failed: ",
            false,
            destroy_actions(d, stored, pool),
        ),
    );
    steps.push(
        Step {
            action: Action::UploadDump { db_id: stored.db_id, key: key.clone() },
            check_exit: false,
            on_failure: Some(
                Failure {
                    kind: FailureKind::BackupFailed,
                    context: owned("Upload failed: "),
                    wrap: true,
                    cleanup: Vec::new(),
                },
            ),
        },
    );
    steps.push(propagating(Action::MarkArchived { db_id: stored.db_id, key }));
    steps.push(best_effort(Action::CacheRemove(stored.db_id)));
    let mut drops = drop_actions(d, pool, stored.db_user.as_str(), stored.db_name.as_str());
    let drop_db = drops.pop().unwrap();
    let drop_user = drops.pop().unwrap();
    steps.push(best_effort(drop_user));
    steps.push(best_effort(drop_db));
    assert(effects(steps@) =~= archive_effects(stored.db_id));
    Ok(ArchiveRoute::Archive(Plan { steps, instance: None }))
}

/// What rebuilding the cache entry of an active record does.
pub open spec fn reconcile_effects(id: u128) -> Seq<Effect> {
    seq![Effect::CacheIn(id)]
}

/// Rebuilding the cache entry of an active record that is not cached: the
/// entry points at the record's pool and is used from `now`.
pub fn reconcile_plan(stored: &StoredInstance, now: i64) -> (r: Plan)
    ensures
        r.steps@.len() == 1,
        effects(r.steps@) == reconcile_effects(stored.db_id),
        r.steps@[0].on_failure is None,
        r.steps@[0].action matches Action::CacheInsert(i) && i.id == stored.db_id,
        r.instance matches Some(i) && i.id == stored.db_id && i.db_name == stored.db_name
            && i.db_user == stored.db_user && i.db_password == stored.db_password
            && i.status == InstanceStatus::Running && i.last_activity == now,
{
    let cached = reconciled_instance(stored, now);
    let inst = reconciled_instance(stored, now);
    let mut steps: Vec<Step> = Vec::new();
    steps.push(best_effort(Action::CacheInsert(cached)));
    assert(effects(steps@) =~= reconcile_effects(stored.db_id));
    Plan { steps, instance: Some(inst) }
}

/// Whether an archived record can be restored: backups must be on and the
/// record must name its dump.
pub fn restore_precheck(stored: &StoredInstance, backup_configured: bool) -> (r: Result<
    (),
    AppError,
>)
    ensures
        !backup_configured ==> r matches Err(AppError::RestoreFailed(_)),
        backup_configured && stored.backup_key is None ==> r matches Err(AppError::BackupNotFound),
        backup_configured && stored.backup_key is Some ==> r is Ok,
{
    if !backup_configured {
        return Err(AppError::RestoreFailed(owned("Backup not configured")));
    }
    match &stored.backup_key {
        Some(_) => Ok(()),
        None => Err(AppError::BackupNotFound),
    }
}

/// Marks a record as being restored; the first step of every restore.
pub fn begin_restore_plan(stored: &StoredInstance) -> (r: Plan)
    ensures
        r.steps@.len() == 1,
        r.steps@[0].action == Action::UpdateStatus(stored.db_id, InstanceState::Restoring),
        is_propagating(r.steps@[0]),
        r.instance is None,
{
    let mut steps: Vec<Step> = Vec::new();
    steps.push(propagating(Action::UpdateStatus(stored.db_id, InstanceState::Restoring)));
    Plan { steps, instance: None }
}

/// Puts a record back to archived after a restore could not get its pool.
pub fn abort_restore_plan(stored: &StoredInstance) -> (r: Plan)
    ensures
        r.steps@.len() == 1,
        r.steps@[0].action == Action::UpdateStatus(stored.db_id, InstanceState::Archived),
        r.steps@[0].on_failure is None,
        r.instance is None,
{
    let mut steps: Vec<Step> = Vec::new();
    steps.push(best_effort(Action::UpdateStatus(stored.db_id, InstanceState::Archived)));
    Plan { steps, instance: None }
}

/// Restoring an archived record into `pool`: re-create its database and user
/// with the stored names and password, replay its dump as the user, record it
/// as active in the pool and cache it. A failure of any step after the
/// database exists drops what was made and puts the record back to archived.
pub fn restore_plan(d: DialectKind, stored: &StoredInstance, pool: &PoolContainer, now: i64) -> (r:
    Result<Plan, AppError>)
    ensures
        stored.backup_key is None || !d.spec_supports_backup() ==> r matches Err(
            AppError::RestoreFailed(_),
        ),
        stored.backup_key is Some && d.spec_supports_backup() ==> (r matches Ok(p) && {
            let id = stored.db_id;
            let undo = Action::UpdateStatus(id, InstanceState::Archived);
            &&& p.steps@.len() == 5
            &&& effects(p.steps@) == restore_effects(id)
            &&& is_root_exec(
                p.steps@[0].action,
                d,
                *pool,
                d.spec_create_database_sql(stored.db_name@),
            )
            &&& is_checked(p.steps@[0], FailureKind::RestoreFailed, "Failed to create database: "@, true)
            &&& cleanup_of(p.steps@[0]) == seq![undo]
            &&& is_root_exec(
                p.steps@[1].action,
                d,
                *pool,
                d.spec_create_user_sql(stored.db_user@, stored.db_password@, stored.db_name@),
            )
            &&& is_checked(p.steps@[1], FailureKind::RestoreFailed, "Failed to create user: "@, true)
            &&& cleanup_of(p.steps@[1]).len() == 2
            &&& is_root_exec(
                cleanup_of(p.steps@[1])[0],
                d,
                *pool,
                d.spec_drop_database_sql(stored.db_name@),
            )
            &&& cleanup_of(p.steps@[1])[1] == undo
            &&& p.steps@[2].action matches Action::RestoreDump {
                backup_key,
                container_id,
                command,
                env,
            } && stored.backup_key == Some(backup_key) && container_id@ == pool.container_id@
                && command_view(command) == d.spec_restore(stored.db_name@, stored.db_user@)->0
                && pair_views(env@) == d.spec_cli_env(stored.db_password@)
            &&& is_checked(p.steps@[2], FailureKind::RestoreFailed, "Restore failed: "@, true)
            &&& cleanup_of(p.steps@[2]).len() == 3
            &&& is_root_exec(
                cleanup_of(p.steps@[2])[0],
                d,
                *pool,
                d.spec_drop_user_sql(stored.db_user@),
            )
            &&& is_root_exec(
                cleanup_of(p.steps@[2])[1],
                d,
                *pool,
                d.spec_drop_database_sql(stored.db_name@),
            )
            &&& cleanup_of(p.steps@[2])[2] == undo
            &&& p.steps@[3].action matches Action::MarkActive { db_id, container_id, host_port }
                && db_id == id && container_id@ == pool.container_id@ && host_port
                == pool.host_port
            &&& !p.steps@[3].check_exit
            &&& p.steps@[3].on_failure matches Some(f) && f.kind == FailureKind::Propagate
            &&& cleanup_of(p.steps@[3]).len() == 3
            &&& is_root_exec(
                cleanup_of(p.steps@[3])[0],
                d,
                *pool,
                d.spec_drop_user_sql(stored.db_user@),
            )
            &&& is_root_exec(
                cleanup_of(p.steps@[3])[1],
                d,
                *pool,
                d.spec_drop_database_sql(stored.db_name@),
            )
            &&& cleanup_of(p.steps@[3])[2] == undo
            &&& p.steps@[4].action matches Action::CacheInsert(i) && served_instance(
                i,
                id,
                stored.dialect@,
                *pool,
                stored.db_name@,
                stored.db_user@,
                stored.db_password@,
                now,
            )
            &&& p.instance == Some(restored_instance(*stored, *pool, now))
        }),
{
    let key = match &stored.backup_key {
        Some(k) => k.clone(),
        None => {
            return Err(AppError::RestoreFailed(owned("No backup recorded")));
        },
    };
    let restore = match d.restore_command(stored.db_name.as_str(), stored.db_user.as_str()) {
        Some(c) => c,
        None => {
            return Err(AppError::RestoreFailed(owned("Dialect cannot restore backups")));
        },
    };
    let id = stored.db_id;
    let name = stored.db_name.as_str();
    let user = stored.db_user.as_str();
    let password = stored.db_password.as_str();
    let mut steps: Vec<Step> = Vec::new();
    let mut undo0: Vec<Action> = Vec::new();
    undo0.push(Action::UpdateStatus(id, InstanceState::Archived));
    steps.push(
        checked(
            root_exec(d, pool, d.create_database_sql(name).as_str()),
            FailureKind::RestoreFailed,
            "Failed to create database: ",
            true,
            undo0,
        ),
    );
    let mut undo1: Vec<Action> = Vec::new();
    undo1.push(root_exec(d, pool, d.drop_database_sql(name).as_str()));
    undo1.push(Action::UpdateStatus(id, InstanceState::Archived));
    steps.push(
        checked(
            root_exec(d, pool, d.create_user_sql(user, password, name).as_str()),
            FailureKind::RestoreFailed,
            "Failed to create user: ",
            true,
            undo1,
        ),
    );
    let mut undo2 = drop_actions(d, pool, user, name);
    undo2.push(Action::UpdateStatus(id, InstanceState::Archived));
    steps.push(
        checked(
            Action::RestoreDump {
                backup_key: key,
                container_id: pool.container_id.clone(),
                command: restore,
                env: d.cli_env_vars(password),
            },
            FailureKind::RestoreFailed,
            "Restore failed: ",
            true,
            undo2,
        ),
    );
    let mut undo3 = drop_actions(d, pool, user, name);
    undo3.push(Action::UpdateStatus(id, InstanceState::Archived));
    steps.push(
        Step {
            action: Action::MarkActive {
                db_id: id,
                container_id: pool.container_id.clone(),
                host_port: pool.host_port,
            },
            check_exit: false,
            on_failure: Some(
                Failure {
                    kind: FailureKind::Propagate,
                    context: String::new(),
                    wrap: false,
                    cleanup: undo3,
                },
            ),
        },
    );
    let cached = running_instance(
        id,
        stored.dialect.clone(),
        pool,
        stored.db_name.clone(),
        stored.db_user.clone(),
        stored.db_password.clone(),
        now,
    );
    steps.push(best_effort(Action::CacheInsert(cached)));
    let inst = running_instance(
        id,
        stored.dialect.clone(),
        pool,
        stored.db_name.clone(),
        stored.db_user.clone(),
        stored.db_password.clone(),
        now,
    );
    assert(effects(steps@) =~= restore_effects(id));
    Ok(Plan { steps, instance: Some(inst) })
}

} // verus!
