//! Instances, their durable records, pool records and the in-memory cache.
//!
//! Times are whole seconds since the Unix epoch, in UTC.
use std::collections::HashMap;
use vstd::prelude::*;

use crate::text::{owned, same_text};

verus! {

broadcast use {vstd::string::group_string_axioms, vstd::std_specs::hash::group_hash_axioms};

/// Status of an instance as reported to clients.
#[derive(Debug, Clone, Copy, PartialEq, Eq, Structural)]
pub enum InstanceStatus {
    Starting,
    Running,
    Stopped,
    Archived,
    Destroyed,
}

impl InstanceStatus {
    pub open spec fn spec_as_str(self) -> Seq<char> {
        match self {
            InstanceStatus::Starting => "starting"@,
            InstanceStatus::Running => "running"@,
            InstanceStatus::Stopped => "stopped"@,
            InstanceStatus::Archived => "archived"@,
            InstanceStatus::Destroyed => "destroyed"@,
        }
    }

    pub fn as_str(&self) -> (r: &'static str)
        ensures
            r@ == self.spec_as_str(),
    {
        match self {
            InstanceStatus::Starting => "starting",
            InstanceStatus::Running => "running",
            InstanceStatus::Stopped => "stopped",
            InstanceStatus::Archived => "archived",
            InstanceStatus::Destroyed => "destroyed",
        }
    }
}

/// Durable state of an instance.
#[derive(Debug, Clone, Copy, PartialEq, Eq, Structural)]
pub enum InstanceState {
    Active,
    Archived,
    Restoring,
}

impl InstanceState {
    pub open spec fn spec_as_str(self) -> Seq<char> {
        match self {
            InstanceState::Active => "active"@,
            InstanceState::Archived => "archived"@,
            InstanceState::Restoring => "restoring"@,
        }
    }

    pub fn as_str(&self) -> (r: &'static str)
        ensures
            r@ == self.spec_as_str(),
    {
        match self {
            InstanceState::Active => "active",
            InstanceState::Archived => "archived",
            InstanceState::Restoring => "restoring",
        }
    }

    /// The state that `s` names, if any.
    pub fn from_str(s: &str) -> (r: Option<InstanceState>)
        ensures
            r == (if s@ == "active"@ {
                Some(InstanceState::Active)
            } else if s@ == "archived"@ {
                Some(InstanceState::Archived)
            } else if s@ == "restoring"@ {
                Some(InstanceState::Restoring)
            } else {
                None::<InstanceState>
            }),
    {
        if same_text(s, "active") {
            Some(InstanceState::Active)
        } else if same_text(s, "archived") {
            Some(InstanceState::Archived)
        } else if same_text(s, "restoring") {
            Some(InstanceState::Restoring)
        } else {
            None
        }
    }
}

/// A logical database as the API serves it.
#[derive(Debug)]
pub struct DbInstance {
    pub id: u128,
    pub dialect: String,
    pub container_id: String,
    pub host_port: u16,
    pub db_name: String,
    pub db_user: String,
    pub db_password: String,
    pub status: InstanceStatus,
    pub created_at: i64,
    pub last_activity: i64,
}

impl DbInstance {
    /// A new instance record, `Starting`, created and last used at `now`.
    pub fn new(
        id: u128,
        dialect: String,
        container_id: String,
        host_port: u16,
        db_name: String,
        db_user: String,
        db_password: String,
        now: i64,
    ) -> (r: DbInstance)
        ensures
            r == (DbInstance {
                id,
                dialect,
                container_id,
                host_port,
                db_name,
                db_user,
                db_password,
                status: InstanceStatus::Starting,
                created_at: now,
                last_activity: now,
            }),
    {
        DbInstance {
            id,
            dialect,
            container_id,
            host_port,
            db_name,
            db_user,
            db_password,
            status: InstanceStatus::Starting,
            created_at: now,
            last_activity: now,
        }
    }

    /// Records activity at `now`.
    pub fn touch(&mut self, now: i64)
        ensures
            *final(self) == (DbInstance { last_activity: now, ..*old(self) }),
    {
        self.last_activity = now;
    }

    /// A copy of the instance.
    pub fn copy(&self) -> (r: DbInstance)
        ensures
            r == *self,
    {
        DbInstance {
            id: self.id,
            dialect: self.dialect.clone(),
            container_id: self.container_id.clone(),
            host_port: self.host_port,
            db_name: self.db_name.clone(),
            db_user: self.db_user.clone(),
            db_password: self.db_password.clone(),
            status: self.status,
            created_at: self.created_at,
            last_activity: self.last_activity,
        }
    }
}

pub fn copy_opt_string(o: &Option<String>) -> (r: Option<String>)
    ensures
        r == *o,
{
    match o {
        Some(s) => Some(s.clone()),
        None => None,
    }
}

/// The durable record of an instance.
#[derive(Debug)]
pub struct StoredInstance {
    pub db_id: u128,
    pub dialect: String,
    pub db_name: String,
    pub db_user: String,
    pub db_password: String,
    pub status: InstanceState,
    pub container_id: Option<String>,
    pub host_port: Option<u16>,
    pub created_at: i64,
    pub last_activity: i64,
    pub archived_at: Option<i64>,
    pub backup_key: Option<String>,
    pub backup_size_bytes: Option<i64>,
}

impl StoredInstance {
    /// The record invariants: an active row points at a container; an archived
    /// row points at none and names its backup and when it was taken.
    pub open spec fn well_formed(&self) -> bool {
        &&& self.status == InstanceState::Active ==> self.container_id is Some
            && self.host_port is Some
        &&& self.status == InstanceState::Archived ==> self.container_id is None
            && self.host_port is None && self.backup_key is Some && self.archived_at is Some
    }

    pub fn copy(&self) -> (r: StoredInstance)
        ensures
            r == *self,
    {
        StoredInstance {
            db_id: self.db_id,
            dialect: self.dialect.clone(),
            db_name: self.db_name.clone(),
            db_user: self.db_user.clone(),
            db_password: self.db_password.clone(),
            status: self.status,
            container_id: copy_opt_string(&self.container_id),
            host_port: self.host_port,
            created_at: self.created_at,
            last_activity: self.last_activity,
            archived_at: self.archived_at,
            backup_key: copy_opt_string(&self.backup_key),
            backup_size_bytes: self.backup_size_bytes,
        }
    }

    /// The record after its dump was stored under `key`: archived at `now`,
    /// detached from any container.
    pub fn archived(&self, key: &str, size: i64, now: i64) -> (r: StoredInstance)
        ensures
            r == archived_record(*self, r.backup_key, size, now),
            r.backup_key is Some && r.backup_key->0@ == key@,
            r.well_formed(),
    {
        let mut r = self.copy();
        r.status = InstanceState::Archived;
        r.container_id = None;
        r.host_port = None;
        r.archived_at = Some(now);
        r.backup_key = Some(owned(key));
        r.backup_size_bytes = Some(size);
        r
    }

    /// The record after it was restored into the pool `container_id`: active,
    /// last used at `now`, no longer archived.
    pub fn activated(&self, container_id: &str, port: u16, now: i64) -> (r: StoredInstance)
        ensures
            r.status == InstanceState::Active,
            r.container_id is Some && r.container_id->0@ == container_id@,
            r.host_port == Some(port),
            r.last_activity == now,
            r.archived_at is None,
            r.db_id == self.db_id && r.dialect == self.dialect && r.db_name == self.db_name
                && r.db_user == self.db_user && r.db_password == self.db_password
                && r.created_at == self.created_at && r.backup_key == self.backup_key
                && r.backup_size_bytes == self.backup_size_bytes,
            r.well_formed(),
    {
        let mut r = self.copy();
        r.status = InstanceState::Active;
        r.container_id = Some(owned(container_id));
        r.host_port = Some(port);
        r.last_activity = now;
        r.archived_at = None;
        r
    }

    /// The record with only its state changed.
    pub fn with_status(&self, status: InstanceState) -> (r: StoredInstance)
        ensures
            r == (StoredInstance { status, ..*self }),
    {
        let mut r = self.copy();
        r.status = status;
        r
    }

    /// The record with activity recorded at `now`.
    pub fn touched(&self, now: i64) -> (r: StoredInstance)
        ensures
            r == (StoredInstance { last_activity: now, ..*self }),
    {
        let mut r = self.copy();
        r.last_activity = now;
        r
    }

    /// Idle for longer than `timeout_secs` at `now`.
    pub open spec fn spec_expired(&self, now: i64, timeout_secs: u64) -> bool {
        self.status == InstanceState::Active && (self.last_activity as int) < (now as int)
            - (timeout_secs as int)
    }

    pub fn is_expired(&self, now: i64, timeout_secs: u64) -> (r: bool)
        ensures
            r == self.spec_expired(now, timeout_secs),
    {
        let cutoff: i128 = now as i128 - timeout_secs as i128;
        self.status == InstanceState::Active && (self.last_activity as i128) < cutoff
    }

    /// When the instance will be archived if left idle.
    pub fn expires_at(&self, timeout_secs: u64) -> (r: i128)
        ensures
            r == self.last_activity as int + timeout_secs as int,
    {
        self.last_activity as i128 + timeout_secs as i128
    }
}

/// A record archived at `now` under `key`, with a dump of `size` bytes.
pub open spec fn archived_record(
    s: StoredInstance,
    key: Option<String>,
    size: i64,
    now: i64,
) -> StoredInstance {
    StoredInstance {
        status: InstanceState::Archived,
        container_id: None,
        host_port: None,
        archived_at: Some(now),
        backup_key: key,
        backup_size_bytes: Some(size),
        ..s
    }
}

/// The durable record of a dialect's pool container.
#[derive(Debug)]
pub struct PoolContainer {
    pub dialect: String,
    pub container_id: String,
    pub host_port: u16,
    pub root_password: String,
    pub created_at: i64,
    pub status: String,
}

impl PoolContainer {
    pub fn copy(&self) -> (r: PoolContainer)
        ensures
            r == *self,
    {
        PoolContainer {
            dialect: self.dialect.clone(),
            container_id: self.container_id.clone(),
            host_port: self.host_port,
            root_password: self.root_password.clone(),
            created_at: self.created_at,
            status: self.status.clone(),
        }
    }
}

/// The in-memory cache of active instances, keyed by id.
pub struct InstanceCache {
    map: HashMap<u128, DbInstance>,
}

impl InstanceCache {
    pub closed spec fn view(&self) -> Map<u128, DbInstance> {
        self.map@
    }

    /// Each instance is held under its own id.
    pub open spec fn well_formed(&self) -> bool {
        forall|k: u128| #[trigger] self.view().contains_key(k) ==> self.view()[k].id == k
    }

    pub fn new() -> (r: InstanceCache)
        ensures
            r.view() == Map::<u128, DbInstance>::empty(),
            r.well_formed(),
    {
        InstanceCache { map: HashMap::new() }
    }

    pub fn get(&self, id: u128) -> (r: Option<DbInstance>)
        ensures
            match r {
                Some(i) => self.view().contains_key(id) && i == self.view()[id],
                None => !self.view().contains_key(id),
            },
    {
        match self.map.get(&id) {
            Some(i) => Some(i.copy()),
            None => None,
        }
    }

    pub fn contains(&self, id: u128) -> (r: bool)
        ensures
            r == self.view().contains_key(id),
    {
        self.map.contains_key(&id)
    }

    pub fn insert(&mut self, inst: DbInstance)
        ensures
            final(self).view() == old(self).view().insert(inst.id, inst),
            old(self).well_formed() ==> final(self).well_formed(),
    {
        self.map.insert(inst.id, inst);
    }

    pub fn remove(&mut self, id: u128)
        ensures
            final(self).view() == old(self).view().remove(id),
            old(self).well_formed() ==> final(self).well_formed(),
    {
        self.map.remove(&id);
    }

    /// Records activity at `now`; false when the instance is not cached.
    pub fn touch(&mut self, id: u128, now: i64) -> (r: bool)
        ensures
            r == old(self).view().contains_key(id),
            r ==> final(self).view() == old(self).view().insert(
                id,
                DbInstance { last_activity: now, ..old(self).view()[id] },
            ),
            !r ==> final(self).view() == old(self).view(),
            old(self).well_formed() ==> final(self).well_formed(),
    {
        match self.map.remove(&id) {
            Some(inst) => {
                let mut inst = inst;
                inst.touch(now);
                self.map.insert(id, inst);
                assert(self.map@ =~= old(self).view().insert(
                    id,
                    DbInstance { last_activity: now, ..old(self).view()[id] },
                ));
                true
            },
            None => false,
        }
    }

    pub fn len(&self) -> (r: usize)
        ensures
            r == self.view().len(),
    {
        self.map.len()
    }
}

} // verus!
