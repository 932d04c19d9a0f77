//! Startup reconciliation: from the recorded pools (and whether each runs),
//! the pool containers found on the daemon, the active and restoring
//! records, and any legacy per-instance containers, decide which records to
//! drop, which containers to destroy, which instances to cache, and which
//! records to archive or delete.
use vstd::prelude::*;

use crate::driver::DiscoveredPoolContainer;
use crate::record::{DbInstance, InstanceState, InstanceStatus, PoolContainer, StoredInstance};
use crate::text::same_text;

verus! {

broadcast use vstd::string::group_string_axioms;

/// The first running recorded pool of dialect `d`.
pub open spec fn live_pool(pools: Seq<(PoolContainer, bool)>, d: Seq<char>) -> Option<PoolContainer>
    decreases pools.len(),
{
    if pools.len() == 0 {
        None
    } else if pools[0].1 && pools[0].0.dialect@ == d {
        Some(pools[0].0)
    } else {
        live_pool(pools.drop_first(), d)
    }
}

/// The dialects whose recorded pool does not run.
pub open spec fn stale_dialects(pools: Seq<(PoolContainer, bool)>) -> Seq<Seq<char>>
    decreases pools.len(),
{
    if pools.len() == 0 {
        Seq::empty()
    } else {
        let pre = stale_dialects(pools.drop_last());
        if !pools.last().1 {
            pre.push(pools.last().0.dialect@)
        } else {
            pre
        }
    }
}

/// Running pool containers without a running record: their root password is lost.
pub open spec fn orphans(pools: Seq<(PoolContainer, bool)>, found: Seq<DiscoveredPoolContainer>) -> Seq<
    Seq<char>,
>
    decreases found.len(),
{
    if found.len() == 0 {
        Seq::empty()
    } else {
        let pre = orphans(pools, found.drop_last());
        let c = found.last();
        if c.is_running && live_pool(pools, c.dialect@) is None {
            pre.push(c.container_id@)
        } else {
            pre
        }
    }
}

/// What becomes of one record.
pub enum Fate {
    /// Active with a running pool: cached, pointing at that pool.
    Cache(PoolContainer),
    /// No running pool but a backup: archived.
    Demote,
    /// No running pool and no backup: deleted.
    Delete,
    /// Already archived: left alone.
    Keep,
}

pub open spec fn fate(pools: Seq<(PoolContainer, bool)>, row: StoredInstance) -> Fate {
    if row.status == InstanceState::Archived {
        Fate::Keep
    } else if row.status == InstanceState::Active && live_pool(pools, row.dialect@) is Some {
        Fate::Cache(live_pool(pools, row.dialect@)->0)
    } else if row.backup_key is Some {
        Fate::Demote
    } else {
        Fate::Delete
    }
}

/// The cache entry of an active record in the running pool of its dialect.
pub open spec fn recovered(row: StoredInstance, pool: PoolContainer, now: i64) -> DbInstance {
    DbInstance {
        id: row.db_id,
        dialect: row.dialect,
        container_id: pool.container_id,
        host_port: pool.host_port,
        db_name: row.db_name,
        db_user: row.db_user,
        db_password: row.db_password,
        status: InstanceStatus::Running,
        created_at: row.created_at,
        last_activity: now,
    }
}

/// A record detached from its pool and marked archived (keeping an earlier
/// archive time, else `now`).
pub open spec fn demoted(row: StoredInstance, now: i64) -> StoredInstance {
    StoredInstance {
        status: InstanceState::Archived,
        container_id: None,
        host_port: None,
        archived_at: Some(
            match row.archived_at {
                Some(t) => t,
                None => now,
            },
        ),
        ..row
    }
}

pub open spec fn cached_list(pools: Seq<(PoolContainer, bool)>, rows: Seq<StoredInstance>, now: i64) -> Seq<
    DbInstance,
>
    decreases rows.len(),
{
    if rows.len() == 0 {
        Seq::empty()
    } else {
        let pre = cached_list(pools, rows.drop_last(), now);
        match fate(pools, rows.last()) {
            Fate::Cache(p) => pre.push(recovered(rows.last(), p, now)),
            _ => pre,
        }
    }
}

pub open spec fn demoted_list(pools: Seq<(PoolContainer, bool)>, rows: Seq<StoredInstance>, now: i64) -> Seq<
    StoredInstance,
>
    decreases rows.len(),
{
    if rows.len() == 0 {
        Seq::empty()
    } else {
        let pre = demoted_list(pools, rows.drop_last(), now);
        match fate(pools, rows.last()) {
            Fate::Demote => pre.push(demoted(rows.last(), now)),
            _ => pre,
        }
    }
}

pub open spec fn deleted_list(pools: Seq<(PoolContainer, bool)>, rows: Seq<StoredInstance>) -> Seq<u128>
    decreases rows.len(),
{
    if rows.len() == 0 {
        Seq::empty()
    } else {
        let pre = deleted_list(pools, rows.drop_last());
        match fate(pools, rows.last()) {
            Fate::Delete => pre.push(rows.last().db_id),
            _ => pre,
        }
    }
}

pub open spec fn pool_views(v: Seq<DiscoveredPoolContainer>) -> Seq<Seq<char>> {
    v.map_values(|c: DiscoveredPoolContainer| c.container_id@)
}

/// The decisions of one reconciliation pass.
#[derive(Debug)]
pub struct RecoveryPlan {
    /// Dialects whose pool record is deleted.
    pub delete_pools: Vec<String>,
    /// Containers destroyed: orphaned pools, then legacy containers.
    pub destroy_containers: Vec<String>,
    /// Instances put in the cache; their number is what recovery reports.
    pub cache: Vec<DbInstance>,
    /// Records rewritten as archived.
    pub demote: Vec<StoredInstance>,
    /// Records deleted.
    pub delete_instances: Vec<u128>,
}

fn find_live(pools: &Vec<(PoolContainer, bool)>, d: &str) -> (r: Option<PoolContainer>)
    ensures
        r == live_pool(pools@, d@),
{
    let mut i: usize = 0;
    assert(pools@.subrange(0, pools.len() as int) =~= pools@);
    while i < pools.len()
        invariant
            i <= pools.len(),
            live_pool(pools@, d@) == live_pool(pools@.subrange(i as int, pools.len() as int), d@),
        decreases pools.len() - i,
    {
        let ghost sub = pools@.subrange(i as int, pools.len() as int);
        assert(sub.drop_first() =~= pools@.subrange(i + 1, pools.len() as int));
        assert(sub[0] == pools@[i as int]);
        if pools[i].1 && same_text(pools[i].0.dialect.as_str(), d) {
            return Some(pools[i].0.copy());
        }
        i = i + 1;
    }
    None
}

/// One reconciliation pass; see the module documentation.
pub fn recovery_plan(
    pools: &Vec<(PoolContainer, bool)>,
    found: &Vec<DiscoveredPoolContainer>,
    rows: &Vec<StoredInstance>,
    legacy: &Vec<String>,
    now: i64,
) -> (r: RecoveryPlan)
    ensures
        crate::text::str_views(r.delete_pools@) == stale_dialects(pools@),
        crate::text::str_views(r.destroy_containers@) == orphans(pools@, found@)
            + crate::text::str_views(legacy@),
        r.cache@ == cached_list(pools@, rows@, now),
        r.demote@ == demoted_list(pools@, rows@, now),
        r.delete_instances@ == deleted_list(pools@, rows@),
{
    let mut delete_pools: Vec<String> = Vec::new();
    let mut i: usize = 0;
    assert(pools@.subrange(0, 0) =~= Seq::<(PoolContainer, bool)>::empty());
    while i < pools.len()
        invariant
            i <= pools.len(),
            crate::text::str_views(delete_pools@) == stale_dialects(
                pools@.subrange(0, i as int),
            ),
        decreases pools.len() - i,
    {
        assert(pools@.subrange(0, i + 1).drop_last() =~= pools@.subrange(0, i as int));
        if !pools[i].1 {
            let ghost before = delete_pools@;
            delete_pools.push(pools[i].0.dialect.clone());
            assert(crate::text::str_views(delete_pools@) =~= crate::text::str_views(before).push(
                pools@[i as int].0.dialect@,
            ));
        }
        i = i + 1;
    }
    assert(pools@.subrange(0, pools.len() as int) =~= pools@);
    let mut destroy: Vec<String> = Vec::new();
    let mut j: usize = 0;
    assert(found@.subrange(0, 0) =~= Seq::<DiscoveredPoolContainer>::empty());
    while j < found.len()
        invariant
            j <= found.len(),
            crate::text::str_views(destroy@) == orphans(pools@, found@.subrange(0, j as int)),
        decreases found.len() - j,
    {
        assert(found@.subrange(0, j + 1).drop_last() =~= found@.subrange(0, j as int));
        let c = &found[j];
        if c.is_running && find_live(pools, c.dialect.as_str()).is_none() {
            let ghost before = destroy@;
            destroy.push(c.container_id.clone());
            assert(crate::text::str_views(destroy@) =~= crate::text::str_views(before).push(
                c.container_id@,
            ));
        }
        j = j + 1;
    }
    assert(found@.subrange(0, found.len() as int) =~= found@);
    let ghost orphaned = crate::text::str_views(destroy@);
    let mut k: usize = 0;
    while k < legacy.len()
        invariant
            k <= legacy.len(),
            crate::text::str_views(destroy@) == orphaned + crate::text::str_views(
                legacy@.subrange(0, k as int),
            ),
        decreases legacy.len() - k,
    {
        let ghost before = destroy@;
        destroy.push(legacy[k].clone());
        assert(crate::text::str_views(destroy@) =~= crate::text::str_views(before).push(
            legacy@[k as int]@,
        ));
        k = k + 1;
        assert(crate::text::str_views(legacy@.subrange(0, k as int)) =~= crate::text::str_views(
            legacy@.subrange(0, k - 1),
        ).push(legacy@[k - 1]@));
    }
    assert(legacy@.subrange(0, legacy.len() as int) =~= legacy@);
    let mut cache: Vec<DbInstance> = Vec::new();
    let mut demote: Vec<StoredInstance> = Vec::new();
    let mut delete_instances: Vec<u128> = Vec::new();
    let mut m: usize = 0;
    assert(rows@.subrange(0, 0) =~= Seq::<StoredInstance>::empty());
    while m < rows.len()
        invariant
            m <= rows.len(),
            cache@ == cached_list(pools@, rows@.subrange(0, m as int), now),
            demote@ == demoted_list(pools@, rows@.subrange(0, m as int), now),
            delete_instances@ == deleted_list(pools@, rows@.subrange(0, m as int)),
        decreases rows.len() - m,
    {
        assert(rows@.subrange(0, m + 1).drop_last() =~= rows@.subrange(0, m as int));
        let row = &rows[m];
        if row.status == InstanceState::Archived {
        } else {
            let live = if row.status == InstanceState::Active {
                find_live(pools, row.dialect.as_str())
            } else {
                None
            };
            match live {
                Some(p) => {
                    cache.push(
                        DbInstance {
                            id: row.db_id,
                            dialect: row.dialect.clone(),
                            container_id: p.container_id,
                            host_port: p.host_port,
                            db_name: row.db_name.clone(),
                            db_user: row.db_user.clone(),
                            db_password: row.db_password.clone(),
                            status: InstanceStatus::Running,
                            created_at: row.created_at,
                            last_activity: now,
                        },
                    );
                },
                None => {
                    if row.backup_key.is_some() {
                        let mut d = row.copy();
                        d.status = InstanceState::Archived;
                        d.container_id = None;
                        d.host_port = None;
                        d.archived_at = Some(
                            match row.archived_at {
                                Some(t) => t,
                                None => now,
                            },
                        );
                        demote.push(d);
                    } else {
                        delete_instances.push(row.db_id);
                    }
                },
            }
        }
        m = m + 1;
    }
    assert(rows@.subrange(0, rows.len() as int) =~= rows@);
    RecoveryPlan { delete_pools, destroy_containers: destroy, cache, demote, delete_instances }
}

} // verus!
