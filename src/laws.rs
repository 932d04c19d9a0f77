//! Properties of the lifecycle, proved over the effects the plans state and
//! over the reconciliation plan.
use vstd::prelude::*;

use crate::driver::DiscoveredPoolContainer;
use crate::lifecycle::spec_require;
use crate::lifecycle::{spec_pool_decision, spec_resolve, PoolDecision, Resolution};
use crate::plan::{
    archive_effects, create_effects, destroy_effects, reconcile_effects, restore_effects,
    restored_instance, Action, Effect, Outcome, Step,
};
use crate::record::{archived_record, InstanceState, PoolContainer, StoredInstance};
use crate::recovery::{cached_list, fate, live_pool, orphans, stale_dialects, Fate};

verus! {

/// The durable state of each recorded instance, and the ids in the cache.
pub struct World {
    pub meta: Map<u128, InstanceState>,
    pub cache: Set<u128>,
}

pub open spec fn apply_effect(w: World, e: Effect) -> World {
    match e {
        Effect::Nothing => w,
        Effect::Put(id, s) => World { meta: w.meta.insert(id, s), cache: w.cache },
        Effect::SetState(id, s) => if w.meta.contains_key(id) {
            World { meta: w.meta.insert(id, s), cache: w.cache }
        } else {
            w
        },
        Effect::Remove(id) => World { meta: w.meta.remove(id), cache: w.cache },
        Effect::CacheIn(id) => World { meta: w.meta, cache: w.cache.insert(id) },
        Effect::CacheOut(id) => World { meta: w.meta, cache: w.cache.remove(id) },
    }
}

/// The state after the effects, in order.
pub open spec fn apply_effects(w: World, es: Seq<Effect>) -> World
    decreases es.len(),
{
    if es.len() == 0 {
        w
    } else {
        apply_effect(apply_effects(w, es.drop_last()), es.last())
    }
}

/// Every cached instance is recorded as active.
pub open spec fn consistent(w: World) -> bool {
    forall|id: u128| #[trigger]
        w.cache.contains(id) ==> w.meta.contains_key(id) && w.meta[id] == InstanceState::Active
}

proof fn lemma_apply_push(w: World, es: Seq<Effect>, e: Effect)
    ensures
        apply_effects(w, es.push(e)) == apply_effect(apply_effects(w, es), e),
{
    assert(es.push(e).drop_last() =~= es);
}

/// Creating an instance keeps every cached instance recorded as active.
pub proof fn law_create_keeps_cache_consistent(w: World, id: u128)
    requires
        consistent(w),
    ensures
        consistent(apply_effects(w, create_effects(id))),
{
    let e = Seq::<Effect>::empty();
    lemma_apply_push(w, e, Effect::Nothing);
    lemma_apply_push(w, e.push(Effect::Nothing), Effect::Nothing);
    lemma_apply_push(
        w,
        e.push(Effect::Nothing).push(Effect::Nothing),
        Effect::Put(id, InstanceState::Active),
    );
    lemma_apply_push(
        w,
        e.push(Effect::Nothing).push(Effect::Nothing).push(Effect::Put(id, InstanceState::Active)),
        Effect::CacheIn(id),
    );
    assert(apply_effects(w, e) == w);
    assert(create_effects(id) =~= e.push(Effect::Nothing).push(Effect::Nothing).push(
        Effect::Put(id, InstanceState::Active),
    ).push(Effect::CacheIn(id)));
}

/// Archiving an instance keeps every cached instance recorded as active.
pub proof fn law_archive_keeps_cache_consistent(w: World, id: u128)
    requires
        consistent(w),
    ensures
        consistent(apply_effects(w, archive_effects(id))),
{
    let e = Seq::<Effect>::empty();
    let s1 = e.push(Effect::Nothing);
    let s2 = s1.push(Effect::Nothing);
    let s3 = s2.push(Effect::SetState(id, InstanceState::Archived));
    let s4 = s3.push(Effect::CacheOut(id));
    let s5 = s4.push(Effect::Nothing);
    lemma_apply_push(w, e, Effect::Nothing);
    lemma_apply_push(w, s1, Effect::Nothing);
    lemma_apply_push(w, s2, Effect::SetState(id, InstanceState::Archived));
    lemma_apply_push(w, s3, Effect::CacheOut(id));
    lemma_apply_push(w, s4, Effect::Nothing);
    lemma_apply_push(w, s5, Effect::Nothing);
    assert(apply_effects(w, e) == w);
    let w3 = apply_effects(w, s3);
    let w4 = apply_effects(w, s4);
    assert forall|x: u128| #[trigger] w4.cache.contains(x) implies w4.meta.contains_key(x)
        && w4.meta[x] == InstanceState::Active by {
        assert(x != id);
        assert(w3.cache.contains(x));
    }
    assert(archive_effects(id) =~= s5.push(Effect::Nothing));
}

/// Restoring a recorded instance keeps every cached instance recorded as active.
pub proof fn law_restore_keeps_cache_consistent(w: World, id: u128)
    requires
        consistent(w),
        w.meta.contains_key(id),
    ensures
        consistent(apply_effects(w, restore_effects(id))),
{
    let e = Seq::<Effect>::empty();
    let s1 = e.push(Effect::Nothing);
    let s2 = s1.push(Effect::Nothing);
    let s3 = s2.push(Effect::Nothing);
    let s4 = s3.push(Effect::SetState(id, InstanceState::Active));
    lemma_apply_push(w, e, Effect::Nothing);
    lemma_apply_push(w, s1, Effect::Nothing);
    lemma_apply_push(w, s2, Effect::Nothing);
    lemma_apply_push(w, s3, Effect::SetState(id, InstanceState::Active));
    lemma_apply_push(w, s4, Effect::CacheIn(id));
    assert(apply_effects(w, e) == w);
    assert(restore_effects(id) =~= s4.push(Effect::CacheIn(id)));
}

/// Destroying an instance keeps every cached instance recorded as active;
/// afterwards the id is neither recorded nor cached, so a second destroy finds
/// no record and fails with `DbNotFound`.
pub proof fn law_destroy(w: World, id: u128, with_pool: bool)
    requires
        consistent(w),
    ensures
        consistent(apply_effects(w, destroy_effects(id, with_pool))),
        !apply_effects(w, destroy_effects(id, with_pool)).meta.contains_key(id),
        !apply_effects(w, destroy_effects(id, with_pool)).cache.contains(id),
        spec_require(None) == Err::<StoredInstance, crate::error::AppError>(
            crate::error::AppError::DbNotFound,
        ),
{
    let e = Seq::<Effect>::empty();
    let s1 = e.push(Effect::CacheOut(id));
    lemma_apply_push(w, e, Effect::CacheOut(id));
    assert(apply_effects(w, e) == w);
    let w1 = apply_effects(w, s1);
    assert(consistent(w1)) by {
        assert forall|x: u128| #[trigger] w1.cache.contains(x) implies w1.meta.contains_key(x)
            && w1.meta[x] == InstanceState::Active by {
            assert(w.cache.contains(x));
        }
    }
    law_destroy_touches_only_its_id(w, id, with_pool);
    if with_pool {
        let s2 = s1.push(Effect::Nothing);
        let s3 = s2.push(Effect::Nothing);
        lemma_apply_push(w, s1, Effect::Nothing);
        lemma_apply_push(w, s2, Effect::Nothing);
        lemma_apply_push(w, s3, Effect::Remove(id));
        assert(destroy_effects(id, with_pool) == s3.push(Effect::Remove(id)));
    } else {
        lemma_apply_push(w, s1, Effect::Remove(id));
        assert(destroy_effects(id, with_pool) == s1.push(Effect::Remove(id)));
    }
}

/// Destroying an instance changes the records and the cache of no other
/// instance: in any state, it removes exactly its own id from both.
pub proof fn law_destroy_touches_only_its_id(w: World, id: u128, with_pool: bool)
    ensures
        apply_effects(w, destroy_effects(id, with_pool)).meta == w.meta.remove(id),
        apply_effects(w, destroy_effects(id, with_pool)).cache == w.cache.remove(id),
{
    let e = Seq::<Effect>::empty();
    let s1 = e.push(Effect::CacheOut(id));
    lemma_apply_push(w, e, Effect::CacheOut(id));
    assert(apply_effects(w, e) == w);
    if with_pool {
        let s2 = s1.push(Effect::Nothing);
        let s3 = s2.push(Effect::Nothing);
        lemma_apply_push(w, s1, Effect::Nothing);
        lemma_apply_push(w, s2, Effect::Nothing);
        lemma_apply_push(w, s3, Effect::Remove(id));
        assert(destroy_effects(id, with_pool) == s3.push(Effect::Remove(id)));
    } else {
        lemma_apply_push(w, s1, Effect::Remove(id));
        assert(destroy_effects(id, with_pool) == s1.push(Effect::Remove(id)));
    }
}

proof fn lemma_apply_append(w: World, a: Seq<Effect>, b: Seq<Effect>)
    ensures
        apply_effects(w, a + b) == apply_effects(apply_effects(w, a), b),
    decreases b.len(),
{
    if b.len() == 0 {
        assert(a + b =~= a);
    } else {
        lemma_apply_append(w, a, b.drop_last());
        assert((a + b).drop_last() =~= a + b.drop_last());
        assert((a + b).last() == b.last());
    }
}

/// What `get_or_create` does to records and cache on each path of its
/// decision table, when every step succeeds.
pub open spec fn get_or_create_effects(res: Resolution, id: u128) -> Seq<Effect> {
    match res {
        Resolution::CreateFresh | Resolution::CreateAt(_) => create_effects(id),
        Resolution::ReturnCached => Seq::empty(),
        Resolution::Reconcile => reconcile_effects(id),
        Resolution::Restore => seq![Effect::SetState(id, InstanceState::Restoring)]
            + restore_effects(id),
    }
}

/// On every path of `get_or_create` that succeeds, the instance handed back is
/// cached and every cached instance is recorded as active. `id` is the
/// requested id, or the fresh one when none was requested.
pub proof fn law_get_or_create_keeps_cache_consistent(
    w: World,
    requested: Option<u128>,
    id: u128,
)
    requires
        consistent(w),
        requested matches Some(r) ==> r == id,
    ensures
        ({
            let stored = if w.meta.contains_key(id) {
                Some(w.meta[id])
            } else {
                None
            };
            spec_resolve(requested, stored, w.cache.contains(id)) matches Ok(res) ==> {
                let after = apply_effects(w, get_or_create_effects(res, id));
                consistent(after) && after.cache.contains(id)
            }
        }),
{
    let stored = if w.meta.contains_key(id) {
        Some(w.meta[id])
    } else {
        None
    };
    match spec_resolve(requested, stored, w.cache.contains(id)) {
        Ok(res) => {
            let es = get_or_create_effects(res, id);
            match res {
                Resolution::CreateFresh | Resolution::CreateAt(_) => {
                    law_create_keeps_cache_consistent(w, id);
                    let e = Seq::<Effect>::empty();
                    lemma_apply_push(
                        w,
                        e.push(Effect::Nothing).push(Effect::Nothing).push(
                            Effect::Put(id, InstanceState::Active),
                        ),
                        Effect::CacheIn(id),
                    );
                    assert(create_effects(id) =~= e.push(Effect::Nothing).push(
                        Effect::Nothing,
                    ).push(Effect::Put(id, InstanceState::Active)).push(Effect::CacheIn(id)));
                },
                Resolution::ReturnCached => {
                    assert(apply_effects(w, es) == w);
                },
                Resolution::Reconcile => {
                    let e = Seq::<Effect>::empty();
                    lemma_apply_push(w, e, Effect::CacheIn(id));
                    assert(apply_effects(w, e) == w);
                    assert(reconcile_effects(id) =~= e.push(Effect::CacheIn(id)));
                },
                Resolution::Restore => {
                    let first = seq![Effect::SetState(id, InstanceState::Restoring)];
                    let e = Seq::<Effect>::empty();
                    lemma_apply_push(w, e, Effect::SetState(id, InstanceState::Restoring));
                    assert(apply_effects(w, e) == w);
                    assert(first =~= e.push(Effect::SetState(id, InstanceState::Restoring)));
                    let w1 = apply_effects(w, first);
                    assert(!w.cache.contains(id));
                    assert(consistent(w1)) by {
                        assert forall|x: u128| #[trigger] w1.cache.contains(x) implies w1.meta.contains_key(
                            x,
                        ) && w1.meta[x] == InstanceState::Active by {
                            assert(w.cache.contains(x));
                        }
                    }
                    law_restore_keeps_cache_consistent(w1, id);
                    lemma_apply_append(w, first, restore_effects(id));
                    let rs = restore_effects(id);
                    let s4 = rs.drop_last();
                    assert(rs =~= s4.push(Effect::CacheIn(id)));
                    lemma_apply_push(w1, s4, Effect::CacheIn(id));
                },
            }
        },
        Err(_) => {},
    }
}

/// Archiving a record and restoring it hands back an instance with the
/// record's id, dialect, database name, user and password.
pub proof fn law_archive_restore_round_trip(
    s: StoredInstance,
    key: Option<String>,
    size: i64,
    archived_at: i64,
    pool: PoolContainer,
    restored_at: i64,
)
    ensures
        ({
            let i = restored_instance(archived_record(s, key, size, archived_at), pool, restored_at);
            &&& i.id == s.db_id
            &&& i.dialect == s.dialect
            &&& i.db_name == s.db_name
            &&& i.db_user == s.db_user
            &&& i.db_password == s.db_password
        }),
{
}

/// The outcomes an action can have: a command runs or fails; any other
/// action is done or fails.
pub open spec fn fits(a: Action, o: Outcome) -> bool {
    match a {
        Action::Exec { .. } | Action::RestoreDump { .. } => !(o is Done),
        _ => !(o is Exited),
    }
}

/// A runner finishes a plan without error exactly when every step that has
/// a failure meaning succeeded.
pub open spec fn plan_finishes(steps: Seq<Step>, outcomes: Seq<Outcome>) -> bool {
    &&& outcomes.len() == steps.len()
    &&& forall|i: int| 0 <= i < steps.len() ==> fits(steps[i].action, #[trigger] outcomes[i])
    &&& forall|i: int|
        0 <= i < steps.len() ==> (#[trigger] steps[i]).on_failure is None
            || steps[i].spec_succeeded(&outcomes[i])
}

/// An archive that finishes has dumped the database with exit code 0 and
/// uploaded the dump under the key that the record is then marked with.
pub proof fn law_archive_safety(
    steps: Seq<Step>,
    outcomes: Seq<Outcome>,
    id: u128,
    key: Seq<char>,
)
    requires
        steps.len() == 6,
        steps[0].action is Exec,
        steps[0].check_exit && steps[0].on_failure is Some,
        steps[1].action matches Action::UploadDump { db_id, key: k } && db_id == id && k@ == key,
        steps[1].on_failure is Some,
        steps[2].action matches Action::MarkArchived { db_id, key: k } && db_id == id && k@
            == key,
        plan_finishes(steps, outcomes),
    ensures
        outcomes[0] matches Outcome::Exited { exit_code, .. } && exit_code == Some(0i64),
        outcomes[1] is Done,
{
    assert(fits(steps[0].action, outcomes[0]));
    assert(fits(steps[1].action, outcomes[1]));
    assert(steps[0].spec_succeeded(&outcomes[0]));
    assert(steps[1].spec_succeeded(&outcomes[1]));
}

/// A dialect's pool record and the containers that run.
pub struct PoolWorld {
    pub record: Option<PoolContainer>,
    pub running: Set<Seq<char>>,
}

/// Ensuring a pool: a recorded pool whose container runs is reused; otherwise
/// the record is replaced by that of `fresh`, a new pool that answered its
/// readiness probe (so its container runs).
pub open spec fn ensure_pool(w: PoolWorld, fresh: PoolContainer) -> (PoolWorld, PoolContainer) {
    let runs = w.record is Some && w.running.contains((w.record->0).container_id@);
    match spec_pool_decision(w.record is Some, runs) {
        PoolDecision::Reuse => (w, w.record->0),
        _ => (
            PoolWorld { record: Some(fresh), running: w.running.insert(fresh.container_id@) },
            fresh,
        ),
    }
}

/// After a pool is ensured, the dialect has exactly one record, it names the
/// pool handed back, and that pool's container runs; a running recorded pool
/// is handed back unchanged and no container is created.
pub proof fn law_pool_singleton(w: PoolWorld, fresh: PoolContainer)
    ensures
        ({
            let (after, p) = ensure_pool(w, fresh);
            &&& after.record == Some(p)
            &&& after.running.contains(p.container_id@)
            &&& (w.record is Some && w.running.contains((w.record->0).container_id@)) ==> p
                == w.record->0 && after == w
        }),
{
}

/// The recorded pools that run.
pub open spec fn running_pools(pools: Seq<(PoolContainer, bool)>) -> Seq<(PoolContainer, bool)>
    decreases pools.len(),
{
    if pools.len() == 0 {
        Seq::empty()
    } else if pools[0].1 {
        seq![pools[0]] + running_pools(pools.drop_first())
    } else {
        running_pools(pools.drop_first())
    }
}

/// The found pool containers that a pass leaves in place.
pub open spec fn survivors(pools: Seq<(PoolContainer, bool)>, found: Seq<DiscoveredPoolContainer>) -> Seq<
    DiscoveredPoolContainer,
>
    decreases found.len(),
{
    if found.len() == 0 {
        Seq::empty()
    } else {
        let pre = survivors(pools, found.drop_last());
        let c = found.last();
        if c.is_running && live_pool(pools, c.dialect@) is None {
            pre
        } else {
            pre.push(c)
        }
    }
}

proof fn lemma_live_of_running(pools: Seq<(PoolContainer, bool)>, d: Seq<char>)
    ensures
        live_pool(running_pools(pools), d) == live_pool(pools, d),
    decreases pools.len(),
{
    if pools.len() > 0 {
        lemma_live_of_running(pools.drop_first(), d);
        if pools[0].1 {
            let k = running_pools(pools.drop_first());
            assert((seq![pools[0]] + k).drop_first() =~= k);
            assert((seq![pools[0]] + k)[0] == pools[0]);
        }
    }
}

proof fn lemma_running_all_run(pools: Seq<(PoolContainer, bool)>)
    ensures
        forall|i: int| 0 <= i < running_pools(pools).len() ==> #[trigger] running_pools(pools)[i].1,
    decreases pools.len(),
{
    if pools.len() > 0 {
        lemma_running_all_run(pools.drop_first());
        let k = running_pools(pools.drop_first());
        if pools[0].1 {
            assert forall|i: int| 0 <= i < (seq![pools[0]] + k).len() implies #[trigger] (seq![
                pools[0],
            ] + k)[i].1 by {
                if i > 0 {
                    assert((seq![pools[0]] + k)[i] == k[i - 1]);
                }
            }
        }
    }
}

proof fn lemma_no_stale(pools: Seq<(PoolContainer, bool)>)
    requires
        forall|i: int| 0 <= i < pools.len() ==> #[trigger] pools[i].1,
    ensures
        stale_dialects(pools) == Seq::<Seq<char>>::empty(),
    decreases pools.len(),
{
    if pools.len() > 0 {
        let p = pools.drop_last();
        assert forall|i: int| 0 <= i < p.len() implies #[trigger] p[i].1 by {
            assert(p[i] == pools[i]);
        }
        lemma_no_stale(p);
        assert(pools[pools.len() - 1].1);
    }
}

proof fn lemma_no_orphans(pools: Seq<(PoolContainer, bool)>, found: Seq<DiscoveredPoolContainer>)
    ensures
        orphans(running_pools(pools), survivors(pools, found)) == Seq::<Seq<char>>::empty(),
    decreases found.len(),
{
    if found.len() > 0 {
        lemma_no_orphans(pools, found.drop_last());
        let pre = survivors(pools, found.drop_last());
        let c = found.last();
        if !(c.is_running && live_pool(pools, c.dialect@) is None) {
            lemma_live_of_running(pools, c.dialect@);
            assert(pre.push(c).drop_last() =~= pre);
        }
    }
}

/// Reconciliation converges in one pass: with the pool records and pool
/// containers it leaves (and nothing changed meanwhile), a second pass deletes
/// no record and destroys no pool container.
pub proof fn law_reconciliation_converges(
    pools: Seq<(PoolContainer, bool)>,
    found: Seq<DiscoveredPoolContainer>,
)
    ensures
        stale_dialects(running_pools(pools)) == Seq::<Seq<char>>::empty(),
        orphans(running_pools(pools), survivors(pools, found)) == Seq::<Seq<char>>::empty(),
{
    lemma_running_all_run(pools);
    lemma_no_stale(running_pools(pools));
    lemma_no_orphans(pools, found);
}

/// After reconciliation every cached instance comes from an active record and
/// points at the running recorded pool of its dialect.
pub proof fn law_reconciled_cache(pools: Seq<(PoolContainer, bool)>, rows: Seq<StoredInstance>, now: i64)
    ensures
        forall|k: int|
            0 <= k < cached_list(pools, rows, now).len() ==> {
                let c = #[trigger] cached_list(pools, rows, now)[k];
                &&& exists|j: int|
                    0 <= j < rows.len() && rows[j].db_id == c.id && rows[j].status
                        == InstanceState::Active
                &&& live_pool(pools, c.dialect@) matches Some(p) && c.container_id
                    == p.container_id && c.host_port == p.host_port
            },
    decreases rows.len(),
{
    if rows.len() > 0 {
        let pre_rows = rows.drop_last();
        law_reconciled_cache(pools, pre_rows, now);
        let pre = cached_list(pools, pre_rows, now);
        let all = cached_list(pools, rows, now);
        assert forall|k: int| 0 <= k < all.len() implies {
            let c = #[trigger] all[k];
            &&& exists|j: int|
                0 <= j < rows.len() && rows[j].db_id == c.id && rows[j].status
                    == InstanceState::Active
            &&& live_pool(pools, c.dialect@) matches Some(p) && c.container_id == p.container_id
                && c.host_port == p.host_port
        } by {
            if k < pre.len() {
                assert(all[k] == pre[k]);
                let j = choose|j: int|
                    0 <= j < pre_rows.len() && pre_rows[j].db_id == pre[k].id && pre_rows[j].status
                        == InstanceState::Active;
                assert(rows[j] == pre_rows[j]);
            } else {
                let last = rows.last();
                assert(rows[rows.len() - 1] == last);
                match fate(pools, last) {
                    Fate::Cache(p) => {},
                    _ => {},
                }
            }
        }
    }
}


/// When every record is active and its dialect has a running recorded pool,
/// reconciliation caches every record, in order, and so reports their number.
pub proof fn law_reconciliation_recovers_all(
    pools: Seq<(PoolContainer, bool)>,
    rows: Seq<StoredInstance>,
    now: i64,
)
    requires
        forall|j: int|
            0 <= j < rows.len() ==> (#[trigger] rows[j]).status == InstanceState::Active
                && live_pool(pools, rows[j].dialect@) is Some,
    ensures
        cached_list(pools, rows, now).len() == rows.len(),
        forall|k: int|
            0 <= k < rows.len() ==> (#[trigger] cached_list(pools, rows, now)[k]).id
                == rows[k].db_id,
    decreases rows.len(),
{
    if rows.len() > 0 {
        let pre = rows.drop_last();
        assert forall|j: int| 0 <= j < pre.len() implies (#[trigger] pre[j]).status
            == InstanceState::Active && live_pool(pools, pre[j].dialect@) is Some by {
            assert(pre[j] == rows[j]);
        }
        law_reconciliation_recovers_all(pools, pre, now);
        assert(rows[rows.len() - 1] == rows.last());
        let all = cached_list(pools, rows, now);
        assert forall|k: int| 0 <= k < rows.len() implies (#[trigger] all[k]).id
            == rows[k].db_id by {
            if k < rows.len() - 1 {
                assert(rows[k] == pre[k]);
            }
        }
    }
}

} // verus!
