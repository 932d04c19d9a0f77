use db_api::dialect::DialectKind;
use db_api::driver::{
    discover_pool, env_assignments, is_legacy_container, parse_u16, pool_container_name, pool_labels, port_key,
    DiscoveredPoolContainer,
};
use db_api::error::AppError;
use db_api::lifecycle::{
    backup_enabled, db_status, expired_ids, pool_decision, readiness_next, reconciled_instance, require_record,
    resolve_get, resolve_request, resolve_touch, Lookup, PoolDecision, Readiness, ReadyEvent,
    Resolution,
};
use db_api::names::{
    backup_key, compress_dump, db_name_for, db_user_for, decompress_dump, generate_password,
    new_instance_id, password_for,
};
use db_api::plan::{
    archive_plan, create_plan, destroy_plan, reconcile_plan, restore_plan, restore_precheck, Action,
    ArchiveRoute, Failure, FailureKind, Outcome,
};
use db_api::record::{
    DbInstance, InstanceCache, InstanceState, InstanceStatus, PoolContainer, StoredInstance,
};
use db_api::recovery::recovery_plan;

const ID: u128 = 0x0123456789abcdef0011223344556677;

fn pool(dialect: &str) -> PoolContainer {
    PoolContainer {
        dialect: dialect.to_string(),
        container_id: "c1".to_string(),
        host_port: 49153,
        root_password: "rootpw".to_string(),
        created_at: 100,
        status: "running".to_string(),
    }
}

fn stored(status: InstanceState, backup: Option<&str>) -> StoredInstance {
    StoredInstance {
        db_id: ID,
        dialect: "mysql".to_string(),
        db_name: db_name_for(ID),
        db_user: db_user_for(ID),
        db_password: "pw".to_string(),
        status,
        container_id: if status == InstanceState::Active { Some("c1".to_string()) } else { None },
        host_port: if status == InstanceState::Active { Some(49153) } else { None },
        created_at: 10,
        last_activity: 20,
        archived_at: if status == InstanceState::Archived { Some(30) } else { None },
        backup_key: backup.map(|k| k.to_string()),
        backup_size_bytes: None,
    }
}

fn exec_sql(action: &Action) -> String {
    match action {
        Action::Exec { command, .. } => command.1[command.1.len() - 1].clone(),
        other => panic!("not an exec: {:?}", other),
    }
}

#[test]
fn derived_names() {
    assert_eq!(db_name_for(ID), "db_0123456789abcdef0011223344556677");
    assert_eq!(db_user_for(ID), "user_01234567");
    assert_eq!(password_for(255), "Pwd000000000000000000000000000000ff!@#");
    let p = generate_password();
    assert!(p.starts_with("Pwd") && p.ends_with("!@#") && p.len() == 38);
    assert_eq!(p.chars().nth(15), Some('4'));
    assert!(p.chars().any(|c| c.is_ascii_uppercase()));
    assert!(p.chars().any(|c| c.is_ascii_lowercase()));
    assert!(p.chars().any(|c| c.is_ascii_digit()));
    assert!(p.chars().any(|c| c.is_ascii_punctuation()));
    let id = new_instance_id();
    assert_eq!((id >> 76) & 0xf, 4);
    assert_ne!(new_instance_id(), id);
}

#[test]
fn backup_key_layout() {
    let k = backup_key(ID, 0).unwrap();
    assert_eq!(k, "backups/01234567-89ab-cdef-0011-223344556677/19700101_000000.sql.gz");
    let k = backup_key(1, 1431648000).unwrap();
    assert_eq!(k, "backups/00000000-0000-0000-0000-000000000001/20150515_000000.sql.gz");
}

#[test]
fn dump_compression_round_trip() {
    let data = b"CREATE TABLE t(a INT);\nINSERT INTO t VALUES (1);\n".to_vec();
    let packed = compress_dump(&data).unwrap();
    assert_ne!(packed, data);
    assert_eq!(&packed[0..2], &[0x1f, 0x8b]);
    assert_eq!(decompress_dump(&packed).unwrap(), data);
    match decompress_dump(b"not gzip") {
        Err(AppError::RestoreFailed(_)) => {}
        other => panic!("unexpected {:?}", other),
    }
}

#[test]
fn get_or_create_decision_table() {
    assert_eq!(resolve_request(None, None, false), Ok(Resolution::CreateFresh));
    assert_eq!(resolve_request(Some(5), None, false), Ok(Resolution::CreateAt(5)));
    assert_eq!(
        resolve_request(Some(5), Some(InstanceState::Active), true),
        Ok(Resolution::ReturnCached)
    );
    assert_eq!(
        resolve_request(Some(5), Some(InstanceState::Active), false),
        Ok(Resolution::Reconcile)
    );
    assert_eq!(
        resolve_request(Some(5), Some(InstanceState::Archived), false),
        Ok(Resolution::Restore)
    );
    assert_eq!(
        resolve_request(Some(5), Some(InstanceState::Restoring), false),
        Err(AppError::RestoreInProgress)
    );
}

#[test]
fn get_and_touch_decisions() {
    assert_eq!(resolve_get(true, None), Ok(Lookup::Cached));
    assert_eq!(resolve_get(false, Some(InstanceState::Active)), Ok(Lookup::Reconcile));
    assert_eq!(resolve_get(false, Some(InstanceState::Archived)), Err(AppError::DbNotFound));
    assert_eq!(resolve_get(false, Some(InstanceState::Restoring)), Err(AppError::RestoreInProgress));
    assert_eq!(resolve_get(false, None), Err(AppError::DbNotFound));
    assert_eq!(resolve_touch(true), Ok(()));
    assert_eq!(resolve_touch(false), Err(AppError::DbNotFound));
    assert!(matches!(require_record(None), Err(AppError::DbNotFound)));
}

#[test]
fn create_plan_steps() {
    let p = pool("mysql");
    let plan = create_plan(DialectKind::MySql, ID, "pw", &p, 1000);
    assert_eq!(plan.steps.len(), 4);
    assert_eq!(exec_sql(&plan.steps[0].action), "CREATE DATABASE `db_0123456789abcdef0011223344556677`");
    assert!(exec_sql(&plan.steps[1].action).starts_with("CREATE USER 'user_01234567'@'%'"));
    let rollback = &plan.steps[1].on_failure.as_ref().unwrap().cleanup;
    assert_eq!(exec_sql(&rollback[0]), "DROP DATABASE IF EXISTS `db_0123456789abcdef0011223344556677`");
    match &plan.steps[2].action {
        Action::InsertInstance(r) => {
            assert_eq!(r.status, InstanceState::Active);
            assert_eq!(r.container_id.as_deref(), Some("c1"));
            assert_eq!(r.host_port, Some(49153));
        }
        other => panic!("unexpected {:?}", other),
    }
    let inst = plan.instance.unwrap();
    assert_eq!(inst.status, InstanceStatus::Running);
    assert_eq!(inst.status.as_str(), "running");
    assert_eq!(inst.db_name, "db_0123456789abcdef0011223344556677");
}

#[test]
fn failed_step_errors() {
    let p = pool("mysql");
    let plan = create_plan(DialectKind::MySql, ID, "pw", &p, 1000);
    let step = &plan.steps[0];
    let bad = Outcome::Exited { exit_code: Some(1), stderr: "denied".to_string() };
    assert!(!step.succeeded(&bad));
    assert!(!step.succeeded(&Outcome::Exited { exit_code: None, stderr: String::new() }));
    assert!(step.succeeded(&Outcome::Exited { exit_code: Some(0), stderr: String::new() }));
    let err = step.on_failure.as_ref().unwrap().error_for(bad);
    assert_eq!(err, AppError::Internal("Failed to create database: denied".to_string()));
    let f = Failure {
        kind: FailureKind::RestoreFailed,
        context: "Restore failed: ".to_string(),
        wrap: true,
        cleanup: vec![],
    };
    assert_eq!(
        f.error_for(Outcome::Failed(AppError::QueryTimeout)),
        AppError::RestoreFailed("Restore failed: Query exceeded timeout limit".to_string())
    );
}

#[test]
fn destroy_plan_drops_user_then_database() {
    let s = stored(InstanceState::Active, None);
    let p = pool("mysql");
    let plan = destroy_plan(DialectKind::MySql, &s, Some(&p));
    assert_eq!(plan.steps.len(), 4);
    assert!(matches!(plan.steps[0].action, Action::CacheRemove(id) if id == ID));
    assert_eq!(exec_sql(&plan.steps[1].action), "DROP USER IF EXISTS 'user_01234567'@'%'");
    assert!(exec_sql(&plan.steps[2].action).starts_with("DROP DATABASE IF EXISTS"));
    assert!(matches!(plan.steps[3].action, Action::DeleteInstance(id) if id == ID));
    let bare = destroy_plan(DialectKind::MySql, &s, None);
    assert_eq!(bare.steps.len(), 2);
}

#[test]
fn archive_routes() {
    let s = stored(InstanceState::Active, None);
    let p = pool("mysql");
    assert!(matches!(
        archive_plan(DialectKind::MySql, false, &s, Some(&p), 0),
        Ok(ArchiveRoute::Destroy)
    ));
    assert!(matches!(
        archive_plan(DialectKind::SqlServer, true, &s, Some(&p), 0),
        Ok(ArchiveRoute::Destroy)
    ));
    assert!(matches!(
        archive_plan(DialectKind::MySql, true, &s, None, 0),
        Err(AppError::Internal(_))
    ));
    match archive_plan(DialectKind::MySql, true, &s, Some(&p), 0) {
        Ok(ArchiveRoute::Archive(plan)) => {
            assert_eq!(plan.steps.len(), 6);
            match &plan.steps[0].action {
                Action::Exec { command, env, .. } => {
                    assert_eq!(command.0, "mysqldump");
                    assert_eq!(env, &vec![("MYSQL_PWD".to_string(), "pw".to_string())]);
                }
                other => panic!("unexpected {:?}", other),
            }
            assert_eq!(plan.steps[0].on_failure.as_ref().unwrap().cleanup.len(), 4);
            match &plan.steps[1].action {
                Action::UploadDump { key, .. } => assert_eq!(
                    key,
                    "backups/01234567-89ab-cdef-0011-223344556677/19700101_000000.sql.gz"
                ),
                other => panic!("unexpected {:?}", other),
            }
        }
        other => panic!("unexpected {:?}", other),
    }
}

#[test]
fn restore_plan_keeps_identity() {
    let s = stored(InstanceState::Archived, Some("backups/k.sql.gz"));
    let p = pool("mysql");
    assert_eq!(restore_precheck(&s, true), Ok(()));
    assert!(matches!(restore_precheck(&s, false), Err(AppError::RestoreFailed(_))));
    assert_eq!(
        restore_precheck(&stored(InstanceState::Archived, None), true),
        Err(AppError::BackupNotFound)
    );
    let plan = restore_plan(DialectKind::MySql, &s, &p, 500).unwrap();
    assert_eq!(plan.steps.len(), 5);
    assert_eq!(plan.steps[2].on_failure.as_ref().unwrap().cleanup.len(), 3);
    let mark = plan.steps[3].on_failure.as_ref().unwrap();
    assert_eq!(mark.cleanup.len(), 3);
    assert!(matches!(mark.cleanup[2], Action::UpdateStatus(id, InstanceState::Archived) if id == ID));
    let inst = plan.instance.unwrap();
    assert_eq!(inst.id, ID);
    assert_eq!(inst.db_name, s.db_name);
    assert_eq!(inst.db_user, s.db_user);
    assert_eq!(inst.db_password, "pw");
    assert_eq!(inst.container_id, "c1");
}

#[test]
fn record_transitions() {
    let s = stored(InstanceState::Active, None);
    let a = s.archived("backups/x", 42, 99);
    assert_eq!(a.status, InstanceState::Archived);
    assert_eq!(a.container_id, None);
    assert_eq!(a.backup_key.as_deref(), Some("backups/x"));
    assert_eq!(a.archived_at, Some(99));
    let b = a.activated("c9", 7, 120);
    assert_eq!(b.status, InstanceState::Active);
    assert_eq!(b.container_id.as_deref(), Some("c9"));
    assert_eq!(b.archived_at, None);
    assert_eq!(b.db_password, "pw");
    assert!(s.is_expired(1821, 1800));
    assert!(!s.is_expired(1820, 1800));
    assert_eq!(s.expires_at(1800), 1820);
    assert_eq!(InstanceState::from_str("restoring"), Some(InstanceState::Restoring));
    assert_eq!(InstanceState::from_str("Active"), None);
    assert_eq!(InstanceState::Archived.as_str(), "archived");
}

#[test]
fn sweeper_selects_idle_active_rows() {
    let mut rows = vec![stored(InstanceState::Active, None), stored(InstanceState::Archived, Some("k"))];
    rows[1].db_id = 9;
    rows[1].last_activity = 0;
    assert_eq!(expired_ids(&rows, 5000, 60), vec![ID]);
    assert_eq!(expired_ids(&rows, 50, 60), Vec::<u128>::new());
}

#[test]
fn cache_operations() {
    let mut cache = InstanceCache::new();
    let inst = DbInstance::new(
        ID,
        "mysql".to_string(),
        "c1".to_string(),
        1,
        "n".to_string(),
        "u".to_string(),
        "p".to_string(),
        5,
    );
    cache.insert(inst);
    assert!(cache.contains(ID));
    assert!(cache.touch(ID, 77));
    assert_eq!(cache.get(ID).unwrap().last_activity, 77);
    assert!(!cache.touch(3, 77));
    cache.remove(ID);
    assert_eq!(cache.len(), 0);
}

#[test]
fn pool_decisions_and_readiness() {
    assert_eq!(pool_decision(true, true), PoolDecision::Reuse);
    assert_eq!(pool_decision(true, false), PoolDecision::ReplaceStale);
    assert_eq!(pool_decision(false, true), PoolDecision::Create);
    assert_eq!(readiness_next(0, 1000, ReadyEvent::Begin), Readiness::CheckRunning);
    assert_eq!(readiness_next(1000, 1000, ReadyEvent::Waited), Readiness::NotReady);
    assert_eq!(readiness_next(5, 1000, ReadyEvent::RunningChecked(Some(false))), Readiness::NotReady);
    assert_eq!(readiness_next(5, 1000, ReadyEvent::RunningChecked(None)), Readiness::Probe);
    assert_eq!(readiness_next(5, 1000, ReadyEvent::Probed(Some(Some(0)))), Readiness::Ready);
    assert_eq!(readiness_next(5, 1000, ReadyEvent::Probed(Some(None))), Readiness::Wait);
}

#[test]
fn driver_helpers() {
    assert_eq!(pool_container_name(DialectKind::SqlServer), "dbctl-pool-sqlserver");
    assert_eq!(
        pool_labels(DialectKind::MySql),
        vec![
            ("dbctl-pool".to_string(), "true".to_string()),
            ("dbctl.dialect".to_string(), "mysql".to_string()),
            ("dbctl.container_port".to_string(), "3306".to_string()),
        ]
    );
    assert_eq!(port_key(1433), "1433/tcp");
    assert!(is_legacy_container("/db-api-0123"));
    assert!(is_legacy_container("db-api-0123"));
    assert!(!is_legacy_container("/db-api-pool-mysql"));
    assert!(!is_legacy_container("/dbctl-pool-mysql"));
    assert_eq!(
        env_assignments(&vec![("A".to_string(), "1".to_string())]),
        vec!["A=1".to_string()]
    );
    assert_eq!(parse_u16("65535"), Some(65535));
    assert_eq!(parse_u16("65536"), None);
    assert_eq!(parse_u16("-0"), None);
    assert_eq!(parse_u16("+80"), Some(80));
    let labels = vec![
        ("dbctl-pool".to_string(), "true".to_string()),
        ("dbctl.dialect".to_string(), "sqlserver".to_string()),
        ("dbctl.container_port".to_string(), "1433".to_string()),
    ];
    let bindings = vec![("1433/tcp".to_string(), "50001".to_string())];
    let c = discover_pool("abc".to_string(), &labels, &bindings, true).unwrap();
    assert_eq!(c.dialect, "sqlserver");
    assert_eq!(c.host_port, 50001);
    assert!(discover_pool("abc".to_string(), &labels[1..].to_vec(), &bindings, true).is_none());
    let no_port = discover_pool("abc".to_string(), &labels[..2].to_vec(), &bindings, false).unwrap();
    assert_eq!(no_port.host_port, 0);
}

#[test]
fn reconciliation_with_running_pool_recovers_instance() {
    let rows = vec![stored(InstanceState::Active, None)];
    let pools = vec![(pool("mysql"), true)];
    let found = vec![DiscoveredPoolContainer {
        container_id: "c1".to_string(),
        dialect: "mysql".to_string(),
        host_port: 49153,
        is_running: true,
    }];
    let plan = recovery_plan(&pools, &found, &rows, &vec![], 700);
    assert_eq!(plan.cache.len(), 1);
    assert_eq!(plan.cache[0].id, ID);
    assert_eq!(plan.cache[0].container_id, "c1");
    assert!(plan.delete_pools.is_empty());
    assert!(plan.destroy_containers.is_empty());
    assert!(plan.demote.is_empty() && plan.delete_instances.is_empty());
}

#[test]
fn reconciliation_without_pool_demotes_or_deletes() {
    let mut with_backup = stored(InstanceState::Active, Some("k"));
    with_backup.db_id = 1;
    let without = stored(InstanceState::Active, None);
    let restoring = {
        let mut r = stored(InstanceState::Restoring, Some("k2"));
        r.db_id = 2;
        r
    };
    let pools = vec![(pool("mysql"), false)];
    let found = vec![DiscoveredPoolContainer {
        container_id: "orphan".to_string(),
        dialect: "sqlserver".to_string(),
        host_port: 0,
        is_running: true,
    }];
    let plan = recovery_plan(
        &pools,
        &found,
        &vec![with_backup, without, restoring],
        &vec!["legacy1".to_string()],
        700,
    );
    assert_eq!(plan.delete_pools, vec!["mysql".to_string()]);
    assert_eq!(plan.destroy_containers, vec!["orphan".to_string(), "legacy1".to_string()]);
    assert!(plan.cache.is_empty());
    assert_eq!(plan.demote.len(), 2);
    assert_eq!(plan.demote[0].status, InstanceState::Archived);
    assert_eq!(plan.demote[0].container_id, None);
    assert_eq!(plan.demote[0].archived_at, Some(700));
    assert_eq!(plan.delete_instances, vec![ID]);
    let r = reconciled_instance(&stored(InstanceState::Active, None), 9);
    assert_eq!(r.host_port, 49153);
}

#[test]
fn backup_needs_switch_and_all_credentials() {
    assert!(backup_enabled(true, "acct", "key", "secret"));
    assert!(!backup_enabled(false, "acct", "key", "secret"));
    assert!(!backup_enabled(true, "", "key", "secret"));
    assert!(!backup_enabled(true, "acct", "key", ""));
}

#[test]
fn status_reports_live_and_archived() {
    let live = DbInstance::new(ID, "mysql".to_string(), "c1".to_string(), 1, "n".to_string(),
        "u".to_string(), "p".to_string(), 100);
    let with_backup = stored(InstanceState::Active, Some("k"));
    let r = db_status(Ok(live), Some(&with_backup), 1800).unwrap();
    assert_eq!(r.expires_at, 1900);
    assert!(r.backup_available);
    assert_eq!(r.archived_at, None);
    let archived = stored(InstanceState::Archived, Some("k"));
    let r = db_status(Err(AppError::DbNotFound), Some(&archived), 60).unwrap();
    assert_eq!(r.status, InstanceStatus::Archived);
    assert_eq!(r.archived_at, Some(30));
    assert_eq!(r.expires_at, 80);
    assert!(matches!(db_status(Err(AppError::DbNotFound), None, 60), Err(AppError::DbNotFound)));
    assert!(matches!(
        db_status(Err(AppError::RestoreInProgress), Some(&archived), 60),
        Err(AppError::RestoreInProgress)
    ));
}

#[test]
fn reconcile_plan_caches_the_record() {
    let s = stored(InstanceState::Active, None);
    let plan = reconcile_plan(&s, 42);
    assert_eq!(plan.steps.len(), 1);
    assert!(matches!(&plan.steps[0].action, Action::CacheInsert(i) if i.id == ID && i.container_id == "c1"));
    let inst = plan.instance.unwrap();
    assert_eq!(inst.last_activity, 42);
    assert_eq!(inst.status, InstanceStatus::Running);
}

#[test]
fn reconciliation_recovers_every_active_row_with_a_pool() {
    let first = stored(InstanceState::Active, None);
    let mut second = stored(InstanceState::Active, None);
    second.db_id = 77;
    let plan = recovery_plan(&vec![(pool("mysql"), true)], &vec![], &vec![first, second], &vec![], 5);
    assert_eq!(plan.cache.len(), 2);
    assert_eq!(plan.cache[0].id, ID);
    assert_eq!(plan.cache[1].id, 77);
    assert_eq!(plan.cache[1].host_port, 49153);
}
