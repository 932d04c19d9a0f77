use db_api::dialect::{get_dialect, supported_dialects, Dialect, DialectKind, MySqlDialect, SqlServerDialect};
use db_api::error::AppError;

#[test]
fn lookup_is_case_insensitive_with_aliases() {
    assert_eq!(get_dialect("mysql").unwrap(), DialectKind::MySql);
    assert_eq!(get_dialect("MariaDB").unwrap(), DialectKind::MySql);
    assert_eq!(get_dialect("SQLSERVER").unwrap(), DialectKind::SqlServer);
    assert_eq!(get_dialect("mssql").unwrap(), DialectKind::SqlServer);
    match get_dialect("postgres") {
        Err(AppError::DialectUnsupported(n)) => assert_eq!(n, "postgres"),
        other => panic!("unexpected {:?}", other),
    }
    assert_eq!(supported_dialects(), vec!["mysql", "sqlserver"]);
    assert_eq!(MySqlDialect.kind(), DialectKind::MySql);
    assert_eq!(SqlServerDialect.kind(), DialectKind::SqlServer);
}

#[test]
fn mysql_strategy() {
    let d = DialectKind::MySql;
    assert_eq!(d.name(), "mysql");
    assert_eq!(d.docker_image(), "mysql:8");
    assert_eq!(d.default_port(), 3306);
    assert_eq!(d.startup_timeout_secs(), 60);
    assert!(d.supports_backup());
    assert_eq!(d.create_database_sql("db_1"), "CREATE DATABASE `db_1`");
    assert_eq!(d.drop_database_sql("db_1"), "DROP DATABASE IF EXISTS `db_1`");
    assert_eq!(
        d.create_user_sql("u", "p", "db_1"),
        "CREATE USER 'u'@'%' IDENTIFIED BY 'p'; GRANT ALL PRIVILEGES ON `db_1`.* TO 'u'@'%'; FLUSH PRIVILEGES;"
    );
    assert_eq!(d.drop_user_sql("u"), "DROP USER IF EXISTS 'u'@'%'");
    let (prog, args) = d.cli_command("db_1", "u", "SELECT 1");
    assert_eq!(prog, "mysql");
    assert_eq!(args, vec!["-u", "u", "db_1", "-e", "SELECT 1", "--batch", "--raw"]);
    assert_eq!(d.cli_env_vars("p"), vec![("MYSQL_PWD".to_string(), "p".to_string())]);
    let (prog, args) = d.exec_sql_command("root", "SELECT 1");
    assert_eq!(prog, "mysql");
    assert_eq!(args, vec!["-u", "root", "-proot", "-e", "SELECT 1"]);
    let (prog, args) = d.dump_command("db_1", "u").unwrap();
    assert_eq!(prog, "mysqldump");
    assert_eq!(args, vec!["-u", "u", "--single-transaction", "--routines", "--triggers", "db_1"]);
    assert_eq!(d.restore_command("db_1", "u").unwrap().1, vec!["-u", "u", "db_1"]);
    assert_eq!(d.cli_command_text("db", "u", "q").1, vec!["-u", "u", "db", "-e", "q", "--table"]);
    assert!(d.is_error_line("ERROR 1045 (28000): Access denied"));
    assert!(d.is_error_line("mysql: error: bad"));
    assert!(!d.is_error_line("Query OK"));
    assert!(d.post_startup_command("db").is_none());
}

#[test]
fn sqlserver_strategy() {
    let d = DialectKind::SqlServer;
    assert_eq!(d.name(), "sqlserver");
    assert_eq!(d.default_port(), 1433);
    assert_eq!(d.startup_timeout_secs(), 90);
    assert!(!d.supports_backup());
    assert!(d.dump_command("db", "u").is_none());
    assert_eq!(
        d.create_database_sql("db_1"),
        "IF NOT EXISTS (SELECT name FROM sys.databases WHERE name = 'db_1') CREATE DATABASE [db_1]"
    );
    assert_eq!(
        d.drop_user_sql("u"),
        "IF EXISTS (SELECT name FROM sys.server_principals WHERE name = 'u') DROP LOGIN [u]"
    );
    let (prog, args) = d.cli_command("db", "u", "SELECT 1");
    assert_eq!(prog, "/opt/mssql-tools18/bin/sqlcmd");
    assert_eq!(
        args,
        vec!["-S", "localhost", "-U", "u", "-d", "db", "-Q", "SELECT 1", "-s", "\t", "-W", "-C"]
    );
    assert_eq!(d.cli_env_vars("p"), vec![("SQLCMDPASSWORD".to_string(), "p".to_string())]);
    assert_eq!(
        d.pool_env_vars("r"),
        vec![
            ("ACCEPT_EULA".to_string(), "Y".to_string()),
            ("MSSQL_SA_PASSWORD".to_string(), "r".to_string())
        ]
    );
    assert!(d.is_error_line("Msg 102, Level 15"));
    assert!(d.is_error_line("Sqlcmd: Error: Microsoft ODBC"));
    assert!(!d.is_error_line("(1 rows affected)"));
}

#[test]
fn error_codes_and_statuses() {
    assert_eq!(AppError::DbNotFound.code(), "DB_NOT_FOUND");
    assert_eq!(AppError::DbNotFound.status_code(), 404);
    assert_eq!(AppError::DialectUnsupported("x".to_string()).status_code(), 400);
    assert_eq!(AppError::DialectPullFailed("x".to_string()).status_code(), 503);
    assert_eq!(AppError::QueryTimeout.code(), "QUERY_TIMEOUT");
    assert_eq!(AppError::QueryTimeout.status_code(), 408);
    assert_eq!(AppError::DbSizeExceeded.status_code(), 413);
    assert_eq!(AppError::BackupNotFound.status_code(), 404);
    assert_eq!(AppError::BackupExpired.status_code(), 410);
    assert_eq!(AppError::RestoreInProgress.status_code(), 409);
    assert_eq!(AppError::RestoreFailed("x".to_string()).status_code(), 500);
    assert_eq!(AppError::Internal("boom".to_string()).message(), "Internal server error: boom");
    assert_eq!(AppError::DbNotFound.detail(), None);
}
