//! The dialect registry: for each supported engine, its image, port,
//! DDL templates, CLI invocations, dump/restore commands and error heuristic.
//! Every answer is a pure function of its arguments.
use vstd::prelude::*;
use vstd::string::StringExecFns;

use crate::error::AppError;
use crate::text::{
    chars_of, contains, contains_chars, eq_ignore_ascii_case, eq_ignore_ascii_case_chars, owned,
    starts_with, starts_with_chars, str_views,
};

verus! {

broadcast use vstd::string::group_string_axioms;

/// A supported SQL engine family.
#[derive(Debug, Clone, Copy, PartialEq, Eq, Structural)]
pub enum DialectKind {
    MySql,
    SqlServer,
}

/// The MySQL / MariaDB dialect.
#[derive(Debug, Clone, Copy)]
pub struct MySqlDialect;

/// The SQL Server dialect (x86-64 hosts only).
#[derive(Debug, Clone, Copy)]
pub struct SqlServerDialect;

/// A dialect strategy: each one answers through the engine family it stands for.
pub trait Dialect {
    spec fn spec_kind(&self) -> DialectKind;

    fn kind(&self) -> (k: DialectKind)
        ensures
            k == self.spec_kind(),
    ;
}

impl Dialect for MySqlDialect {
    open spec fn spec_kind(&self) -> DialectKind {
        DialectKind::MySql
    }

    fn kind(&self) -> (k: DialectKind) {
        DialectKind::MySql
    }
}

impl Dialect for SqlServerDialect {
    open spec fn spec_kind(&self) -> DialectKind {
        DialectKind::SqlServer
    }

    fn kind(&self) -> (k: DialectKind) {
        DialectKind::SqlServer
    }
}

/// The views of a list of environment pairs.
pub open spec fn pair_views(v: Seq<(String, String)>) -> Seq<(Seq<char>, Seq<char>)> {
    v.map_values(|p: (String, String)| (p.0@, p.1@))
}

/// The views of a list of string slices.
pub open spec fn slice_views(v: Seq<&str>) -> Seq<Seq<char>> {
    v.map_values(|p: &str| p@)
}

/// The view of a command: program and arguments.
pub open spec fn command_view(c: (String, Vec<String>)) -> (Seq<char>, Seq<Seq<char>>) {
    (c.0@, str_views(c.1@))
}

pub open spec fn sqlcmd_path() -> Seq<char> {
    "/opt/mssql-tools18/bin/sqlcmd"@
}

/// Owned copies of `parts`, in order.
fn strings(parts: Vec<&str>) -> (r: Vec<String>)
    ensures
        str_views(r@) == slice_views(parts@),
{
    let mut r: Vec<String> = Vec::new();
    let mut i: usize = 0;
    while i < parts.len()
        invariant
            i <= parts.len(),
            str_views(r@) == slice_views(parts@).subrange(0, i as int),
        decreases parts.len() - i,
    {
        let ghost before = r@;
        r.push(owned(parts[i]));
        assert(str_views(r@) =~= str_views(before).push(parts@[i as int]@));
        assert(slice_views(parts@).subrange(0, i + 1) =~= slice_views(parts@).subrange(
            0,
            i as int,
        ).push(parts@[i as int]@));
        i = i + 1;
    }
    assert(slice_views(parts@).subrange(0, parts.len() as int) =~= slice_views(parts@));
    r
}

fn pair(k: &str, v: &str) -> (r: (String, String))
    ensures
        r.0@ == k@,
        r.1@ == v@,
{
    (owned(k), owned(v))
}

impl DialectKind {
    pub open spec fn spec_name(self) -> Seq<char> {
        match self {
            DialectKind::MySql => "mysql"@,
            DialectKind::SqlServer => "sqlserver"@,
        }
    }

    pub open spec fn spec_image(self) -> Seq<char> {
        match self {
            DialectKind::MySql => "mysql:8"@,
            DialectKind::SqlServer => "mcr.microsoft.com/mssql/server:2022-latest"@,
        }
    }

    pub open spec fn spec_port(self) -> u16 {
        match self {
            DialectKind::MySql => 3306,
            DialectKind::SqlServer => 1433,
        }
    }

    pub open spec fn spec_startup_timeout_secs(self) -> u64 {
        match self {
            DialectKind::MySql => 60,
            DialectKind::SqlServer => 90,
        }
    }

    pub open spec fn spec_root_user(self) -> Seq<char> {
        match self {
            DialectKind::MySql => "root"@,
            DialectKind::SqlServer => "sa"@,
        }
    }

    pub open spec fn spec_root_password_env(self) -> Seq<char> {
        match self {
            DialectKind::MySql => "MYSQL_ROOT_PASSWORD"@,
            DialectKind::SqlServer => "MSSQL_SA_PASSWORD"@,
        }
    }

    pub open spec fn spec_supports_backup(self) -> bool {
        self == DialectKind::MySql
    }

    /// The dialect's error-prefix heuristic on one line of CLI output.
    pub open spec fn spec_is_error_line(self, line: Seq<char>) -> bool {
        match self {
            DialectKind::MySql => starts_with(line, "ERROR"@) || contains(line, "error:"@),
            DialectKind::SqlServer => starts_with(line, "Msg "@) || contains(line, "Error:"@)
                || starts_with(line, "Sqlcmd: Error:"@),
        }
    }

    pub open spec fn spec_create_database_sql(self, db: Seq<char>) -> Seq<char> {
        match self {
            DialectKind::MySql => "CREATE DATABASE `"@ + db + "`"@,
            DialectKind::SqlServer => "IF NOT EXISTS (SELECT name FROM sys.databases WHERE name = '"@
                + db + "') CREATE DATABASE ["@ + db + "]"@,
        }
    }

    pub open spec fn spec_drop_database_sql(self, db: Seq<char>) -> Seq<char> {
        match self {
            DialectKind::MySql => "DROP DATABASE IF EXISTS `"@ + db + "`"@,
            DialectKind::SqlServer => "IF EXISTS (SELECT name FROM sys.databases WHERE name = '"@
                + db + "') DROP DATABASE ["@ + db + "]"@,
        }
    }

    pub open spec fn spec_create_user_sql(self, user: Seq<char>, pw: Seq<char>, db: Seq<char>) -> Seq<
        char,
    > {
        match self {
            DialectKind::MySql => "CREATE USER '"@ + user + "'@'%' IDENTIFIED BY '"@ + pw
                + "'; GRANT ALL PRIVILEGES ON `"@ + db + "`.* TO '"@ + user
                + "'@'%'; FLUSH PRIVILEGES;"@,
            DialectKind::SqlServer => "IF NOT EXISTS (SELECT name FROM sys.server_principals WHERE name = '"@
                + user + "') CREATE LOGIN ["@ + user + "] WITH PASSWORD = '"@ + pw
                + "'; USE ["@ + db
                + "]; IF NOT EXISTS (SELECT name FROM sys.database_principals WHERE name = '"@
                + user + "') CREATE USER ["@ + user + "] FOR LOGIN ["@ + user
                + "]; ALTER ROLE db_owner ADD MEMBER ["@ + user + "];"@,
        }
    }

    pub open spec fn spec_drop_user_sql(self, user: Seq<char>) -> Seq<char> {
        match self {
            DialectKind::MySql => "DROP USER IF EXISTS '"@ + user + "'@'%'"@,
            DialectKind::SqlServer => "IF EXISTS (SELECT name FROM sys.server_principals WHERE name = '"@
                + user + "') DROP LOGIN ["@ + user + "]"@,
        }
    }

    /// Environment that boots the pool container with the given root password.
    pub open spec fn spec_pool_env(self, root_pw: Seq<char>) -> Seq<(Seq<char>, Seq<char>)> {
        match self {
            DialectKind::MySql => seq![("MYSQL_ROOT_PASSWORD"@, root_pw)],
            DialectKind::SqlServer => seq![("ACCEPT_EULA"@, "Y"@), ("MSSQL_SA_PASSWORD"@, root_pw)],
        }
    }

    /// Environment that boots a dedicated container for one database.
    pub open spec fn spec_env(self, db: Seq<char>, user: Seq<char>, pw: Seq<char>) -> Seq<
        (Seq<char>, Seq<char>),
    > {
        match self {
            DialectKind::MySql => seq![
                ("MYSQL_ROOT_PASSWORD"@, pw),
                ("MYSQL_DATABASE"@, db),
                ("MYSQL_USER"@, user),
                ("MYSQL_PASSWORD"@, pw),
            ],
            DialectKind::SqlServer => seq![("ACCEPT_EULA"@, "Y"@), ("MSSQL_SA_PASSWORD"@, pw)],
        }
    }

    /// Environment of a CLI run as an instance's own user: the password, never in argv.
    pub open spec fn spec_cli_env(self, pw: Seq<char>) -> Seq<(Seq<char>, Seq<char>)> {
        match self {
            DialectKind::MySql => seq![("MYSQL_PWD"@, pw)],
            DialectKind::SqlServer => seq![("SQLCMDPASSWORD"@, pw)],
        }
    }

    /// Command that applies `sql` as the root principal.
    pub open spec fn spec_exec_sql(self, root_pw: Seq<char>, sql: Seq<char>) -> (
        Seq<char>,
        Seq<Seq<char>>,
    ) {
        match self {
            DialectKind::MySql => ("mysql"@, seq!["-u"@, "root"@, "-p"@ + root_pw, "-e"@, sql]),
            DialectKind::SqlServer => (
                sqlcmd_path(),
                seq![
                    "-S"@,
                    "localhost"@,
                    "-U"@,
                    "sa"@,
                    "-P"@,
                    root_pw,
                    "-Q"@,
                    sql,
                    "-C"@,
                ],
            ),
        }
    }

    /// Command that runs `query` with machine-parsable, tab-separated output.
    pub open spec fn spec_cli(self, db: Seq<char>, user: Seq<char>, query: Seq<char>) -> (
        Seq<char>,
        Seq<Seq<char>>,
    ) {
        match self {
            DialectKind::MySql => (
                "mysql"@,
                seq!["-u"@, user, db, "-e"@, query, "--batch"@, "--raw"@],
            ),
            DialectKind::SqlServer => (
                sqlcmd_path(),
                seq![
                    "-S"@,
                    "localhost"@,
                    "-U"@,
                    user,
                    "-d"@,
                    db,
                    "-Q"@,
                    query,
                    "-s"@,
                    "\t"@,
                    "-W"@,
                    "-C"@,
                ],
            ),
        }
    }

    /// Command that runs `query` with ASCII-table output.
    pub open spec fn spec_cli_text(self, db: Seq<char>, user: Seq<char>, query: Seq<char>) -> (
        Seq<char>,
        Seq<Seq<char>>,
    ) {
        match self {
            DialectKind::MySql => ("mysql"@, seq!["-u"@, user, db, "-e"@, query, "--table"@]),
            DialectKind::SqlServer => self.spec_cli(db, user, query),
        }
    }

    /// Command that checks that the engine answers.
    pub open spec fn spec_health_check(self, db: Seq<char>, user: Seq<char>) -> (
        Seq<char>,
        Seq<Seq<char>>,
    ) {
        match self {
            DialectKind::MySql => ("mysql"@, seq!["-u"@, user, db, "-e"@, "SELECT 1"@]),
            DialectKind::SqlServer => (
                sqlcmd_path(),
                seq!["-S"@, "localhost"@, "-U"@, "sa"@, "-Q"@, "SELECT 1"@, "-C"@],
            ),
        }
    }

    /// Command that dumps one database, where the dialect can dump.
    pub open spec fn spec_dump(self, db: Seq<char>, user: Seq<char>) -> Option<
        (Seq<char>, Seq<Seq<char>>),
    > {
        match self {
            DialectKind::MySql => Some(
                (
                    "mysqldump"@,
                    seq![
                        "-u"@,
                        user,
                        "--single-transaction"@,
                        "--routines"@,
                        "--triggers"@,
                        db,
                    ],
                ),
            ),
            DialectKind::SqlServer => None,
        }
    }

    /// Command that replays a dump read from stdin, where the dialect can dump.
    pub open spec fn spec_restore(self, db: Seq<char>, user: Seq<char>) -> Option<
        (Seq<char>, Seq<Seq<char>>),
    > {
        match self {
            DialectKind::MySql => Some(("mysql"@, seq!["-u"@, user, db])),
            DialectKind::SqlServer => None,
        }
    }

    pub fn name(&self) -> (r: &'static str)
        ensures
            r@ == self.spec_name(),
    {
        match self {
            DialectKind::MySql => "mysql",
            DialectKind::SqlServer => "sqlserver",
        }
    }

    pub fn docker_image(&self) -> (r: &'static str)
        ensures
            r@ == self.spec_image(),
    {
        match self {
            DialectKind::MySql => "mysql:8",
            DialectKind::SqlServer => "mcr.microsoft.com/mssql/server:2022-latest",
        }
    }

    pub fn default_port(&self) -> (r: u16)
        ensures
            r == self.spec_port(),
    {
        match self {
            DialectKind::MySql => 3306,
            DialectKind::SqlServer => 1433,
        }
    }

    pub fn startup_timeout_secs(&self) -> (r: u64)
        ensures
            r == self.spec_startup_timeout_secs(),
    {
        match self {
            DialectKind::MySql => 60,
            DialectKind::SqlServer => 90,
        }
    }

    pub fn root_user(&self) -> (r: &'static str)
        ensures
            r@ == self.spec_root_user(),
    {
        match self {
            DialectKind::MySql => "root",
            DialectKind::SqlServer => "sa",
        }
    }

    pub fn root_password_env(&self) -> (r: &'static str)
        ensures
            r@ == self.spec_root_password_env(),
    {
        match self {
            DialectKind::MySql => "MYSQL_ROOT_PASSWORD",
            DialectKind::SqlServer => "MSSQL_SA_PASSWORD",
        }
    }

    pub fn supports_backup(&self) -> (r: bool)
        ensures
            r == self.spec_supports_backup(),
    {
        match self {
            DialectKind::MySql => true,
            DialectKind::SqlServer => false,
        }
    }

    pub fn is_error_line(&self, line: &str) -> (r: bool)
        ensures
            r == self.spec_is_error_line(line@),
    {
        let l = chars_of(line);
        self.is_error_chars(&l)
    }

    /// The error heuristic on a line held as characters.
    pub fn is_error_chars(&self, l: &Vec<char>) -> (r: bool)
        ensures
            r == self.spec_is_error_line(l@),
    {
        match self {
            DialectKind::MySql => {
                starts_with_chars(l, &chars_of("ERROR")) || contains_chars(l, &chars_of("error:"))
            },
            DialectKind::SqlServer => {
                starts_with_chars(l, &chars_of("Msg ")) || contains_chars(l, &chars_of("Error:"))
                    || starts_with_chars(l, &chars_of("Sqlcmd: Error:"))
            },
        }
    }

    pub fn create_database_sql(&self, db_name: &str) -> (r: String)
        ensures
            r@ == self.spec_create_database_sql(db_name@),
    {
        match self {
            DialectKind::MySql => {
                let mut r = owned("CREATE DATABASE `");
                r.append(db_name);
                r.append("`");
                r
            },
            DialectKind::SqlServer => {
                let mut r = owned("IF NOT EXISTS (SELECT name FROM sys.databases WHERE name = '");
                r.append(db_name);
                r.append("') CREATE DATABASE [");
                r.append(db_name);
                r.append("]");
                r
            },
        }
    }

    pub fn drop_database_sql(&self, db_name: &str) -> (r: String)
        ensures
            r@ == self.spec_drop_database_sql(db_name@),
    {
        match self {
            DialectKind::MySql => {
                let mut r = owned("DROP DATABASE IF EXISTS `");
                r.append(db_name);
                r.append("`");
                r
            },
            DialectKind::SqlServer => {
                let mut r = owned("IF EXISTS (SELECT name FROM sys.databases WHERE name = '");
                r.append(db_name);
                r.append("') DROP DATABASE [");
                r.append(db_name);
                r.append("]");
                r
            },
        }
    }

    pub fn create_user_sql(&self, user: &str, password: &str, db_name: &str) -> (r: String)
        ensures
            r@ == self.spec_create_user_sql(user@, password@, db_name@),
    {
        match self {
            DialectKind::MySql => {
                let mut r = owned("CREATE USER '");
                r.append(user);
                r.append("'@'%' IDENTIFIED BY '");
                r.append(password);
                r.append("'; GRANT ALL PRIVILEGES ON `");
                r.append(db_name);
                r.append("`.* TO '");
                r.append(user);
                r.append("'@'%'; FLUSH PRIVILEGES;");
                r
            },
            DialectKind::SqlServer => {
                let mut r = owned(
                    "IF NOT EXISTS (SELECT name FROM sys.server_principals WHERE name = '",
                );
                r.append(user);
                r.append("') CREATE LOGIN [");
                r.append(user);
                r.append("] WITH PASSWORD = '");
                r.append(password);
                r.append("'; USE [");
                r.append(db_name);
                r.append("]; IF NOT EXISTS (SELECT name FROM sys.database_principals WHERE name = '");
                r.append(user);
                r.append("') CREATE USER [");
                r.append(user);
                r.append("] FOR LOGIN [");
                r.append(user);
                r.append("]; ALTER ROLE db_owner ADD MEMBER [");
                r.append(user);
                r.append("];");
                r
            },
        }
    }

    pub fn drop_user_sql(&self, user: &str) -> (r: String)
        ensures
            r@ == self.spec_drop_user_sql(user@),
    {
        match self {
            DialectKind::MySql => {
                let mut r = owned("DROP USER IF EXISTS '");
                r.append(user);
                r.append("'@'%'");
                r
            },
            DialectKind::SqlServer => {
                let mut r = owned(
                    "IF EXISTS (SELECT name FROM sys.server_principals WHERE name = '",
                );
                r.append(user);
                r.append("') DROP LOGIN [");
                r.append(user);
                r.append("]");
                r
            },
        }
    }

    pub fn pool_env_vars(&self, root_password: &str) -> (r: Vec<(String, String)>)
        ensures
            pair_views(r@) == self.spec_pool_env(root_password@),
    {
        let mut r: Vec<(String, String)> = Vec::new();
        match self {
            DialectKind::MySql => {
                r.push(pair("MYSQL_ROOT_PASSWORD", root_password));
            },
            DialectKind::SqlServer => {
                r.push(pair("ACCEPT_EULA", "Y"));
                r.push(pair("MSSQL_SA_PASSWORD", root_password));
            },
        }
        assert(pair_views(r@) =~= self.spec_pool_env(root_password@));
        r
    }

    pub fn env_vars(&self, db_name: &str, user: &str, password: &str) -> (r: Vec<(String, String)>)
        ensures
            pair_views(r@) == self.spec_env(db_name@, user@, password@),
    {
        let mut r: Vec<(String, String)> = Vec::new();
        match self {
            DialectKind::MySql => {
                r.push(pair("MYSQL_ROOT_PASSWORD", password));
                r.push(pair("MYSQL_DATABASE", db_name));
                r.push(pair("MYSQL_USER", user));
                r.push(pair("MYSQL_PASSWORD", password));
            },
            DialectKind::SqlServer => {
                r.push(pair("ACCEPT_EULA", "Y"));
                r.push(pair("MSSQL_SA_PASSWORD", password));
            },
        }
        assert(pair_views(r@) =~= self.spec_env(db_name@, user@, password@));
        r
    }

    pub fn cli_env_vars(&self, password: &str) -> (r: Vec<(String, String)>)
        ensures
            pair_views(r@) == self.spec_cli_env(password@),
    {
        let mut r: Vec<(String, String)> = Vec::new();
        match self {
            DialectKind::MySql => {
                r.push(pair("MYSQL_PWD", password));
            },
            DialectKind::SqlServer => {
                r.push(pair("SQLCMDPASSWORD", password));
            },
        }
        assert(pair_views(r@) =~= self.spec_cli_env(password@));
        r
    }

    pub fn exec_sql_command(&self, root_password: &str, sql: &str) -> (r: (String, Vec<String>))
        ensures
            command_view(r) == self.spec_exec_sql(root_password@, sql@),
    {
        match self {
            DialectKind::MySql => {
                let mut p = owned("-p");
                p.append(root_password);
                let args = strings(vec!["-u", "root", p.as_str(), "-e", sql]);
                let r = (owned("mysql"), args);
                assert(str_views(r.1@) =~= self.spec_exec_sql(root_password@, sql@).1);
                r
            },
            DialectKind::SqlServer => {
                let args = strings(
                    vec!["-S", "localhost", "-U", "sa", "-P", root_password, "-Q", sql, "-C"],
                );
                let r = (owned("/opt/mssql-tools18/bin/sqlcmd"), args);
                assert(str_views(r.1@) =~= self.spec_exec_sql(root_password@, sql@).1);
                r
            },
        }
    }

    pub fn cli_command(&self, db_name: &str, user: &str, query: &str) -> (r: (String, Vec<String>))
        ensures
            command_view(r) == self.spec_cli(db_name@, user@, query@),
    {
        match self {
            DialectKind::MySql => {
                let args = strings(vec!["-u", user, db_name, "-e", query, "--batch", "--raw"]);
                let r = (owned("mysql"), args);
                assert(str_views(r.1@) =~= self.spec_cli(db_name@, user@, query@).1);
                r
            },
            DialectKind::SqlServer => {
                let args = strings(
                    vec![
                        "-S",
                        "localhost",
                        "-U",
                        user,
                        "-d",
                        db_name,
                        "-Q",
                        query,
                        "-s",
                        "\t",
                        "-W",
                        "-C",
                    ],
                );
                let r = (owned("/opt/mssql-tools18/bin/sqlcmd"), args);
                assert(str_views(r.1@) =~= self.spec_cli(db_name@, user@, query@).1);
                r
            },
        }
    }

    pub fn cli_command_text(&self, db_name: &str, user: &str, query: &str) -> (r: (
        String,
        Vec<String>,
    ))
        ensures
            command_view(r) == self.spec_cli_text(db_name@, user@, query@),
    {
        match self {
            DialectKind::MySql => {
                let args = strings(vec!["-u", user, db_name, "-e", query, "--table"]);
                let r = (owned("mysql"), args);
                assert(str_views(r.1@) =~= self.spec_cli_text(db_name@, user@, query@).1);
                r
            },
            DialectKind::SqlServer => self.cli_command(db_name, user, query),
        }
    }

    pub fn health_check_command(&self, db_name: &str, user: &str) -> (r: (String, Vec<String>))
        ensures
            command_view(r) == self.spec_health_check(db_name@, user@),
    {
        match self {
            DialectKind::MySql => {
                let args = strings(vec!["-u", user, db_name, "-e", "SELECT 1"]);
                let r = (owned("mysql"), args);
                assert(str_views(r.1@) =~= self.spec_health_check(db_name@, user@).1);
                r
            },
            DialectKind::SqlServer => {
                let args = strings(vec!["-S", "localhost", "-U", "sa", "-Q", "SELECT 1", "-C"]);
                let r = (owned("/opt/mssql-tools18/bin/sqlcmd"), args);
                assert(str_views(r.1@) =~= self.spec_health_check(db_name@, user@).1);
                r
            },
        }
    }

    /// Command that creates the database of a dedicated container once the
    /// engine is up; only SQL Server needs one.
    pub fn post_startup_command(&self, db_name: &str) -> (r: Option<(String, Vec<String>)>)
        ensures
            match self {
                DialectKind::MySql => r is None,
                DialectKind::SqlServer => r is Some && command_view(r->0) == (
                    sqlcmd_path(),
                    seq![
                        "-S"@,
                        "localhost"@,
                        "-U"@,
                        "sa"@,
                        "-Q"@,
                        self.spec_create_database_sql(db_name@),
                        "-C"@,
                    ],
                ),
            },
    {
        match self {
            DialectKind::MySql => None,
            DialectKind::SqlServer => {
                let sql = self.create_database_sql(db_name);
                let args = strings(vec!["-S", "localhost", "-U", "sa", "-Q", sql.as_str(), "-C"]);
                let r = (owned("/opt/mssql-tools18/bin/sqlcmd"), args);
                assert(str_views(r.1@) =~= seq![
                    "-S"@,
                    "localhost"@,
                    "-U"@,
                    "sa"@,
                    "-Q"@,
                    self.spec_create_database_sql(db_name@),
                    "-C"@,
                ]);
                Some(r)
            },
        }
    }

    pub fn dump_command(&self, db_name: &str, user: &str) -> (r: Option<(String, Vec<String>)>)
        ensures
            match self.spec_dump(db_name@, user@) {
                Some(c) => r is Some && command_view(r->0) == c,
                None => r is None,
            },
    {
        match self {
            DialectKind::MySql => {
                let args = strings(
                    vec!["-u", user, "--single-transaction", "--routines", "--triggers", db_name],
                );
                let r = (owned("mysqldump"), args);
                assert(str_views(r.1@) =~= (self.spec_dump(db_name@, user@)->0).1);
                Some(r)
            },
            DialectKind::SqlServer => None,
        }
    }

    pub fn restore_command(&self, db_name: &str, user: &str) -> (r: Option<(String, Vec<String>)>)
        ensures
            match self.spec_restore(db_name@, user@) {
                Some(c) => r is Some && command_view(r->0) == c,
                None => r is None,
            },
    {
        match self {
            DialectKind::MySql => {
                let args = strings(vec!["-u", user, db_name]);
                let r = (owned("mysql"), args);
                assert(str_views(r.1@) =~= (self.spec_restore(db_name@, user@)->0).1);
                Some(r)
            },
            DialectKind::SqlServer => None,
        }
    }
}

/// The dialect that a name stands for, compared without regard to ASCII case.
pub open spec fn spec_lookup(name: Seq<char>) -> Option<DialectKind> {
    if eq_ignore_ascii_case(name, "mysql"@) || eq_ignore_ascii_case(name, "mariadb"@) {
        Some(DialectKind::MySql)
    } else if eq_ignore_ascii_case(name, "sqlserver"@) || eq_ignore_ascii_case(name, "mssql"@) {
        Some(DialectKind::SqlServer)
    } else {
        None
    }
}

/// Looks a dialect up by name or alias; an unknown name is `DialectUnsupported`.
pub fn get_dialect(name: &str) -> (r: Result<DialectKind, AppError>)
    ensures
        match spec_lookup(name@) {
            Some(k) => r == Ok::<DialectKind, AppError>(k),
            None => r matches Err(AppError::DialectUnsupported(n)) && n@ == name@,
        },
{
    let n = chars_of(name);
    if eq_ignore_ascii_case_chars(&n, &chars_of("mysql")) || eq_ignore_ascii_case_chars(
        &n,
        &chars_of("mariadb"),
    ) {
        Ok(DialectKind::MySql)
    } else if eq_ignore_ascii_case_chars(&n, &chars_of("sqlserver")) || eq_ignore_ascii_case_chars(
        &n,
        &chars_of("mssql"),
    ) {
        Ok(DialectKind::SqlServer)
    } else {
        Err(AppError::DialectUnsupported(owned(name)))
    }
}

/// The canonical names of the supported dialects.
pub fn supported_dialects() -> (r: Vec<&'static str>)
    ensures
        slice_views(r@) == seq!["mysql"@, "sqlserver"@],
{
    let r = vec!["mysql", "sqlserver"];
    assert(slice_views(r@) =~= seq!["mysql"@, "sqlserver"@]);
    r
}

} // verus!
