//! The error kinds of the control plane and the HTTP status each maps to.
use vstd::prelude::*;
use vstd::string::StringExecFns;

use crate::text::owned;

verus! {

broadcast use vstd::string::group_string_axioms;

/// Every failure the control plane reports.
#[derive(Debug, Clone, PartialEq, Eq)]
pub enum AppError {
    DbNotFound,
    DialectUnsupported(String),
    DialectPullFailed(String),
    QueryTimeout,
    QuerySyntaxError(String),
    DbSizeExceeded,
    BackupNotFound,
    BackupExpired,
    RestoreInProgress,
    RestoreFailed(String),
    BackupFailed(String),
    Storage(String),
    Docker(String),
    Internal(String),
}

pub type Result<T> = core::result::Result<T, AppError>;

impl AppError {
    /// The machine-readable code of the error envelope.
    pub open spec fn spec_code(&self) -> Seq<char> {
        match self {
            AppError::DbNotFound => "DB_NOT_FOUND"@,
            AppError::DialectUnsupported(_) => "DIALECT_UNSUPPORTED"@,
            AppError::DialectPullFailed(_) => "DIALECT_PULL_FAILED"@,
            AppError::QueryTimeout => "QUERY_TIMEOUT"@,
            AppError::QuerySyntaxError(_) => "QUERY_SYNTAX_ERROR"@,
            AppError::DbSizeExceeded => "DB_SIZE_EXCEEDED"@,
            AppError::BackupNotFound => "BACKUP_NOT_FOUND"@,
            AppError::BackupExpired => "BACKUP_EXPIRED"@,
            AppError::RestoreInProgress => "RESTORE_IN_PROGRESS"@,
            AppError::RestoreFailed(_) => "RESTORE_FAILED"@,
            AppError::BackupFailed(_) => "BACKUP_FAILED"@,
            AppError::Storage(_) => "STORAGE_ERROR"@,
            AppError::Docker(_) => "DOCKER_ERROR"@,
            AppError::Internal(_) => "INTERNAL_ERROR"@,
        }
    }

    /// The HTTP status of each kind.
    pub open spec fn spec_status(&self) -> u16 {
        match self {
            AppError::DbNotFound => 404,
            AppError::DialectUnsupported(_) => 400,
            AppError::DialectPullFailed(_) => 503,
            AppError::QueryTimeout => 408,
            AppError::QuerySyntaxError(_) => 400,
            AppError::DbSizeExceeded => 413,
            AppError::BackupNotFound => 404,
            AppError::BackupExpired => 410,
            AppError::RestoreInProgress => 409,
            AppError::RestoreFailed(_) => 500,
            AppError::BackupFailed(_) => 500,
            AppError::Storage(_) => 500,
            AppError::Docker(_) => 500,
            AppError::Internal(_) => 500,
        }
    }

    /// The detail carried by a kind, if it carries one.
    pub open spec fn spec_detail(&self) -> Option<Seq<char>> {
        match self {
            AppError::DialectUnsupported(s) => Some(s@),
            AppError::DialectPullFailed(s) => Some(s@),
            AppError::QuerySyntaxError(s) => Some(s@),
            AppError::RestoreFailed(s) => Some(s@),
            AppError::BackupFailed(s) => Some(s@),
            AppError::Storage(s) => Some(s@),
            AppError::Docker(s) => Some(s@),
            AppError::Internal(s) => Some(s@),
            _ => None,
        }
    }

    /// The human-readable summary of each kind.
    pub open spec fn spec_summary(&self) -> Seq<char> {
        match self {
            AppError::DbNotFound => "Database instance not found"@,
            AppError::DialectUnsupported(_) => "Unsupported dialect: "@,
            AppError::DialectPullFailed(_) => "Failed to pull Docker image: "@,
            AppError::QueryTimeout => "Query exceeded timeout limit"@,
            AppError::QuerySyntaxError(_) => "SQL syntax error: "@,
            AppError::DbSizeExceeded => "Database exceeded size limit"@,
            AppError::BackupNotFound => "Backup not found"@,
            AppError::BackupExpired => "Backup has expired"@,
            AppError::RestoreInProgress => "Restore already in progress"@,
            AppError::RestoreFailed(_) => "Restore failed: "@,
            AppError::BackupFailed(_) => "Backup failed: "@,
            AppError::Storage(_) => "Metadata storage error: "@,
            AppError::Docker(_) => "Docker error: "@,
            AppError::Internal(_) => "Internal server error: "@,
        }
    }

    /// The full message: the summary, followed by the detail where there is one.
    pub open spec fn spec_message(&self) -> Seq<char> {
        match self.spec_detail() {
            Some(d) => self.spec_summary() + d,
            None => self.spec_summary(),
        }
    }

    pub fn code(&self) -> (r: &'static str)
        ensures
            r@ == self.spec_code(),
    {
        match self {
            AppError::DbNotFound => "DB_NOT_FOUND",
            AppError::DialectUnsupported(_) => "DIALECT_UNSUPPORTED",
            AppError::DialectPullFailed(_) => "DIALECT_PULL_FAILED",
            AppError::QueryTimeout => "QUERY_TIMEOUT",
            AppError::QuerySyntaxError(_) => "QUERY_SYNTAX_ERROR",
            AppError::DbSizeExceeded => "DB_SIZE_EXCEEDED",
            AppError::BackupNotFound => "BACKUP_NOT_FOUND",
            AppError::BackupExpired => "BACKUP_EXPIRED",
            AppError::RestoreInProgress => "RESTORE_IN_PROGRESS",
            AppError::RestoreFailed(_) => "RESTORE_FAILED",
            AppError::BackupFailed(_) => "BACKUP_FAILED",
            AppError::Storage(_) => "STORAGE_ERROR",
            AppError::Docker(_) => "DOCKER_ERROR",
            AppError::Internal(_) => "INTERNAL_ERROR",
        }
    }

    pub fn status_code(&self) -> (r: u16)
        ensures
            r == self.spec_status(),
    {
        match self {
            AppError::DbNotFound => 404,
            AppError::DialectUnsupported(_) => 400,
            AppError::DialectPullFailed(_) => 503,
            AppError::QueryTimeout => 408,
            AppError::QuerySyntaxError(_) => 400,
            AppError::DbSizeExceeded => 413,
            AppError::BackupNotFound => 404,
            AppError::BackupExpired => 410,
            AppError::RestoreInProgress => 409,
            AppError::RestoreFailed(_) => 500,
            AppError::BackupFailed(_) => 500,
            AppError::Storage(_) => 500,
            AppError::Docker(_) => 500,
            AppError::Internal(_) => 500,
        }
    }

    /// The detail shown in the error envelope, where the kind carries one.
    pub fn detail(&self) -> (r: Option<String>)
        ensures
            match r {
                Some(s) => self.spec_detail() == Some(s@),
                None => self.spec_detail() is None,
            },
    {
        match self {
            AppError::DialectUnsupported(s) => Some(s.clone()),
            AppError::DialectPullFailed(s) => Some(s.clone()),
            AppError::QuerySyntaxError(s) => Some(s.clone()),
            AppError::RestoreFailed(s) => Some(s.clone()),
            AppError::BackupFailed(s) => Some(s.clone()),
            AppError::Storage(s) => Some(s.clone()),
            AppError::Docker(s) => Some(s.clone()),
            AppError::Internal(s) => Some(s.clone()),
            _ => None,
        }
    }

    fn summary(&self) -> (r: &'static str)
        ensures
            r@ == self.spec_summary(),
    {
        match self {
            AppError::DbNotFound => "Database instance not found",
            AppError::DialectUnsupported(_) => "Unsupported dialect: ",
            AppError::DialectPullFailed(_) => "Failed to pull Docker image: ",
            AppError::QueryTimeout => "Query exceeded timeout limit",
            AppError::QuerySyntaxError(_) => "SQL syntax error: ",
            AppError::DbSizeExceeded => "Database exceeded size limit",
            AppError::BackupNotFound => "Backup not found",
            AppError::BackupExpired => "Backup has expired",
            AppError::RestoreInProgress => "Restore already in progress",
            AppError::RestoreFailed(_) => "Restore failed: ",
            AppError::BackupFailed(_) => "Backup failed: ",
            AppError::Storage(_) => "Metadata storage error: ",
            AppError::Docker(_) => "Docker error: ",
            AppError::Internal(_) => "Internal server error: ",
        }
    }

    /// The message of the error envelope.
    pub fn message(&self) -> (r: String)
        ensures
            r@ == self.spec_message(),
    {
        let mut r = owned(self.summary());
        match self.detail() {
            Some(d) => {
                r.append(d.as_str());
            },
            None => {},
        }
        r
    }
}

} // verus!
