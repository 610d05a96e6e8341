//! The record a server writes about each query it runs.

use vstd::prelude::*;

verus! {

/// Which stage of a query the record marks.
#[derive(Clone, Copy, Debug, PartialEq, Eq, Structural)]
pub enum LogType {
    Start,
    Finish,
    Error,
}

impl LogType {
    /// The wire tag of the stage.
    pub fn as_u8(self) -> (r: u8)
        ensures
            r == match self {
                LogType::Start => 1u8,
                LogType::Finish => 2u8,
                LogType::Error => 3u8,
            },
    {
        match self {
            LogType::Start => 1,
            LogType::Finish => 2,
            LogType::Error => 3,
        }
    }
}

/// One row of the query log.
pub struct LogEvent {
    // Type.
    pub log_type: LogType,
    pub handler_type: String,
    // User.
    pub tenant_id: String,
    pub cluster_id: String,
    pub sql_user: String,
    pub sql_user_quota: String,
    pub sql_user_privileges: String,
    // Query.
    pub query_id: String,
    pub query_kind: String,
    pub query_text: String,
    pub query_start_time: u64,
    pub query_end_time: u64,
    // Stats.
    pub written_rows: u64,
    pub written_bytes: u64,
    pub read_rows: u64,
    pub read_bytes: u64,
    pub result_rows: u64,
    pub result_bytes: u64,
    pub cpu_usage: u32,
    pub memory_usage: u64,
    // Client.
    pub client_info: String,
    pub client_address: String,
    // Schema.
    pub current_database: String,
    pub databases: String,
    pub tables: String,
    pub columns: String,
    pub projections: String,
    // Exception.
    pub exception_code: i32,
    pub exception: String,
    pub stack_trace: String,
    // Server.
    pub server_version: String,
    // Extra.
    pub extra: String,
}

} // verus!
