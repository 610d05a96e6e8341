//! Replicated metadata service core: a versioned key-value store with
//! compare-and-swap writes, a deterministic catalog state machine driven by a
//! replicated command log, and the routing and bootstrap rules of a metadata
//! node, together with the plain data model shared by the query engine.

pub mod alist;
pub mod assoc;
pub mod catalog;
pub mod change;
pub mod cluster;
pub mod cmd;
pub mod comparison;
pub mod data_column;
pub mod data_field;
pub mod data_type;
pub mod data_value;
pub mod dup;
pub mod errors;
pub mod kv;
pub mod match_seq;
pub mod meta_api;
pub mod meta_node;
pub mod operation;
pub mod query_log;
pub mod seqv;
pub mod serialization;
pub mod series;
pub mod state_machine;
pub mod users;
