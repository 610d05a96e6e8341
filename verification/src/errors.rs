//! The errors the catalog API reports. Existence conflicts are derived by the
//! caller from the `Change` a command application returns; the state machine
//! itself only reports facts.

use vstd::prelude::*;

use crate::match_seq::MatchSeq;

verus! {

#[derive(Debug, PartialEq, Eq)]
pub enum ErrorCode {
    /// Creating a database that exists, with `if_not_exists` unset; carries the name.
    DatabaseAlreadyExists(String),
    /// Reading or dropping a database that does not exist; carries the name.
    UnknownDatabase(String),
    /// Creating a table that exists, with `if_not_exists` unset; carries the name.
    TableAlreadyExists(String),
    /// Reading or dropping a table that does not exist; carries the name.
    UnknownTable(String),
    /// Reading a table by an id that does not exist; carries the id.
    UnknownTableId(u64),
    /// A conditional table write whose precondition did not hold: the
    /// precondition asked for, and the seq the table currently carries.
    TableVersionMismatch(MatchSeq, u64),
    /// A node id absent from the node registry.
    UnknownNode(u64),
    /// A malformed node configuration; carries what was missing.
    InvalidConfig(String),
    /// A dangling reference inside the store: an id a lookup names but the
    /// meta key-space does not hold. Command application never produces one.
    IllegalMetaState(u64),
}

/// The mathematical image of an `ErrorCode`.
pub ghost enum ErrorCodeG {
    DatabaseAlreadyExists(Seq<char>),
    UnknownDatabase(Seq<char>),
    TableAlreadyExists(Seq<char>),
    UnknownTable(Seq<char>),
    UnknownTableId(u64),
    TableVersionMismatch(MatchSeq, u64),
    UnknownNode(u64),
    InvalidConfig(Seq<char>),
    IllegalMetaState(u64),
}

impl View for ErrorCode {
    type V = ErrorCodeG;

    open spec fn view(&self) -> ErrorCodeG {
        match self {
            ErrorCode::DatabaseAlreadyExists(s) => ErrorCodeG::DatabaseAlreadyExists(s@),
            ErrorCode::UnknownDatabase(s) => ErrorCodeG::UnknownDatabase(s@),
            ErrorCode::TableAlreadyExists(s) => ErrorCodeG::TableAlreadyExists(s@),
            ErrorCode::UnknownTable(s) => ErrorCodeG::UnknownTable(s@),
            ErrorCode::UnknownTableId(id) => ErrorCodeG::UnknownTableId(*id),
            ErrorCode::TableVersionMismatch(m, c) => ErrorCodeG::TableVersionMismatch(*m, *c),
            ErrorCode::UnknownNode(id) => ErrorCodeG::UnknownNode(*id),
            ErrorCode::InvalidConfig(s) => ErrorCodeG::InvalidConfig(s@),
            ErrorCode::IllegalMetaState(id) => ErrorCodeG::IllegalMetaState(*id),
        }
    }
}

} // verus!
