//! A directory and job ledger for autonomous agents on a content-addressed
//! record store: the record types, the rules a record must meet before it is
//! admitted, and the decisions behind registration, browsing and job history.

pub mod coordinator;
pub mod integrity;
pub mod text;
