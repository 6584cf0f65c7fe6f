//! Decisions behind finding an unused local port.
//!
//! Binding sockets is left to the caller: every machine here asks for one
//! probe or one check at a time and is told what happened, so that each
//! policy is proved for every answer the host may give.
pub mod port;
pub mod check;
pub mod assign;
pub mod hunt;
pub mod scan;
pub mod search;
