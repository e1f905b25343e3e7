//! Request handling core of a small HTTP gateway that answers liveness checks
//! and account-balance lookups against a blockchain node.
//!
//! The library holds the logic: address validation, the balance handler's
//! decisions, response shaping, status mapping and routing. Network I/O, the
//! node client and the observability sink stay with the caller, which hands
//! their outcomes back as plain values.

pub mod address;
pub mod balance;
pub mod handler;
pub mod router;

pub use address::{AccountIdentifier, ValidationError, parse_address};
pub use balance::{Balance, BalanceResponse};
pub use handler::{
    BalanceStep, HandlerError, ProviderError, finish_balance, health_check, start_balance,
};
pub use router::{
    Dispatch, HttpReply, ReplyBody, Route, Severity, balance_reply, dispatch, error_status,
    handler_reply, request_severity, route,
};
