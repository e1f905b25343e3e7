//! The balance and health handlers.
//!
//! A balance lookup waits on the node once, between two decisions. The
//! caller runs it: `start_balance` says whether to query the node and for
//! which identifier, and `finish_balance` turns the node's answer into the
//! handler's result.

use vstd::prelude::*;
use crate::address::{AccountIdentifier, hex_decode, is_address_text, parse_address};
use crate::balance::{Balance, BalanceResponse, decimal_text};

verus! {

/// Why a balance request failed.
#[derive(Clone, Copy, Debug, PartialEq, Eq, Structural)]
pub enum HandlerError {
    /// The address text is not a well-formed account identifier.
    InvalidAddress,
    /// The node could not be reached or gave no usable answer.
    UpstreamUnavailable,
}

/// A failed query to the node: a network error, a malformed answer or a
/// timeout.
#[derive(Clone, Copy, Debug, PartialEq, Eq, Structural)]
pub struct ProviderError;

/// What a balance request needs next.
#[derive(Debug)]
pub enum BalanceStep {
    /// Query the node once for this identifier, then call `finish_balance`.
    Query(AccountIdentifier),
    /// The request is over, with this result; the node is not contacted.
    Done(Result<BalanceResponse, HandlerError>),
}

/// What `start_balance` returns for a raw address text.
pub open spec fn start_result(raw: Seq<char>, step: BalanceStep) -> bool {
    if is_address_text(raw) {
        step matches BalanceStep::Query(id) && id@ == hex_decode(raw.subrange(2, 42))
    } else {
        step matches BalanceStep::Done(Err(HandlerError::InvalidAddress))
    }
}

/// What `finish_balance` returns for the node's answer.
pub open spec fn finish_result(
    outcome: Result<Balance, ProviderError>,
    reply: Result<BalanceResponse, HandlerError>,
) -> bool {
    match outcome {
        Ok(b) => reply matches Ok(resp) && resp.balance@ == decimal_text(b.value()),
        Err(_) => reply matches Err(HandlerError::UpstreamUnavailable),
    }
}

/// First half of a balance request: validate the address text. A valid one
/// is to be queried; an invalid one ends the request before any query.
pub fn start_balance(raw: &str) -> (r: BalanceStep)
    ensures
        start_result(raw@, r),
        !is_address_text(raw@) ==> !(r is Query),
{
    match parse_address(raw) {
        Ok(id) => BalanceStep::Query(id),
        Err(_) => BalanceStep::Done(Err(HandlerError::InvalidAddress)),
    }
}

/// Second half of a balance request: the node's balance becomes the
/// response; a failed query becomes `UpstreamUnavailable`, with no retry.
pub fn finish_balance(outcome: Result<Balance, ProviderError>) -> (r: Result<
    BalanceResponse,
    HandlerError,
>)
    ensures
        finish_result(outcome, r),
{
    match outcome {
        Ok(b) => Ok(BalanceResponse::from_balance(&b)),
        Err(_) => Err(HandlerError::UpstreamUnavailable),
    }
}

/// When the node answers every query with the same balance `b`, a request
/// for a well-formed address queries the node and reports `b` in decimal.
pub proof fn lemma_fixed_balance_reported(
    raw: Seq<char>,
    b: Balance,
    step: BalanceStep,
    reply: Result<BalanceResponse, HandlerError>,
)
    requires
        is_address_text(raw),
        start_result(raw, step),
        finish_result(Ok(b), reply),
    ensures
        step is Query,
        reply matches Ok(resp) && resp.balance@ == decimal_text(b.value()),
{
}

/// A request for a malformed address never reaches the node: it ends at
/// once with `InvalidAddress`.
pub proof fn lemma_invalid_address_not_queried(raw: Seq<char>, step: BalanceStep)
    requires
        !is_address_text(raw),
        start_result(raw, step),
    ensures
        !(step is Query),
        step matches BalanceStep::Done(Err(HandlerError::InvalidAddress)),
{
}

/// The liveness probe's content.
pub open spec fn health_text() -> Seq<char> {
    seq!['O', 'K']
}

/// The liveness probe: always `OK`.
pub fn health_check() -> (r: String)
    ensures
        r@ == health_text(),
{
    proof {
        reveal_strlit("OK");
    }
    String::from_str("OK")
}

} // verus!
