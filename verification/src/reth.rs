//! The operations of the `reth_` namespace.
//!
//! Each operation is one call and nothing more: it names the remote method,
//! lays out the parameters, and leaves the exchange with the node to whoever
//! holds the transport. What comes back goes to the caller as it is.

use alloy_primitives::U64;
use alloy_rpc_types_eth::BlockId;
use vstd::prelude::*;

use crate::call::{RethCall, RethParam, WireCall};
use crate::method::CallKind;

verus! {

/// Asks for all ETH balance changes in a block.
///
/// The call is the request `reth_getBalanceChangesInBlock` with the block
/// identifier as its only parameter.
pub fn reth_get_balance_changes_in_block(block_id: BlockId) -> (call: RethCall)
    ensures
        call@ == (WireCall {
            kind: CallKind::Request,
            method: "reth_getBalanceChangesInBlock"@,
            params: seq![RethParam::Block(block_id)],
        }),
        call == (RethCall::GetBalanceChangesInBlock { block_id }),
{
    RethCall::GetBalanceChangesInBlock { block_id }
}

/// Asks the node to re-execute a block, or `count` consecutive blocks from
/// `block_id` on, and to return the execution outcome; the node merges the
/// outcomes of a range.
///
/// The call is the request `reth_getBlockExecutionOutcome` with two
/// positional parameters: the block identifier, then the count. A count that
/// is `None` keeps its slot and leaves it empty.
pub fn reth_get_block_execution_outcome(block_id: BlockId, count: Option<U64>) -> (call: RethCall)
    ensures
        call@ == (WireCall {
            kind: CallKind::Request,
            method: "reth_getBlockExecutionOutcome"@,
            params: seq![RethParam::Block(block_id), RethParam::Count(count)],
        }),
        call == (RethCall::GetBlockExecutionOutcome { block_id, count }),
{
    RethCall::GetBlockExecutionOutcome { block_id, count }
}

/// Opens the feed of chain notifications.
///
/// The call is the subscription `reth_subscribeChainNotifications`, without
/// parameters.
pub fn reth_subscribe_chain_notifications() -> (call: RethCall)
    ensures
        call@ == (WireCall {
            kind: CallKind::Subscription,
            method: "reth_subscribeChainNotifications"@,
            params: Seq::<RethParam>::empty(),
        }),
        call == RethCall::SubscribeChainNotifications,
{
    RethCall::SubscribeChainNotifications
}

/// Opens the feed of persisted-block notifications, which the node emits with
/// the number and hash of each block once it is on disk.
///
/// The call is the subscription `reth_subscribePersistedBlock`, without
/// parameters.
pub fn reth_subscribe_persisted_block() -> (call: RethCall)
    ensures
        call@ == (WireCall {
            kind: CallKind::Subscription,
            method: "reth_subscribePersistedBlock"@,
            params: Seq::<RethParam>::empty(),
        }),
        call == RethCall::SubscribePersistedBlock,
{
    RethCall::SubscribePersistedBlock
}

/// Ends a request with what the transport handed back.
///
/// The operations add nothing of their own to an answer: a result is the
/// caller's result and a failure is the caller's failure, whatever its cause.
/// Nothing is sent a second time.
pub fn reth_reply<T, E>(reply: Result<T, E>) -> (outcome: Result<T, E>)
    ensures
        outcome == reply,
{
    reply
}

} // verus!
