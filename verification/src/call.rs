//! What one operation puts on the wire.

use alloy_primitives::U64;
use alloy_rpc_types_eth::BlockId;
use vstd::prelude::*;

use crate::method::{CallKind, RethMethod};

verus! {

/// One positional parameter of a call.
#[derive(Clone, Copy, Debug, PartialEq, Eq)]
pub enum RethParam {
    /// The block that the call is about.
    Block(BlockId),
    /// How many consecutive blocks to take; `None` leaves the slot empty.
    Count(Option<U64>),
}

/// A call as the node sees it.
pub ghost struct WireCall {
    /// Request or subscription.
    pub kind: CallKind,
    /// The method name.
    pub method: Seq<char>,
    /// The parameters, in their order on the wire.
    pub params: Seq<RethParam>,
}

/// One operation of the `reth_` namespace, with its arguments.
#[derive(Clone, Copy, Debug, PartialEq, Eq)]
pub enum RethCall {
    /// Asks for the balance changes in `block_id`.
    GetBalanceChangesInBlock { block_id: BlockId },
    /// Asks for the execution outcome of `block_id`, or of `count`
    /// consecutive blocks from it, merged by the node.
    GetBlockExecutionOutcome { block_id: BlockId, count: Option<U64> },
    /// Opens the feed of chain notifications.
    SubscribeChainNotifications,
    /// Opens the feed of persisted-block notifications.
    SubscribePersistedBlock,
}

impl RethCall {
    /// The remote method that the operation invokes.
    pub open spec fn wire_method(self) -> RethMethod {
        match self {
            RethCall::GetBalanceChangesInBlock { .. } => RethMethod::GetBalanceChangesInBlock,
            RethCall::GetBlockExecutionOutcome { .. } => RethMethod::GetBlockExecutionOutcome,
            RethCall::SubscribeChainNotifications => RethMethod::SubscribeChainNotifications,
            RethCall::SubscribePersistedBlock => RethMethod::SubscribePersistedBlock,
        }
    }

    /// The positional parameters that the operation sends.
    pub open spec fn wire_params(self) -> Seq<RethParam> {
        match self {
            RethCall::GetBalanceChangesInBlock { block_id } => seq![RethParam::Block(block_id)],
            RethCall::GetBlockExecutionOutcome { block_id, count } => seq![
                RethParam::Block(block_id),
                RethParam::Count(count),
            ],
            RethCall::SubscribeChainNotifications => seq![],
            RethCall::SubscribePersistedBlock => seq![],
        }
    }

    /// Returns the remote method of the call.
    pub fn method(&self) -> (method: RethMethod)
        ensures
            method == self.wire_method(),
    {
        match self {
            RethCall::GetBalanceChangesInBlock { .. } => RethMethod::GetBalanceChangesInBlock,
            RethCall::GetBlockExecutionOutcome { .. } => RethMethod::GetBlockExecutionOutcome,
            RethCall::SubscribeChainNotifications => RethMethod::SubscribeChainNotifications,
            RethCall::SubscribePersistedBlock => RethMethod::SubscribePersistedBlock,
        }
    }

    /// Returns the method name to put on the wire.
    pub fn method_name(&self) -> (name: &'static str)
        ensures
            name@ == self@.method,
    {
        self.method().name()
    }

    /// Returns whether the call is a request or opens a subscription.
    pub fn kind(&self) -> (kind: CallKind)
        ensures
            kind == self@.kind,
    {
        self.method().kind()
    }

    /// Returns the parameters of the call, in their order on the wire.
    pub fn params(&self) -> (params: Vec<RethParam>)
        ensures
            params@ == self@.params,
    {
        let mut params: Vec<RethParam> = Vec::new();
        match self {
            RethCall::GetBalanceChangesInBlock { block_id } => {
                params.push(RethParam::Block(*block_id));
            },
            RethCall::GetBlockExecutionOutcome { block_id, count } => {
                params.push(RethParam::Block(*block_id));
                params.push(RethParam::Count(*count));
            },
            RethCall::SubscribeChainNotifications => {},
            RethCall::SubscribePersistedBlock => {},
        }
        params
    }
}

impl View for RethCall {
    type V = WireCall;

    open spec fn view(&self) -> WireCall {
        WireCall {
            kind: self.wire_method().wire_kind(),
            method: self.wire_method().wire_name(),
            params: self.wire_params(),
        }
    }
}

} // verus!
