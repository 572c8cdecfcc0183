//! The four remote methods of the `reth_` namespace and their wire names.

use vstd::prelude::*;

verus! {

/// How a call reaches the node.
#[derive(Clone, Copy, Debug, PartialEq, Eq, Structural)]
pub enum CallKind {
    /// One request, answered by one response.
    Request,
    /// A subscription, answered by a stream of notifications.
    Subscription,
}

/// A remote method of the `reth_` namespace.
#[derive(Clone, Copy, Debug, PartialEq, Eq, Structural)]
pub enum RethMethod {
    /// All ETH balance changes in a block.
    GetBalanceChangesInBlock,
    /// The execution outcome of a block, or of a run of consecutive blocks.
    GetBlockExecutionOutcome,
    /// The feed of chain notifications.
    SubscribeChainNotifications,
    /// The feed of persisted-block notifications.
    SubscribePersistedBlock,
}

impl RethMethod {
    /// The method name as the node spells it.
    pub open spec fn wire_name(self) -> Seq<char> {
        match self {
            RethMethod::GetBalanceChangesInBlock => "reth_getBalanceChangesInBlock"@,
            RethMethod::GetBlockExecutionOutcome => "reth_getBlockExecutionOutcome"@,
            RethMethod::SubscribeChainNotifications => "reth_subscribeChainNotifications"@,
            RethMethod::SubscribePersistedBlock => "reth_subscribePersistedBlock"@,
        }
    }

    /// Whether the method is a request or opens a subscription.
    pub open spec fn wire_kind(self) -> CallKind {
        match self {
            RethMethod::GetBalanceChangesInBlock => CallKind::Request,
            RethMethod::GetBlockExecutionOutcome => CallKind::Request,
            RethMethod::SubscribeChainNotifications => CallKind::Subscription,
            RethMethod::SubscribePersistedBlock => CallKind::Subscription,
        }
    }

    /// Returns the method name to put in the request.
    pub fn name(self) -> (name: &'static str)
        ensures
            name@ == self.wire_name(),
    {
        match self {
            RethMethod::GetBalanceChangesInBlock => "reth_getBalanceChangesInBlock",
            RethMethod::GetBlockExecutionOutcome => "reth_getBlockExecutionOutcome",
            RethMethod::SubscribeChainNotifications => "reth_subscribeChainNotifications",
            RethMethod::SubscribePersistedBlock => "reth_subscribePersistedBlock",
        }
    }

    /// Returns how the method reaches the node.
    pub fn kind(self) -> (kind: CallKind)
        ensures
            kind == self.wire_kind(),
    {
        match self {
            RethMethod::GetBalanceChangesInBlock | RethMethod::GetBlockExecutionOutcome => {
                CallKind::Request
            },
            RethMethod::SubscribeChainNotifications | RethMethod::SubscribePersistedBlock => {
                CallKind::Subscription
            },
        }
    }
}

} // verus!
