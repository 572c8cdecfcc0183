//! Sans-I/O descriptions of the reth-specific JSON-RPC calls.
//!
//! A [`RethCall`] says what one operation puts on the wire: the method name,
//! whether it is a request or a subscription, and its positional parameters.
//! Nothing here touches a transport; a driver sends the call it is handed and
//! gives the node's answer to [`reth_reply`].

pub mod call;
pub mod method;
pub mod outside;
pub mod reth;

pub use call::{RethCall, RethParam, WireCall};
pub use method::{CallKind, RethMethod};
pub use reth::{
    reth_get_balance_changes_in_block, reth_get_block_execution_outcome, reth_reply,
    reth_subscribe_chain_notifications, reth_subscribe_persisted_block,
};
