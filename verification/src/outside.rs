//! The outside types that a call carries.
//!
//! Both are declared without their contents. A call takes the values from its
//! caller and hands them to the transport; it never reads them, so nothing is
//! claimed of them here beyond that they exist.

use vstd::prelude::*;

verus! {

/// `alloy_rpc_types_eth::BlockId`: a block named by its number, by its hash or
/// by a tag such as `latest`.
#[verifier::external_type_specification]
#[verifier::external_body]
pub struct ExBlockId(alloy_rpc_types_eth::BlockId);

/// `alloy_primitives::Uint`: the fixed-width unsigned integer of which `U64`
/// is the 64-bit instance.
#[verifier::external_type_specification]
#[verifier::external_body]
pub struct ExUint<const BITS: usize, const LIMBS: usize>(alloy_primitives::Uint<BITS, LIMBS>);

} // verus!
