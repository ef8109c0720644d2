//! The chain-level types that event records and pool state carry.
//!
//! Prices and swap amounts are wider than any native integer. Nothing here
//! computes with them: they are taken from an event and stored as they come.

use alloy::eips::BlockId;
use alloy_primitives::{Signed, Uint};
use vstd::prelude::*;

verus! {

/// Fixed-width unsigned integer of `alloy_primitives`, opaque to the verifier.
#[verifier::external_type_specification]
#[verifier::external_body]
pub struct ExUint<const BITS: usize, const LIMBS: usize>(Uint<BITS, LIMBS>);

/// Fixed-width signed integer of `alloy_primitives`, opaque to the verifier.
#[verifier::external_type_specification]
#[verifier::external_body]
pub struct ExSigned<const BITS: usize, const LIMBS: usize>(Signed<BITS, LIMBS>);

/// Block identifier of `alloy`, opaque to the verifier.
#[verifier::external_type_specification]
#[verifier::external_body]
pub struct ExBlockId(BlockId);

/// The identifier that `BlockId::number` builds for block number `num`.
pub uninterp spec fn block_id_of_number(num: u64) -> BlockId;

/// `BlockId::number` is a pure constructor: it wraps the number as the
/// identifier of exactly that block, so equal numbers give equal identifiers.
pub assume_specification[ BlockId::number ](num: u64) -> (id: BlockId)
    ensures
        id == block_id_of_number(num),
;

/// The block reference recorded for an event seen at `block_number`.
pub open spec fn block_reference(block_number: Option<u64>) -> Option<BlockId> {
    match block_number {
        Some(num) => Some(block_id_of_number(num)),
        None => None,
    }
}

/// Turns an event's optional block number into a block reference.
pub fn to_block_reference(block_number: Option<u64>) -> (reference: Option<BlockId>)
    ensures
        reference == block_reference(block_number),
{
    match block_number {
        Some(num) => Some(BlockId::number(num)),
        None => None,
    }
}

} // verus!
