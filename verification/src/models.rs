//! Plain-value records fetched from the data store and consumed by the
//! renderer.

use vstd::prelude::*;

verus! {

/// The sort order of a dashboard view.  A closed, fixed set: the upstream
/// order as delivered (slot-descending), or the payload list re-sorted by
/// bid value.
#[derive(Debug, Clone, Copy, PartialEq, Eq, Structural)]
pub enum SortKey {
    DefaultOrder,
    ValueDescending,
    ValueAscending,
}

/// One delivered-payload record: a block-building result already finalized
/// for a slot.  Hashes, public keys and the fee recipient are held as fixed
/// byte arrays; the bid value is in wei.
#[derive(Debug, Clone, Copy, PartialEq, Eq)]
pub struct DeliveredPayload {
    pub slot: i32,
    pub epoch: i32,
    pub parent_hash: [u8; 32],
    pub block_hash: [u8; 32],
    pub builder_pubkey: [u8; 48],
    pub proposer_pubkey: [u8; 48],
    pub proposer_fee_recipient: [u8; 20],
    pub gas_limit: i32,
    pub gas_used: i32,
    pub value: u128,
    pub num_txs: i32,
    pub block: i32,
}

/// The epoch a slot belongs to: thirty-two slots per epoch.
pub fn epoch_of_slot(slot: i32) -> (epoch: i32)
    requires
        slot >= 0,
    ensures
        epoch == slot as int / 32,
{
    slot / 32
}

/// The data fetched together in one refresh cycle.  Every field must come
/// from the same cycle; the pipeline never mixes fields of two cycles.
#[derive(Debug)]
pub struct DashboardSnapshot {
    pub num_network_validators: i64,
    pub num_registered_validators: i64,
    pub num_delivered_payloads: i64,
    pub recent_payloads: Vec<DeliveredPayload>,
}

/// Which data-store query of a refresh cycle failed.  Any failure aborts
/// the cycle and leaves the cache untouched.
#[derive(Debug, Clone, Copy, PartialEq, Eq, Structural)]
pub enum FetchError {
    NetworkValidatorCount,
    RegisteredValidatorCount,
    RecentPayloads,
    PayloadCount,
}

/// A registered-validator count row.
#[derive(Debug, Clone, Copy, PartialEq, Eq, Structural)]
pub struct NumRegisteredValidators {
    pub num_validators: i64,
}

/// A delivered-payload count row.
#[derive(Debug, Clone, Copy, PartialEq, Eq, Structural)]
pub struct NumPayloads {
    pub num_payloads: i64,
}

/// A latest-slot row.
#[derive(Debug, Clone, Copy, PartialEq, Eq, Structural)]
pub struct LatestSlot {
    pub slot: i64,
}

/// A known validator: its public key bytes and its index.
#[derive(Debug, PartialEq, Eq)]
pub struct NetworkValidator {
    pub public_key: Vec<u8>,
    pub index: i64,
}

} // verus!
