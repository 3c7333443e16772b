//! The payloads of the beacon API as they are exchanged, all fields still
//! text, and the record that is committed for one slot.

use vstd::prelude::*;

verus! {

/// A 32-byte identifier.
pub type Hash256 = [u8; 32];

/// The message of a signed block header.
#[derive(Debug, Clone, PartialEq, Eq)]
pub struct BlobSidecarsDataSignedBlockHeaderMessage {
    pub slot: String,
    pub proposer_index: String,
    pub parent_root: String,
    pub state_root: String,
    pub body_root: String,
}

/// A block header with its signature.
#[derive(Debug, Clone, PartialEq, Eq)]
pub struct BlobSidecarsDataSignedBlockHeader {
    pub message: BlobSidecarsDataSignedBlockHeaderMessage,
    pub signature: String,
}

/// One blob sidecar.
#[derive(Debug, Clone, PartialEq, Eq)]
pub struct BlobSidecarsData {
    pub index: String,
    pub blob: String,
    pub kzg_commitment: String,
    pub kzg_proof: String,
    pub signed_block_header: BlobSidecarsDataSignedBlockHeader,
    pub kzg_commitment_inclusion_proof: Vec<String>,
}

/// The sidecars of one slot.
#[derive(Debug, Clone, PartialEq, Eq)]
pub struct BlobSidecarsResponse {
    pub data: Vec<BlobSidecarsData>,
}

/// A header with the root that identifies it.
#[derive(Debug, Clone, PartialEq, Eq)]
pub struct BlockHeaderData {
    pub root: String,
    pub canonical: bool,
    pub header: BlobSidecarsDataSignedBlockHeader,
}

/// The answer to the head query: headers, the head first.
#[derive(Debug, Clone, PartialEq, Eq)]
pub struct BlockHeadersData {
    pub execution_optimistic: bool,
    pub finalized: bool,
    pub data: Vec<BlockHeaderData>,
}

/// The header of one slot.
#[derive(Debug, Clone, PartialEq, Eq)]
pub struct SingleBlockHeaderData {
    pub execution_optimistic: bool,
    pub finalized: bool,
    pub data: BlockHeaderData,
}

/// The root of a slot's canonical header, or the mark that the slot has none.
#[derive(Debug, Clone, Copy, PartialEq, Eq)]
pub enum BlockRoot {
    /// No header exists for the slot.
    Empty,
    /// The header's identifier.
    Root(Hash256),
}

/// What is committed for one slot.
#[derive(Debug, Clone, PartialEq, Eq)]
pub struct BlobsDataToWrite {
    pub slot: usize,
    pub data: Vec<BlobSidecarsData>,
    pub root: BlockRoot,
}

} // verus!
