//! Blob sidecars with their fields decoded: numbers as integers, identifiers
//! as bytes.

use vstd::prelude::*;
use crate::error::SyncError;
use crate::hexcodec::{decode_fixed_text, decode_payload_text, fixed_text_value, payload_text_value};
use crate::text::{decimal_text_value, parse_decimal};
use crate::types::{
    BlobSidecarsData, BlobSidecarsDataSignedBlockHeader, BlobSidecarsDataSignedBlockHeaderMessage,
    BlobsDataToWrite, Hash256,
};

verus! {

/// A block header.
#[derive(Debug, Clone, PartialEq, Eq)]
pub struct BeaconBlockHeader {
    pub slot: u64,
    pub proposer_index: u64,
    pub parent_root: Hash256,
    pub state_root: Hash256,
    pub body_root: Hash256,
}

/// A block header with its 96-byte signature.
#[derive(Debug, Clone, PartialEq, Eq)]
pub struct SignedBeaconBlockHeader {
    pub message: BeaconBlockHeader,
    pub signature: [u8; 96],
}

/// A blob with its commitment, its proof and the header of its block.
#[derive(Debug, Clone, PartialEq, Eq)]
pub struct BlobSidecar {
    pub index: u64,
    pub blob: Vec<u8>,
    pub kzg_commitment: [u8; 48],
    pub kzg_proof: [u8; 48],
    pub signed_block_header: SignedBeaconBlockHeader,
    pub kzg_commitment_inclusion_proof: Vec<Hash256>,
}

/// The mathematical content of a `BeaconBlockHeader`.
pub struct BeaconBlockHeaderView {
    pub slot: u64,
    pub proposer_index: u64,
    pub parent_root: Seq<u8>,
    pub state_root: Seq<u8>,
    pub body_root: Seq<u8>,
}

/// The mathematical content of a `SignedBeaconBlockHeader`.
pub struct SignedBeaconBlockHeaderView {
    pub message: BeaconBlockHeaderView,
    pub signature: Seq<u8>,
}

/// The mathematical content of a `BlobSidecar`.
pub struct BlobSidecarView {
    pub index: u64,
    pub blob: Seq<u8>,
    pub kzg_commitment: Seq<u8>,
    pub kzg_proof: Seq<u8>,
    pub signed_block_header: SignedBeaconBlockHeaderView,
    pub kzg_commitment_inclusion_proof: Seq<Seq<u8>>,
}

impl View for BeaconBlockHeader {
    type V = BeaconBlockHeaderView;

    open spec fn view(&self) -> BeaconBlockHeaderView {
        BeaconBlockHeaderView {
            slot: self.slot,
            proposer_index: self.proposer_index,
            parent_root: self.parent_root@,
            state_root: self.state_root@,
            body_root: self.body_root@,
        }
    }
}

impl View for SignedBeaconBlockHeader {
    type V = SignedBeaconBlockHeaderView;

    open spec fn view(&self) -> SignedBeaconBlockHeaderView {
        SignedBeaconBlockHeaderView { message: self.message@, signature: self.signature@ }
    }
}

impl View for BlobSidecar {
    type V = BlobSidecarView;

    open spec fn view(&self) -> BlobSidecarView {
        BlobSidecarView {
            index: self.index,
            blob: self.blob@,
            kzg_commitment: self.kzg_commitment@,
            kzg_proof: self.kzg_proof@,
            signed_block_header: self.signed_block_header@,
            kzg_commitment_inclusion_proof: Seq::new(
                self.kzg_commitment_inclusion_proof@.len(),
                |i: int| self.kzg_commitment_inclusion_proof@[i]@,
            ),
        }
    }
}

/// The header that the text fields of `m` write, where all of them decode:
/// slot and proposer index as decimal numerals, the three roots as 32 bytes
/// of hexadecimal text whose `0x` may be left out.
pub open spec fn header_value(m: BlobSidecarsDataSignedBlockHeaderMessage) -> Option<
    BeaconBlockHeaderView,
> {
    if decimal_text_value(m.slot@) is Some && decimal_text_value(m.proposer_index@) is Some
        && fixed_text_value(m.parent_root@, 32, false) is Some && fixed_text_value(
        m.state_root@,
        32,
        false,
    ) is Some && fixed_text_value(m.body_root@, 32, false) is Some {
        Some(
            BeaconBlockHeaderView {
                slot: decimal_text_value(m.slot@).unwrap(),
                proposer_index: decimal_text_value(m.proposer_index@).unwrap(),
                parent_root: fixed_text_value(m.parent_root@, 32, false).unwrap(),
                state_root: fixed_text_value(m.state_root@, 32, false).unwrap(),
                body_root: fixed_text_value(m.body_root@, 32, false).unwrap(),
            },
        )
    } else {
        None
    }
}

/// The signed header that `h` writes: its message, and a signature of 96
/// bytes of hexadecimal text behind `0x`.
pub open spec fn signed_header_value(h: BlobSidecarsDataSignedBlockHeader) -> Option<
    SignedBeaconBlockHeaderView,
> {
    if header_value(h.message) is Some && fixed_text_value(h.signature@, 96, true) is Some {
        Some(
            SignedBeaconBlockHeaderView {
                message: header_value(h.message).unwrap(),
                signature: fixed_text_value(h.signature@, 96, true).unwrap(),
            },
        )
    } else {
        None
    }
}

/// True where every entry of an inclusion proof writes 32 bytes.
pub open spec fn proof_decodes(p: Seq<String>) -> bool {
    forall|i: int| 0 <= i < p.len() ==> fixed_text_value(#[trigger] p[i]@, 32, false) is Some
}

/// The hashes that the entries of an inclusion proof write, in order.
pub open spec fn proof_value(p: Seq<String>) -> Seq<Seq<u8>> {
    Seq::new(p.len(), |i: int| fixed_text_value(p[i]@, 32, false).unwrap())
}

/// The sidecar that the text fields of `d` write, where all of them decode:
/// the index as a decimal numeral, the blob as hexadecimal text of any
/// length, commitment and proof as 48 bytes behind `0x`, the header as
/// `signed_header_value` has it, and each hash of the inclusion proof as 32
/// bytes.
pub open spec fn sidecar_value(d: BlobSidecarsData) -> Option<BlobSidecarView> {
    if decimal_text_value(d.index@) is Some && payload_text_value(d.blob@) is Some
        && fixed_text_value(d.kzg_commitment@, 48, true) is Some && fixed_text_value(
        d.kzg_proof@,
        48,
        true,
    ) is Some && signed_header_value(d.signed_block_header) is Some && proof_decodes(
        d.kzg_commitment_inclusion_proof@,
    ) {
        Some(
            BlobSidecarView {
                index: decimal_text_value(d.index@).unwrap(),
                blob: payload_text_value(d.blob@).unwrap(),
                kzg_commitment: fixed_text_value(d.kzg_commitment@, 48, true).unwrap(),
                kzg_proof: fixed_text_value(d.kzg_proof@, 48, true).unwrap(),
                signed_block_header: signed_header_value(d.signed_block_header).unwrap(),
                kzg_commitment_inclusion_proof: proof_value(d.kzg_commitment_inclusion_proof@),
            },
        )
    } else {
        None
    }
}

impl BlobSidecarsDataSignedBlockHeaderMessage {
    /// Decodes the header. Fails with `DecodeError` exactly where a field
    /// does not decode.
    pub fn to_header(&self) -> (r: Result<BeaconBlockHeader, SyncError>)
        ensures
            r is Ok <==> header_value(*self) is Some,
            r matches Ok(h) ==> Some(h@) == header_value(*self),
            r matches Err(e) ==> e == SyncError::DecodeError,
    {
        let slot = match parse_decimal(self.slot.as_str()) {
            Some(v) => v,
            None => {
                return Err(SyncError::DecodeError);
            },
        };
        let proposer_index = match parse_decimal(self.proposer_index.as_str()) {
            Some(v) => v,
            None => {
                return Err(SyncError::DecodeError);
            },
        };
        let parent_root = match decode_fixed_text::<32>(self.parent_root.as_str(), false) {
            Some(v) => v,
            None => {
                return Err(SyncError::DecodeError);
            },
        };
        let state_root = match decode_fixed_text::<32>(self.state_root.as_str(), false) {
            Some(v) => v,
            None => {
                return Err(SyncError::DecodeError);
            },
        };
        let body_root = match decode_fixed_text::<32>(self.body_root.as_str(), false) {
            Some(v) => v,
            None => {
                return Err(SyncError::DecodeError);
            },
        };
        Ok(BeaconBlockHeader { slot, proposer_index, parent_root, state_root, body_root })
    }
}

impl BlobSidecarsDataSignedBlockHeader {
    /// Decodes the header and its signature. Fails with `DecodeError`
    /// exactly where a field does not decode.
    pub fn to_signed_header(&self) -> (r: Result<SignedBeaconBlockHeader, SyncError>)
        ensures
            r is Ok <==> signed_header_value(*self) is Some,
            r matches Ok(h) ==> Some(h@) == signed_header_value(*self),
            r matches Err(e) ==> e == SyncError::DecodeError,
    {
        let message = match self.message.to_header() {
            Ok(m) => m,
            Err(e) => {
                return Err(e);
            },
        };
        let signature = match decode_fixed_text::<96>(self.signature.as_str(), true) {
            Some(v) => v,
            None => {
                return Err(SyncError::DecodeError);
            },
        };
        Ok(SignedBeaconBlockHeader { message, signature })
    }
}

/// Decodes the hashes of an inclusion proof, `None` where one of them does
/// not decode.
pub fn decode_inclusion_proof(entries: &Vec<String>) -> (r: Option<Vec<Hash256>>)
    ensures
        r is Some <==> proof_decodes(entries@),
        r matches Some(hashes) ==> {
            &&& hashes@.len() == entries@.len()
            &&& forall|i: int|
                0 <= i < hashes@.len() ==> (#[trigger] hashes@[i])@ == proof_value(entries@)[i]
        },
{
    let mut hashes: Vec<Hash256> = Vec::new();
    let mut i: usize = 0;
    while i < entries.len()
        invariant
            i <= entries@.len(),
            hashes@.len() == i,
            forall|j: int| 0 <= j < i ==> fixed_text_value(#[trigger] entries@[j]@, 32, false) is Some,
            forall|j: int|
                0 <= j < i ==> (#[trigger] hashes@[j])@ == fixed_text_value(
                    entries@[j]@,
                    32,
                    false,
                ).unwrap(),
        decreases entries@.len() - i,
    {
        match decode_fixed_text::<32>(entries[i].as_str(), false) {
            Some(hash) => {
                hashes.push(hash);
            },
            None => {
                return None;
            },
        }
        i += 1;
    }
    Some(hashes)
}

impl BlobSidecarsData {
    /// Decodes the sidecar. Fails with `DecodeError` exactly where a field
    /// does not decode.
    pub fn to_sidecar(&self) -> (r: Result<BlobSidecar, SyncError>)
        ensures
            r is Ok <==> sidecar_value(*self) is Some,
            r matches Ok(s) ==> Some(s@) == sidecar_value(*self),
            r matches Err(e) ==> e == SyncError::DecodeError,
    {
        let index = match parse_decimal(self.index.as_str()) {
            Some(v) => v,
            None => {
                return Err(SyncError::DecodeError);
            },
        };
        let blob = match decode_payload_text(self.blob.as_str()) {
            Some(v) => v,
            None => {
                return Err(SyncError::DecodeError);
            },
        };
        let kzg_commitment = match decode_fixed_text::<48>(self.kzg_commitment.as_str(), true) {
            Some(v) => v,
            None => {
                return Err(SyncError::DecodeError);
            },
        };
        let kzg_proof = match decode_fixed_text::<48>(self.kzg_proof.as_str(), true) {
            Some(v) => v,
            None => {
                return Err(SyncError::DecodeError);
            },
        };
        let signed_block_header = match self.signed_block_header.to_signed_header() {
            Ok(h) => h,
            Err(e) => {
                return Err(e);
            },
        };
        let kzg_commitment_inclusion_proof = match decode_inclusion_proof(
            &self.kzg_commitment_inclusion_proof,
        ) {
            Some(v) => v,
            None => {
                return Err(SyncError::DecodeError);
            },
        };
        let sidecar = BlobSidecar {
            index,
            blob,
            kzg_commitment,
            kzg_proof,
            signed_block_header,
            kzg_commitment_inclusion_proof,
        };
        assert(sidecar@.kzg_commitment_inclusion_proof =~= proof_value(
            self.kzg_commitment_inclusion_proof@,
        ));
        Ok(sidecar)
    }
}

/// True where every sidecar of `data` decodes.
pub open spec fn sidecars_decode(data: Seq<BlobSidecarsData>) -> bool {
    forall|i: int| 0 <= i < data.len() ==> sidecar_value(#[trigger] data[i]) is Some
}

/// True where `list` holds the decoded sidecars of `data`, one for one and
/// in order.
pub open spec fn is_decoded_list(list: Seq<BlobSidecar>, data: Seq<BlobSidecarsData>) -> bool {
    &&& list.len() == data.len()
    &&& forall|i: int| 0 <= i < list.len() ==> Some((#[trigger] list[i])@) == sidecar_value(data[i])
}

impl BlobsDataToWrite {
    /// Decodes the sidecars of the record, in order. Fails with
    /// `DecodeError` exactly where one of them does not decode.
    pub fn to_sidecar_list(&self) -> (r: Result<Vec<BlobSidecar>, SyncError>)
        ensures
            r is Ok <==> sidecars_decode(self.data@),
            r matches Ok(list) ==> is_decoded_list(list@, self.data@),
            r matches Err(e) ==> e == SyncError::DecodeError,
    {
        let mut list: Vec<BlobSidecar> = Vec::new();
        let mut i: usize = 0;
        while i < self.data.len()
            invariant
                i <= self.data@.len(),
                list@.len() == i,
                forall|j: int| 0 <= j < i ==> sidecar_value(#[trigger] self.data@[j]) is Some,
                forall|j: int|
                    0 <= j < i ==> Some((#[trigger] list@[j])@) == sidecar_value(self.data@[j]),
            decreases self.data@.len() - i,
        {
            match self.data[i].to_sidecar() {
                Ok(sidecar) => {
                    list.push(sidecar);
                },
                Err(e) => {
                    return Err(e);
                },
            }
            i += 1;
        }
        Ok(list)
    }
}

} // verus!
