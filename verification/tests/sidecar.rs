use blob_sync::error::SyncError;
use blob_sync::sidecar::{
    decode_inclusion_proof, BeaconBlockHeader, BlobSidecar, SignedBeaconBlockHeader,
};
use blob_sync::types::{
    BlobSidecarsData, BlobSidecarsDataSignedBlockHeader, BlobSidecarsDataSignedBlockHeaderMessage,
    BlobsDataToWrite, BlockRoot,
};

fn hex_of(byte: &str, count: usize) -> String {
    format!("0x{}", byte.repeat(count))
}

fn message_text() -> BlobSidecarsDataSignedBlockHeaderMessage {
    BlobSidecarsDataSignedBlockHeaderMessage {
        slot: String::from("8626176"),
        proposer_index: String::from("42"),
        parent_root: hex_of("11", 32),
        state_root: hex_of("22", 32),
        body_root: hex_of("33", 32),
    }
}

fn sidecar_text() -> BlobSidecarsData {
    BlobSidecarsData {
        index: String::from("3"),
        blob: String::from("0x0102ff"),
        kzg_commitment: hex_of("aa", 48),
        kzg_proof: hex_of("bb", 48),
        signed_block_header: BlobSidecarsDataSignedBlockHeader {
            message: message_text(),
            signature: hex_of("cc", 96),
        },
        kzg_commitment_inclusion_proof: vec![hex_of("01", 32), hex_of("02", 32)],
    }
}

fn sidecar_decoded() -> BlobSidecar {
    BlobSidecar {
        index: 3,
        blob: vec![1, 2, 255],
        kzg_commitment: [0xaa; 48],
        kzg_proof: [0xbb; 48],
        signed_block_header: SignedBeaconBlockHeader {
            message: BeaconBlockHeader {
                slot: 8626176,
                proposer_index: 42,
                parent_root: [0x11; 32],
                state_root: [0x22; 32],
                body_root: [0x33; 32],
            },
            signature: [0xcc; 96],
        },
        kzg_commitment_inclusion_proof: vec![[1; 32], [2; 32]],
    }
}

#[test]
fn to_header_decodes_every_field() {
    assert_eq!(
        message_text().to_header(),
        Ok(BeaconBlockHeader {
            slot: 8626176,
            proposer_index: 42,
            parent_root: [0x11; 32],
            state_root: [0x22; 32],
            body_root: [0x33; 32],
        })
    );
}

#[test]
fn to_header_fails_on_each_field_that_does_not_decode() {
    let mut m = message_text();
    m.slot = String::from("eleven");
    assert_eq!(m.to_header(), Err(SyncError::DecodeError));
    let mut m = message_text();
    m.proposer_index = String::new();
    assert_eq!(m.to_header(), Err(SyncError::DecodeError));
    let mut m = message_text();
    m.parent_root = hex_of("11", 31);
    assert_eq!(m.to_header(), Err(SyncError::DecodeError));
    let mut m = message_text();
    m.state_root = String::from("0xzz");
    assert_eq!(m.to_header(), Err(SyncError::DecodeError));
    let mut m = message_text();
    m.body_root = String::new();
    assert_eq!(m.to_header(), Err(SyncError::DecodeError));
}

#[test]
fn to_header_takes_roots_without_prefix() {
    let mut m = message_text();
    m.parent_root = "11".repeat(32);
    assert_eq!(m.to_header().unwrap().parent_root, [0x11; 32]);
}

#[test]
fn to_signed_header_wants_a_prefixed_signature_of_96_bytes() {
    let h = sidecar_text().signed_block_header;
    assert_eq!(h.to_signed_header().unwrap().signature, [0xcc; 96]);
    let mut h = sidecar_text().signed_block_header;
    h.signature = "cc".repeat(96);
    assert_eq!(h.to_signed_header(), Err(SyncError::DecodeError));
    let mut h = sidecar_text().signed_block_header;
    h.signature = hex_of("cc", 95);
    assert_eq!(h.to_signed_header(), Err(SyncError::DecodeError));
    let mut h = sidecar_text().signed_block_header;
    h.message.slot = String::from("x");
    assert_eq!(h.to_signed_header(), Err(SyncError::DecodeError));
}

#[test]
fn to_sidecar_decodes_every_field() {
    assert_eq!(sidecar_text().to_sidecar(), Ok(sidecar_decoded()));
}

#[test]
fn to_sidecar_fails_on_each_field_that_does_not_decode() {
    let mut d = sidecar_text();
    d.index = String::from("-1");
    assert_eq!(d.to_sidecar(), Err(SyncError::DecodeError));
    let mut d = sidecar_text();
    d.blob = String::from("0x012");
    assert_eq!(d.to_sidecar(), Err(SyncError::DecodeError));
    let mut d = sidecar_text();
    d.kzg_commitment = "aa".repeat(48);
    assert_eq!(d.to_sidecar(), Err(SyncError::DecodeError));
    let mut d = sidecar_text();
    d.kzg_commitment = hex_of("aa", 47);
    assert_eq!(d.to_sidecar(), Err(SyncError::DecodeError));
    let mut d = sidecar_text();
    d.kzg_proof = hex_of("bb", 49);
    assert_eq!(d.to_sidecar(), Err(SyncError::DecodeError));
    let mut d = sidecar_text();
    d.signed_block_header.signature = String::from("0x");
    assert_eq!(d.to_sidecar(), Err(SyncError::DecodeError));
    let mut d = sidecar_text();
    d.kzg_commitment_inclusion_proof[1] = String::from("0x02");
    assert_eq!(d.to_sidecar(), Err(SyncError::DecodeError));
}

#[test]
fn to_sidecar_takes_an_empty_blob_and_an_empty_proof() {
    let mut d = sidecar_text();
    d.blob = String::new();
    d.kzg_commitment_inclusion_proof = vec![];
    let s = d.to_sidecar().unwrap();
    assert_eq!(s.blob, Vec::<u8>::new());
    assert_eq!(s.kzg_commitment_inclusion_proof, Vec::<[u8; 32]>::new());
}

#[test]
fn decode_inclusion_proof_keeps_the_order() {
    let entries = vec![hex_of("0a", 32), "0b".repeat(32), hex_of("0C", 32)];
    assert_eq!(decode_inclusion_proof(&entries), Some(vec![[10; 32], [11; 32], [12; 32]]));
    assert_eq!(decode_inclusion_proof(&vec![]), Some(vec![]));
    assert_eq!(decode_inclusion_proof(&vec![hex_of("0a", 32), String::new()]), None);
}

#[test]
fn to_sidecar_list_decodes_in_order() {
    let mut second = sidecar_text();
    second.index = String::from("4");
    let record = BlobsDataToWrite {
        slot: 8626176,
        data: vec![sidecar_text(), second],
        root: BlockRoot::Empty,
    };
    let list = record.to_sidecar_list().unwrap();
    assert_eq!(list.len(), 2);
    assert_eq!(list[0], sidecar_decoded());
    assert_eq!(list[1].index, 4);
}

#[test]
fn to_sidecar_list_fails_where_one_sidecar_does_not_decode() {
    let mut bad = sidecar_text();
    bad.kzg_proof = String::from("bogus");
    let record = BlobsDataToWrite {
        slot: 1,
        data: vec![sidecar_text(), bad],
        root: BlockRoot::Empty,
    };
    assert_eq!(record.to_sidecar_list(), Err(SyncError::DecodeError));
    let empty = BlobsDataToWrite { slot: 1, data: vec![], root: BlockRoot::Empty };
    assert_eq!(empty.to_sidecar_list(), Ok(vec![]));
}
