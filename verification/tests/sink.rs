use blob_sync::error::SyncError;
use blob_sync::sink::{write_blobs, write_data, StoreOp};
use blob_sync::types::{
    BlobSidecarsData, BlobSidecarsDataSignedBlockHeader, BlobSidecarsDataSignedBlockHeaderMessage,
    BlobsDataToWrite, BlockRoot,
};

fn sidecar_text(index: &str) -> BlobSidecarsData {
    BlobSidecarsData {
        index: String::from(index),
        blob: String::from("0xdead"),
        kzg_commitment: format!("0x{}", "05".repeat(48)),
        kzg_proof: format!("0x{}", "06".repeat(48)),
        signed_block_header: BlobSidecarsDataSignedBlockHeader {
            message: BlobSidecarsDataSignedBlockHeaderMessage {
                slot: String::from("9"),
                proposer_index: String::from("7"),
                parent_root: format!("0x{}", "01".repeat(32)),
                state_root: format!("0x{}", "02".repeat(32)),
                body_root: format!("0x{}", "03".repeat(32)),
            },
            signature: format!("0x{}", "04".repeat(96)),
        },
        kzg_commitment_inclusion_proof: vec![format!("0x{}", "07".repeat(32))],
    }
}

#[test]
fn write_data_ends_every_line_with_a_line_feed() {
    let lines = vec![String::from("{\"slot\":1}"), String::from("{\"slot\":2}")];
    assert_eq!(write_data(&lines), "{\"slot\":1}\n{\"slot\":2}\n");
    assert_eq!(write_data(&vec![String::from("x")]), "x\n");
    assert_eq!(write_data(&vec![String::new()]), "\n");
}

#[test]
fn write_data_of_no_record_is_empty() {
    assert_eq!(write_data(&vec![]), "");
}

#[test]
fn appended_windows_keep_one_record_per_line() {
    let mut log = write_data(&vec![String::from("a"), String::from("b")]);
    log.push_str(&write_data(&vec![String::from("c")]));
    assert_eq!(log.lines().collect::<Vec<_>>(), vec!["a", "b", "c"]);
}

#[test]
fn write_blobs_gives_one_operation_per_record() {
    let records = vec![
        BlobsDataToWrite {
            slot: 9,
            data: vec![sidecar_text("0"), sidecar_text("1")],
            root: BlockRoot::Root([0x5a; 32]),
        },
        BlobsDataToWrite { slot: 10, data: vec![], root: BlockRoot::Empty },
    ];
    let batch = write_blobs(&records).unwrap();
    assert_eq!(batch.len(), 2);
    assert_eq!(batch[0].key, [0x5a; 32]);
    assert_eq!(batch[0].sidecars.len(), 2);
    assert_eq!(batch[0].sidecars[0].index, 0);
    assert_eq!(batch[0].sidecars[1].index, 1);
    assert_eq!(batch[0].sidecars[1].blob, vec![0xde, 0xad]);
    assert_eq!(batch[0].sidecars, records[0].to_sidecar_list().unwrap());
    assert_eq!(batch[1], StoreOp { key: [0; 32], sidecars: vec![] });
}

#[test]
fn write_blobs_of_no_record_is_an_empty_batch() {
    assert_eq!(write_blobs(&vec![]), Ok(vec![]));
}

#[test]
fn write_blobs_yields_nothing_where_a_sidecar_does_not_decode() {
    let records = vec![
        BlobsDataToWrite { slot: 9, data: vec![sidecar_text("0")], root: BlockRoot::Empty },
        BlobsDataToWrite { slot: 10, data: vec![sidecar_text("one")], root: BlockRoot::Empty },
    ];
    assert_eq!(write_blobs(&records), Err(SyncError::DecodeError));
}
