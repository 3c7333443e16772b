//! What the two sinks are handed: the lines of the append-only log, and the
//! operations of one atomic batch for the keyed store.

use vstd::prelude::*;
use vstd::string::*;
use crate::error::SyncError;
use crate::root::key_bytes;
use crate::sidecar::{is_decoded_list, sidecars_decode, BlobSidecar};
use crate::types::{BlobsDataToWrite, Hash256};

verus! {

/// One operation of a batch: the sidecars of one slot, stored under the key
/// of its root.
#[derive(Debug, Clone, PartialEq, Eq)]
pub struct StoreOp {
    pub key: Hash256,
    pub sidecars: Vec<BlobSidecar>,
}

/// The text appended to the log for `lines`: each line followed by a line
/// feed.
pub open spec fn log_text(lines: Seq<String>) -> Seq<char>
    decreases lines.len(),
{
    if lines.len() == 0 {
        Seq::empty()
    } else {
        log_text(lines.drop_last()) + lines.last()@ + seq!['\n']
    }
}

/// True where every sidecar of every record decodes.
pub open spec fn records_decode(records: Seq<BlobsDataToWrite>) -> bool {
    forall|i: int| 0 <= i < records.len() ==> sidecars_decode((#[trigger] records[i]).data@)
}

/// True where `op` stores the decoded sidecars of `record` under the key of
/// its root.
pub open spec fn op_of(op: StoreOp, record: BlobsDataToWrite) -> bool {
    &&& op.key@ == key_bytes(record.root@)
    &&& is_decoded_list(op.sidecars@, record.data@)
}

/// Frames the serialised records of a window for the append-only log: one
/// line each, in order.
pub fn write_data(lines: &Vec<String>) -> (text: String)
    ensures
        text@ == log_text(lines@),
{
    let mut text = String::new();
    let mut i: usize = 0;
    while i < lines.len()
        invariant
            i <= lines@.len(),
            text@ == log_text(lines@.take(i as int)),
        decreases lines@.len() - i,
    {
        proof {
            reveal_strlit("\n");
            assert(lines@.take(i + 1).drop_last() =~= lines@.take(i as int));
            assert("\n"@ =~= seq!['\n']);
        }
        text.append(lines[i].as_str());
        text.append("\n");
        i += 1;
    }
    assert(lines@.take(i as int) =~= lines@);
    text
}

/// Turns the records of a window into the operations of one batch, one per
/// record and in order. Fails with `DecodeError` exactly where a sidecar of
/// a record does not decode, and then yields no operation at all.
pub fn write_blobs(records: &Vec<BlobsDataToWrite>) -> (r: Result<Vec<StoreOp>, SyncError>)
    ensures
        r is Ok <==> records_decode(records@),
        r matches Ok(batch) ==> {
            &&& batch@.len() == records@.len()
            &&& forall|i: int| 0 <= i < batch@.len() ==> op_of(#[trigger] batch@[i], records@[i])
        },
        r matches Err(e) ==> e == SyncError::DecodeError,
{
    let mut batch: Vec<StoreOp> = Vec::new();
    let mut i: usize = 0;
    while i < records.len()
        invariant
            i <= records@.len(),
            batch@.len() == i,
            forall|j: int| 0 <= j < i ==> sidecars_decode((#[trigger] records@[j]).data@),
            forall|j: int| 0 <= j < i ==> op_of(#[trigger] batch@[j], records@[j]),
        decreases records@.len() - i,
    {
        match records[i].to_sidecar_list() {
            Ok(sidecars) => {
                batch.push(StoreOp { key: records[i].root.key(), sidecars });
            },
            Err(e) => {
                return Err(e);
            },
        }
        i += 1;
    }
    Ok(batch)
}

} // verus!
