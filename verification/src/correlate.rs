//! The correlator: joins what was fetched for the slots of one window into
//! the records to commit.

use vstd::prelude::*;
use crate::error::SyncError;
use crate::fetch::{root_or_empty, root_text_of, sidecars_of, sidecars_or_empty, Fetched};
use crate::root::{parse_root, root_value};
use crate::types::{BlobSidecarsResponse, BlobsDataToWrite, BlockRoot, SingleBlockHeaderData};

verus! {

/// The number of slots for which both a root and a sidecar list are at
/// hand.
pub open spec fn paired(roots: int, sidecars: int) -> int {
    if roots <= sidecars {
        roots
    } else {
        sidecars
    }
}

/// True where each of the first `count` fetched roots is empty or writes 32
/// bytes.
pub open spec fn roots_decode(roots: Seq<Fetched<SingleBlockHeaderData>>, count: int) -> bool {
    forall|i: int| 0 <= i < count ==> root_value(root_text_of(#[trigger] roots[i])) is Some
}

/// The place of the first of the first `count` fetched roots that does not
/// decode, where there is one.
pub open spec fn first_undecodable(roots: Seq<Fetched<SingleBlockHeaderData>>, count: int) -> int {
    choose|i: int|
        0 <= i < count && root_value(root_text_of(#[trigger] roots[i])) is None && roots_decode(
            roots,
            i,
        )
}

/// There is one first root that does not decode, and no other place has
/// what marks it.
proof fn lemma_first_undecodable(roots: Seq<Fetched<SingleBlockHeaderData>>, count: int, i: int)
    requires
        0 <= i < count,
        root_value(root_text_of(roots[i])) is None,
        roots_decode(roots, i),
    ensures
        first_undecodable(roots, count) == i,
        !roots_decode(roots, count),
{
    let j = first_undecodable(roots, count);
    assert(0 <= j < count && root_value(root_text_of(roots[j])) is None && roots_decode(roots, j));
    if j < i {
        assert(root_value(root_text_of(roots[j])) is Some);
    }
    if i < j {
        assert(root_value(root_text_of(roots[i])) is Some);
    }
}

/// True where `record` is what is committed for `slot`, given what the two
/// fetches for that slot found: the slot, the sidecars as fetched, and the
/// decoded root.
pub open spec fn record_of(
    record: BlobsDataToWrite,
    slot: int,
    root: Fetched<SingleBlockHeaderData>,
    sidecars: Fetched<BlobSidecarsResponse>,
) -> bool {
    &&& record.slot == slot
    &&& record.data@ == sidecars_of(sidecars)
    &&& Some(record.root@) == root_value(root_text_of(root))
}

/// A missing resource shows in the record and nowhere else. The record of
/// a slot whose sidecar fetch found nothing has no sidecars, and the record
/// of a slot has the empty root exactly where the root text fetched for it is
/// empty, as it is where the header fetch found nothing.
pub proof fn law_missing_resources_leave_empty_fields(
    record: BlobsDataToWrite,
    slot: int,
    root: Fetched<SingleBlockHeaderData>,
    sidecars: Fetched<BlobSidecarsResponse>,
)
    requires
        record_of(record, slot, root, sidecars),
    ensures
        sidecars is NotFound ==> record.data@.len() == 0,
        root is NotFound ==> record.root == BlockRoot::Empty,
        record.root == BlockRoot::Empty <==> root_text_of(root).len() == 0,
{
}

/// Records are in slot order. The records of the slots from `first_slot`
/// on carry those slots one after the other, so that the slots ascend
/// strictly.
pub proof fn law_records_are_in_slot_order(
    records: Seq<BlobsDataToWrite>,
    first_slot: int,
    roots: Seq<Fetched<SingleBlockHeaderData>>,
    sidecars: Seq<Fetched<BlobSidecarsResponse>>,
)
    requires
        forall|i: int|
            0 <= i < records.len() ==> record_of(
                #[trigger] records[i],
                first_slot + i,
                roots[i],
                sidecars[i],
            ),
    ensures
        forall|i: int| 0 <= i < records.len() ==> (#[trigger] records[i]).slot == first_slot + i,
        forall|i: int, j: int|
            0 <= i < j < records.len() ==> (#[trigger] records[i]).slot < (#[trigger] records[j]).slot,
{
}

/// Decodes the roots of a window, in slot order. Fails at the first that
/// does not decode, with the slot it belongs to.
fn decode_roots(first_slot: usize, roots: Vec<Fetched<SingleBlockHeaderData>>, count: usize) -> (r:
    Result<Vec<BlockRoot>, SyncError>)
    requires
        count <= roots@.len(),
        first_slot + count <= usize::MAX + 1,
    ensures
        r is Ok <==> roots_decode(roots@, count as int),
        r matches Ok(decoded) ==> {
            &&& decoded@.len() == count
            &&& forall|i: int|
                0 <= i < count ==> Some((#[trigger] decoded@[i])@) == root_value(
                    root_text_of(roots@[i]),
                )
        },
        r matches Err(e) ==> {
            let i = first_undecodable(roots@, count as int);
            &&& 0 <= i < count
            &&& e == SyncError::RootParseError((first_slot + i) as usize)
            &&& root_value(root_text_of(roots@[i])) is None
            &&& roots_decode(roots@, i)
        },
{
    let total: usize = roots.len();
    let mut decoded: Vec<BlockRoot> = Vec::new();
    let mut i: usize = 0;
    for fetched in it: roots
        invariant
            i == it.index(),
            total == roots@.len(),
            it.seq() == roots@,
            count <= roots@.len(),
            first_slot + count <= usize::MAX + 1,
            decoded@.len() == paired(i as int, count as int),
            roots_decode(roots@, paired(i as int, count as int)),
            forall|j: int|
                0 <= j < decoded@.len() ==> Some((#[trigger] decoded@[j])@) == root_value(
                    root_text_of(roots@[j]),
                ),
    {
        if i < count {
            let text = root_or_empty(fetched);
            match parse_root(text.as_str()) {
                Some(root) => {
                    decoded.push(root);
                },
                None => {
                    proof {
                        lemma_first_undecodable(roots@, count as int, i as int);
                    }
                    return Err(SyncError::RootParseError(first_slot + i));
                },
            }
        }
        i += 1;
    }
    Ok(decoded)
}

/// Joins the roots and the sidecar lists fetched for consecutive slots from
/// `first_slot` on into one record per slot, in ascending slot order. Where
/// one list is longer than the other, what has no partner is dropped.
///
/// A slot whose sidecar fetch found nothing gets a record without sidecars,
/// and one whose header fetch found nothing a record with the empty root;
/// neither is a failure. The one failure is a root that is neither empty nor
/// 32 bytes of hexadecimal text: `RootParseError` with the first such slot,
/// and no record at all.
pub fn correlate(
    first_slot: usize,
    roots: Vec<Fetched<SingleBlockHeaderData>>,
    sidecars: Vec<Fetched<BlobSidecarsResponse>>,
) -> (r: Result<Vec<BlobsDataToWrite>, SyncError>)
    requires
        first_slot + paired(roots@.len() as int, sidecars@.len() as int) <= usize::MAX + 1,
    ensures
        r is Ok <==> roots_decode(roots@, paired(roots@.len() as int, sidecars@.len() as int)),
        r matches Ok(records) ==> {
            &&& records@.len() == paired(roots@.len() as int, sidecars@.len() as int)
            &&& forall|i: int|
                0 <= i < records@.len() ==> record_of(
                    #[trigger] records@[i],
                    first_slot + i,
                    roots@[i],
                    sidecars@[i],
                )
            &&& forall|i: int|
                0 <= i < records@.len() && sidecars@[i] is NotFound ==> (#[trigger] records@[i]).data@.len()
                    == 0
            &&& forall|i: int|
                0 <= i < records@.len() && roots@[i] is NotFound ==> (#[trigger] records@[i]).root
                    == BlockRoot::Empty
        },
        r matches Err(e) ==> {
            let i = first_undecodable(
                roots@,
                paired(roots@.len() as int, sidecars@.len() as int),
            );
            &&& 0 <= i < paired(roots@.len() as int, sidecars@.len() as int)
            &&& e == SyncError::RootParseError((first_slot + i) as usize)
            &&& root_value(root_text_of(roots@[i])) is None
            &&& roots_decode(roots@, i)
        },
{
    let count: usize = if roots.len() <= sidecars.len() {
        roots.len()
    } else {
        sidecars.len()
    };
    let ghost all_roots = roots@;
    let decoded = match decode_roots(first_slot, roots, count) {
        Ok(decoded) => decoded,
        Err(e) => {
            return Err(e);
        },
    };
    let total: usize = sidecars.len();
    let mut records: Vec<BlobsDataToWrite> = Vec::new();
    let mut i: usize = 0;
    for fetched in it: sidecars
        invariant
            i == it.index(),
            total == sidecars@.len(),
            it.seq() == sidecars@,
            count <= sidecars@.len(),
            count <= all_roots.len(),
            first_slot + count <= usize::MAX + 1,
            decoded@.len() == count,
            forall|j: int|
                0 <= j < count ==> Some((#[trigger] decoded@[j])@) == root_value(
                    root_text_of(all_roots[j]),
                ),
            records@.len() == paired(i as int, count as int),
            forall|j: int|
                0 <= j < records@.len() ==> record_of(
                    #[trigger] records@[j],
                    first_slot + j,
                    all_roots[j],
                    sidecars@[j],
                ),
    {
        if i < count {
            let response = sidecars_or_empty(fetched);
            records.push(
                BlobsDataToWrite { slot: first_slot + i, data: response.data, root: decoded[i] },
            );
        }
        i += 1;
    }
    Ok(records)
}

} // verus!
