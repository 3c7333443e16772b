use blob_sync::error::SyncError;
use blob_sync::plan::{
    clamp_start, get_current_slot_number, needs_head, plan_range, resolve_end, SyncPlan,
    DANCUN_SLOT,
};
use blob_sync::types::{
    BlobSidecarsDataSignedBlockHeader, BlobSidecarsDataSignedBlockHeaderMessage, BlockHeaderData,
    BlockHeadersData,
};

fn header_at(slot: &str) -> BlockHeaderData {
    BlockHeaderData {
        root: format!("0x{}", "ab".repeat(32)),
        canonical: true,
        header: BlobSidecarsDataSignedBlockHeader {
            message: BlobSidecarsDataSignedBlockHeaderMessage {
                slot: String::from(slot),
                proposer_index: String::from("1"),
                parent_root: format!("0x{}", "01".repeat(32)),
                state_root: format!("0x{}", "02".repeat(32)),
                body_root: format!("0x{}", "03".repeat(32)),
            },
            signature: format!("0x{}", "04".repeat(96)),
        },
    }
}

fn head_answer(slots: &[&str]) -> BlockHeadersData {
    BlockHeadersData {
        execution_optimistic: false,
        finalized: false,
        data: slots.iter().map(|s| header_at(s)).collect(),
    }
}

#[test]
fn the_floor_is_the_first_slot_with_sidecars() {
    assert_eq!(DANCUN_SLOT, 8626176);
}

#[test]
fn a_start_below_the_floor_is_moved_to_the_floor() {
    assert_eq!(clamp_start(0), DANCUN_SLOT);
    assert_eq!(clamp_start(100), DANCUN_SLOT);
    assert_eq!(clamp_start(DANCUN_SLOT - 1), DANCUN_SLOT);
}

#[test]
fn a_start_at_or_above_the_floor_is_kept() {
    assert_eq!(clamp_start(DANCUN_SLOT), DANCUN_SLOT);
    assert_eq!(clamp_start(DANCUN_SLOT + 1), DANCUN_SLOT + 1);
    assert_eq!(clamp_start(usize::MAX), usize::MAX);
}

#[test]
fn the_head_is_needed_only_without_a_requested_end() {
    assert!(needs_head(None));
    assert!(!needs_head(Some(0)));
}

#[test]
fn head_slot_is_that_of_the_first_header() {
    assert_eq!(get_current_slot_number(&head_answer(&["500"])), Ok(500));
    assert_eq!(get_current_slot_number(&head_answer(&["9000000", "12", "x"])), Ok(9000000));
}

#[test]
fn no_header_is_head_not_found() {
    assert_eq!(get_current_slot_number(&head_answer(&[])), Err(SyncError::HeadNotFound));
}

#[test]
fn no_header_is_reported_in_plain_words() {
    let e = get_current_slot_number(&head_answer(&[])).unwrap_err();
    assert_eq!(e.message(), "no headers found");
}

#[test]
fn a_head_slot_that_is_no_numeral_is_a_decode_error() {
    assert_eq!(get_current_slot_number(&head_answer(&["head"])), Err(SyncError::DecodeError));
    assert_eq!(get_current_slot_number(&head_answer(&[""])), Err(SyncError::DecodeError));
    assert_eq!(get_current_slot_number(&head_answer(&["-1", "5"])), Err(SyncError::DecodeError));
    assert_eq!(
        get_current_slot_number(&head_answer(&["18446744073709551616"])),
        Err(SyncError::DecodeError)
    );
}

#[test]
fn omitted_end_resolves_to_the_head_slot() {
    let head = head_answer(&["500"]);
    assert_eq!(resolve_end(None, Some(&head)), Ok(500));
}

#[test]
fn a_requested_end_is_kept_whatever_the_head() {
    let head = head_answer(&["500"]);
    assert_eq!(resolve_end(Some(104), Some(&head)), Ok(104));
    assert_eq!(resolve_end(Some(104), None), Ok(104));
    assert_eq!(resolve_end(Some(104), Some(&head_answer(&[]))), Ok(104));
}

#[test]
fn no_end_and_no_head_is_head_not_found() {
    assert_eq!(resolve_end(None, None), Err(SyncError::HeadNotFound));
    assert_eq!(resolve_end(None, Some(&head_answer(&[]))), Err(SyncError::HeadNotFound));
}

#[test]
fn plan_range_clamps_the_start_and_resolves_the_end() {
    let head = head_answer(&["9000000"]);
    assert_eq!(
        plan_range(100, None, Some(&head), 20),
        Ok(SyncPlan { start: DANCUN_SLOT, end: 9000000, window: 20, clamped: true })
    );
    assert_eq!(
        plan_range(8700000, Some(8700100), None, 5),
        Ok(SyncPlan { start: 8700000, end: 8700100, window: 5, clamped: false })
    );
    assert_eq!(
        plan_range(DANCUN_SLOT, Some(DANCUN_SLOT), None, 1),
        Ok(SyncPlan { start: DANCUN_SLOT, end: DANCUN_SLOT, window: 1, clamped: false })
    );
}

#[test]
fn plan_range_hands_on_the_failure_of_the_head() {
    assert_eq!(plan_range(100, None, Some(&head_answer(&[])), 20), Err(SyncError::HeadNotFound));
    assert_eq!(plan_range(100, None, Some(&head_answer(&["?"])), 20), Err(SyncError::DecodeError));
    assert_eq!(plan_range(100, None, None, 20), Err(SyncError::HeadNotFound));
}
