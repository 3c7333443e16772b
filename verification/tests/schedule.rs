use blob_sync::error::SyncError;
use blob_sync::fetch::Fetched;
use blob_sync::schedule::{
    Progress, ScheduleAction, ScheduleEvent, SchedulePhase, Scheduler, Window,
};
use blob_sync::types::{
    BlobSidecarsData, BlobSidecarsDataSignedBlockHeader, BlobSidecarsDataSignedBlockHeaderMessage,
    BlobSidecarsResponse, BlobsDataToWrite, BlockHeaderData, BlockRoot, SingleBlockHeaderData,
};

fn header_text(slot: usize) -> BlobSidecarsDataSignedBlockHeader {
    BlobSidecarsDataSignedBlockHeader {
        message: BlobSidecarsDataSignedBlockHeaderMessage {
            slot: format!("{slot}"),
            proposer_index: String::from("7"),
            parent_root: format!("0x{}", "01".repeat(32)),
            state_root: format!("0x{}", "02".repeat(32)),
            body_root: format!("0x{}", "03".repeat(32)),
        },
        signature: format!("0x{}", "04".repeat(96)),
    }
}

fn sidecars_at(slot: usize) -> Fetched<BlobSidecarsResponse> {
    Fetched::Found(BlobSidecarsResponse {
        data: vec![BlobSidecarsData {
            index: String::from("0"),
            blob: String::from("0x00"),
            kzg_commitment: format!("0x{}", "05".repeat(48)),
            kzg_proof: format!("0x{}", "06".repeat(48)),
            signed_block_header: header_text(slot),
            kzg_commitment_inclusion_proof: vec![],
        }],
    })
}

fn root_at(slot: usize) -> Fetched<SingleBlockHeaderData> {
    Fetched::Found(SingleBlockHeaderData {
        execution_optimistic: false,
        finalized: true,
        data: BlockHeaderData {
            root: format!("0x{}", format!("{:02x}", slot % 251).repeat(32)),
            canonical: true,
            header: header_text(slot),
        },
    })
}

fn bad_root() -> Fetched<SingleBlockHeaderData> {
    Fetched::Found(SingleBlockHeaderData {
        execution_optimistic: false,
        finalized: true,
        data: BlockHeaderData { root: String::from("0x12"), canonical: true, header: header_text(0) },
    })
}

fn fetched(window: Window) -> ScheduleEvent {
    let slots = (0..window.len).map(|i| window.first + i);
    ScheduleEvent::Fetched {
        roots: slots.clone().map(root_at).collect(),
        sidecars: slots.map(sidecars_at).collect(),
    }
}

/// What a run asked of its caller.
#[derive(Debug, Default, PartialEq)]
struct Run {
    windows: Vec<Window>,
    commits: Vec<Vec<usize>>,
    reports: Vec<usize>,
    finished: bool,
}

/// Drives a scheduler to its end with fetches and commits that all succeed.
fn run_to_end(start: usize, end: usize, window: usize) -> Run {
    let mut scheduler = Scheduler::new(start, end, window);
    let mut event = ScheduleEvent::Wake;
    let mut run = Run::default();
    let mut current = None;
    loop {
        let (next, action) = scheduler.step(event);
        scheduler = next;
        event = match action {
            ScheduleAction::Fetch(w) => {
                assert_eq!(scheduler.current(), Some(w));
                run.windows.push(w);
                current = Some(w);
                fetched(w)
            }
            ScheduleAction::Commit(records) => {
                run.commits.push(records.iter().map(|r| r.slot).collect());
                ScheduleEvent::Committed
            }
            ScheduleAction::Report(progress) => {
                assert_eq!(Some(progress.window), current);
                run.reports.push(progress.percent);
                ScheduleEvent::Wake
            }
            ScheduleAction::Finish => {
                assert_eq!(scheduler.phase(), SchedulePhase::Finished);
                assert_eq!(scheduler.current(), None);
                run.finished = true;
                return run;
            }
            other => panic!("unexpected action {other:?}"),
        };
    }
}

#[test]
fn one_window_covers_a_range_of_its_size() {
    let run = run_to_end(100, 104, 5);
    assert_eq!(
        run,
        Run {
            windows: vec![Window { first: 100, len: 5 }],
            commits: vec![vec![100, 101, 102, 103, 104]],
            reports: vec![0],
            finished: true,
        }
    );
}

#[test]
fn the_records_of_one_window_carry_what_was_fetched() {
    let scheduler = Scheduler::new(100, 104, 5);
    let (scheduler, action) = scheduler.step(ScheduleEvent::Wake);
    assert_eq!(action, ScheduleAction::Fetch(Window { first: 100, len: 5 }));
    assert_eq!(scheduler.phase(), SchedulePhase::Fetching);
    let (scheduler, action) = scheduler.step(fetched(Window { first: 100, len: 5 }));
    assert_eq!(scheduler.phase(), SchedulePhase::Committing);
    let records = match action {
        ScheduleAction::Commit(records) => records,
        other => panic!("unexpected action {other:?}"),
    };
    assert_eq!(records.len(), 5);
    for (i, record) in records.iter().enumerate() {
        assert_eq!(record.slot, 100 + i);
        assert_eq!(record.data.len(), 1);
        assert_eq!(record.root, BlockRoot::Root([(100 + i) as u8; 32]));
    }
    let (scheduler, action) = scheduler.step(ScheduleEvent::Committed);
    assert_eq!(
        action,
        ScheduleAction::Report(Progress { window: Window { first: 100, len: 5 }, percent: 0 })
    );
    assert_eq!(scheduler.phase(), SchedulePhase::Drained);
    let (scheduler, action) = scheduler.step(ScheduleEvent::Wake);
    assert_eq!(action, ScheduleAction::Finish);
    assert_eq!(scheduler.phase(), SchedulePhase::Finished);
}

#[test]
fn a_slot_without_sidecars_is_committed_with_its_root() {
    let scheduler = Scheduler::new(100, 104, 5);
    let (scheduler, _) = scheduler.step(ScheduleEvent::Wake);
    let mut sidecars: Vec<_> = (100..105).map(sidecars_at).collect();
    sidecars[1] = Fetched::NotFound;
    let roots = (100..105).map(root_at).collect();
    let (_, action) = scheduler.step(ScheduleEvent::Fetched { roots, sidecars });
    let records = match action {
        ScheduleAction::Commit(records) => records,
        other => panic!("unexpected action {other:?}"),
    };
    assert_eq!(
        records[1],
        BlobsDataToWrite { slot: 101, data: vec![], root: BlockRoot::Root([101; 32]) }
    );
    assert_eq!(records[0].data.len(), 1);
}

#[test]
fn windows_follow_each_other_and_the_last_is_cut_off() {
    let run = run_to_end(10, 21, 5);
    assert_eq!(
        run.windows,
        vec![
            Window { first: 10, len: 5 },
            Window { first: 15, len: 5 },
            Window { first: 20, len: 2 },
        ]
    );
    assert_eq!(
        run.commits,
        vec![vec![10, 11, 12, 13, 14], vec![15, 16, 17, 18, 19], vec![20, 21]]
    );
    assert_eq!(run.reports, vec![0, 45, 90]);
    assert!(run.finished);
}

#[test]
fn every_slot_is_committed_exactly_once() {
    for (start, end, window) in [(0, 0, 1), (0, 9, 3), (5, 24, 20), (7, 7, 50), (1, 100, 7), (3, 12, 10)] {
        let run = run_to_end(start, end, window);
        let committed: Vec<usize> = run.commits.concat();
        assert_eq!(committed, (start..=end).collect::<Vec<_>>());
        assert_eq!(run.commits.len(), run.windows.len());
        assert_eq!(run.reports.len(), run.windows.len());
        assert!(run.windows.iter().all(|w| 1 <= w.len && w.len <= window));
    }
}

#[test]
fn progress_is_the_part_of_the_run_before_the_window() {
    assert_eq!(run_to_end(0, 100, 25).reports, vec![0, 25, 50, 75, 100]);
    assert_eq!(run_to_end(0, 2, 1).reports, vec![0, 50, 100]);
    assert_eq!(run_to_end(0, 3, 1).reports, vec![0, 33, 66, 100]);
    assert_eq!(run_to_end(9, 9, 4).reports, vec![0]);
}

#[test]
fn a_run_that_ends_before_it_starts_has_no_window() {
    let run = run_to_end(105, 104, 5);
    assert_eq!(run, Run { windows: vec![], commits: vec![], reports: vec![], finished: true });
    let scheduler = Scheduler::new(1, 0, 1);
    assert_eq!(scheduler.phase(), SchedulePhase::Drained);
    assert_eq!(scheduler.current(), None);
}

#[test]
fn the_last_slot_of_all_ends_a_run() {
    let run = run_to_end(usize::MAX - 2, usize::MAX, 2);
    assert_eq!(
        run.windows,
        vec![Window { first: usize::MAX - 2, len: 2 }, Window { first: usize::MAX, len: 1 }]
    );
    assert!(run.finished);
}

#[test]
fn a_failed_fetch_aborts_without_a_commit() {
    let scheduler = Scheduler::new(100, 109, 5);
    let (scheduler, _) = scheduler.step(ScheduleEvent::Wake);
    let (scheduler, action) =
        scheduler.step(ScheduleEvent::FetchFailed(SyncError::RetryExhausted { slot: 102, attempts: 10 }));
    assert_eq!(
        action,
        ScheduleAction::Abort(SyncError::RetryExhausted { slot: 102, attempts: 10 })
    );
    assert_eq!(scheduler.phase(), SchedulePhase::Aborted);
    let (scheduler, action) = scheduler.step(ScheduleEvent::Wake);
    assert_eq!(action, ScheduleAction::Ignore);
    let (scheduler, action) = scheduler.step(fetched(Window { first: 100, len: 5 }));
    assert_eq!(action, ScheduleAction::Ignore);
    assert_eq!(scheduler.phase(), SchedulePhase::Aborted);
}

#[test]
fn a_failure_in_a_later_window_leaves_earlier_commits_alone() {
    let scheduler = Scheduler::new(100, 109, 5);
    let (scheduler, _) = scheduler.step(ScheduleEvent::Wake);
    let (scheduler, action) = scheduler.step(fetched(Window { first: 100, len: 5 }));
    assert!(matches!(action, ScheduleAction::Commit(_)));
    let (scheduler, _) = scheduler.step(ScheduleEvent::Committed);
    let (scheduler, action) = scheduler.step(ScheduleEvent::Wake);
    assert_eq!(action, ScheduleAction::Fetch(Window { first: 105, len: 5 }));
    let (scheduler, action) = scheduler.step(ScheduleEvent::FetchFailed(SyncError::DecodeError));
    assert_eq!(action, ScheduleAction::Abort(SyncError::DecodeError));
    assert_eq!(scheduler.phase(), SchedulePhase::Aborted);
}

#[test]
fn a_root_that_does_not_parse_aborts_with_its_slot() {
    let scheduler = Scheduler::new(100, 104, 5);
    let (scheduler, _) = scheduler.step(ScheduleEvent::Wake);
    let mut roots: Vec<_> = (100..105).map(root_at).collect();
    roots[3] = bad_root();
    roots[4] = bad_root();
    let sidecars = (100..105).map(sidecars_at).collect();
    let (scheduler, action) = scheduler.step(ScheduleEvent::Fetched { roots, sidecars });
    assert_eq!(action, ScheduleAction::Abort(SyncError::RootParseError(103)));
    assert_eq!(scheduler.phase(), SchedulePhase::Aborted);
}

#[test]
fn a_failed_commit_aborts_with_a_sink_error() {
    let scheduler = Scheduler::new(100, 109, 5);
    let (scheduler, _) = scheduler.step(ScheduleEvent::Wake);
    let (scheduler, _) = scheduler.step(fetched(Window { first: 100, len: 5 }));
    let (scheduler, action) = scheduler.step(ScheduleEvent::CommitFailed);
    assert_eq!(action, ScheduleAction::Abort(SyncError::SinkCommitError));
    assert_eq!(scheduler.phase(), SchedulePhase::Aborted);
}

#[test]
fn results_for_another_number_of_slots_are_not_taken() {
    let scheduler = Scheduler::new(100, 104, 5);
    let (scheduler, _) = scheduler.step(ScheduleEvent::Wake);
    let (scheduler, action) = scheduler.step(fetched(Window { first: 100, len: 4 }));
    assert_eq!(action, ScheduleAction::Ignore);
    assert_eq!(scheduler.phase(), SchedulePhase::Fetching);
    let (scheduler, action) = scheduler.step(ScheduleEvent::Fetched {
        roots: (100..105).map(root_at).collect(),
        sidecars: (100..106).map(sidecars_at).collect(),
    });
    assert_eq!(action, ScheduleAction::Ignore);
    let (_, action) = scheduler.step(fetched(Window { first: 100, len: 5 }));
    assert!(matches!(action, ScheduleAction::Commit(_)));
}

#[test]
fn schedule_events_out_of_turn_change_nothing() {
    let scheduler = Scheduler::new(100, 104, 5);
    let (scheduler, action) = scheduler.step(ScheduleEvent::Committed);
    assert_eq!(action, ScheduleAction::Ignore);
    assert_eq!(scheduler.phase(), SchedulePhase::Ready);
    let (scheduler, _) = scheduler.step(ScheduleEvent::Wake);
    let (scheduler, action) = scheduler.step(ScheduleEvent::Wake);
    assert_eq!(action, ScheduleAction::Ignore);
    let (scheduler, action) = scheduler.step(ScheduleEvent::CommitFailed);
    assert_eq!(action, ScheduleAction::Ignore);
    assert_eq!(scheduler.phase(), SchedulePhase::Fetching);
    assert_eq!(scheduler.current(), Some(Window { first: 100, len: 5 }));
}
