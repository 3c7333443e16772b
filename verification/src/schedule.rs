//! The batch scheduler: the slots of a run cut into windows, each fetched,
//! correlated, committed and reported before the next begins. The scheduler
//! decides; the caller fetches, commits and reports as it is asked to and
//! tells the scheduler how that went.

use vstd::prelude::*;
use crate::correlate::{correlate, first_undecodable, record_of, roots_decode};
use crate::error::SyncError;
use crate::fetch::Fetched;
use crate::types::{BlobSidecarsResponse, BlobsDataToWrite, SingleBlockHeaderData};

verus! {

/// Consecutive slots that are fetched together.
#[derive(Debug, Clone, Copy, PartialEq, Eq, Structural)]
pub struct Window {
    /// The first slot of the window.
    pub first: usize,
    /// The number of its slots.
    pub len: usize,
}

/// What is reported once a window is committed.
#[derive(Debug, Clone, Copy, PartialEq, Eq, Structural)]
pub struct Progress {
    /// The window that was committed.
    pub window: Window,
    /// How far into the run that window begins, in percent.
    pub percent: usize,
}

/// What the scheduler is waiting for.
#[derive(Debug, Clone, Copy, PartialEq, Eq, Structural)]
pub enum SchedulePhase {
    /// To be woken, with a window left to fetch.
    Ready,
    /// The results of the fetches of the current window.
    Fetching,
    /// The outcome of the commit of the current window.
    Committing,
    /// To be woken, with no window left.
    Drained,
    /// Nothing: every window is committed.
    Finished,
    /// Nothing: the run was given up.
    Aborted,
}

/// What happened since the scheduler last spoke.
#[derive(Debug, Clone, PartialEq, Eq)]
pub enum ScheduleEvent {
    /// The run starts, or a report was made.
    Wake,
    /// Every fetch of the window has finished: what was found for each
    /// slot, in slot order.
    Fetched { roots: Vec<Fetched<SingleBlockHeaderData>>, sidecars: Vec<Fetched<BlobSidecarsResponse>> },
    /// A fetch of the window has failed for good.
    FetchFailed(SyncError),
    /// The sink has committed the records.
    Committed,
    /// The sink could not commit the records.
    CommitFailed,
}

/// What the caller is to do next.
#[derive(Debug, Clone, PartialEq, Eq)]
pub enum ScheduleAction {
    /// Fetch sidecars and root of every slot of this window, all at once,
    /// and wait for all of them; report `Fetched` or `FetchFailed`.
    Fetch(Window),
    /// Commit these records as one batch; report `Committed` or
    /// `CommitFailed`.
    Commit(Vec<BlobsDataToWrite>),
    /// Report this progress; then report `Wake`.
    Report(Progress),
    /// The run is over: every slot is committed.
    Finish,
    /// The run is over, with this failure; the window in flight is not
    /// committed.
    Abort(SyncError),
    /// The event is not one the scheduler was waiting for; nothing changed.
    Ignore,
}

/// A `ScheduleEvent` with sequences for its vectors.
pub enum ScheduleEventView {
    Wake,
    Fetched { roots: Seq<Fetched<SingleBlockHeaderData>>, sidecars: Seq<Fetched<BlobSidecarsResponse>> },
    FetchFailed(SyncError),
    Committed,
    CommitFailed,
}

/// A `ScheduleAction` without the records of a commit.
pub enum ActionKind {
    Fetch(Window),
    Commit,
    Report(Progress),
    Finish,
    Abort(SyncError),
    Ignore,
}

impl View for ScheduleEvent {
    type V = ScheduleEventView;

    open spec fn view(&self) -> ScheduleEventView {
        match *self {
            ScheduleEvent::Wake => ScheduleEventView::Wake,
            ScheduleEvent::Fetched { roots, sidecars } => ScheduleEventView::Fetched {
                roots: roots@,
                sidecars: sidecars@,
            },
            ScheduleEvent::FetchFailed(e) => ScheduleEventView::FetchFailed(e),
            ScheduleEvent::Committed => ScheduleEventView::Committed,
            ScheduleEvent::CommitFailed => ScheduleEventView::CommitFailed,
        }
    }
}

impl ScheduleAction {
    /// The action without the records of a commit.
    pub open spec fn kind(self) -> ActionKind {
        match self {
            ScheduleAction::Fetch(window) => ActionKind::Fetch(window),
            ScheduleAction::Commit(_) => ActionKind::Commit,
            ScheduleAction::Report(progress) => ActionKind::Report(progress),
            ScheduleAction::Finish => ActionKind::Finish,
            ScheduleAction::Abort(e) => ActionKind::Abort(e),
            ScheduleAction::Ignore => ActionKind::Ignore,
        }
    }
}

/// The length of the window that begins at `first`: `window` slots, or as
/// many as are left up to `end`.
pub open spec fn window_len(end: usize, window: usize, first: usize) -> usize {
    if end - first >= window {
        window
    } else {
        (end - first + 1) as usize
    }
}

/// The window with index `i` of a run: windows of `window` slots follow
/// each other from `start`, the last one cut off behind `end`.
pub open spec fn nth_window(start: usize, end: usize, window: usize, i: int) -> Window {
    let first = (start + i * window) as usize;
    Window { first, len: window_len(end, window, first) }
}

/// How far into the run the slot `first` lies, in percent, rounded down;
/// zero for a run of a single slot.
pub open spec fn percent_done(start: usize, end: usize, first: usize) -> usize {
    if end > start {
        ((first - start) * 100 / (end - start)) as usize
    } else {
        0
    }
}

/// The mathematical content of a `Scheduler`.
pub struct ScheduleModel {
    /// The first slot of the run.
    pub start: usize,
    /// The last slot of the run.
    pub end: usize,
    /// Slots per window.
    pub window: usize,
    /// The first slot of the current window, while there is one.
    pub next: usize,
    /// What the scheduler is waiting for.
    pub phase: SchedulePhase,
}

impl ScheduleModel {
    /// A scheduler that has done nothing yet. A run whose start lies behind
    /// its end has no window.
    pub open spec fn initial(start: usize, end: usize, window: usize) -> ScheduleModel {
        ScheduleModel {
            start,
            end,
            window,
            next: start,
            phase: if start <= end {
                SchedulePhase::Ready
            } else {
                SchedulePhase::Drained
            },
        }
    }

    /// True while the scheduler has a current window.
    pub open spec fn in_window(self) -> bool {
        self.phase == SchedulePhase::Ready || self.phase == SchedulePhase::Fetching || self.phase
            == SchedulePhase::Committing
    }

    /// A window holds at least one slot, and the current window begins
    /// within the run, a whole number of windows behind the start.
    pub open spec fn wf(self) -> bool {
        &&& self.window >= 1
        &&& self.in_window() ==> self.start <= self.next <= self.end && (self.next - self.start)
            % (self.window as int) == 0
    }

    /// The current window.
    pub open spec fn current(self) -> Window {
        Window { first: self.next, len: window_len(self.end, self.window, self.next) }
    }

    /// True where the current window is the last of the run.
    pub open spec fn at_last_window(self) -> bool {
        self.end - self.next < self.window
    }

    /// The decision table of the scheduler.
    ///
    /// Woken with a window left, it asks for that window to be fetched;
    /// woken with none left, it finishes. Results for every slot of the
    /// window are correlated: where all roots decode the records are to be
    /// committed, else the run is given up with `RootParseError` for the
    /// first slot whose root does not decode. Results for another number of
    /// slots than the window has are not taken. A failed fetch gives the
    /// run up with its failure, a failed commit with `SinkCommitError`. A
    /// commit is answered by the progress report, and the window behind it
    /// becomes the current one. Any other pair of phase and event changes
    /// nothing.
    pub open spec fn step(self, event: ScheduleEventView) -> (ScheduleModel, ActionKind) {
        match (self.phase, event) {
            (SchedulePhase::Ready, ScheduleEventView::Wake) => (
                ScheduleModel { phase: SchedulePhase::Fetching, ..self },
                ActionKind::Fetch(self.current()),
            ),
            (SchedulePhase::Drained, ScheduleEventView::Wake) => (
                ScheduleModel { phase: SchedulePhase::Finished, ..self },
                ActionKind::Finish,
            ),
            (SchedulePhase::Fetching, ScheduleEventView::Fetched { roots, sidecars }) => {
                let window = self.current();
                if roots.len() != window.len || sidecars.len() != window.len {
                    (self, ActionKind::Ignore)
                } else if roots_decode(roots, window.len as int) {
                    (ScheduleModel { phase: SchedulePhase::Committing, ..self }, ActionKind::Commit)
                } else {
                    (
                        ScheduleModel { phase: SchedulePhase::Aborted, ..self },
                        ActionKind::Abort(
                            SyncError::RootParseError(
                                (window.first + first_undecodable(roots, window.len as int)) as usize,
                            ),
                        ),
                    )
                }
            },
            (SchedulePhase::Fetching, ScheduleEventView::FetchFailed(e)) => (
                ScheduleModel { phase: SchedulePhase::Aborted, ..self },
                ActionKind::Abort(e),
            ),
            (SchedulePhase::Committing, ScheduleEventView::Committed) => {
                let progress = Progress {
                    window: self.current(),
                    percent: percent_done(self.start, self.end, self.next),
                };
                if self.at_last_window() {
                    (
                        ScheduleModel { phase: SchedulePhase::Drained, ..self },
                        ActionKind::Report(progress),
                    )
                } else {
                    (
                        ScheduleModel {
                            next: (self.next + self.window) as usize,
                            phase: SchedulePhase::Ready,
                            ..self
                        },
                        ActionKind::Report(progress),
                    )
                }
            },
            (SchedulePhase::Committing, ScheduleEventView::CommitFailed) => (
                ScheduleModel { phase: SchedulePhase::Aborted, ..self },
                ActionKind::Abort(SyncError::SinkCommitError),
            ),
            _ => (self, ActionKind::Ignore),
        }
    }
}

/// True where `records` are what is committed for the current window of
/// `m`, given the results in `event`: one record per slot of the window, in
/// ascending slot order, each with the sidecars and the root fetched for its
/// slot.
pub open spec fn records_of_window(
    m: ScheduleModel,
    event: ScheduleEventView,
    records: Seq<BlobsDataToWrite>,
) -> bool {
    &&& event is Fetched
    &&& records.len() == m.current().len
    &&& forall|i: int|
        0 <= i < records.len() ==> record_of(
            #[trigger] records[i],
            m.next + i,
            event->roots[i],
            event->sidecars[i],
        )
}

/// The scheduler of one run.
pub struct Scheduler {
    start: usize,
    end: usize,
    window: usize,
    next: usize,
    phase: SchedulePhase,
}

impl View for Scheduler {
    type V = ScheduleModel;

    closed spec fn view(&self) -> ScheduleModel {
        ScheduleModel {
            start: self.start,
            end: self.end,
            window: self.window,
            next: self.next,
            phase: self.phase,
        }
    }
}

/// The window that begins one window behind a slot of the run still begins
/// a whole number of windows behind the start.
proof fn lemma_next_window_aligned(offset: int, window: int)
    requires
        offset >= 0,
        window >= 1,
        offset % window == 0,
    ensures
        (offset + window) % window == 0,
{
    assert((offset + window) % window == 0) by (nonlinear_arith)
        requires
            offset >= 0,
            window >= 1,
            offset % window == 0,
    ;
}

/// A part of the whole is at most a hundred percent of it.
proof fn lemma_percent_bound(done: int, total: int)
    requires
        0 <= done <= total,
        total >= 1,
    ensures
        0 <= done * 100 / total <= 100,
{
    assert(0 <= done * 100 / total <= 100) by (nonlinear_arith)
        requires
            0 <= done <= total,
            total >= 1,
    ;
}

/// Division with remainder: the quotient is the one whole number of
/// windows that lies at or below an offset and less than a window below it.
proof fn lemma_quotient(offset: int, window: int, j: int)
    requires
        offset >= 0,
        window >= 1,
    ensures
        0 <= (offset / window) * window <= offset < (offset / window) * window + window,
        j * window <= offset < j * window + window ==> j == offset / window,
        offset % window == 0 ==> (offset / window) * window == offset,
        offset % window == 0 ==> (offset + window) / window == offset / window + 1,
{
    assert(0 <= (offset / window) * window <= offset < (offset / window) * window + window) by (nonlinear_arith)
        requires
            offset >= 0,
            window >= 1,
    ;
    if j * window <= offset < j * window + window {
        assert(j == offset / window) by (nonlinear_arith)
            requires
                window >= 1,
                j * window <= offset < j * window + window,
                (offset / window) * window <= offset < (offset / window) * window + window,
        ;
    }
    if offset % window == 0 {
        assert((offset / window) * window == offset) by (nonlinear_arith)
            requires
                window >= 1,
                offset % window == 0,
        ;
        assert((offset + window) / window == offset / window + 1) by (nonlinear_arith)
            requires
                offset >= 0,
                window >= 1,
                (offset / window) * window == offset,
        ;
    }
}

/// The windows tile the run. Every slot of the run lies in the window whose
/// index is the slot's distance from the start divided by the window size,
/// that window lies within the run and holds between one slot and a full
/// window of them, and no window of another index holds the slot.
pub proof fn law_windows_tile(start: usize, end: usize, window: usize, slot: usize)
    requires
        window >= 1,
        start <= slot <= end,
    ensures
        ({
            let i = (slot - start) / (window as int);
            let w = nth_window(start, end, window, i);
            &&& w.first == start + i * window
            &&& w.first <= slot < w.first + w.len
            &&& w.first + w.len - 1 <= end
            &&& 1 <= w.len <= window
            &&& forall|j: int|
                0 <= j && start + j * window <= end && (#[trigger] nth_window(
                    start,
                    end,
                    window,
                    j,
                )).first <= slot < nth_window(start, end, window, j).first + nth_window(
                    start,
                    end,
                    window,
                    j,
                ).len ==> j == i
        }),
{
    let offset = slot - start;
    let i = offset / (window as int);
    lemma_quotient(offset, window as int, 0);
    assert forall|j: int|
        0 <= j && start + j * window <= end && (#[trigger] nth_window(
            start,
            end,
            window,
            j,
        )).first <= slot < nth_window(start, end, window, j).first + nth_window(
            start,
            end,
            window,
            j,
        ).len implies j == i by {
        lemma_quotient(offset, window as int, j);
        assert(j * window >= 0) by (nonlinear_arith)
            requires
                j >= 0,
                window >= 1,
        ;
    }
}

/// The scheduler walks the windows in order. Its current window is the one
/// whose index is the distance of its first slot from the start divided by
/// the window size; a commit of the last window leaves none, and a commit of
/// any other makes the window of the next index the current one.
pub proof fn law_scheduler_walks_windows(m: ScheduleModel)
    requires
        m.wf(),
        m.in_window(),
    ensures
        ({
            let i = (m.next - m.start) / (m.window as int);
            let after = m.step(ScheduleEventView::Committed).0;
            &&& m.current() == nth_window(m.start, m.end, m.window, i)
            &&& m.at_last_window() <==> m.current().first + m.current().len - 1 == m.end
            &&& m.phase == SchedulePhase::Committing && m.at_last_window() ==> after.phase
                == SchedulePhase::Drained
            &&& m.phase == SchedulePhase::Committing && !m.at_last_window() ==> {
                &&& after.phase == SchedulePhase::Ready
                &&& after.wf()
                &&& after.next == m.current().first + m.current().len
                &&& after.current() == nth_window(m.start, m.end, m.window, i + 1)
            }
        }),
{
    let offset = m.next - m.start;
    let window = m.window as int;
    lemma_quotient(offset, window, 0);
    if m.phase == SchedulePhase::Committing && !m.at_last_window() {
        lemma_next_window_aligned(offset, window);
        lemma_quotient(offset + window, window, 0);
        assert((offset / window + 1) * window == offset + window) by (nonlinear_arith)
            requires
                (offset / window) * window == offset,
        ;
    }
}

/// Windows run strictly one after the other. A fetch is asked for only of
/// a scheduler that is ready and woken, a commit only in answer to the
/// results of the fetch, and a scheduler becomes ready for its next window
/// only by the commit of the one before.
pub proof fn law_windows_run_in_sequence(m: ScheduleModel, event: ScheduleEventView)
    ensures
        m.step(event).1 is Fetch ==> m.phase == SchedulePhase::Ready && event is Wake,
        m.step(event).1 is Commit ==> m.phase == SchedulePhase::Fetching && event is Fetched,
        m.step(event).1 is Report ==> m.phase == SchedulePhase::Committing && event is Committed,
        m.step(event).0.phase == SchedulePhase::Ready && m.phase != SchedulePhase::Ready ==> m.phase
            == SchedulePhase::Committing && event is Committed,
        m.step(event).0.phase == SchedulePhase::Committing && m.phase != SchedulePhase::Committing
            ==> m.step(event).1 is Commit,
{
}

/// A run that is over stays over. Once finished or given up, the scheduler
/// changes nothing and asks for nothing, so that a window in flight when the
/// run was given up is never committed.
pub proof fn law_end_is_final(m: ScheduleModel, event: ScheduleEventView)
    requires
        m.phase == SchedulePhase::Finished || m.phase == SchedulePhase::Aborted,
    ensures
        m.step(event) == (m, ActionKind::Ignore),
{
}

/// Any failure gives the run up at once: a failed fetch, a root that does
/// not decode and a failed commit each end in `Aborted`, with no commit
/// asked for.
pub proof fn law_failures_abort(m: ScheduleModel, event: ScheduleEventView)
    requires
        (m.phase == SchedulePhase::Fetching && event is FetchFailed) || (m.phase
            == SchedulePhase::Committing && event is CommitFailed) || (m.phase
            == SchedulePhase::Fetching && event is Fetched && event->roots.len()
            == m.current().len && event->sidecars.len() == m.current().len && !roots_decode(
            event->roots,
            m.current().len as int,
        )),
    ensures
        m.step(event).0.phase == SchedulePhase::Aborted,
        m.step(event).1 is Abort,
        event matches ScheduleEventView::FetchFailed(e) ==> m.step(event).1 == ActionKind::Abort(e),
        event is CommitFailed ==> m.step(event).1 == ActionKind::Abort(SyncError::SinkCommitError),
{
}

impl Scheduler {
    #[verifier::type_invariant]
    spec fn inv(self) -> bool {
        &&& self.window >= 1
        &&& (self.phase == SchedulePhase::Ready || self.phase == SchedulePhase::Fetching
            || self.phase == SchedulePhase::Committing) ==> self.start <= self.next <= self.end && (
        self.next - self.start) % (self.window as int) == 0
    }

    /// A scheduler for the slots from `start` to `end`, both included, in
    /// windows of `window` slots.
    pub fn new(start: usize, end: usize, window: usize) -> (scheduler: Scheduler)
        requires
            window >= 1,
        ensures
            scheduler@ == ScheduleModel::initial(start, end, window),
            scheduler@.wf(),
    {
        assert(0int % (window as int) == 0) by (nonlinear_arith)
            requires
                window >= 1,
        ;
        Scheduler {
            start,
            end,
            window,
            next: start,
            phase: if start <= end {
                SchedulePhase::Ready
            } else {
                SchedulePhase::Drained
            },
        }
    }

    /// What the scheduler is waiting for.
    pub fn phase(&self) -> (r: SchedulePhase)
        ensures
            r == self@.phase,
    {
        self.phase
    }

    /// The current window, while there is one.
    pub fn current(&self) -> (r: Option<Window>)
        ensures
            self@.wf(),
            r == if self@.in_window() {
                Some(self@.current())
            } else {
                None
            },
    {
        proof {
            use_type_invariant(self);
        }
        match self.phase {
            SchedulePhase::Ready | SchedulePhase::Fetching | SchedulePhase::Committing => Some(
                self.window_here(),
            ),
            _ => None,
        }
    }

    /// The current window, computed without overflow.
    fn window_here(&self) -> (r: Window)
        requires
            self@.in_window(),
        ensures
            self@.wf(),
            r == self@.current(),
    {
        proof {
            use_type_invariant(self);
        }
        let len: usize = if self.end - self.next >= self.window {
            self.window
        } else {
            self.end - self.next + 1
        };
        Window { first: self.next, len }
    }

    /// The progress at the first slot of the current window.
    fn percent_here(&self) -> (r: usize)
        requires
            self@.in_window(),
        ensures
            r == percent_done(self@.start, self@.end, self@.next),
            r <= 100,
    {
        proof {
            use_type_invariant(self);
        }
        if self.end > self.start {
            let done: u128 = (self.next - self.start) as u128;
            let total: u128 = (self.end - self.start) as u128;
            proof {
                lemma_percent_bound(done as int, total as int);
            }
            (done * 100 / total) as usize
        } else {
            0
        }
    }

    /// Takes one event and says what to do next, as `ScheduleModel::step`
    /// has it; the records of a commit are those of the current window.
    pub fn step(self, event: ScheduleEvent) -> (r: (Scheduler, ScheduleAction))
        ensures
            self@.wf(),
            r.0@.wf(),
            (r.0@, r.1.kind()) == self@.step(event@),
            r.1 matches ScheduleAction::Commit(records) ==> records_of_window(
                self@,
                event@,
                records@,
            ),
    {
        proof {
            use_type_invariant(&self);
        }
        match self.phase {
            SchedulePhase::Ready => match event {
                ScheduleEvent::Wake => {
                    let window = self.window_here();
                    (
                        Scheduler { phase: SchedulePhase::Fetching, ..self },
                        ScheduleAction::Fetch(window),
                    )
                },
                _ => (self, ScheduleAction::Ignore),
            },
            SchedulePhase::Drained => match event {
                ScheduleEvent::Wake => (
                    Scheduler { phase: SchedulePhase::Finished, ..self },
                    ScheduleAction::Finish,
                ),
                _ => (self, ScheduleAction::Ignore),
            },
            SchedulePhase::Fetching => match event {
                ScheduleEvent::Fetched { roots, sidecars } => {
                    let window = self.window_here();
                    if roots.len() != window.len || sidecars.len() != window.len {
                        (self, ScheduleAction::Ignore)
                    } else {
                        match correlate(window.first, roots, sidecars) {
                            Ok(records) => (
                                Scheduler { phase: SchedulePhase::Committing, ..self },
                                ScheduleAction::Commit(records),
                            ),
                            Err(e) => (
                                Scheduler { phase: SchedulePhase::Aborted, ..self },
                                ScheduleAction::Abort(e),
                            ),
                        }
                    }
                },
                ScheduleEvent::FetchFailed(e) => (
                    Scheduler { phase: SchedulePhase::Aborted, ..self },
                    ScheduleAction::Abort(e),
                ),
                _ => (self, ScheduleAction::Ignore),
            },
            SchedulePhase::Committing => match event {
                ScheduleEvent::Committed => {
                    let progress = Progress {
                        window: self.window_here(),
                        percent: self.percent_here(),
                    };
                    if self.end - self.next < self.window {
                        (
                            Scheduler { phase: SchedulePhase::Drained, ..self },
                            ScheduleAction::Report(progress),
                        )
                    } else {
                        proof {
                            lemma_next_window_aligned(
                                self.next - self.start,
                                self.window as int,
                            );
                        }
                        (
                            Scheduler {
                                next: self.next + self.window,
                                phase: SchedulePhase::Ready,
                                ..self
                            },
                            ScheduleAction::Report(progress),
                        )
                    }
                },
                ScheduleEvent::CommitFailed => (
                    Scheduler { phase: SchedulePhase::Aborted, ..self },
                    ScheduleAction::Abort(SyncError::SinkCommitError),
                ),
                _ => (self, ScheduleAction::Ignore),
            },
            SchedulePhase::Finished => (self, ScheduleAction::Ignore),
            SchedulePhase::Aborted => (self, ScheduleAction::Ignore),
        }
    }
}

} // verus!
