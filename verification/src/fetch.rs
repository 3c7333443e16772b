//! The fetch client: one resource of one slot, requested until a response
//! arrives or the attempts are spent. The client decides; the caller performs
//! the request, the sleep and the decoding that it asks for and reports back.

use vstd::prelude::*;
use crate::error::SyncError;
use crate::types::{BlobSidecarsData, BlobSidecarsResponse, SingleBlockHeaderData};

verus! {

/// Attempts made for one resource unless the caller says otherwise.
pub const DEFAULT_ATTEMPTS: usize = 10;

/// Milliseconds between two attempts unless the caller says otherwise.
pub const DEFAULT_DELAY_MS: u64 = 5000;

/// The status by which the API says that a slot has no such resource.
pub const NOT_FOUND: u16 = 404;

/// What the client is waiting for.
#[derive(Debug, Clone, Copy, PartialEq, Eq, Structural)]
pub enum FetchPhase {
    /// To be woken: at the start, and after each sleep.
    Waiting,
    /// The outcome of the request it asked for.
    Requesting,
    /// The outcome of decoding the response body.
    Decoding,
    /// Nothing: the fetch is over.
    Finished,
}

/// What happened since the client last spoke.
#[derive(Debug, Clone, PartialEq, Eq)]
pub enum FetchEvent<P> {
    /// The fetch starts, or a sleep is over.
    Wake,
    /// The request failed in transport: no response arrived.
    TransportFailed,
    /// A response arrived, with this status.
    Status(u16),
    /// The body of the response decoded to this payload.
    Decoded(P),
    /// The body of the response did not decode.
    Undecodable,
}

/// What a finished fetch found.
#[derive(Debug, Clone, PartialEq, Eq)]
pub enum Fetched<P> {
    /// The slot has no such resource.
    NotFound,
    /// The payload of the response.
    Found(P),
}

/// What the caller is to do next.
#[derive(Debug, Clone, PartialEq, Eq)]
pub enum FetchAction<P> {
    /// Send the request; report `TransportFailed` or `Status`.
    Request,
    /// Sleep this many milliseconds; report `Wake`.
    Sleep(u64),
    /// Decode the body of the response; report `Decoded` or `Undecodable`.
    Decode,
    /// The fetch is over, with this result.
    Done(Fetched<P>),
    /// The fetch is over, with this failure.
    Fail(SyncError),
    /// The event is not one the client was waiting for; nothing changed.
    Ignore,
}

/// The mathematical content of a `FetchClient`.
pub struct FetchModel {
    /// The slot whose resource is fetched.
    pub slot: usize,
    /// Requests that may be sent at most.
    pub max_attempts: usize,
    /// Milliseconds to sleep after a transport failure.
    pub delay_ms: u64,
    /// Requests asked for so far.
    pub attempts: usize,
    /// Sleeps asked for so far.
    pub sleeps: usize,
    /// What the client is waiting for.
    pub phase: FetchPhase,
}

impl FetchModel {
    /// A client that has done nothing yet.
    pub open spec fn initial(slot: usize, max_attempts: usize, delay_ms: u64) -> FetchModel {
        FetchModel {
            slot,
            max_attempts,
            delay_ms,
            attempts: 0,
            sleeps: 0,
            phase: FetchPhase::Waiting,
        }
    }

    /// No more requests were asked for than allowed and no more sleeps than
    /// requests; while a request is out, fewer sleeps than requests.
    pub open spec fn wf(self) -> bool {
        &&& self.sleeps <= self.attempts <= self.max_attempts
        &&& self.phase == FetchPhase::Requesting ==> self.sleeps < self.attempts
    }

    /// The decision table of the client.
    ///
    /// Woken, it asks for a request while attempts are left, and fails with
    /// `RetryExhausted`, for its slot and the attempts allowed, once they are
    /// spent. A transport failure is answered
    /// by a sleep. A response with status 404 ends the fetch with `NotFound`,
    /// any other response is to be decoded. A decoded body ends the fetch
    /// with its payload, an undecodable one with `DecodeError`. Any other
    /// pair of phase and event changes nothing.
    pub open spec fn step<P>(self, event: FetchEvent<P>) -> (FetchModel, FetchAction<P>) {
        match (self.phase, event) {
            (FetchPhase::Waiting, FetchEvent::Wake) => if self.attempts < self.max_attempts {
                (
                    FetchModel {
                        attempts: (self.attempts + 1) as usize,
                        phase: FetchPhase::Requesting,
                        ..self
                    },
                    FetchAction::Request,
                )
            } else {
                (
                    FetchModel { phase: FetchPhase::Finished, ..self },
                    FetchAction::Fail(
                        SyncError::RetryExhausted { slot: self.slot, attempts: self.max_attempts },
                    ),
                )
            },
            (FetchPhase::Requesting, FetchEvent::TransportFailed) => (
                FetchModel {
                    sleeps: (self.sleeps + 1) as usize,
                    phase: FetchPhase::Waiting,
                    ..self
                },
                FetchAction::Sleep(self.delay_ms),
            ),
            (FetchPhase::Requesting, FetchEvent::Status(status)) => if status == NOT_FOUND {
                (
                    FetchModel { phase: FetchPhase::Finished, ..self },
                    FetchAction::Done(Fetched::NotFound),
                )
            } else {
                (FetchModel { phase: FetchPhase::Decoding, ..self }, FetchAction::Decode)
            },
            (FetchPhase::Decoding, FetchEvent::Decoded(payload)) => (
                FetchModel { phase: FetchPhase::Finished, ..self },
                FetchAction::Done(Fetched::Found(payload)),
            ),
            (FetchPhase::Decoding, FetchEvent::Undecodable) => (
                FetchModel { phase: FetchPhase::Finished, ..self },
                FetchAction::Fail(SyncError::DecodeError),
            ),
            _ => (self, FetchAction::Ignore),
        }
    }
}

/// The client after `events`, fed to it in order from `m`, and what it
/// answered to each.
pub open spec fn run<P>(m: FetchModel, events: Seq<FetchEvent<P>>) -> (
    FetchModel,
    Seq<FetchAction<P>>,
)
    decreases events.len(),
{
    if events.len() == 0 {
        (m, Seq::empty())
    } else {
        let before = run(m, events.drop_last());
        let last = before.0.step(events.last());
        (last.0, before.1.push(last.1))
    }
}

/// How many of `actions` ask for a request.
pub open spec fn requests_in<P>(actions: Seq<FetchAction<P>>) -> nat
    decreases actions.len(),
{
    if actions.len() == 0 {
        0
    } else {
        requests_in(actions.drop_last()) + if actions.last() is Request {
            1nat
        } else {
            0nat
        }
    }
}

/// How many of `actions` ask for a sleep.
pub open spec fn sleeps_in<P>(actions: Seq<FetchAction<P>>) -> nat
    decreases actions.len(),
{
    if actions.len() == 0 {
        0
    } else {
        sleeps_in(actions.drop_last()) + if actions.last() is Sleep {
            1nat
        } else {
            0nat
        }
    }
}

/// What a caller reports whose transport fails `k` times in a row: `k` times
/// a wake-up and then the failure of the request.
pub open spec fn failing<P>(k: nat) -> Seq<FetchEvent<P>>
    decreases k,
{
    if k == 0 {
        Seq::empty()
    } else {
        failing::<P>((k - 1) as nat).push(FetchEvent::Wake).push(FetchEvent::TransportFailed)
    }
}

/// One more event: the client steps once from where the others left it.
proof fn lemma_run_push<P>(m: FetchModel, events: Seq<FetchEvent<P>>, event: FetchEvent<P>)
    ensures
        run(m, events.push(event)) == ({
            let before = run(m, events);
            let last = before.0.step(event);
            (last.0, before.1.push(last.1))
        }),
{
    assert(events.push(event).drop_last() =~= events);
}

/// The counters of a client are the numbers of requests and of sleeps that
/// it has asked for, whatever it was told, and it stays well-formed.
pub proof fn law_counters_match_actions<P>(
    slot: usize,
    max_attempts: usize,
    delay_ms: u64,
    events: Seq<FetchEvent<P>>,
)
    ensures
        ({
            let end = run(FetchModel::initial(slot, max_attempts, delay_ms), events);
            &&& end.0.wf()
            &&& end.0.attempts == requests_in(end.1)
            &&& end.0.sleeps == sleeps_in(end.1)
            &&& end.0.slot == slot
            &&& end.0.max_attempts == max_attempts
            &&& end.0.delay_ms == delay_ms
            &&& end.1.len() == events.len()
        }),
    decreases events.len(),
{
    if events.len() > 0 {
        law_counters_match_actions(slot, max_attempts, delay_ms, events.drop_last());
        let before = run(FetchModel::initial(slot, max_attempts, delay_ms), events.drop_last());
        let last = before.0.step(events.last());
        assert(before.1.push(last.1).drop_last() =~= before.1);
    }
}

/// A transport that has failed `k` times, `k` no more than the attempts
/// allowed, leaves the client waiting, with `k` requests and `k` sleeps
/// behind it, and every answer so far was a request or a sleep.
proof fn lemma_after_failures<P>(slot: usize, max_attempts: usize, delay_ms: u64, k: nat)
    requires
        k <= max_attempts,
    ensures
        ({
            let end = run(FetchModel::initial(slot, max_attempts, delay_ms), failing::<P>(k));
            &&& end.0 == FetchModel {
                attempts: k as usize,
                sleeps: k as usize,
                ..FetchModel::initial(slot, max_attempts, delay_ms)
            }
            &&& end.1.len() == 2 * k
            &&& forall|i: int|
                0 <= i < end.1.len() ==> #[trigger] end.1[i] == if i % 2 == 0 {
                    FetchAction::<P>::Request
                } else {
                    FetchAction::<P>::Sleep(delay_ms)
                }
        }),
    decreases k,
{
    if k > 0 {
        let start = FetchModel::initial(slot, max_attempts, delay_ms);
        let shorter = failing::<P>((k - 1) as nat);
        lemma_after_failures::<P>(slot, max_attempts, delay_ms, (k - 1) as nat);
        lemma_run_push(start, shorter, FetchEvent::Wake);
        lemma_run_push(start, shorter.push(FetchEvent::Wake), FetchEvent::TransportFailed);
    }
}

/// Retry exhaustion. Where the transport always fails, a client allowed
/// `max_attempts` requests asks for exactly that many, each followed by a
/// sleep, and then fails with `RetryExhausted` for its slot and that number
/// of attempts.
pub proof fn law_retry_exhaustion<P>(slot: usize, max_attempts: usize, delay_ms: u64)
    ensures
        ({
            let events = failing::<P>(max_attempts as nat).push(FetchEvent::Wake);
            let end = run(FetchModel::initial(slot, max_attempts, delay_ms), events);
            &&& end.1.last() == FetchAction::<P>::Fail(
                SyncError::RetryExhausted { slot, attempts: max_attempts },
            )
            &&& forall|i: int|
                0 <= i < end.1.len() - 1 ==> (#[trigger] end.1[i] is Request || end.1[i] is Sleep)
            &&& requests_in(end.1) == max_attempts
            &&& sleeps_in(end.1) == max_attempts
            &&& end.0.attempts == max_attempts
            &&& end.0.phase == FetchPhase::Finished
        }),
{
    let start = FetchModel::initial(slot, max_attempts, delay_ms);
    let failures = failing::<P>(max_attempts as nat);
    lemma_after_failures::<P>(slot, max_attempts, delay_ms, max_attempts as nat);
    lemma_run_push(start, failures, FetchEvent::Wake);
    law_counters_match_actions(slot, max_attempts, delay_ms, failures.push(FetchEvent::Wake));
}

/// Retry success. Where the transport fails `max_attempts - 1` times and
/// then delivers a response other than 404 whose body decodes, the client
/// ends with that payload, having asked for exactly `max_attempts` requests
/// and `max_attempts - 1` sleeps.
pub proof fn law_retry_success<P>(
    slot: usize,
    max_attempts: usize,
    delay_ms: u64,
    status: u16,
    payload: P,
)
    requires
        max_attempts >= 1,
        status != NOT_FOUND,
    ensures
        ({
            let events = failing::<P>((max_attempts - 1) as nat).push(FetchEvent::Wake).push(
                FetchEvent::Status(status),
            ).push(FetchEvent::Decoded(payload));
            let end = run(FetchModel::initial(slot, max_attempts, delay_ms), events);
            &&& end.1.last() == FetchAction::Done(Fetched::Found(payload))
            &&& sleeps_in(end.1) == max_attempts - 1
            &&& requests_in(end.1) == max_attempts
            &&& end.0.sleeps == max_attempts - 1
            &&& end.0.attempts == max_attempts
            &&& end.0.phase == FetchPhase::Finished
        }),
{
    let start = FetchModel::initial(slot, max_attempts, delay_ms);
    let failures = failing::<P>((max_attempts - 1) as nat);
    let woken = failures.push(FetchEvent::Wake);
    let answered = woken.push(FetchEvent::Status(status));
    lemma_after_failures::<P>(slot, max_attempts, delay_ms, (max_attempts - 1) as nat);
    lemma_run_push(start, failures, FetchEvent::Wake);
    lemma_run_push(start, woken, FetchEvent::Status(status));
    lemma_run_push(start, answered, FetchEvent::Decoded(payload));
    law_counters_match_actions(
        slot,
        max_attempts,
        delay_ms,
        answered.push(FetchEvent::Decoded(payload)),
    );
}

/// A missing resource is no failure. Where the transport delivers status
/// 404, at whichever attempt, the client ends with `NotFound` at once.
pub proof fn law_not_found_is_no_error<P>(m: FetchModel)
    requires
        m.phase == FetchPhase::Requesting,
    ensures
        m.step(FetchEvent::<P>::Status(NOT_FOUND)).1 == FetchAction::<P>::Done(Fetched::NotFound),
        m.step(FetchEvent::<P>::Status(NOT_FOUND)).0.phase == FetchPhase::Finished,
{
}

/// The fetch of one resource of one slot.
pub struct FetchClient {
    slot: usize,
    max_attempts: usize,
    delay_ms: u64,
    attempts: usize,
    sleeps: usize,
    phase: FetchPhase,
}

impl View for FetchClient {
    type V = FetchModel;

    closed spec fn view(&self) -> FetchModel {
        FetchModel {
            slot: self.slot,
            max_attempts: self.max_attempts,
            delay_ms: self.delay_ms,
            attempts: self.attempts,
            sleeps: self.sleeps,
            phase: self.phase,
        }
    }
}

impl FetchClient {
    #[verifier::type_invariant]
    spec fn inv(self) -> bool {
        &&& self.sleeps <= self.attempts <= self.max_attempts
        &&& self.phase == FetchPhase::Requesting ==> self.sleeps < self.attempts
    }

    /// A client for `slot` that sends at most `max_attempts` requests and
    /// sleeps `delay_ms` milliseconds after each that fails in transport.
    pub fn new(slot: usize, max_attempts: usize, delay_ms: u64) -> (client: FetchClient)
        ensures
            client@ == FetchModel::initial(slot, max_attempts, delay_ms),
    {
        FetchClient {
            slot,
            max_attempts,
            delay_ms,
            attempts: 0,
            sleeps: 0,
            phase: FetchPhase::Waiting,
        }
    }

    /// The slot whose resource is fetched.
    pub fn slot(&self) -> (r: usize)
        ensures
            r == self@.slot,
    {
        self.slot
    }

    /// Requests asked for so far.
    pub fn attempts(&self) -> (r: usize)
        ensures
            r == self@.attempts,
            r <= self@.max_attempts,
    {
        proof {
            use_type_invariant(self);
        }
        self.attempts
    }

    /// Sleeps asked for so far.
    pub fn sleeps(&self) -> (r: usize)
        ensures
            r == self@.sleeps,
            r <= self@.attempts,
    {
        proof {
            use_type_invariant(self);
        }
        self.sleeps
    }

    /// What the client is waiting for.
    pub fn phase(&self) -> (r: FetchPhase)
        ensures
            r == self@.phase,
    {
        self.phase
    }

    /// Takes one event and says what to do next, as `FetchModel::step` has
    /// it.
    pub fn step<P>(self, event: FetchEvent<P>) -> (r: (FetchClient, FetchAction<P>))
        ensures
            self@.wf(),
            r.0@.wf(),
            (r.0@, r.1) == self@.step(event),
    {
        proof {
            use_type_invariant(&self);
        }
        let FetchClient { slot, max_attempts, delay_ms, attempts, sleeps, phase } = self;
        match phase {
            FetchPhase::Waiting => match event {
                FetchEvent::Wake => {
                    if attempts < max_attempts {
                        (
                            FetchClient {
                                slot,
                                max_attempts,
                                delay_ms,
                                attempts: attempts + 1,
                                sleeps,
                                phase: FetchPhase::Requesting,
                            },
                            FetchAction::Request,
                        )
                    } else {
                        (
                            FetchClient {
                                slot,
                                max_attempts,
                                delay_ms,
                                attempts,
                                sleeps,
                                phase: FetchPhase::Finished,
                            },
                            FetchAction::Fail(
                                SyncError::RetryExhausted { slot, attempts: max_attempts },
                            ),
                        )
                    }
                },
                _ => (
                    FetchClient { slot, max_attempts, delay_ms, attempts, sleeps, phase },
                    FetchAction::Ignore,
                ),
            },
            FetchPhase::Requesting => match event {
                FetchEvent::TransportFailed => (
                    FetchClient {
                        slot,
                        max_attempts,
                        delay_ms,
                        attempts,
                        sleeps: sleeps + 1,
                        phase: FetchPhase::Waiting,
                    },
                    FetchAction::Sleep(delay_ms),
                ),
                FetchEvent::Status(status) => {
                    if status == NOT_FOUND {
                        (
                            FetchClient {
                                slot,
                                max_attempts,
                                delay_ms,
                                attempts,
                                sleeps,
                                phase: FetchPhase::Finished,
                            },
                            FetchAction::Done(Fetched::NotFound),
                        )
                    } else {
                        (
                            FetchClient {
                                slot,
                                max_attempts,
                                delay_ms,
                                attempts,
                                sleeps,
                                phase: FetchPhase::Decoding,
                            },
                            FetchAction::Decode,
                        )
                    }
                },
                _ => (
                    FetchClient { slot, max_attempts, delay_ms, attempts, sleeps, phase },
                    FetchAction::Ignore,
                ),
            },
            FetchPhase::Decoding => match event {
                FetchEvent::Decoded(payload) => (
                    FetchClient {
                        slot,
                        max_attempts,
                        delay_ms,
                        attempts,
                        sleeps,
                        phase: FetchPhase::Finished,
                    },
                    FetchAction::Done(Fetched::Found(payload)),
                ),
                FetchEvent::Undecodable => (
                    FetchClient {
                        slot,
                        max_attempts,
                        delay_ms,
                        attempts,
                        sleeps,
                        phase: FetchPhase::Finished,
                    },
                    FetchAction::Fail(SyncError::DecodeError),
                ),
                _ => (
                    FetchClient { slot, max_attempts, delay_ms, attempts, sleeps, phase },
                    FetchAction::Ignore,
                ),
            },
            FetchPhase::Finished => (
                FetchClient { slot, max_attempts, delay_ms, attempts, sleeps, phase },
                FetchAction::Ignore,
            ),
        }
    }
}

/// A finished fetch stays finished: whatever it is told, it changes nothing
/// and asks for nothing.
pub proof fn law_finished_is_final<P>(m: FetchModel, event: FetchEvent<P>)
    requires
        m.phase == FetchPhase::Finished,
    ensures
        m.step(event) == (m, FetchAction::<P>::Ignore),
{
}

/// The sidecars that a finished fetch stands for: those of the response,
/// none where the slot has no block.
pub open spec fn sidecars_of(fetched: Fetched<BlobSidecarsResponse>) -> Seq<BlobSidecarsData> {
    match fetched {
        Fetched::NotFound => Seq::empty(),
        Fetched::Found(response) => response.data@,
    }
}

/// The root text that a finished fetch stands for: that of the response,
/// empty where the slot has no header.
pub open spec fn root_text_of(fetched: Fetched<SingleBlockHeaderData>) -> Seq<char> {
    match fetched {
        Fetched::NotFound => Seq::empty(),
        Fetched::Found(header) => header.data.root@,
    }
}

/// The payload of a sidecar fetch, empty where nothing was found.
pub fn sidecars_or_empty(fetched: Fetched<BlobSidecarsResponse>) -> (r: BlobSidecarsResponse)
    ensures
        r.data@ == sidecars_of(fetched),
        fetched matches Fetched::Found(response) ==> r == response,
{
    match fetched {
        Fetched::NotFound => BlobSidecarsResponse { data: Vec::new() },
        Fetched::Found(response) => response,
    }
}

/// The root text of a header fetch, empty where nothing was found.
pub fn root_or_empty(fetched: Fetched<SingleBlockHeaderData>) -> (r: String)
    ensures
        r@ == root_text_of(fetched),
        fetched matches Fetched::Found(header) ==> r == header.data.root,
{
    match fetched {
        Fetched::NotFound => String::new(),
        Fetched::Found(header) => header.data.root,
    }
}

} // verus!
