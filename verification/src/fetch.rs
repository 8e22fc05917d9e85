//! The timed fetch: a state machine racing an exchange with a transport
//! against an absolute deadline, accumulating the response body, and
//! decoding it as UTF-8 text.
//!
//! Time is measured in whole units (seconds) on a caller-supplied clock. The
//! machine is exclusively owned and advanced by a single logical caller: one
//! poll hands in the clock reading and what the transport reported, and the
//! machine takes one transition. `Done` is terminal.

use vstd::prelude::*;
use crate::errors::CredError;
use crate::errors::ErrorModel;

verus! {

/// What one poll of the transport reported.
pub enum TransportEvent {
    /// Nothing ready yet at this suspension point.
    Pending,
    /// Response headers arrived, with this status code.
    Response(u16),
    /// The body stream produced a chunk.
    Chunk(Vec<u8>),
    /// The body stream signalled its end.
    End,
    /// The transport failed before a result was obtained.
    Failed(String),
}

/// Mathematical model of a [`TransportEvent`].
pub enum EventModel {
    Pending,
    Response(u16),
    Chunk(Seq<u8>),
    End,
    Failed(Seq<char>),
}

impl View for TransportEvent {
    type V = EventModel;

    open spec fn view(&self) -> EventModel {
        match self {
            TransportEvent::Pending => EventModel::Pending,
            TransportEvent::Response(code) => EventModel::Response(*code),
            TransportEvent::Chunk(bytes) => EventModel::Chunk(bytes@),
            TransportEvent::End => EventModel::End,
            TransportEvent::Failed(m) => EventModel::Failed(m@),
        }
    }
}

/// One advance of the machine: the clock reading at which the transport was
/// polled, and what the poll reported.
pub struct PollStep {
    /// The clock reading at this poll.
    pub now: u64,
    /// What the transport reported.
    pub event: TransportEvent,
}

/// Mathematical model of a [`PollStep`].
pub struct PollStepModel {
    pub now: u64,
    pub event: EventModel,
}

impl View for PollStep {
    type V = PollStepModel;

    open spec fn view(&self) -> PollStepModel {
        PollStepModel { now: self.now, event: self.event@ }
    }
}

/// A state of the timed fetch.
pub enum FetchState {
    /// Request submitted; response headers pending.
    Waiting,
    /// Success status seen; body chunks accumulating into one buffer.
    Buffering(Vec<u8>),
    /// Terminal: the complete body text, or a classified failure.
    Done(Result<String, CredError>),
}

/// Mathematical model of a [`FetchState`].
pub enum StateModel {
    Waiting,
    Buffering(Seq<u8>),
    Done(Result<Seq<char>, ErrorModel>),
}

impl View for FetchState {
    type V = StateModel;

    open spec fn view(&self) -> StateModel {
        match self {
            FetchState::Waiting => StateModel::Waiting,
            FetchState::Buffering(buf) => StateModel::Buffering(buf@),
            FetchState::Done(outcome) => StateModel::Done(
                match outcome {
                    Ok(body) => Ok(body@),
                    Err(e) => Err(e@),
                },
            ),
        }
    }
}

/// Whether a status code counts as success.
pub open spec fn spec_status_success(code: u16) -> bool {
    200 <= code < 300
}

/// The text that `b` decodes to as UTF-8, where it is valid; `None` where it
/// is not.
pub uninterp spec fn utf8_decoded(b: Seq<u8>) -> Option<Seq<char>>;

/// Relies on `String::from_utf8`: succeeds with the decoded text exactly
/// when the bytes are valid UTF-8; the result depends on the bytes alone.
#[verifier::external_body]
fn decode_utf8(b: Vec<u8>) -> (r: Option<String>)
    ensures
        match r {
            Some(s) => utf8_decoded(b@) == Some(s@),
            None => utf8_decoded(b@) is None,
        },
{
    String::from_utf8(b).ok()
}

/// One transition of the timed fetch under `deadline`, polled at `now` with
/// the transport reporting `event`.
///
/// The deadline is observed only at a pending wait: a result the transport
/// has already delivered always takes priority over an elapsed deadline. A
/// non-success status commits to a status failure without reading the body.
/// Body chunks accumulate until the stream ends, and the buffer then decodes
/// as UTF-8 or commits to a data-encoding failure. A report that does not
/// belong to the current phase (a chunk before headers, headers twice)
/// leaves the state unchanged, and `Done` is terminal.
pub open spec fn step_model(
    deadline: u64,
    state: StateModel,
    now: u64,
    event: EventModel,
) -> StateModel {
    match state {
        StateModel::Done(_) => state,
        StateModel::Waiting => match event {
            EventModel::Pending => if now >= deadline {
                StateModel::Done(Err(ErrorModel::Timeout))
            } else {
                state
            },
            EventModel::Response(code) => if spec_status_success(code) {
                StateModel::Buffering(Seq::empty())
            } else {
                StateModel::Done(Err(ErrorModel::Status(code)))
            },
            EventModel::Failed(m) => StateModel::Done(Err(ErrorModel::Transport(m))),
            _ => state,
        },
        StateModel::Buffering(buf) => match event {
            EventModel::Pending => if now >= deadline {
                StateModel::Done(Err(ErrorModel::Timeout))
            } else {
                state
            },
            EventModel::Chunk(bytes) => StateModel::Buffering(buf + bytes),
            EventModel::End => match utf8_decoded(buf) {
                Some(text) => StateModel::Done(Ok(text)),
                None => StateModel::Done(Err(ErrorModel::DataEncoding)),
            },
            EventModel::Failed(m) => StateModel::Done(Err(ErrorModel::Transport(m))),
            EventModel::Response(_) => state,
        },
    }
}

/// Takes one transition of the timed fetch.
pub fn step(deadline: u64, state: FetchState, now: u64, event: TransportEvent) -> (r: FetchState)
    ensures
        r@ == step_model(deadline, state@, now, event@),
{
    match state {
        FetchState::Done(outcome) => FetchState::Done(outcome),
        FetchState::Waiting => match event {
            TransportEvent::Pending => if now >= deadline {
                FetchState::Done(Err(CredError::Timeout))
            } else {
                FetchState::Waiting
            },
            TransportEvent::Response(code) => if 200 <= code && code < 300 {
                FetchState::Buffering(Vec::new())
            } else {
                FetchState::Done(Err(CredError::Status(code)))
            },
            TransportEvent::Failed(m) => FetchState::Done(Err(CredError::Transport(m))),
            _ => FetchState::Waiting,
        },
        FetchState::Buffering(mut buf) => match event {
            TransportEvent::Pending => if now >= deadline {
                FetchState::Done(Err(CredError::Timeout))
            } else {
                FetchState::Buffering(buf)
            },
            TransportEvent::Chunk(mut bytes) => {
                buf.append(&mut bytes);
                FetchState::Buffering(buf)
            },
            TransportEvent::End => match decode_utf8(buf) {
                Some(text) => FetchState::Done(Ok(text)),
                None => FetchState::Done(Err(CredError::DataEncoding)),
            },
            TransportEvent::Failed(m) => FetchState::Done(Err(CredError::Transport(m))),
            TransportEvent::Response(_) => FetchState::Buffering(buf),
        },
    }
}

/// The timed fetch: the current state and the absolute deadline fixed when
/// the fetch began.
pub struct TimedFetcher {
    /// Absolute deadline: the clock reading at which the fetch began, plus
    /// the configured timeout. Compared against the caller's clock readings,
    /// never re-derived.
    pub deadline: u64,
    /// Current state of the machine.
    pub state: FetchState,
}

impl TimedFetcher {
    /// Begins a fetch: the request has been submitted to the transport, and
    /// the whole operation must finish by `deadline`.
    pub fn start(deadline: u64) -> (r: TimedFetcher)
        ensures
            r.deadline == deadline,
            r.state@ == StateModel::Waiting,
    {
        TimedFetcher { deadline, state: FetchState::Waiting }
    }

    /// Advances the machine by one poll of the transport at clock reading
    /// `now`.
    pub fn poll(&mut self, now: u64, event: TransportEvent)
        ensures
            final(self).deadline == old(self).deadline,
            final(self).state@ == step_model(old(self).deadline, old(self).state@, now, event@),
    {
        let mut taken = FetchState::Waiting;
        core::mem::swap(&mut taken, &mut self.state);
        self.state = step(self.deadline, taken, now, event);
    }

    /// Whether the machine has committed to an outcome.
    pub fn is_done(&self) -> (r: bool)
        ensures
            r == (self.state@ is Done),
    {
        match &self.state {
            FetchState::Done(_) => true,
            _ => false,
        }
    }

    /// The outcome the machine committed to, or `None` while the fetch is
    /// still in flight.
    pub fn into_outcome(self) -> (r: Option<Result<String, CredError>>)
        ensures
            match self.state@ {
                StateModel::Done(outcome) => r matches Some(o) && (match o {
                    Ok(body) => outcome matches Ok(b) && b == body@,
                    Err(e) => outcome matches Err(m) && m == e@,
                }),
                _ => r is None,
            },
    {
        match self.state {
            FetchState::Done(outcome) => Some(outcome),
            _ => None,
        }
    }
}

/// The absolute deadline of a fetch beginning at clock reading `start` with
/// a configured timeout of `timeout` units.
pub fn deadline_after(start: u64, timeout: u64) -> (r: u64)
    requires
        start + timeout <= u64::MAX,
    ensures
        r == start + timeout,
{
    start + timeout
}

/// The models of a sequence of poll steps.
pub open spec fn steps_model(steps: Seq<PollStep>) -> Seq<PollStepModel> {
    steps.map_values(|p: PollStep| p@)
}

/// The state after driving `state` through `steps`, in order.
pub open spec fn run_model(deadline: u64, state: StateModel, steps: Seq<PollStepModel>) -> StateModel
    decreases steps.len(),
{
    if steps.len() == 0 {
        state
    } else {
        run_model(
            deadline,
            step_model(deadline, state, steps[0].now, steps[0].event),
            steps.skip(1),
        )
    }
}

/// Drives a fresh fetch through a whole transcript of polls, in order.
pub fn run_fetch(deadline: u64, steps: Vec<PollStep>) -> (r: FetchState)
    ensures
        r@ == run_model(deadline, StateModel::Waiting, steps_model(steps@)),
{
    let ghost all = steps@;
    let mut state = FetchState::Waiting;
    let mut rest = steps;
    while rest.len() > 0
        invariant
            run_model(deadline, StateModel::Waiting, steps_model(all)) == run_model(
                deadline,
                state@,
                steps_model(rest@),
            ),
        decreases rest.len(),
    {
        let ghost prev = rest@;
        let p = rest.remove(0);
        proof {
            assert(steps_model(prev).skip(1) =~= steps_model(rest@));
        }
        state = step(deadline, state, p.now, p.event);
    }
    proof {
        assert(steps_model(rest@) =~= Seq::<PollStepModel>::empty());
    }
    state
}

/// Law: at any point before the fetch is done, a pending wait observed at
/// or past the deadline commits the whole operation to a timeout failure.
pub proof fn lemma_deadline_enforced(deadline: u64, state: StateModel, now: u64)
    requires
        !(state is Done),
        now >= deadline,
    ensures
        step_model(deadline, state, now, EventModel::Pending) == StateModel::Done(
            Err::<Seq<char>, ErrorModel>(ErrorModel::Timeout),
        ),
{
}

/// Law: a non-success status commits the fetch to that status failure at
/// once — the body is never read, and nothing the transport delivers
/// afterwards changes the outcome.
pub proof fn lemma_status_short_circuit(
    deadline: u64,
    first: PollStepModel,
    rest: Seq<PollStepModel>,
)
    requires
        first.event matches EventModel::Response(code) && !spec_status_success(code),
    ensures
        run_model(deadline, StateModel::Waiting, seq![first] + rest) == StateModel::Done(
            Err::<Seq<char>, ErrorModel>(ErrorModel::Status(first.event->Response_0)),
        ),
{
    let steps = seq![first] + rest;
    assert(steps[0] == first);
    assert(steps.skip(1) =~= rest);
    lemma_done_is_terminal(
        deadline,
        Err(ErrorModel::Status(first.event->Response_0)),
        rest,
    );
}

/// Law: `Done` is terminal — once the fetch has committed to an outcome, no
/// later poll, whatever the transport delivers and however late, changes it.
pub proof fn lemma_done_is_terminal(
    deadline: u64,
    outcome: Result<Seq<char>, ErrorModel>,
    steps: Seq<PollStepModel>,
)
    ensures
        run_model(deadline, StateModel::Done(outcome), steps) == StateModel::Done(outcome),
    decreases steps.len(),
{
    if steps.len() > 0 {
        lemma_done_is_terminal(deadline, outcome, steps.skip(1));
    }
}

} // verus!
