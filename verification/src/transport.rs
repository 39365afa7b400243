//! A request as it goes over the wire, and the sending of it: one slot of
//! the rate limiter, then attempts until one does not time out or the
//! retries are used up.

use crate::error::{ErrorView, OsuError};
use crate::response::{classified, classified_view, handle_status};
use crate::routing::Method;
use vstd::prelude::*;

verus! {

/// One header of a request.
#[derive(Debug)]
pub struct Header {
    pub name: String,
    pub value: String,
}

impl View for Header {
    type V = (Seq<char>, Seq<char>);

    open spec fn view(&self) -> (Seq<char>, Seq<char>) {
        (self.name@, self.value@)
    }
}

impl Header {
    /// The header `name: value`.
    pub fn new(name: &str, value: String) -> (h: Header)
        ensures
            h@ == (name@, value@),
    {
        Header { name: name.to_owned(), value }
    }

    /// A copy of the header.
    pub fn duplicate(&self) -> (h: Header)
        ensures
            h@ == self@,
    {
        Header { name: self.name.clone(), value: self.value.clone() }
    }
}

/// The views of a list of headers, in order.
pub open spec fn headers_view(headers: Seq<Header>) -> Seq<(Seq<char>, Seq<char>)> {
    headers.map_values(|h: Header| h@)
}

/// Appends the header `name: value`.
pub fn push_header(headers: &mut Vec<Header>, name: &str, value: String)
    ensures
        headers_view(final(headers)@) == headers_view(old(headers)@).push((name@, value@)),
{
    headers.push(Header::new(name, value));
    assert(headers_view(headers@) =~= headers_view(old(headers)@).push((name@, value@)));
}

/// A fully built request: everything the network needs to know of it.
#[derive(Debug)]
pub struct HttpRequest {
    pub method: Method,
    pub url: String,
    pub headers: Vec<Header>,
    pub body: Vec<u8>,
}

/// What an [`HttpRequest`] holds.
pub struct HttpRequestView {
    pub method: Method,
    pub url: Seq<char>,
    pub headers: Seq<(Seq<char>, Seq<char>)>,
    pub body: Seq<u8>,
}

impl View for HttpRequest {
    type V = HttpRequestView;

    open spec fn view(&self) -> HttpRequestView {
        HttpRequestView {
            method: self.method,
            url: self.url@,
            headers: headers_view(self.headers@),
            body: self.body@,
        }
    }
}

impl HttpRequest {
    /// A copy of the request, to be handed to one attempt.
    pub fn duplicate(&self) -> (r: HttpRequest)
        ensures
            r@ == self@,
    {
        let mut headers: Vec<Header> = Vec::new();
        let mut i: usize = 0;
        while i < self.headers.len()
            invariant
                i <= self.headers.len(),
                headers.len() == i,
                forall|j: int| 0 <= j < i ==> (#[trigger] headers[j])@ == self.headers[j]@,
            decreases self.headers.len() - i,
        {
            headers.push(self.headers[i].duplicate());
            i += 1;
        }
        assert(headers_view(headers@) =~= headers_view(self.headers@));
        let mut body: Vec<u8> = Vec::new();
        body.extend_from_slice(self.body.as_slice());
        assert(body@ =~= self.body@);
        HttpRequest { method: self.method, url: self.url.clone(), headers, body }
    }
}

/// Where the sending of a request stands.
#[derive(Clone, Copy, Debug, PartialEq, Eq, Structural)]
pub enum Phase {
    /// No slot of the rate limiter was acquired yet.
    AwaitingSlot,
    /// An attempt is under way.
    Sending,
    /// The result was handed out.
    Done,
}

/// What the caller reports to an [`Exchange`].
#[derive(Debug)]
pub enum Event {
    /// The rate limiter granted a slot.
    SlotAcquired,
    /// The attempt did not answer within the timeout.
    TimedOut,
    /// The attempt failed for another reason than a timeout.
    Failed { reason: String },
    /// The attempt was answered and the body was read.
    Answered { status: u16, body: Vec<u8> },
    /// The attempt was answered but the body could not be read.
    Unreadable { reason: String },
}

/// What an [`Event`] holds.
pub enum EventView {
    SlotAcquired,
    TimedOut,
    Failed { reason: Seq<char> },
    Answered { status: u16, body: Seq<u8> },
    Unreadable { reason: Seq<char> },
}

impl View for Event {
    type V = EventView;

    open spec fn view(&self) -> EventView {
        match self {
            Event::SlotAcquired => EventView::SlotAcquired,
            Event::TimedOut => EventView::TimedOut,
            Event::Failed { reason } => EventView::Failed { reason: reason@ },
            Event::Answered { status, body } => EventView::Answered { status: *status, body: body@ },
            Event::Unreadable { reason } => EventView::Unreadable { reason: reason@ },
        }
    }
}

/// What an [`Exchange`] asks the caller to do next.
#[derive(Debug)]
pub enum Action {
    /// Acquire one slot of the rate limiter, then report
    /// [`Event::SlotAcquired`].
    Acquire,
    /// Send this request, wait at most `timeout_ms` milliseconds for the
    /// answer, and report how the attempt ended.
    Send { request: HttpRequest, timeout_ms: u64 },
    /// The exchange is over; this is its result.
    Finish(Result<Vec<u8>, OsuError>),
    /// The event did not concern the exchange in its current phase.
    Nothing,
}

/// What an [`Action`] holds.
pub enum ActionView {
    Acquire,
    Send { request: HttpRequestView, timeout_ms: u64 },
    Finish(Result<Seq<u8>, ErrorView>),
    Nothing,
}

impl View for Action {
    type V = ActionView;

    open spec fn view(&self) -> ActionView {
        match self {
            Action::Acquire => ActionView::Acquire,
            Action::Send { request, timeout_ms } => ActionView::Send {
                request: request@,
                timeout_ms: *timeout_ms,
            },
            Action::Finish(result) => ActionView::Finish(classified_view(*result)),
            Action::Nothing => ActionView::Nothing,
        }
    }
}

/// The sending of one request: which request, under which limits, how far
/// it has come.
#[derive(Debug)]
pub struct Exchange {
    request: HttpRequest,
    timeout_ms: u64,
    retries: usize,
    phase: Phase,
    attempt: usize,
}

/// What an [`Exchange`] holds.
pub struct ExchangeView {
    pub request: HttpRequestView,
    pub timeout_ms: u64,
    /// How often a timed-out attempt is repeated.
    pub retries: usize,
    pub phase: Phase,
    /// How many attempts were handed out so far.
    pub sent: nat,
}

impl ExchangeView {
    /// The exchange in another phase, with `sent` attempts handed out.
    pub open spec fn at(self, phase: Phase, sent: nat) -> ExchangeView {
        ExchangeView { phase, sent, ..self }
    }

    /// The action that hands out one attempt.
    pub open spec fn send(self) -> ActionView {
        ActionView::Send { request: self.request, timeout_ms: self.timeout_ms }
    }

    /// The exchange as it starts: waiting for a slot, nothing sent.
    pub open spec fn started(request: HttpRequestView, timeout_ms: u64, retries: usize) -> ExchangeView {
        ExchangeView { request, timeout_ms, retries, phase: Phase::AwaitingSlot, sent: 0 }
    }

    /// The exchange after an event, and the action that answers the event.
    ///
    /// The slot comes first and is taken once; it is followed by the first
    /// attempt. A timeout is followed by another attempt, at once, while
    /// fewer than `retries` attempts were repeated, and ends the exchange
    /// with `RequestTimeout` after that. Any other end of an attempt ends
    /// the exchange: a failure as `Request`, an unreadable body as
    /// `ChunkingResponse`, an answer as what its status and body mean.
    /// Events that the phase does not wait for change nothing.
    pub open spec fn step(self, event: EventView) -> (ExchangeView, ActionView) {
        match self.phase {
            Phase::AwaitingSlot => match event {
                EventView::SlotAcquired => (self.at(Phase::Sending, 1), self.send()),
                _ => (self, ActionView::Nothing),
            },
            Phase::Sending => match event {
                EventView::SlotAcquired => (self, ActionView::Nothing),
                EventView::TimedOut => if self.sent <= self.retries {
                    (self.at(Phase::Sending, self.sent + 1), self.send())
                } else {
                    (
                        self.at(Phase::Done, self.sent),
                        ActionView::Finish(Err(ErrorView::RequestTimeout)),
                    )
                },
                EventView::Failed { reason } => (
                    self.at(Phase::Done, self.sent),
                    ActionView::Finish(Err(ErrorView::Request { reason })),
                ),
                EventView::Answered { status, body } => (
                    self.at(Phase::Done, self.sent),
                    ActionView::Finish(classified(status, body)),
                ),
                EventView::Unreadable { reason } => (
                    self.at(Phase::Done, self.sent),
                    ActionView::Finish(Err(ErrorView::ChunkingResponse { reason })),
                ),
            },
            Phase::Done => (self, ActionView::Nothing),
        }
    }

    /// The exchange after a sequence of events.
    pub open spec fn run(self, events: Seq<EventView>) -> ExchangeView
        decreases events.len(),
    {
        if events.len() == 0 {
            self
        } else {
            self.run(events.drop_last()).step(events.last()).0
        }
    }

    /// The action that answers the last of a sequence of events.
    pub open spec fn last_action(self, events: Seq<EventView>) -> ActionView
        recommends
            events.len() > 0,
    {
        self.run(events.drop_last()).step(events.last()).1
    }
}

impl View for Exchange {
    type V = ExchangeView;

    closed spec fn view(&self) -> ExchangeView {
        ExchangeView {
            request: self.request@,
            timeout_ms: self.timeout_ms,
            retries: self.retries,
            phase: self.phase,
            sent: if self.phase == Phase::AwaitingSlot {
                0
            } else {
                (self.attempt + 1) as nat
            },
        }
    }
}

impl Exchange {
    #[verifier::type_invariant]
    spec fn bounded(self) -> bool {
        self.attempt <= self.retries
    }

    /// Starts the sending of `request`. The action to begin with is
    /// [`Action::Acquire`].
    pub fn start(request: HttpRequest, timeout_ms: u64, retries: usize) -> (r: (Exchange, Action))
        ensures
            r.0@ == ExchangeView::started(request@, timeout_ms, retries),
            r.1@ == ActionView::Acquire,
    {
        (
            Exchange { request, timeout_ms, retries, phase: Phase::AwaitingSlot, attempt: 0 },
            Action::Acquire,
        )
    }

    /// Where the exchange stands.
    pub fn phase(&self) -> (phase: Phase)
        ensures
            phase == self@.phase,
    {
        self.phase
    }

    /// How many attempts were repeated so far: one less than were handed
    /// out, and none before the first.
    pub fn retried(&self) -> (n: usize)
        ensures
            n == if self@.sent == 0 {
                0
            } else {
                self@.sent - 1
            },
            n <= self@.retries,
    {
        proof {
            use_type_invariant(self);
        }
        if self.phase == Phase::AwaitingSlot {
            0
        } else {
            self.attempt
        }
    }

    /// Takes an event and says what to do next.
    pub fn step(&mut self, event: Event) -> (action: Action)
        ensures
            (final(self)@, action@) == old(self)@.step(event@),
    {
        proof {
            use_type_invariant(&*self);
        }
        match self.phase {
            Phase::AwaitingSlot => match event {
                Event::SlotAcquired => {
                    self.phase = Phase::Sending;
                    self.attempt = 0;
                    Action::Send { request: self.request.duplicate(), timeout_ms: self.timeout_ms }
                },
                _ => Action::Nothing,
            },
            Phase::Sending => match event {
                Event::SlotAcquired => Action::Nothing,
                Event::TimedOut => {
                    if self.attempt < self.retries {
                        self.attempt = self.attempt + 1;
                        Action::Send {
                            request: self.request.duplicate(),
                            timeout_ms: self.timeout_ms,
                        }
                    } else {
                        self.phase = Phase::Done;
                        Action::Finish(Err(OsuError::RequestTimeout))
                    }
                },
                Event::Failed { reason } => {
                    self.phase = Phase::Done;
                    Action::Finish(Err(OsuError::Request { reason }))
                },
                Event::Answered { status, body } => {
                    self.phase = Phase::Done;
                    Action::Finish(handle_status(status, body))
                },
                Event::Unreadable { reason } => {
                    self.phase = Phase::Done;
                    Action::Finish(Err(OsuError::ChunkingResponse { reason }))
                },
            },
            Phase::Done => Action::Nothing,
        }
    }
}

/// `n` timeouts in a row.
pub open spec fn timeouts(n: nat) -> Seq<EventView> {
    Seq::new(n, |i: int| EventView::TimedOut)
}

/// The events of an exchange that gets its slot and then times out `n`
/// times.
pub open spec fn slot_then_timeouts(n: nat) -> Seq<EventView> {
    seq![EventView::SlotAcquired] + timeouts(n)
}

/// Running one sequence of events after another is running both in a row.
pub proof fn lemma_run_concat(x: ExchangeView, first: Seq<EventView>, second: Seq<EventView>)
    ensures
        x.run(first + second) == x.run(first).run(second),
    decreases second.len(),
{
    if second.len() == 0 {
        assert(first + second =~= first);
    } else {
        lemma_run_concat(x, first, second.drop_last());
        assert((first + second).drop_last() =~= first + second.drop_last());
        assert((first + second).last() == second.last());
    }
}

/// Running a single event is taking one step.
pub proof fn lemma_run_one(x: ExchangeView, event: EventView)
    ensures
        x.run(seq![event]) == x.step(event).0,
        x.last_action(seq![event]) == x.step(event).1,
{
    assert(seq![event].drop_last() =~= Seq::<EventView>::empty());
    assert(x.run(Seq::<EventView>::empty()) == x);
}

/// While retries are left, each timeout is answered by one more attempt.
pub proof fn lemma_timeouts_are_retried(x: ExchangeView, n: nat)
    requires
        x.phase == Phase::Sending,
        x.sent + n <= x.retries + 1,
    ensures
        x.run(timeouts(n)) == x.at(Phase::Sending, x.sent + n),
    decreases n,
{
    if n == 0 {
        assert(timeouts(0).len() == 0);
    } else {
        lemma_timeouts_are_retried(x, (n - 1) as nat);
        assert(timeouts(n).drop_last() =~= timeouts((n - 1) as nat));
        assert(timeouts(n).last() == EventView::TimedOut);
    }
}

/// After its slot and `n` timeouts, with `n` no more than the retries, an
/// exchange has handed out `n + 1` attempts and waits for the last of them.
pub proof fn lemma_slot_then_timeouts(start: ExchangeView, n: nat)
    requires
        start.phase == Phase::AwaitingSlot,
        start.sent == 0,
        n <= start.retries,
    ensures
        start.run(slot_then_timeouts(n)) == start.at(Phase::Sending, n + 1),
{
    lemma_run_concat(start, seq![EventView::SlotAcquired], timeouts(n));
    lemma_run_one(start, EventView::SlotAcquired);
    lemma_timeouts_are_retried(start.at(Phase::Sending, 1), n);
}

/// An exchange whose attempts time out exactly `retries` times and whose
/// next attempt is answered ends with what that answer means, after
/// exactly `retries + 1` attempts.
pub proof fn law_retry_until_answered(
    request: HttpRequestView,
    timeout_ms: u64,
    retries: usize,
    status: u16,
    body: Seq<u8>,
)
    ensures
        ({
            let start = ExchangeView::started(request, timeout_ms, retries);
            let events = slot_then_timeouts(retries as nat).push(
                EventView::Answered { status, body },
            );
            &&& start.last_action(events) == ActionView::Finish(classified(status, body))
            &&& start.run(events).phase == Phase::Done
            &&& start.run(events).sent == retries + 1
        }),
{
    let start = ExchangeView::started(request, timeout_ms, retries);
    let before = slot_then_timeouts(retries as nat);
    lemma_slot_then_timeouts(start, retries as nat);
    assert(before.push(EventView::Answered { status, body }).drop_last() =~= before);
}

/// An exchange whose attempts all time out ends with `RequestTimeout`
/// after exactly `retries + 1` attempts: it is still sending after every
/// smaller number of timeouts, and the timeout of attempt `retries + 1`
/// ends it.
pub proof fn law_retries_exhausted(request: HttpRequestView, timeout_ms: u64, retries: usize)
    ensures
        ({
            let start = ExchangeView::started(request, timeout_ms, retries);
            let events = slot_then_timeouts((retries + 1) as nat);
            &&& start.last_action(events) == ActionView::Finish(Err(ErrorView::RequestTimeout))
            &&& start.run(events).phase == Phase::Done
            &&& start.run(events).sent == retries + 1
            &&& forall|n: nat|
                n <= retries ==> (#[trigger] start.run(slot_then_timeouts(n))).phase
                    == Phase::Sending
        }),
{
    let start = ExchangeView::started(request, timeout_ms, retries);
    let events = slot_then_timeouts((retries + 1) as nat);
    lemma_slot_then_timeouts(start, retries as nat);
    assert(events.drop_last() =~= slot_then_timeouts(retries as nat));
    assert(events.last() == EventView::TimedOut);
    assert forall|n: nat| n <= retries implies (#[trigger] start.run(
        slot_then_timeouts(n),
    )).phase == Phase::Sending by {
        lemma_slot_then_timeouts(start, n);
    }
}

/// Whatever is reported to an exchange, it hands out no attempt before its
/// slot was acquired, and never more than `retries + 1` attempts.
pub proof fn law_attempts_are_gated_and_bounded(start: ExchangeView, events: Seq<EventView>)
    requires
        start.phase == Phase::AwaitingSlot,
        start.sent == 0,
    ensures
        start.run(events).sent <= start.retries + 1,
        start.run(events).retries == start.retries,
        !events.contains(EventView::SlotAcquired) ==> start.run(events) == start,
        start.run(events).phase == Phase::AwaitingSlot <==> start.run(events).sent == 0,
    decreases events.len(),
{
    if events.len() > 0 {
        law_attempts_are_gated_and_bounded(start, events.drop_last());
        if !events.contains(EventView::SlotAcquired) {
            assert(events.last() == events[events.len() - 1]);
            assert forall|e: EventView| events.drop_last().contains(e) implies events.contains(
                e,
            ) by {
                let i = choose|i: int| 0 <= i < events.drop_last().len() && events.drop_last()[i] == e;
                assert(events[i] == e);
            }
        }
    }
}

} // verus!
