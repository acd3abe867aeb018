//! The polling loop as a state machine.
//!
//! A front end owns the keyboard, the network, the clock and the terminal.
//! It hands each thing that happens to `PollingLoop::step` as an `Event`
//! and does what the `Reaction` asks: it shows the notice, then carries out
//! the request, whose outcome is the next event.
//!
//! The loop starts out resolving: it asks for input and probes the
//! candidates for it, one request each, until the catalog has one of them.
//! From then on it is active: on every tick of the timer it fetches the
//! catalog, records the product's prices in its window and has them drawn.
//! An interrupt ends an active loop, and nothing else ends it.

use crate::catalog::{position, OrderBookSnapshot};
use crate::price::{extract, extrema_of, PriceExtrema};
use crate::resolver::{apply_stage, candidate_id, normalize, normalized, STAGE_COUNT};
use crate::window::{lemma_add_step, SampleWindow, WindowModel, DEFAULT_CAPACITY};
use vstd::prelude::*;

verus! {

/// Where the loop stands.
#[derive(Clone, Copy, Debug, PartialEq, Eq, Structural)]
pub enum Phase {
    /// Resolving: a line of input has been asked for.
    AwaitingInput,
    /// Resolving: the catalog has been asked for, to look for a candidate.
    Probing,
    /// Active: a candidate was just accepted and is on display; the first
    /// tick is awaited.
    Accepted,
    /// Active: the next tick is awaited.
    Waiting,
    /// Active: the catalog has been asked for, to record the prices.
    Fetching,
    /// Over: the loop was interrupted.
    Terminated,
}

/// The three states of the loop, each a group of phases.
#[derive(Clone, Copy, Debug, PartialEq, Eq, Structural)]
pub enum LoopState {
    Resolving,
    Active,
    Terminated,
}

/// What can happen to the loop.
#[derive(Debug)]
pub enum Event {
    /// The user entered a line.
    Line(String),
    /// A request for the catalog was answered.
    Snapshot(OrderBookSnapshot),
    /// A request for the catalog failed, in transport or in decoding.
    FetchFailed,
    /// The timer fired.
    Tick,
    /// The user interrupted the program.
    Interrupt,
}

/// What the front end tells the user after a step.
#[derive(Clone, Copy, Debug, PartialEq, Eq, Structural)]
pub enum Notice {
    /// Nothing.
    Silent,
    /// The product was found: its prices, to be drawn with the window.
    Quote(PriceExtrema),
    /// The catalog lacks the candidate that was probed; the next one is
    /// being tried.
    Rejected,
    /// The catalog lacks every candidate for the input.
    Exhausted,
    /// The catalog lacks the product that is being followed.
    Absent,
    /// The request for the catalog failed.
    FetchFailed,
}

/// What the front end does next. Its outcome is the next event.
#[derive(Clone, Copy, Debug, PartialEq, Eq, Structural)]
pub enum Request {
    /// Ask the user for a line of input.
    Prompt,
    /// Fetch the catalog, to look in it for the loop's current product.
    Fetch,
    /// Wait for the next tick, or for an interrupt.
    AwaitTick,
    /// Restore the terminal and leave.
    Restore,
    /// Nothing: the loop is over.
    Halt,
}

/// The answer of the loop to one event.
#[derive(Clone, Copy, Debug, PartialEq, Eq, Structural)]
pub struct Reaction {
    pub notice: Notice,
    pub request: Request,
}

/// What the loop is, mathematically.
pub struct LoopModel {
    /// Where the loop stands.
    pub phase: Phase,
    /// The normalized input of the latest search.
    pub base: Seq<char>,
    /// The stage that made `product_id`.
    pub stage: nat,
    /// The candidate being probed or, once active, the product followed.
    pub product_id: Seq<char>,
    /// The history of prices.
    pub window: WindowModel,
}

impl LoopModel {
    /// The loop before anything has happened, with an empty window of the
    /// given capacity.
    pub open spec fn initial(capacity: nat) -> LoopModel {
        LoopModel {
            phase: Phase::AwaitingInput,
            base: Seq::empty(),
            stage: 0,
            product_id: Seq::empty(),
            window: WindowModel::empty(capacity),
        }
    }

    /// The state that the phase belongs to.
    pub open spec fn state(self) -> LoopState {
        match self.phase {
            Phase::AwaitingInput | Phase::Probing => LoopState::Resolving,
            Phase::Accepted | Phase::Waiting | Phase::Fetching => LoopState::Active,
            Phase::Terminated => LoopState::Terminated,
        }
    }

    /// The invariant of the loop: its product is the candidate of its
    /// stage, its window is well formed, and while it resolves the window is
    /// empty.
    pub open spec fn wf(self) -> bool {
        &&& self.stage < STAGE_COUNT
        &&& self.product_id == candidate_id(self.base, self.stage)
        &&& self.window.wf()
        &&& self.state() is Resolving ==> self.window == WindowModel::empty(self.window.capacity)
    }

    /// The request that is outstanding in each phase. An event that the
    /// phase does not expect changes nothing and has this request repeated.
    pub open spec fn pending(self) -> Request {
        match self.phase {
            Phase::AwaitingInput => Request::Prompt,
            Phase::Probing | Phase::Fetching => Request::Fetch,
            Phase::Accepted | Phase::Waiting => Request::AwaitTick,
            Phase::Terminated => Request::Halt,
        }
    }

    /// The loop with only its phase changed.
    pub open spec fn at(self, phase: Phase) -> LoopModel {
        LoopModel {
            phase,
            base: self.base,
            stage: self.stage,
            product_id: self.product_id,
            window: self.window,
        }
    }

    /// The loop with only its window changed.
    pub open spec fn with_window(self, window: WindowModel) -> LoopModel {
        LoopModel {
            phase: self.phase,
            base: self.base,
            stage: self.stage,
            product_id: self.product_id,
            window,
        }
    }

    /// The loop as it ignores an event: nothing changes, nothing is shown,
    /// and the outstanding request is repeated.
    pub open spec fn ignore(self) -> (LoopModel, Reaction) {
        (self, Reaction { notice: Notice::Silent, request: self.pending() })
    }

    /// The loop as it starts a search for the input `raw`: it probes the
    /// candidate of stage 0, with an empty window.
    pub open spec fn begin_search(self, raw: Seq<char>) -> LoopModel {
        LoopModel {
            phase: Phase::Probing,
            base: normalized(raw),
            stage: 0,
            product_id: candidate_id(normalized(raw), 0),
            window: WindowModel::empty(self.window.capacity),
        }
    }

    /// The loop as it moves on to the candidate of the next stage.
    pub open spec fn next_candidate(self) -> LoopModel {
        LoopModel {
            phase: Phase::Probing,
            base: self.base,
            stage: self.stage + 1,
            product_id: candidate_id(self.base, self.stage + 1),
            window: self.window,
        }
    }

    /// The extrema of the loop's product in `book`, where `book` has it.
    pub open spec fn quote(self, book: OrderBookSnapshot) -> Option<PriceExtrema> {
        match position(book.products@, self.product_id) {
            Some(i) => Some(
                extrema_of(
                    book.products@[i].snapshot.sell_summary@,
                    book.products@[i].snapshot.buy_summary@,
                ),
            ),
            None => None,
        }
    }

    /// What a loop that awaits input makes of an event. A line starts a
    /// search; the first candidate is fetched.
    pub open spec fn step_awaiting_input(self, event: Event) -> (LoopModel, Reaction) {
        match event {
            Event::Line(raw) => (
                self.begin_search(raw@),
                Reaction { notice: Notice::Silent, request: Request::Fetch },
            ),
            _ => self.ignore(),
        }
    }

    /// What a loop that probes a candidate makes of an event.
    ///
    /// A catalog that has the candidate makes the loop active: a fresh
    /// window takes the first sample, and the prices go on display. A
    /// catalog that lacks it moves the loop to the next stage, or back to
    /// asking for input when this was the last stage. A failed request
    /// leaves the stage where it is, and the same candidate is fetched
    /// again.
    pub open spec fn step_probing(self, event: Event) -> (LoopModel, Reaction) {
        match event {
            Event::Snapshot(book) => match self.quote(book) {
                Some(extrema) => (
                    self.at(Phase::Accepted).with_window(
                        WindowModel::empty(self.window.capacity).add(
                            extrema.spec_sample().0,
                            extrema.spec_sample().1,
                        ),
                    ),
                    Reaction { notice: Notice::Quote(extrema), request: Request::AwaitTick },
                ),
                None => if self.stage + 1 < STAGE_COUNT {
                    (
                        self.next_candidate(),
                        Reaction { notice: Notice::Rejected, request: Request::Fetch },
                    )
                } else {
                    (
                        self.at(Phase::AwaitingInput),
                        Reaction { notice: Notice::Exhausted, request: Request::Prompt },
                    )
                },
            },
            Event::FetchFailed => (
                self,
                Reaction { notice: Notice::FetchFailed, request: Request::Fetch },
            ),
            _ => self.ignore(),
        }
    }

    /// What an active loop that awaits a tick makes of an event.
    ///
    /// A tick has the catalog fetched. The first tick after a candidate was
    /// accepted also empties the window, so that the history of the active
    /// loop starts at time zero. An interrupt ends the loop: the terminal
    /// is to be restored, and nothing is fetched.
    pub open spec fn step_waiting(self, event: Event) -> (LoopModel, Reaction) {
        match event {
            Event::Tick => (
                self.at(Phase::Fetching).with_window(
                    if self.phase is Accepted {
                        WindowModel::empty(self.window.capacity)
                    } else {
                        self.window
                    },
                ),
                Reaction { notice: Notice::Silent, request: Request::Fetch },
            ),
            Event::Interrupt => (
                self.at(Phase::Terminated),
                Reaction { notice: Notice::Silent, request: Request::Restore },
            ),
            _ => self.ignore(),
        }
    }

    /// What an active loop that awaits the catalog makes of an event.
    ///
    /// A catalog that has the product adds one sample to the window and
    /// puts the prices on display. A catalog that lacks it, and a failed
    /// request, leave the window as it is. Either way the next tick is
    /// awaited. An interrupt ends the loop, and the answer to the request,
    /// should it still come, is ignored.
    pub open spec fn step_fetching(self, event: Event) -> (LoopModel, Reaction) {
        match event {
            Event::Snapshot(book) => match self.quote(book) {
                Some(extrema) => (
                    self.at(Phase::Waiting).with_window(
                        self.window.add(extrema.spec_sample().0, extrema.spec_sample().1),
                    ),
                    Reaction { notice: Notice::Quote(extrema), request: Request::AwaitTick },
                ),
                None => (
                    self.at(Phase::Waiting),
                    Reaction { notice: Notice::Absent, request: Request::AwaitTick },
                ),
            },
            Event::FetchFailed => (
                self.at(Phase::Waiting),
                Reaction { notice: Notice::FetchFailed, request: Request::AwaitTick },
            ),
            Event::Interrupt => (
                self.at(Phase::Terminated),
                Reaction { notice: Notice::Silent, request: Request::Restore },
            ),
            _ => self.ignore(),
        }
    }

    /// The loop after one event, and its answer to the event.
    pub open spec fn step(self, event: Event) -> (LoopModel, Reaction) {
        match self.phase {
            Phase::AwaitingInput => self.step_awaiting_input(event),
            Phase::Probing => self.step_probing(event),
            Phase::Accepted | Phase::Waiting => self.step_waiting(event),
            Phase::Fetching => self.step_fetching(event),
            Phase::Terminated => self.ignore(),
        }
    }

    /// Whether the loop can take a step: its window must be able to stamp
    /// one more sample where the step may add one.
    pub open spec fn can_step(self) -> bool {
        self.phase is Fetching ==> self.window.time < u64::MAX
    }
}

/// The number of reactions that ask for the terminal to be restored.
pub open spec fn restores(reactions: Seq<Reaction>) -> nat
    decreases reactions.len(),
{
    if reactions.len() == 0 {
        0
    } else if reactions.last().request is Restore {
        restores(reactions.drop_last()) + 1
    } else {
        restores(reactions.drop_last())
    }
}

/// The events of one catalog after the other being received.
pub open spec fn snapshot_events(books: Seq<OrderBookSnapshot>) -> Seq<Event> {
    books.map_values(|book: OrderBookSnapshot| Event::Snapshot(book))
}

impl LoopModel {
    /// The loop after a sequence of events, and its answers to them in
    /// order.
    pub open spec fn run(self, events: Seq<Event>) -> (LoopModel, Seq<Reaction>)
        decreases events.len(),
    {
        if events.len() == 0 {
            (self, Seq::empty())
        } else {
            let (before, answers) = self.run(events.drop_last());
            let (after, answer) = before.step(events.last());
            (after, answers.push(answer))
        }
    }
}

/// A step keeps the loop well formed. It never changes the capacity of the
/// window, and it advances the window's time by one at most.
pub proof fn lemma_step_wf(m: LoopModel, event: Event)
    requires
        m.wf(),
    ensures
        m.step(event).0.wf(),
        m.step(event).0.window.capacity == m.window.capacity,
        m.step(event).0.window.time <= m.window.time + 1,
        m.step(event).0.window.samples.len() <= m.window.capacity,
{
    let empty = WindowModel::empty(m.window.capacity);
    match event {
        Event::Snapshot(book) => {
            match m.quote(book) {
                Some(extrema) => {
                    lemma_add_step(empty, extrema.spec_sample().0, extrema.spec_sample().1);
                    if m.phase is Fetching {
                        lemma_add_step(
                            m.window,
                            extrema.spec_sample().0,
                            extrema.spec_sample().1,
                        );
                    }
                },
                None => {},
            }
        },
        _ => {},
    }
}

/// Whatever events a loop takes, it stays well formed, and its window
/// never holds more samples than its capacity.
pub proof fn lemma_run_wf(m: LoopModel, events: Seq<Event>)
    requires
        m.wf(),
    ensures
        m.run(events).0.wf(),
        m.run(events).0.window.capacity == m.window.capacity,
        m.run(events).0.window.time <= m.window.time + events.len(),
        m.run(events).0.window.samples.len() <= m.window.capacity,
        m.run(events).1.len() == events.len(),
    decreases events.len(),
{
    if events.len() > 0 {
        lemma_run_wf(m, events.drop_last());
        lemma_step_wf(m.run(events.drop_last()).0, events.last());
    }
}

/// What a reaction asks for is what is outstanding in the phase that the
/// step leads to; only the step that ends the loop asks, this once, for the
/// terminal to be restored.
pub proof fn lemma_request_is_pending(m: LoopModel, event: Event)
    ensures
        m.step(event).1.request == (if m.step(event).0.phase is Terminated && !(m.phase
            is Terminated) {
            Request::Restore
        } else {
            m.step(event).0.pending()
        }),
{
}

/// An interrupt ends an active loop in one step, whether it awaits a tick
/// or the catalog: the loop is terminated, the terminal is to be restored,
/// no fetch is asked for, and the window is left as it was.
pub proof fn lemma_interrupt_ends_active_loop(m: LoopModel)
    requires
        m.state() is Active,
    ensures
        m.step(Event::Interrupt).0 == m.at(Phase::Terminated),
        m.step(Event::Interrupt).0.state() is Terminated,
        m.step(Event::Interrupt).1 == (Reaction {
            notice: Notice::Silent,
            request: Request::Restore,
        }),
{
}

/// Nothing but an interrupt of an active loop ends the loop, and only the
/// step that ends it asks for the terminal to be restored.
pub proof fn lemma_only_interrupt_ends(m: LoopModel, event: Event)
    requires
        !(m.phase is Terminated),
    ensures
        m.step(event).0.phase is Terminated <==> m.state() is Active && event is Interrupt,
        m.step(event).1.request is Restore <==> m.step(event).0.phase is Terminated,
{
}

/// A terminated loop stays terminated: it changes no more, and it asks for
/// nothing, neither a fetch nor that the terminal be restored again.
pub proof fn lemma_terminated_is_final(m: LoopModel, event: Event)
    requires
        m.phase is Terminated,
    ensures
        m.step(event).0 == m,
        m.step(event).1 == (Reaction { notice: Notice::Silent, request: Request::Halt }),
{
}

/// Over any sequence of events the terminal is restored exactly once if the
/// loop ends on the way, and never otherwise. Every answer after the one
/// that restores the terminal asks for nothing.
pub proof fn lemma_restored_once(m: LoopModel, events: Seq<Event>)
    requires
        !(m.phase is Terminated),
    ensures
        restores(m.run(events).1) == (if m.run(events).0.phase is Terminated {
            1nat
        } else {
            0nat
        }),
        m.run(events).1.len() == events.len(),
        forall|i: int, j: int|
            0 <= i < j < events.len() && (#[trigger] m.run(events).1[i]).request is Restore ==> (
            #[trigger] m.run(events).1[j]).request is Halt,
        m.run(events).0.phase is Terminated ==> exists|i: int|
            0 <= i < events.len() && (#[trigger] m.run(events).1[i]).request is Restore,
    decreases events.len(),
{
    if events.len() > 0 {
        let front = events.drop_last();
        lemma_restored_once(m, front);
        let (before, answers) = m.run(front);
        let (after, answer) = before.step(events.last());
        let all = m.run(events).1;
        assert(all == answers.push(answer));
        assert(all.drop_last() =~= answers);
        assert(all.last() == answer);
        if before.phase is Terminated {
            lemma_terminated_is_final(before, events.last());
            let k = choose|k: int|
                0 <= k < front.len() && (#[trigger] answers[k]).request is Restore;
            assert(all[k] == answers[k]);
        } else {
            lemma_only_interrupt_ends(before, events.last());
            if after.phase is Terminated {
                assert(all[events.len() - 1].request is Restore);
            }
        }
        assert forall|i: int, j: int|
            0 <= i < j < events.len() && (#[trigger] all[i]).request is Restore implies (
        #[trigger] all[j]).request is Halt by {
            assert(all[i] == answers[i]);
            if j < front.len() {
                assert(all[j] == answers[j]);
            } else {
                assert(restores(answers) >= 1) by {
                    lemma_restores_counts(answers, i);
                }
            }
        }
    }
}

/// A sequence with a reaction that restores the terminal counts at least
/// one of them.
proof fn lemma_restores_counts(reactions: Seq<Reaction>, i: int)
    requires
        0 <= i < reactions.len(),
        reactions[i].request is Restore,
    ensures
        restores(reactions) >= 1,
    decreases reactions.len(),
{
    if i < reactions.len() - 1 {
        lemma_restores_counts(reactions.drop_last(), i);
    }
}

/// A failed request for the catalog changes nothing but the phase: the
/// window keeps its samples and its time axis, the search keeps its stage
/// and its candidate, and the loop stays in the state it was in. A loop
/// that probes fetches the same candidate again; an active loop awaits the
/// next tick.
pub proof fn lemma_failed_fetch_changes_nothing(m: LoopModel)
    ensures
        m.step(Event::FetchFailed).0.window == m.window,
        m.step(Event::FetchFailed).0.base == m.base,
        m.step(Event::FetchFailed).0.stage == m.stage,
        m.step(Event::FetchFailed).0.product_id == m.product_id,
        m.step(Event::FetchFailed).0.state() == m.state(),
        m.phase is Probing ==> m.step(Event::FetchFailed) == (
            m,
            Reaction { notice: Notice::FetchFailed, request: Request::Fetch },
        ),
        m.phase is Fetching ==> m.step(Event::FetchFailed) == (
            m.at(Phase::Waiting),
            Reaction { notice: Notice::FetchFailed, request: Request::AwaitTick },
        ),
{
}

/// A search tries the candidates of the stages in order, one for each
/// catalog that lacks the candidate before, and gives up after the eighth
/// such catalog, not sooner and not later. After fewer rejections the loop
/// probes the candidate of the next stage; after the eighth it asks for new
/// input and reports that the input is exhausted.
pub proof fn lemma_rejections_walk_the_stages(
    m: LoopModel,
    raw: Seq<char>,
    books: Seq<OrderBookSnapshot>,
)
    requires
        books.len() <= STAGE_COUNT,
        forall|k: int|
            0 <= k < books.len() ==> position(
                (#[trigger] books[k]).products@,
                candidate_id(normalized(raw), k as nat),
            ) is None,
    ensures
        ({
            let (end, answers) = m.begin_search(raw).run(snapshot_events(books));
            &&& answers.len() == books.len()
            &&& end.base == normalized(raw)
            &&& end.window == WindowModel::empty(m.window.capacity)
            &&& forall|k: int|
                0 <= k < books.len() && k + 1 < STAGE_COUNT ==> #[trigger] answers[k] == (Reaction {
                    notice: Notice::Rejected,
                    request: Request::Fetch,
                })
            &&& books.len() < STAGE_COUNT ==> {
                &&& end.phase is Probing
                &&& end.stage == books.len()
                &&& end.product_id == candidate_id(normalized(raw), books.len())
            }
            &&& books.len() == STAGE_COUNT ==> {
                &&& end.phase is AwaitingInput
                &&& answers.last() == (Reaction {
                    notice: Notice::Exhausted,
                    request: Request::Prompt,
                })
            }
        }),
    decreases books.len(),
{
    let events = snapshot_events(books);
    if books.len() > 0 {
        let front = books.drop_last();
        assert(snapshot_events(front) =~= events.drop_last());
        assert forall|k: int| 0 <= k < front.len() implies position(
            (#[trigger] front[k]).products@,
            candidate_id(normalized(raw), k as nat),
        ) is None by {
            assert(front[k] == books[k]);
        }
        lemma_rejections_walk_the_stages(m, raw, front);
        let (before, answers) = m.begin_search(raw).run(events.drop_last());
        assert(events.last() == Event::Snapshot(books.last()));
        assert(before.quote(books.last()) is None);
        let (end, all) = m.begin_search(raw).run(events);
        assert(all == answers.push(before.step(events.last()).1));
        assert forall|k: int| 0 <= k < books.len() && k + 1 < STAGE_COUNT implies #[trigger] all[k]
            == (Reaction { notice: Notice::Rejected, request: Request::Fetch }) by {
            if k < front.len() {
                assert(all[k] == answers[k]);
            }
        }
    }
}

/// The polling loop: the phase it is in, the search it is on, and the
/// window of prices it has recorded.
#[derive(Debug)]
pub struct PollingLoop {
    phase: Phase,
    base: String,
    stage: u8,
    product_id: String,
    window: SampleWindow,
}

impl View for PollingLoop {
    type V = LoopModel;

    closed spec fn view(&self) -> LoopModel {
        LoopModel {
            phase: self.phase,
            base: self.base@,
            stage: self.stage as nat,
            product_id: self.product_id@,
            window: self.window@,
        }
    }
}

impl PollingLoop {
    /// Whether the loop satisfies its invariant, `LoopModel::wf`.
    pub closed spec fn wf(&self) -> bool {
        &&& self@.wf()
        &&& self.window.wf()
    }

    /// A well-formed loop satisfies the invariant of its model.
    pub proof fn lemma_wf(&self)
        requires
            self.wf(),
        ensures
            self@.wf(),
    {
    }

    /// A loop that awaits its first input, with a window of the default
    /// capacity.
    pub fn new() -> (polling: PollingLoop)
        ensures
            polling.wf(),
            polling@ == LoopModel::initial(DEFAULT_CAPACITY as nat),
    {
        PollingLoop::with_capacity(DEFAULT_CAPACITY)
    }

    /// A loop that awaits its first input, with a window that retains at
    /// most `capacity` samples.
    pub fn with_capacity(capacity: usize) -> (polling: PollingLoop)
        ensures
            polling.wf(),
            polling@ == LoopModel::initial(capacity as nat),
    {
        let polling = PollingLoop {
            phase: Phase::AwaitingInput,
            base: String::new(),
            stage: 0,
            product_id: String::new(),
            window: SampleWindow::with_capacity(capacity),
        };
        assert(candidate_id(Seq::<char>::empty(), 0) =~= Seq::<char>::empty());
        polling
    }

    /// The phase that the loop is in.
    pub fn phase(&self) -> (phase: Phase)
        ensures
            phase == self@.phase,
    {
        self.phase
    }

    /// The state that the loop is in.
    pub fn state(&self) -> (state: LoopState)
        ensures
            state == self@.state(),
    {
        match self.phase {
            Phase::AwaitingInput | Phase::Probing => LoopState::Resolving,
            Phase::Accepted | Phase::Waiting | Phase::Fetching => LoopState::Active,
            Phase::Terminated => LoopState::Terminated,
        }
    }

    /// The request that is outstanding.
    pub fn pending(&self) -> (request: Request)
        ensures
            request == self@.pending(),
    {
        match self.phase {
            Phase::AwaitingInput => Request::Prompt,
            Phase::Probing | Phase::Fetching => Request::Fetch,
            Phase::Accepted | Phase::Waiting => Request::AwaitTick,
            Phase::Terminated => Request::Halt,
        }
    }

    /// The identifier to look for in the catalog: the candidate being
    /// probed or, once the loop is active, the product that it follows.
    pub fn product_id(&self) -> (id: &str)
        ensures
            id@ == self@.product_id,
    {
        self.product_id.as_str()
    }

    /// The stage that made the current product identifier.
    pub fn stage(&self) -> (stage: u8)
        ensures
            stage == self@.stage,
    {
        self.stage
    }

    /// The history of prices.
    pub fn window(&self) -> (window: &SampleWindow)
        requires
            self.wf(),
        ensures
            window.wf(),
            window@ == self@.window,
    {
        &self.window
    }

    /// Whether `step` may be called: always, but for a loop whose window
    /// has stamped `u64::MAX` samples and may now get one more.
    pub fn can_step(&self) -> (can: bool)
        ensures
            can == self@.can_step(),
    {
        match self.phase {
            Phase::Fetching => self.window.current_time() < u64::MAX,
            _ => true,
        }
    }

    /// Takes one event and answers it. The loop moves on as
    /// `LoopModel::step` says, and the reaction is the one given there.
    ///
    /// In particular, a failed request leaves the window as it was; an
    /// interrupt ends an active loop at once; and the terminal is to be
    /// restored on that step and on no other, with no fetch asked for.
    pub fn step(&mut self, event: Event) -> (reaction: Reaction)
        requires
            old(self).wf(),
            old(self)@.can_step(),
        ensures
            final(self).wf(),
            final(self)@ == old(self)@.step(event).0,
            reaction == old(self)@.step(event).1,
            event is FetchFailed ==> final(self)@.window == old(self)@.window,
            old(self)@.state() is Active && event is Interrupt ==> final(self)@.state()
                is Terminated,
            reaction.request is Restore <==> old(self)@.state() is Active && event is Interrupt,
            final(self)@.state() is Terminated ==> !(reaction.request is Fetch),
    {
        match self.phase {
            Phase::AwaitingInput => match event {
                Event::Line(raw) => {
                    self.base = normalize(raw.as_str());
                    self.stage = 0;
                    self.product_id = apply_stage(self.base.as_str(), 0);
                    self.window.reset();
                    self.phase = Phase::Probing;
                    Reaction { notice: Notice::Silent, request: Request::Fetch }
                },
                _ => Reaction { notice: Notice::Silent, request: Request::Prompt },
            },
            Phase::Probing => match event {
                Event::Snapshot(book) => match book.find(self.product_id.as_str()) {
                    Some(i) => {
                        let extrema = extract(&book.products[i].snapshot);
                        let (buy_price, sell_price) = extrema.sample();
                        self.window.reset();
                        self.window.add(buy_price, sell_price);
                        self.phase = Phase::Accepted;
                        Reaction { notice: Notice::Quote(extrema), request: Request::AwaitTick }
                    },
                    None => {
                        if self.stage + 1 < STAGE_COUNT {
                            self.stage = self.stage + 1;
                            self.product_id = apply_stage(self.base.as_str(), self.stage);
                            Reaction { notice: Notice::Rejected, request: Request::Fetch }
                        } else {
                            self.phase = Phase::AwaitingInput;
                            Reaction { notice: Notice::Exhausted, request: Request::Prompt }
                        }
                    },
                },
                Event::FetchFailed => Reaction {
                    notice: Notice::FetchFailed,
                    request: Request::Fetch,
                },
                _ => Reaction { notice: Notice::Silent, request: Request::Fetch },
            },
            Phase::Accepted | Phase::Waiting => match event {
                Event::Tick => {
                    if self.phase == Phase::Accepted {
                        self.window.reset();
                    }
                    self.phase = Phase::Fetching;
                    Reaction { notice: Notice::Silent, request: Request::Fetch }
                },
                Event::Interrupt => {
                    self.phase = Phase::Terminated;
                    Reaction { notice: Notice::Silent, request: Request::Restore }
                },
                _ => Reaction { notice: Notice::Silent, request: Request::AwaitTick },
            },
            Phase::Fetching => match event {
                Event::Snapshot(book) => match book.find(self.product_id.as_str()) {
                    Some(i) => {
                        let extrema = extract(&book.products[i].snapshot);
                        let (buy_price, sell_price) = extrema.sample();
                        proof {
                            lemma_add_step(self.window@, buy_price, sell_price);
                        }
                        self.window.add(buy_price, sell_price);
                        self.phase = Phase::Waiting;
                        Reaction { notice: Notice::Quote(extrema), request: Request::AwaitTick }
                    },
                    None => {
                        self.phase = Phase::Waiting;
                        Reaction { notice: Notice::Absent, request: Request::AwaitTick }
                    },
                },
                Event::FetchFailed => {
                    self.phase = Phase::Waiting;
                    Reaction { notice: Notice::FetchFailed, request: Request::AwaitTick }
                },
                Event::Interrupt => {
                    self.phase = Phase::Terminated;
                    Reaction { notice: Notice::Silent, request: Request::Restore }
                },
                _ => Reaction { notice: Notice::Silent, request: Request::Fetch },
            },
            Phase::Terminated => Reaction { notice: Notice::Silent, request: Request::Halt },
        }
    }
}

} // verus!
