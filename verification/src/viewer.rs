//! The viewer's state, the events a caller reports to it, and where the
//! text is drawn.

use vstd::prelude::*;

verus! {

/// Horizontal position of the text, in pixels from the left edge.
pub const TEXT_LEFT: i32 = 12;

/// Vertical position of the text before any scrolling, in pixels from the
/// top edge.
pub const TEXT_TOP: i32 = 12;

/// Font size the text is drawn with, in pixels.
pub const FONT_SIZE: i32 = 20;

/// Pixels that one unit of wheel movement scrolls the text by.
pub const SCROLL_STEP: i32 = 30;

/// Why a viewer stopped before its window was closed.
#[derive(Clone, Copy, Debug, PartialEq, Eq, Structural)]
pub enum Failure {
    /// The input seat could not be assigned at startup.
    SeatUnavailable,
    /// Dispatching pending device input failed during a frame.
    DispatchFailed,
}

/// Where a viewer stands in its life.
#[derive(Clone, Copy, Debug, PartialEq, Eq, Structural)]
pub enum Phase {
    /// Created; the input seat has not been assigned yet.
    Starting,
    /// Running frames.
    Running,
    /// The window was asked to close.
    Closed,
    /// Stopped on a fatal error.
    Failed(Failure),
}

/// What a caller reports to the viewer.
#[derive(Clone, Copy, Debug, PartialEq, Eq, Structural)]
pub enum Event {
    /// Seat assignment was tried; `true` when it succeeded.
    SeatAssigned(bool),
    /// The window was polled; `true` when it was asked to close.
    ClosePolled(bool),
    /// Pending device input was dispatched; `true` when that succeeded.
    Dispatched(bool),
    /// One character was typed.
    Typed(char),
}

/// Where and how large the text is drawn.
#[derive(Clone, Copy, Debug, PartialEq, Eq, Structural)]
pub struct Placement {
    pub x: i32,
    pub y: i32,
    pub font_size: i32,
}

impl Phase {
    /// A viewer that is closed or has failed has ended.
    pub open spec fn has_ended(self) -> bool {
        self is Closed || self is Failed
    }

    /// The phase that follows `self` on `event`.
    ///
    /// Seat assignment decides a starting viewer. A close request and a
    /// failed dispatch end a running one. Every other event leaves the phase
    /// as it is; in particular nothing leaves a phase that has ended.
    pub open spec fn after(self, event: Event) -> Phase {
        match (self, event) {
            (Phase::Starting, Event::SeatAssigned(true)) => Phase::Running,
            (Phase::Starting, Event::SeatAssigned(false)) => Phase::Failed(
                Failure::SeatUnavailable,
            ),
            (Phase::Running, Event::ClosePolled(true)) => Phase::Closed,
            (Phase::Running, Event::Dispatched(false)) => Phase::Failed(Failure::DispatchFailed),
            _ => self,
        }
    }

    /// Computes the phase that follows `self` on `event`.
    pub fn advance(self, event: Event) -> (next: Phase)
        ensures
            next == self.after(event),
    {
        match (self, event) {
            (Phase::Starting, Event::SeatAssigned(assigned)) => {
                if assigned {
                    Phase::Running
                } else {
                    Phase::Failed(Failure::SeatUnavailable)
                }
            },
            (Phase::Running, Event::ClosePolled(true)) => Phase::Closed,
            (Phase::Running, Event::Dispatched(false)) => Phase::Failed(Failure::DispatchFailed),
            _ => self,
        }
    }
}

/// The placement of the text once the view has been scrolled by `offset`
/// pixels: fixed on the left, `offset` below the top margin.
pub open spec fn placed(offset: i32) -> Placement
    recommends
        TEXT_TOP + offset <= i32::MAX,
{
    Placement { x: TEXT_LEFT, y: (TEXT_TOP + offset) as i32, font_size: FONT_SIZE }
}

/// What a viewer is, to its contracts: its phase and the text typed so far.
pub struct ViewerState {
    pub phase: Phase,
    pub text: Seq<char>,
}

impl ViewerState {
    /// The state that follows `self` on `event`: the phase advances, and a
    /// typed character is appended to the text. Nothing else touches the text.
    pub open spec fn after(self, event: Event) -> ViewerState {
        ViewerState {
            phase: self.phase.after(event),
            text: match event {
                Event::Typed(c) => self.text.push(c),
                _ => self.text,
            },
        }
    }

    /// The state that follows `self` on `events`, taken in arrival order.
    pub open spec fn after_all(self, events: Seq<Event>) -> ViewerState
        decreases events.len(),
    {
        if events.len() == 0 {
            self
        } else {
            self.after_all(events.drop_last()).after(events.last())
        }
    }

    /// What is drawn for a scroll offset: the text at its placement while
    /// the viewer runs, and nothing otherwise.
    pub open spec fn presented(self, offset: i32) -> Option<Placement> {
        if self.phase == Phase::Running {
            Some(placed(offset))
        } else {
            None
        }
    }
}

/// The characters typed among `events`, in arrival order.
pub open spec fn typed(events: Seq<Event>) -> Seq<char>
    decreases events.len(),
{
    if events.len() == 0 {
        Seq::empty()
    } else {
        match events.last() {
            Event::Typed(c) => typed(events.drop_last()).push(c),
            _ => typed(events.drop_last()),
        }
    }
}

/// `String::push` appends the given character to the end of the string and
/// leaves what was there before in place.
pub assume_specification[ String::push ](s: &mut String, c: char)
    ensures
        final(s)@ == old(s)@.push(c),
;

/// A line of typed text that scrolls, together with the phase of the
/// program that shows it.
pub struct Viewer {
    phase: Phase,
    text: String,
}

impl View for Viewer {
    type V = ViewerState;

    closed spec fn view(&self) -> ViewerState {
        ViewerState { phase: self.phase, text: self.text@ }
    }
}

impl Viewer {
    /// A viewer that shows `text` and waits for its seat.
    pub fn new(text: String) -> (viewer: Viewer)
        ensures
            viewer@.phase == Phase::Starting,
            viewer@.text == text@,
    {
        Viewer { phase: Phase::Starting, text }
    }

    /// Takes one event and returns the phase the viewer is in after it.
    pub fn handle(&mut self, event: Event) -> (now: Phase)
        ensures
            final(self)@ == old(self)@.after(event),
            now == final(self)@.phase,
    {
        if let Event::Typed(c) = event {
            self.text.push(c);
        }
        self.phase = self.phase.advance(event);
        self.phase
    }

    /// Takes a run of events in arrival order and returns the phase the
    /// viewer is in after the last of them.
    pub fn handle_all(&mut self, events: &[Event]) -> (now: Phase)
        ensures
            final(self)@ == old(self)@.after_all(events@),
            final(self)@.text == old(self)@.text + typed(events@),
            now == final(self)@.phase,
    {
        proof {
            lemma_text_collects_typed(old(self)@, events@);
        }
        let mut taken: usize = 0;
        while taken < events.len()
            invariant
                taken <= events.len(),
                self@ == old(self)@.after_all(events@.take(taken as int)),
            decreases events.len() - taken,
        {
            self.handle(events[taken]);
            taken += 1;
            assert(events@.take(taken as int).drop_last() == events@.take(taken - 1));
        }
        assert(events@.take(taken as int) == events@);
        self.phase
    }

    /// The phase the viewer is in.
    pub fn phase(&self) -> (phase: Phase)
        ensures
            phase == self@.phase,
    {
        self.phase
    }

    /// The text typed so far, after the text the viewer started with.
    pub fn text(&self) -> (text: &str)
        ensures
            text@ == self@.text,
    {
        self.text.as_str()
    }

    /// Where to draw the text once the view has been scrolled by `offset`
    /// pixels, or `None` when the viewer is not running and draws nothing.
    pub fn present(&self, offset: i32) -> (placement: Option<Placement>)
        requires
            TEXT_TOP + offset <= i32::MAX,
        ensures
            placement == self@.presented(offset),
    {
        match self.phase {
            Phase::Running => Some(
                Placement { x: TEXT_LEFT, y: TEXT_TOP + offset, font_size: FONT_SIZE },
            ),
            _ => None,
        }
    }
}

/// The text after a run of events is the text before it followed by the
/// characters typed during the run, in arrival order.
pub proof fn lemma_text_collects_typed(state: ViewerState, events: Seq<Event>)
    ensures
        state.after_all(events).text == state.text + typed(events),
    decreases events.len(),
{
    if events.len() > 0 {
        lemma_text_collects_typed(state, events.drop_last());
    }
}

/// When every event of a run is a typed character, the run appends exactly
/// those characters, in the order they arrived, and changes nothing else.
pub proof fn lemma_typing_appends_in_order(state: ViewerState, events: Seq<Event>)
    requires
        forall|i: int| 0 <= i < events.len() ==> events[i] is Typed,
    ensures
        typed(events).len() == events.len(),
        forall|i: int| 0 <= i < events.len() ==> typed(events)[i] == events[i]->Typed_0,
        state.after_all(events) == (ViewerState {
            phase: state.phase,
            text: state.text + typed(events),
        }),
    decreases events.len(),
{
    if events.len() > 0 {
        lemma_typing_appends_in_order(state, events.drop_last());
        assert(state.text + typed(events) =~= (state.text + typed(events.drop_last())).push(
            events.last()->Typed_0,
        ));
    } else {
        assert(state.text + typed(events) =~= state.text);
    }
}

/// A run of events in which nothing is typed leaves the text as it was,
/// however long the run.
pub proof fn lemma_text_kept_without_typing(state: ViewerState, events: Seq<Event>)
    requires
        forall|i: int| 0 <= i < events.len() ==> !(events[i] is Typed),
    ensures
        state.after_all(events).text == state.text,
    decreases events.len(),
{
    if events.len() > 0 {
        lemma_text_kept_without_typing(state, events.drop_last());
    }
}

/// The text is never cut short or started over: after any run of events the
/// text from before the run still stands at its front.
pub proof fn lemma_text_only_grows(state: ViewerState, events: Seq<Event>)
    ensures
        state.text.is_prefix_of(state.after_all(events).text),
{
    lemma_text_collects_typed(state, events);
    let grown = state.text + typed(events);
    assert(grown.subrange(0, state.text.len() as int) == state.text);
}

/// A viewer that has ended stays in the phase it ended in, whatever is
/// reported to it afterwards, and draws nothing.
pub proof fn lemma_ended_stays_ended(state: ViewerState, events: Seq<Event>, offset: i32)
    requires
        state.phase.has_ended(),
    ensures
        state.after_all(events).phase == state.phase,
        state.after_all(events).presented(offset) is None,
    decreases events.len(),
{
    if events.len() > 0 {
        lemma_ended_stays_ended(state, events.drop_last(), offset);
    }
}

/// When seat assignment fails, the viewer never runs: whatever is reported
/// to it afterwards, nothing is drawn.
pub proof fn lemma_no_seat_no_frame(state: ViewerState, later: Seq<Event>, offset: i32)
    requires
        state.phase == Phase::Starting,
    ensures
        state.after(Event::SeatAssigned(false)).after_all(later).phase == Phase::Failed(
            Failure::SeatUnavailable,
        ),
        state.after(Event::SeatAssigned(false)).after_all(later).presented(offset) is None,
{
    lemma_ended_stays_ended(state.after(Event::SeatAssigned(false)), later, offset);
}

} // verus!
