use crate::runtime::{deadline_after_wake, FrameClock};
use vstd::prelude::*;

verus! {

/// What wakes the presentation loop, as far as its decisions go.
#[derive(Copy, Clone, Debug, PartialEq, Eq, Structural)]
pub enum LoopEvent {
    /// The event loop has just started.
    Started,
    /// The window has to be drawn again.
    RedrawRequested,
    /// The user asked for the window to be closed.
    CloseRequested,
    /// The program asked for shutdown.
    ShutdownRequested,
    /// Any other input or window event, or a timer wake.
    Other,
}

/// What the loop has to do after an event.
#[derive(Copy, Clone, Debug, PartialEq, Eq, Structural)]
pub struct LoopAction {
    /// Start the game thread.
    pub start_game: bool,
    /// Present a frame now; the value is the deadline it was scheduled for.
    pub present: Option<u64>,
    /// Leave the event loop.
    pub exit: bool,
    /// Ask to be woken no later than this instant.
    pub wake_at: u64,
}

/// The state of the loop as the decisions see it.
pub struct LoopModel {
    pub interval: int,
    pub next_deadline: int,
    pub game_started: bool,
    pub closing: bool,
}

/// Whether `event` asks the loop to end.
pub open spec fn asks_to_close(event: LoopEvent) -> bool {
    event == LoopEvent::CloseRequested || event == LoopEvent::ShutdownRequested
}

/// The deadline against which a wake at `now` is held: a redraw request
/// anchors the clock at `now`, any other event leaves it alone.
pub open spec fn anchored_deadline(before: LoopModel, event: LoopEvent, now: int) -> int {
    if event == LoopEvent::RedrawRequested {
        now
    } else {
        before.next_deadline
    }
}

/// Whether a frame is presented on `event` at `now`: the loop is not
/// closing and the deadline has come.
pub open spec fn presents(before: LoopModel, event: LoopEvent, now: int) -> bool {
    !before.closing && !asks_to_close(event) && now >= anchored_deadline(before, event, now)
}

/// The state after `event` at `now`.
pub open spec fn state_after(before: LoopModel, event: LoopEvent, now: int) -> LoopModel {
    LoopModel {
        interval: before.interval,
        next_deadline: if presents(before, event, now) {
            anchored_deadline(before, event, now) + before.interval
        } else {
            anchored_deadline(before, event, now)
        },
        game_started: before.game_started || event == LoopEvent::Started,
        closing: before.closing || asks_to_close(event),
    }
}

/// What is done on `event` at `now`.
pub open spec fn action_on(before: LoopModel, event: LoopEvent, now: int) -> LoopAction {
    LoopAction {
        start_game: event == LoopEvent::Started && !before.game_started,
        present: if presents(before, event, now) {
            Some(anchored_deadline(before, event, now) as u64)
        } else {
            None
        },
        exit: before.closing || asks_to_close(event),
        wake_at: state_after(before, event, now).next_deadline as u64,
    }
}

/// The decisions of the presentation loop: when to present, when to start
/// the game thread, when to leave.
pub struct PresentationLoop {
    clock: FrameClock,
    game_started: bool,
    closing: bool,
}

impl PresentationLoop {
    /// The state as the decisions see it.
    pub closed spec fn model(&self) -> LoopModel {
        LoopModel {
            interval: self.clock.spec_interval() as int,
            next_deadline: self.clock.spec_next_deadline() as int,
            game_started: self.game_started,
            closing: self.closing,
        }
    }

    /// Whether an event at `now` can be taken without the deadline leaving
    /// the clock's range.
    pub open spec fn spec_can_step(&self, now: u64) -> bool {
        &&& self.model().next_deadline + self.model().interval <= u64::MAX
        &&& now + self.model().interval <= u64::MAX
    }

    /// A loop anchored at `now` with frames `interval` microseconds apart:
    /// the first event presents at once, and the game thread is yet to be
    /// started.
    pub fn new(now: u64, interval: u64) -> (state: Self)
        ensures
            state.model() == (LoopModel {
                interval: interval as int,
                next_deadline: now as int,
                game_started: false,
                closing: false,
            }),
    {
        PresentationLoop { clock: FrameClock::start(now, interval), game_started: false, closing: false }
    }

    #[verifier::when_used_as_spec(spec_can_step)]
    pub fn can_step(&self, now: u64) -> (fits: bool)
        ensures
            fits == self.spec_can_step(now),
    {
        self.clock.can_advance() && self.clock.interval() <= u64::MAX - now
    }

    /// Takes one event at `now` and says what to do. A frame that is due is
    /// presented and the deadline moves on by exactly one interval; the game
    /// thread is started on the first start event only; once closing, the
    /// loop presents nothing more.
    pub fn on_event(&mut self, event: LoopEvent, now: u64) -> (action: LoopAction)
        requires
            old(self).spec_can_step(now),
        ensures
            final(self).model() == state_after(old(self).model(), event, now as int),
            action == action_on(old(self).model(), event, now as int),
    {
        let start_game = !self.game_started && matches!(event, LoopEvent::Started);
        if matches!(event, LoopEvent::Started) {
            self.game_started = true;
        }
        if matches!(event, LoopEvent::CloseRequested | LoopEvent::ShutdownRequested) {
            self.closing = true;
        }
        if matches!(event, LoopEvent::RedrawRequested) {
            self.clock.reanchor(now);
        }
        let mut present: Option<u64> = None;
        if !self.closing {
            match self.clock.on_wake(now) {
                crate::runtime::FrameAction::Present { deadline } => {
                    present = Some(deadline);
                },
                crate::runtime::FrameAction::Wait => {},
            }
        }
        LoopAction { start_game, present, exit: self.closing, wake_at: self.clock.wake_at() }
    }
}

/// The game thread is started once: after a start event has been taken, no
/// later event starts it again.
pub proof fn lemma_game_starts_once(before: LoopModel, first: LoopEvent, t1: int, later: LoopEvent, t2: int)
    requires
        first == LoopEvent::Started,
    ensures
        action_on(before, first, t1).start_game == !before.game_started,
        !action_on(state_after(before, first, t1), later, t2).start_game,
{
}

/// Leaving is final: once an event has asked the loop to close, every later
/// event says to leave and presents nothing.
pub proof fn lemma_closing_is_final(before: LoopModel, first: LoopEvent, t1: int, later: LoopEvent, t2: int)
    requires
        asks_to_close(first),
    ensures
        action_on(before, first, t1).exit,
        action_on(state_after(before, first, t1), later, t2).exit,
        action_on(state_after(before, first, t1), later, t2).present.is_none(),
{
}

/// While the loop runs and no redraw is asked for, an event moves the
/// deadline exactly as a plain wake of the frame clock does: by one
/// interval where the frame was due, not at all where it was not.
pub proof fn lemma_event_keeps_cadence(before: LoopModel, event: LoopEvent, now: int)
    requires
        !before.closing,
        !asks_to_close(event),
        event != LoopEvent::RedrawRequested,
    ensures
        state_after(before, event, now).next_deadline == deadline_after_wake(
            before.next_deadline,
            before.interval,
            now,
        ),
{
}

} // verus!
