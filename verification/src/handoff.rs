//! The hand-off of scene buffers between the two sides, as a state machine,
//! and what holds of every run of it.
//!
//! A scene buffer is in one of four places: with the simulation side, which
//! fills it; in the command channel, on its way to be drawn; with the render
//! side, which draws it; in the return channel, on its way back.  Buffers are
//! moved, never copied, and each move is one step of the machine:
//!
//! * `Reclaim`: the simulation side receives a buffer from the return channel;
//! * `Send`: it sends the buffer it holds in a frame command
//!   (`Frontend2D::render` does both, and sends only what it was given);
//! * `Receive`: the render side takes a frame command off the command channel;
//! * `Return`: it sends the buffer it drew back (`FrontendRuntime::step`
//!   answers a frame with the buffer that came).
//!
//! A channel gives only what was put into it, so a step can be taken only
//! where a buffer is in the place that it moves one from.

use vstd::prelude::*;

verus! {

/// A place where a scene buffer can be.
#[derive(Copy, Clone, Debug, PartialEq, Eq, Structural)]
pub enum BufferState {
    /// With the simulation side, being built.
    Idle,
    /// Sent in a frame command, not yet taken up.
    InTransit,
    /// With the render side, being drawn.
    Rendering,
    /// Sent back, not yet taken up.
    Returned,
}

/// A move of a scene buffer from one place to the next.
#[derive(Copy, Clone, Debug, PartialEq, Eq, Structural)]
pub enum HandoffStep {
    /// `Returned` to `Idle`.
    Reclaim,
    /// `Idle` to `InTransit`.
    Send,
    /// `InTransit` to `Rendering`.
    Receive,
    /// `Rendering` to `Returned`.
    Return,
}

impl HandoffStep {
    /// The place that the step moves a buffer from.
    pub open spec fn from(self) -> BufferState {
        match self {
            HandoffStep::Reclaim => BufferState::Returned,
            HandoffStep::Send => BufferState::Idle,
            HandoffStep::Receive => BufferState::InTransit,
            HandoffStep::Return => BufferState::Rendering,
        }
    }

    /// The place that the step moves a buffer to.
    pub open spec fn to(self) -> BufferState {
        match self {
            HandoffStep::Reclaim => BufferState::Idle,
            HandoffStep::Send => BufferState::InTransit,
            HandoffStep::Receive => BufferState::Rendering,
            HandoffStep::Return => BufferState::Returned,
        }
    }
}

/// The state of an exchange: how many buffers are in each place, and how many
/// frames were sent and sent back so far.
pub struct Handoff {
    pub idle: nat,
    pub in_transit: nat,
    pub rendering: nat,
    pub returned: nat,
    pub frames_sent: nat,
    pub frames_returned: nat,
}

impl Handoff {
    /// The exchange as it starts: one buffer, waiting on the return channel.
    pub open spec fn initial() -> Handoff {
        Handoff {
            idle: 0,
            in_transit: 0,
            rendering: 0,
            returned: 1,
            frames_sent: 0,
            frames_returned: 0,
        }
    }

    /// How many buffers are in the given place.
    pub open spec fn count(self, place: BufferState) -> nat {
        match place {
            BufferState::Idle => self.idle,
            BufferState::InTransit => self.in_transit,
            BufferState::Rendering => self.rendering,
            BufferState::Returned => self.returned,
        }
    }

    /// The same exchange with `count` buffers in the given place.
    pub open spec fn with_count(self, place: BufferState, count: nat) -> Handoff {
        match place {
            BufferState::Idle => Handoff { idle: count, ..self },
            BufferState::InTransit => Handoff { in_transit: count, ..self },
            BufferState::Rendering => Handoff { rendering: count, ..self },
            BufferState::Returned => Handoff { returned: count, ..self },
        }
    }

    /// The step can be taken: there is a buffer where it moves one from.
    pub open spec fn enabled(self, step: HandoffStep) -> bool {
        self.count(step.from()) > 0
    }

    /// The exchange after the step: one buffer has moved on, and a frame is
    /// counted as sent or as sent back.
    pub open spec fn step(self, step: HandoffStep) -> Handoff
        recommends
            self.enabled(step),
    {
        let taken = self.with_count(step.from(), (self.count(step.from()) - 1) as nat);
        let moved = taken.with_count(step.to(), taken.count(step.to()) + 1);
        match step {
            HandoffStep::Send => Handoff { frames_sent: moved.frames_sent + 1, ..moved },
            HandoffStep::Return => Handoff { frames_returned: moved.frames_returned + 1, ..moved },
            _ => moved,
        }
    }

    /// Every step of the sequence can be taken in turn.
    pub open spec fn admits(self, steps: Seq<HandoffStep>) -> bool
        decreases steps.len(),
    {
        steps.len() > 0 ==> self.enabled(steps.first()) && self.step(steps.first()).admits(
            steps.drop_first(),
        )
    }

    /// The exchange after the steps were taken in turn.
    pub open spec fn run(self, steps: Seq<HandoffStep>) -> Handoff
        decreases steps.len(),
    {
        if steps.len() == 0 {
            self
        } else {
            self.step(steps.first()).run(steps.drop_first())
        }
    }

    /// What one call of the simulation side's `render` does to the exchange:
    /// where the buffer waits on the return channel it is reclaimed, filled
    /// and sent; where it does not, the frame is skipped and nothing moves.
    pub open spec fn simulation_turn(self) -> Handoff {
        if self.enabled(HandoffStep::Reclaim) {
            self.step(HandoffStep::Reclaim).step(HandoffStep::Send)
        } else {
            self
        }
    }

    /// What one turn of the render loop does to the exchange: where a frame
    /// waits on the command channel it is received, drawn and sent back;
    /// where none does, nothing moves.
    pub open spec fn render_turn(self) -> Handoff {
        if self.enabled(HandoffStep::Receive) {
            self.step(HandoffStep::Receive).step(HandoffStep::Return)
        } else {
            self
        }
    }

    /// How many frames are out of the simulation side's hands and not yet on
    /// their way back: sent and not taken up, or being drawn.
    pub open spec fn in_flight(self) -> nat {
        self.in_transit + self.rendering
    }

    /// There is one buffer, in one place, and every frame that was sent and
    /// not sent back is the one in flight.
    pub open spec fn single_owner(self) -> bool {
        &&& self.idle + self.in_transit + self.rendering + self.returned == 1
        &&& self.frames_sent == self.frames_returned + self.in_flight()
    }

    /// The place where the one buffer is.
    pub open spec fn place(self) -> BufferState
        recommends
            self.single_owner(),
    {
        if self.idle > 0 {
            BufferState::Idle
        } else if self.in_transit > 0 {
            BufferState::InTransit
        } else if self.rendering > 0 {
            BufferState::Rendering
        } else {
            BufferState::Returned
        }
    }
}

/// The exchange starts with a single owner.
pub proof fn law_initial_single_owner()
    ensures
        Handoff::initial().single_owner(),
        Handoff::initial().place() == BufferState::Returned,
{
}

/// A step keeps the single owner, and moves the buffer along the circle
/// `Idle`, `InTransit`, `Rendering`, `Returned`: the only step that can be
/// taken is the one from the place where the buffer is.
pub proof fn law_step_keeps_single_owner(state: Handoff, step: HandoffStep)
    requires
        state.single_owner(),
        state.enabled(step),
    ensures
        state.step(step).single_owner(),
        state.place() == step.from(),
        state.step(step).place() == step.to(),
{
}

/// Whatever steps are taken, there is never more than one frame in flight:
/// after N frames were sent, N or N - 1 were sent back, never more.
pub proof fn law_at_most_one_in_flight(state: Handoff, steps: Seq<HandoffStep>)
    requires
        state.single_owner(),
        state.admits(steps),
    ensures
        state.run(steps).single_owner(),
        state.run(steps).in_flight() <= 1,
        state.run(steps).frames_returned <= state.run(steps).frames_sent,
        state.run(steps).frames_sent <= state.run(steps).frames_returned + 1,
    decreases steps.len(),
{
    if steps.len() > 0 {
        law_step_keeps_single_owner(state, steps.first());
        law_at_most_one_in_flight(state.step(steps.first()), steps.drop_first());
    }
}

/// A frame can be sent only when the buffer is back with the simulation
/// side: every frame sent before was sent back, and nothing is in flight or
/// waiting on a channel.
pub proof fn law_send_follows_return(state: Handoff)
    requires
        state.single_owner(),
        state.enabled(HandoffStep::Send),
    ensures
        state.frames_sent == state.frames_returned,
        state.in_flight() == 0,
        state.returned == 0,
        state.step(HandoffStep::Send).frames_sent == state.frames_returned + 1,
        !state.step(HandoffStep::Send).enabled(HandoffStep::Send),
{
}

/// The two sides take turns without ever holding the buffer between them:
/// a turn of the simulation side sends one frame if the buffer is back and
/// none if it is not, a turn of the render side sends one frame back if one
/// has come and none if not, and after either there is still one buffer, on
/// one of the two channels.
pub proof fn law_turns_pass_the_buffer(state: Handoff)
    requires
        state.single_owner(),
        state.place() == BufferState::Returned || state.place() == BufferState::InTransit,
    ensures
        state.simulation_turn().single_owner(),
        state.render_turn().single_owner(),
        state.simulation_turn().place() == BufferState::InTransit,
        state.render_turn().place() == BufferState::Returned,
        state.simulation_turn().frames_sent == state.frames_sent + if state.place()
            == BufferState::Returned {
            1nat
        } else {
            0nat
        },
        state.render_turn().frames_returned == state.frames_returned + if state.place()
            == BufferState::InTransit {
            1nat
        } else {
            0nat
        },
        state.simulation_turn().frames_returned == state.frames_returned,
        state.render_turn().frames_sent == state.frames_sent,
{
}

} // verus!
