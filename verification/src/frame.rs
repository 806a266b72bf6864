//! The frame loop's bookkeeping.
//!
//! A [`FrameState`] carries what one iteration of the loop hands to the
//! next: whether the game is still running, the tick counter at the last
//! frame, the controls held on the last two sampled frames, and the
//! world. [`FrameState::advance`] is one iteration: it takes what the
//! caller sampled and leaves the frame's picture on a surface.

use crate::scene::{render, scene};
use crate::surface::Surface;
use crate::world::{Controls, World, WorldModel, DT_LIMIT};
use vstd::prelude::*;

verus! {

/// The keys the game tells apart.
#[derive(Clone, Copy, Debug, PartialEq, Eq, Structural)]
pub enum Key {
    Escape,
    Left,
    Right,
    Other,
}

/// An input event, as far as the game cares.
#[derive(Clone, Copy, Debug, PartialEq, Eq, Structural)]
pub enum Event {
    /// The window is asked to close.
    Quit,
    /// A key went down.
    KeyDown { key: Key },
    /// A key went up.
    KeyUp { key: Key },
    /// Anything else.
    Other,
}

/// Whether the event ends the game: a request to close the window, or
/// the escape key going down.
pub open spec fn asks_to_quit(event: Event) -> bool {
    event == Event::Quit || event == (Event::KeyDown { key: Key::Escape })
}

/// Whether any of the events ends the game.
pub open spec fn any_asks_to_quit(events: Seq<Event>) -> bool {
    exists|i: int| 0 <= i < events.len() && asks_to_quit(#[trigger] events[i])
}

impl Event {
    /// Whether the event ends the game.
    pub fn requests_quit(&self) -> (quit: bool)
        ensures
            quit == asks_to_quit(*self),
    {
        match self {
            Event::Quit => true,
            Event::KeyDown { key: Key::Escape } => true,
            _ => false,
        }
    }
}

/// Whether any of the events ends the game.
pub fn quit_requested(events: &Vec<Event>) -> (quit: bool)
    ensures
        quit == any_asks_to_quit(events@),
{
    let mut i: usize = 0;
    while i < events.len()
        invariant
            i <= events.len(),
            forall|j: int| 0 <= j < i ==> !asks_to_quit(#[trigger] events@[j]),
        decreases events.len() - i,
    {
        if events[i].requests_quit() {
            return true;
        }
        i = i + 1;
    }
    false
}

/// What one iteration of the frame loop hands to the next.
#[derive(Clone, Copy, Debug, PartialEq, Eq, Structural)]
pub struct FrameState {
    /// Whether the game is still running. Once false it stays false.
    pub running: bool,
    /// The tick counter, in milliseconds, at the last frame.
    pub ticks: u64,
    /// The controls held on the last sampled frame.
    pub keys: Controls,
    /// The controls held on the sampled frame before that.
    pub keys_before: Controls,
    /// The ball, the paddle and their field.
    pub world: World,
}

/// A [`FrameState`] over the unbounded integers.
pub struct FrameModel {
    pub running: bool,
    pub ticks: int,
    pub keys: Controls,
    pub keys_before: Controls,
    pub world: WorldModel,
}

impl View for FrameState {
    type V = FrameModel;

    open spec fn view(&self) -> FrameModel {
        FrameModel {
            running: self.running,
            ticks: self.ticks as int,
            keys: self.keys,
            keys_before: self.keys_before,
            world: self.world@,
        }
    }
}

impl FrameModel {
    /// The state after one iteration of the loop at tick count `now`,
    /// with `events` pending and the controls `held`. A game that has
    /// stopped stays as it is. A running game stops if an event asks for
    /// it; either way this iteration still steps the world, by the time
    /// elapsed since the last frame, with the controls of this frame and
    /// the last.
    pub open spec fn advanced(self, now: int, events: Seq<Event>, held: Controls) -> FrameModel {
        if self.running {
            FrameModel {
                running: !any_asks_to_quit(events),
                ticks: now,
                keys: held,
                keys_before: self.keys,
                world: self.world.step(held, self.keys, now - self.ticks),
            }
        } else {
            self
        }
    }

    /// Whether an iteration at tick count `now` can start from this
    /// state: the clock has not run backwards, no more than [`DT_LIMIT`]
    /// milliseconds have passed, and the world can take a whole tick. A
    /// game that has stopped needs none of that.
    pub open spec fn ready_at(self, now: int) -> bool {
        self.running ==> {
            &&& self.ticks <= now <= self.ticks + DT_LIMIT
            &&& self.world.tickable()
        }
    }
}

impl FrameState {
    /// The state before the first frame: running, no control held, the
    /// tick counter at `now`, so that no time has passed when the first
    /// frame is taken at once.
    pub fn new(now: u64, world: World) -> (frame: FrameState)
        ensures
            frame == (FrameState {
                running: true,
                ticks: now,
                keys: Controls { left: false, right: false },
                keys_before: Controls { left: false, right: false },
                world,
            }),
    {
        FrameState {
            running: true,
            ticks: now,
            keys: Controls::released(),
            keys_before: Controls::released(),
            world,
        }
    }

    /// Whether an iteration at tick count `now` can start from this
    /// state.
    pub fn is_ready_at(&self, now: u64) -> (ready: bool)
        ensures
            ready == self@.ready_at(now as int),
    {
        !self.running || (self.ticks <= now && now - self.ticks <= DT_LIMIT
            && self.world.is_tickable())
    }

    /// Runs one iteration of the frame loop: measures the time since the
    /// last frame, looks through the pending events for a request to
    /// quit, takes the new sample of the controls, steps the world, and
    /// renders it on `surface`. A game that has stopped is left alone,
    /// and so is the surface.
    pub fn advance(&mut self, now: u64, events: &Vec<Event>, held: Controls, surface: &mut Surface)
        requires
            old(self)@.ready_at(now as int),
        ensures
            final(self)@ == old(self)@.advanced(now as int, events@, held),
            final(surface)@ == if old(self).running {
                scene(final(self)@.world)
            } else {
                old(surface)@
            },
    {
        if !self.running {
            return ;
        }
        let dt: u64 = now - self.ticks;
        self.ticks = now;
        if quit_requested(events) {
            self.running = false;
        }
        self.keys_before = self.keys;
        self.keys = held;
        self.world.step(self.keys, self.keys_before, dt);
        render(surface, &self.world);
    }
}

} // verus!
