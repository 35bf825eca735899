//! The event mechanism that decouples obstacles, the Companion and the run
//! controller: semantic game events are appended to a FIFO queue during a
//! tick and drained once per tick, in publish order.

use vstd::prelude::*;

verus! {

/// A semantic game event. Events are immutable values; the `id` fields
/// correlate an event with the obstacle that owns the same identity.
#[derive(Clone, Debug, PartialEq)]
pub enum GameEvent {
    BoyHitsObstacle,
    DogExitsPlatform,
    DogHitMark { id: String },
    DogOffMark { id: String },
    DogLandedOnGround,
    DogLandedOnPlatform { id: String, platform_top: i16 },
    DogTooClose,
    DogTooFar,
    GameStarted,
}

/// The FIFO queue of pending events together with its publish handle.
/// Producers append to the tail; the run controller pops from the head.
#[derive(Debug)]
pub struct EventPublisher {
    events: Vec<GameEvent>,
}

impl View for EventPublisher {
    type V = Seq<GameEvent>;

    closed spec fn view(&self) -> Seq<GameEvent> {
        self.events@
    }
}

impl EventPublisher {
    pub fn new() -> (r: EventPublisher)
        ensures
            r@ == Seq::<GameEvent>::empty(),
    {
        EventPublisher { events: Vec::new() }
    }

    /// Appends `event` to the tail of the queue.
    pub fn publish(&mut self, event: GameEvent)
        ensures
            final(self)@ == old(self)@.push(event),
    {
        self.events.push(event);
    }

    /// Pops the oldest pending event, if any.
    pub fn pop_front(&mut self) -> (r: Option<GameEvent>)
        ensures
            old(self)@.len() == 0 ==> r is None && final(self)@ == old(self)@,
            old(self)@.len() > 0 ==> r == Some(old(self)@[0]) && final(self)@ == old(self)@.drop_first(),
    {
        if self.events.len() == 0 {
            None
        } else {
            let e = self.events.remove(0);
            proof {
                assert(self.events@ =~= old(self).events@.drop_first());
            }
            Some(e)
        }
    }

    pub fn len(&self) -> (r: usize)
        ensures
            r == self@.len(),
    {
        self.events.len()
    }

    pub fn is_empty(&self) -> (r: bool)
        ensures
            r == (self@.len() == 0),
    {
        self.events.len() == 0
    }
}

/// Something that receives every drained event: the Companion and each live
/// obstacle. Subscribers pattern-match on the event and ignore what does not
/// concern them.
pub trait EventSubscriber {
    fn name(&self) -> String;

    fn process_event(&mut self, event: &GameEvent);
}

} // verus!
