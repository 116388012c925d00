//! The base `Event` abstraction: a single dispatchable occurrence with a
//! type name, bubbling and cancelable flags, and a trusted flag.
//!
//! An event starts uninitialized (empty type name, all flags clear) and is
//! given its type/bubbling/cancelable attributes exactly once, through
//! [`Event::init_event`]; initialization never grants trust.

use vstd::prelude::*;

verus! {

/// The mathematical value of an [`Event`]: its type name as a sequence of
/// characters together with its three flags.
pub struct EventView {
    pub type_id: Seq<char>,
    pub bubbles: bool,
    pub cancelable: bool,
    pub trusted: bool,
}

impl EventView {
    /// The state of a freshly built, not yet initialized event: empty type
    /// name, non-bubbling, non-cancelable, and untrusted (trust is only ever
    /// granted explicitly by a creation path, never by default).
    pub open spec fn uninitialized() -> EventView {
        EventView { type_id: Seq::<char>::empty(), bubbles: false, cancelable: false, trusted: false }
    }
}

/// Whether an event may bubble up through its propagation path.
#[derive(Clone, Copy)]
pub enum EventBubbles {
    Bubbles,
    DoesNotBubble,
}

impl EventBubbles {
    /// The boolean this policy stands for.
    pub open spec fn as_bool(self) -> bool {
        self == EventBubbles::Bubbles
    }

    /// The policy standing for the boolean `bubbles`.
    pub fn from_bool(bubbles: bool) -> (policy: EventBubbles)
        ensures
            policy.as_bool() == bubbles,
    {
        if bubbles {
            EventBubbles::Bubbles
        } else {
            EventBubbles::DoesNotBubble
        }
    }

    /// The boolean this policy stands for.
    pub fn value(&self) -> (bubbles: bool)
        ensures
            bubbles == self.as_bool(),
    {
        match self {
            EventBubbles::Bubbles => true,
            EventBubbles::DoesNotBubble => false,
        }
    }
}

/// Whether an event's default action may be cancelled.
#[derive(Clone, Copy)]
pub enum EventCancelable {
    Cancelable,
    NotCancelable,
}

impl EventCancelable {
    /// The boolean this policy stands for.
    pub open spec fn as_bool(self) -> bool {
        self == EventCancelable::Cancelable
    }

    /// The policy standing for the boolean `cancelable`.
    pub fn from_bool(cancelable: bool) -> (policy: EventCancelable)
        ensures
            policy.as_bool() == cancelable,
    {
        if cancelable {
            EventCancelable::Cancelable
        } else {
            EventCancelable::NotCancelable
        }
    }

    /// The boolean this policy stands for.
    pub fn value(&self) -> (cancelable: bool)
        ensures
            cancelable == self.as_bool(),
    {
        match self {
            EventCancelable::Cancelable => true,
            EventCancelable::NotCancelable => false,
        }
    }
}

/// The base event value. Concrete event types embed one of these and
/// delegate their shared attributes to it.
pub struct Event {
    type_id: String,
    bubbles: bool,
    cancelable: bool,
    trusted: bool,
}

impl View for Event {
    type V = EventView;

    closed spec fn view(&self) -> EventView {
        EventView {
            type_id: self.type_id@,
            bubbles: self.bubbles,
            cancelable: self.cancelable,
            trusted: self.trusted,
        }
    }
}

impl Event {
    /// Builds the uninitialized base value that a derived event embeds.
    pub fn new_inherited() -> (event: Event)
        ensures
            event@ == EventView::uninitialized(),
    {
        Event { type_id: String::new(), bubbles: false, cancelable: false, trusted: false }
    }

    /// Sets the type name and the bubbling/cancelable policy. Trust is left
    /// as it was: initialization never marks an event trusted.
    pub fn init_event(&mut self, type_id: String, bubbles: bool, cancelable: bool)
        ensures
            final(self)@.type_id == type_id@,
            final(self)@.bubbles == bubbles,
            final(self)@.cancelable == cancelable,
            final(self)@.trusted == old(self)@.trusted,
    {
        self.type_id = type_id;
        self.bubbles = bubbles;
        self.cancelable = cancelable;
    }

    /// A copy of the event's type name.
    pub fn type_id(&self) -> (type_id: String)
        ensures
            type_id@ == self@.type_id,
    {
        self.type_id.clone()
    }

    /// Whether the event bubbles.
    pub fn bubbles(&self) -> (bubbles: bool)
        ensures
            bubbles == self@.bubbles,
    {
        self.bubbles
    }

    /// Whether the event is cancelable.
    pub fn cancelable(&self) -> (cancelable: bool)
        ensures
            cancelable == self@.cancelable,
    {
        self.cancelable
    }

    /// Whether the event was generated by a trusted creation path.
    pub fn is_trusted(&self) -> (trusted: bool)
        ensures
            trusted == self@.trusted,
    {
        self.trusted
    }
}

} // verus!
