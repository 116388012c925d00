//! The WebGL context event: raised when a graphics context is lost or
//! restored. It is a base [`Event`] plus one immutable status message,
//! defaulted to empty text when a script-supplied initializer omits it.

use vstd::prelude::*;

use crate::event::{Event, EventBubbles, EventCancelable, EventView};
use crate::global::{GlobalScope, Root};

verus! {

/// The mathematical value of a [`WebGLContextEvent`]: the base event's value
/// plus the status message as a sequence of characters.
pub struct WebGLContextEventView {
    pub base: EventView,
    pub status_message: Seq<char>,
}

/// The value of a freshly built, not yet initialized context event carrying
/// `status_message`.
pub open spec fn fresh_view(status_message: Seq<char>) -> WebGLContextEventView {
    WebGLContextEventView { base: EventView::uninitialized(), status_message }
}

/// The value of a fully constructed context event: the base carries the
/// given type name and policy flags and is untrusted, and the status
/// message is the given one.
pub open spec fn constructed_view(
    type_id: Seq<char>,
    bubbles: bool,
    cancelable: bool,
    status_message: Seq<char>,
) -> WebGLContextEventView {
    WebGLContextEventView {
        base: EventView { type_id, bubbles, cancelable, trusted: false },
        status_message,
    }
}

/// The shared part of a script-supplied event initializer: the bubbling and
/// cancelable policy, each defaulting to `false`.
pub struct EventInit {
    pub bubbles: bool,
    pub cancelable: bool,
}

/// A script-supplied initializer for a context event. An absent status
/// message stands for empty text.
pub struct WebGLContextEventInit {
    pub parent: EventInit,
    pub status_message: Option<String>,
}

/// The status message that an initializer asks for: the supplied text, or
/// empty text where none was supplied.
pub open spec fn status_message_of_init(init: WebGLContextEventInit) -> Seq<char> {
    match init.status_message {
        Some(message) => message@,
        None => Seq::<char>::empty(),
    }
}

/// How constructing a script-visible object can fail. The script-facing
/// calling convention demands an error channel; no operation of this event
/// type ever populates it.
#[derive(Clone, Copy, Debug)]
pub struct ConstructError;

/// A concrete event notifying of a graphics context loss or restoration.
pub struct WebGLContextEvent {
    event: Event,
    status_message: String,
}

impl View for WebGLContextEvent {
    type V = WebGLContextEventView;

    closed spec fn view(&self) -> WebGLContextEventView {
        WebGLContextEventView { base: self.event@, status_message: self.status_message@ }
    }
}

impl WebGLContextEvent {
    /// Builds the bare value: a default-initialized base event and the given
    /// status message. Never fails; no effect beyond the allocation.
    pub fn new_inherited(status_message: String) -> (event: WebGLContextEvent)
        ensures
            event@ == fresh_view(status_message@),
    {
        WebGLContextEvent { event: Event::new_inherited(), status_message }
    }

    /// A copy of the status message. Reading never changes the event.
    #[allow(non_snake_case)]
    pub fn StatusMessage(&self) -> (status_message: String)
        ensures
            status_message@ == self@.status_message,
    {
        self.status_message.clone()
    }

    /// Whether the event is trusted, delegated to the base event.
    #[allow(non_snake_case)]
    pub fn IsTrusted(&self) -> (trusted: bool)
        ensures
            trusted == self@.base.trusted,
    {
        self.event.is_trusted()
    }

    /// The internal creation path, used when the graphics subsystem itself
    /// raises the notification: builds the value, initializes the base
    /// event with the given type name and policy, registers the result with
    /// `global`, and returns the rooted handle. Never fails.
    pub fn new(
        global: &mut GlobalScope,
        type_id: String,
        bubbles: EventBubbles,
        cancelable: EventCancelable,
        status_message: String,
    ) -> (root: Root)
        ensures
            final(global)@ == old(global)@.push(
                constructed_view(type_id@, bubbles.as_bool(), cancelable.as_bool(), status_message@),
            ),
            root@ == old(global)@.len(),
    {
        let mut event = WebGLContextEvent::new_inherited(status_message);
        event.event.init_event(type_id, bubbles.value(), cancelable.value());
        global.reflect_dom_object(event)
    }

    /// The script-facing creation path: applies the initializer's defaults
    /// (empty status message when absent) and delegates to [`Self::new`].
    /// The `Result` exists only for the calling convention: every call
    /// returns `Ok`, with the handle of the one event that was registered.
    #[allow(non_snake_case)]
    pub fn Constructor(
        global: &mut GlobalScope,
        type_id: String,
        init: &WebGLContextEventInit,
    ) -> (result: Result<Root, ConstructError>)
        ensures
            result is Ok,
            final(global)@ == old(global)@.push(
                constructed_view(
                    type_id@,
                    init.parent.bubbles,
                    init.parent.cancelable,
                    status_message_of_init(*init),
                ),
            ),
            result matches Ok(root) ==> root@ == old(global)@.len(),
    {
        let status_message = match init.status_message.as_ref() {
            Some(message) => message.clone(),
            None => String::new(),
        };

        let bubbles = EventBubbles::from_bool(init.parent.bubbles);

        let cancelable = EventCancelable::from_bool(init.parent.cancelable);

        Ok(WebGLContextEvent::new(global, type_id, bubbles, cancelable, status_message))
    }

    /// Borrows the base event, as an upcast would.
    pub fn upcast(&self) -> (event: &Event)
        ensures
            event@ == self@.base,
    {
        &self.event
    }
}

/// For every status message `m`, the event that [`WebGLContextEvent::new_inherited`]
/// builds carries exactly `m`, so reading it back through
/// [`WebGLContextEvent::StatusMessage`] returns `m`.
pub proof fn lemma_new_inherited_keeps_status_message(status_message: Seq<char>)
    ensures
        fresh_view(status_message).status_message == status_message,
{
}

/// An initializer without a status message stands for the empty status
/// message: constructing from it yields an event whose message is empty text.
pub proof fn lemma_absent_status_message_defaults_to_empty(init: WebGLContextEventInit)
    requires
        init.status_message is None,
    ensures
        status_message_of_init(init) == Seq::<char>::empty(),
{
}

/// For every pair of policy booleans `(bubbles, cancelable)`, either
/// construction path yields a base event whose bubbling and cancelable
/// flags equal exactly that pair, and whose type name is the given one.
pub proof fn lemma_construction_fixes_base_flags(
    type_id: Seq<char>,
    bubbles: bool,
    cancelable: bool,
    status_message: Seq<char>,
)
    ensures
        constructed_view(type_id, bubbles, cancelable, status_message).base.bubbles == bubbles,
        constructed_view(type_id, bubbles, cancelable, status_message).base.cancelable
            == cancelable,
        constructed_view(type_id, bubbles, cancelable, status_message).base.type_id == type_id,
{
}

/// A freshly constructed event is exactly as trusted as an uninitialized
/// base event — that is, untrusted: neither creation path marks its result
/// trusted, whatever the arguments.
pub proof fn lemma_fresh_event_trust_is_the_default(
    type_id: Seq<char>,
    bubbles: bool,
    cancelable: bool,
    status_message: Seq<char>,
)
    ensures
        constructed_view(type_id, bubbles, cancelable, status_message).base.trusted
            == EventView::uninitialized().trusted,
        !constructed_view(type_id, bubbles, cancelable, status_message).base.trusted,
{
}

/// Trust is constant across the factory: any two events built by the
/// construction paths agree on their trusted flag, whatever their arguments.
pub proof fn lemma_factory_trust_is_constant(
    first: WebGLContextEventView,
    second: WebGLContextEventView,
)
    requires
        exists|t: Seq<char>, b: bool, c: bool, s: Seq<char>| first == constructed_view(t, b, c, s),
        exists|t: Seq<char>, b: bool, c: bool, s: Seq<char>| second == constructed_view(
            t,
            b,
            c,
            s,
        ),
    ensures
        first.base.trusted == second.base.trusted,
{
}

/// Reading the status message never changes it: any two reads that meet
/// [`WebGLContextEvent::StatusMessage`]'s contract against the same event
/// value return equal text. Together with the read taking the event by
/// shared reference, repeated calls are idempotent.
pub proof fn lemma_status_message_reads_agree(
    event: WebGLContextEventView,
    first: Seq<char>,
    second: Seq<char>,
)
    requires
        first == event.status_message,
        second == event.status_message,
    ensures
        first == second,
{
}

} // verus!
