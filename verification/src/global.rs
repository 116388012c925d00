//! A model of the global execution context's reflection registry.
//!
//! In the surrounding engine, a freshly built event is registered with the
//! global scope's reflection mechanism, which owns it from then on and hands
//! back a garbage-collected handle. Here the registry is an arena: it keeps
//! every registered event, in registration order, and a [`Root`] handle is
//! an index into that arena. A handle stays valid for the registry's whole
//! lifetime, matching the engine's rule that only the registry ever releases
//! an object.

use vstd::prelude::*;

use crate::webglcontextevent::{WebGLContextEvent, WebGLContextEventView};

verus! {

/// A rooted, registry-owned handle to a registered event.
#[derive(Clone, Copy)]
pub struct Root {
    index: usize,
}

impl View for Root {
    type V = int;

    closed spec fn view(&self) -> int {
        self.index as int
    }
}

/// The global execution context: owns every event registered with it.
pub struct GlobalScope {
    events: Vec<WebGLContextEvent>,
}

impl View for GlobalScope {
    type V = Seq<WebGLContextEventView>;

    closed spec fn view(&self) -> Seq<WebGLContextEventView> {
        self.events@.map_values(|event: WebGLContextEvent| event@)
    }
}

impl GlobalScope {
    /// A fresh context with nothing registered.
    pub fn new() -> (global: GlobalScope)
        ensures
            global@ == Seq::<WebGLContextEventView>::empty(),
    {
        let global = GlobalScope { events: Vec::new() };
        proof {
            assert(global@ =~= Seq::<WebGLContextEventView>::empty());
        }
        global
    }

    /// Registers `event`, transferring ownership to the registry, and
    /// returns the rooted handle that now refers to it.
    pub fn reflect_dom_object(&mut self, event: WebGLContextEvent) -> (root: Root)
        ensures
            final(self)@ == old(self)@.push(event@),
            root@ == old(self)@.len(),
    {
        let index = self.events.len();
        self.events.push(event);
        proof {
            assert(self@ =~= old(self)@.push(event@));
        }
        Root { index }
    }

    /// How many events have been registered.
    pub fn event_count(&self) -> (count: usize)
        ensures
            count == self@.len(),
    {
        self.events.len()
    }

    /// Borrows the event that `root` refers to.
    pub fn get(&self, root: Root) -> (event: &WebGLContextEvent)
        requires
            0 <= root@ < self@.len(),
        ensures
            event@ == self@[root@],
    {
        &self.events[root.index]
    }
}

} // verus!
