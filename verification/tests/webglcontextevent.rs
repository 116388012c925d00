use webgl_context_event::event::{Event, EventBubbles, EventCancelable};
use webgl_context_event::global::GlobalScope;
use webgl_context_event::webglcontextevent::{EventInit, WebGLContextEvent, WebGLContextEventInit};

#[test]
fn new_inherited_keeps_status_message() {
    let event = WebGLContextEvent::new_inherited(String::from("the context was lost"));
    assert_eq!(event.StatusMessage(), "the context was lost");
}

#[test]
fn new_inherited_keeps_empty_status_message() {
    let event = WebGLContextEvent::new_inherited(String::new());
    assert_eq!(event.StatusMessage(), "");
}

#[test]
fn constructor_defaults_status_message_to_empty() {
    let mut global = GlobalScope::new();
    let init = WebGLContextEventInit {
        parent: EventInit { bubbles: false, cancelable: false },
        status_message: None,
    };
    let root =
        WebGLContextEvent::Constructor(&mut global, String::from("webglcontextlost"), &init)
            .unwrap();
    assert_eq!(global.get(root).StatusMessage(), "");
}

#[test]
fn constructor_keeps_explicit_status_message() {
    let mut global = GlobalScope::new();
    let init = WebGLContextEventInit {
        parent: EventInit { bubbles: false, cancelable: false },
        status_message: Some(String::from("driver reset")),
    };
    let root =
        WebGLContextEvent::Constructor(&mut global, String::from("webglcontextlost"), &init)
            .unwrap();
    let event = global.get(root);
    assert_eq!(event.StatusMessage(), "driver reset");
    let base = event.upcast();
    assert!(!base.bubbles());
    assert!(!base.cancelable());
}

#[test]
fn construction_fixes_policy_flags() {
    let pairs = [(false, false), (false, true), (true, false), (true, true)];
    for &(bubbles, cancelable) in pairs.iter() {
        let mut global = GlobalScope::new();
        let root = WebGLContextEvent::new(
            &mut global,
            String::from("webglcontextlost"),
            EventBubbles::from_bool(bubbles),
            EventCancelable::from_bool(cancelable),
            String::new(),
        );
        let base = global.get(root).upcast();
        assert_eq!(base.bubbles(), bubbles);
        assert_eq!(base.cancelable(), cancelable);
    }
}

#[test]
fn fresh_events_share_the_default_trust() {
    let default_trust = Event::new_inherited().is_trusted();

    let mut global = GlobalScope::new();
    let first = WebGLContextEvent::new(
        &mut global,
        String::from("webglcontextlost"),
        EventBubbles::from_bool(true),
        EventCancelable::from_bool(false),
        String::from("context lost"),
    );
    let init = WebGLContextEventInit {
        parent: EventInit { bubbles: false, cancelable: true },
        status_message: None,
    };
    let second =
        WebGLContextEvent::Constructor(&mut global, String::from("webglcontextrestored"), &init)
            .unwrap();

    assert_eq!(global.get(first).IsTrusted(), default_trust);
    assert_eq!(global.get(second).IsTrusted(), default_trust);
    assert_eq!(global.get(first).IsTrusted(), global.get(second).IsTrusted());
    assert!(!global.get(first).IsTrusted());
}

#[test]
fn status_message_reads_are_idempotent() {
    let event = WebGLContextEvent::new_inherited(String::from("power shortage"));
    let first = event.StatusMessage();
    let second = event.StatusMessage();
    let third = event.StatusMessage();
    assert_eq!(first, second);
    assert_eq!(second, third);
    assert_eq!(third, "power shortage");
}

#[test]
fn constructor_scenario_context_lost() {
    let mut global = GlobalScope::new();
    let init = WebGLContextEventInit {
        parent: EventInit { bubbles: true, cancelable: false },
        status_message: Some(String::from("context lost")),
    };
    let root =
        WebGLContextEvent::Constructor(&mut global, String::from("webglcontextlost"), &init)
            .unwrap();
    let event = global.get(root);
    assert_eq!(event.StatusMessage(), "context lost");
    let base = event.upcast();
    assert_eq!(base.type_id(), "webglcontextlost");
    assert!(base.bubbles());
    assert!(!base.cancelable());
}

#[test]
fn registry_keeps_every_event_in_order() {
    let mut global = GlobalScope::new();
    assert_eq!(global.event_count(), 0);

    let first = WebGLContextEvent::new(
        &mut global,
        String::from("webglcontextlost"),
        EventBubbles::from_bool(false),
        EventCancelable::from_bool(false),
        String::from("first loss"),
    );
    let second = WebGLContextEvent::new(
        &mut global,
        String::from("webglcontextrestored"),
        EventBubbles::from_bool(false),
        EventCancelable::from_bool(false),
        String::from("second loss"),
    );

    assert_eq!(global.event_count(), 2);
    assert_eq!(global.get(first).StatusMessage(), "first loss");
    assert_eq!(global.get(second).StatusMessage(), "second loss");
    assert_eq!(global.get(first).upcast().type_id(), "webglcontextlost");
    assert_eq!(global.get(second).upcast().type_id(), "webglcontextrestored");
}

#[test]
fn base_event_starts_uninitialized() {
    let event = Event::new_inherited();
    assert_eq!(event.type_id(), "");
    assert!(!event.bubbles());
    assert!(!event.cancelable());
    assert!(!event.is_trusted());
}

#[test]
fn init_event_sets_attributes_but_not_trust() {
    let mut event = Event::new_inherited();
    event.init_event(String::from("webglcontextrestored"), true, true);
    assert_eq!(event.type_id(), "webglcontextrestored");
    assert!(event.bubbles());
    assert!(event.cancelable());
    assert!(!event.is_trusted());
}

#[test]
fn policy_values_round_trip() {
    assert!(EventBubbles::from_bool(true).value());
    assert!(!EventBubbles::from_bool(false).value());
    assert!(EventCancelable::from_bool(true).value());
    assert!(!EventCancelable::from_bool(false).value());
}
