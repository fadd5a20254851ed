use vk_debug::filters::MessageSeverity;
use vk_debug::filters::MessageType;
use vk_debug::message::CallbackOutcome;
use vk_debug::message::Message;
use vk_debug::message::decode_event;
use vk_debug::message::trampoline_reply;
use vk_debug::registry::Registry;
use vk_debug::registry::register_with;
use vk_debug::subscription::DebugCallback;
use vk_debug::subscription::DebugCallbackCreationError;

#[test]
fn decode_event_builds_message() {
    let m = decode_event(
        0x1100,
        0x1,
        Some(String::from("layer")),
        String::from("something went wrong"),
    );
    assert_eq!(m.severity, MessageSeverity::errors_and_warnings());
    assert_eq!(m.ty, MessageType::general());
    assert_eq!(m.layer_prefix, Some(String::from("layer")));
    assert_eq!(m.description, "something went wrong");
}

#[test]
fn decode_event_absent_prefix_stays_absent() {
    let m = decode_event(0x1, 0x4, None, String::from("note"));
    assert_eq!(m.severity, MessageSeverity::verbose());
    assert_eq!(m.ty, MessageType::performance());
    assert_eq!(m.layer_prefix, None);
}

#[test]
fn trampoline_reply_is_continue_whatever_happened() {
    assert_eq!(trampoline_reply(CallbackOutcome::Completed), ash::vk::FALSE);
    assert_eq!(trampoline_reply(CallbackOutcome::Failed), ash::vk::FALSE);
}

#[test]
fn new_without_extension_is_refused() {
    let r = DebugCallback::new(false, MessageSeverity::all(), MessageType::all());
    assert_eq!(r, Err(DebugCallbackCreationError::MissingExtension));
}

#[test]
fn creation_error_description() {
    let e = DebugCallbackCreationError::MissingExtension;
    assert_eq!(e.description(), "the `EXT_debug_utils` extension was not enabled");
}

#[test]
fn new_with_extension_encodes_descriptor() {
    let r = DebugCallback::new(true, MessageSeverity::errors_and_warnings(), MessageType::general());
    let request = r.unwrap();
    assert_eq!(request.severity_bits, 0x1100);
    assert_eq!(request.type_bits, 0x1);
}

#[test]
fn errors_and_warnings_matches_new_with_presets() {
    assert_eq!(
        DebugCallback::errors_and_warnings(true),
        DebugCallback::new(true, MessageSeverity::errors_and_warnings(), MessageType::general())
    );
    assert_eq!(
        DebugCallback::errors_and_warnings(false),
        Err(DebugCallbackCreationError::MissingExtension)
    );
}

#[test]
fn teardown_surrenders_handle_exactly_once() {
    let mut cb = DebugCallback::activate(7);
    assert!(cb.is_live());
    assert_eq!(cb.handle(), 7);
    assert_eq!(cb.teardown(), Some(7));
    assert!(!cb.is_live());
    assert_eq!(cb.teardown(), None);
    assert_eq!(cb.teardown(), None);
}

#[test]
fn create_without_capability_issues_zero_native_calls() {
    let mut registry = Registry::new();
    let r = register_with(&mut registry, false, MessageSeverity::all(), MessageType::all());
    assert!(r.is_err());
    assert_eq!(registry.create_count(), 0);
}

#[test]
fn create_with_capability_issues_one_native_call() {
    let mut registry = Registry::new();
    let cb = register_with(&mut registry, true, MessageSeverity::errors(), MessageType::general())
        .unwrap();
    assert_eq!(registry.create_count(), 1);
    assert!(registry.is_registered(cb.handle()));
}

#[test]
fn three_events_are_translated_not_filtered() {
    // The filter asks the native side for errors and warnings of general
    // kind, but whatever event actually arrives must be decoded and
    // delivered unchanged: filtering is the native side's job.
    let mut registry = Registry::new();
    let cb = register_with(
        &mut registry,
        true,
        MessageSeverity::errors_and_warnings(),
        MessageType::general(),
    )
    .unwrap();
    let handle = cb.handle();

    let mut texts: Vec<String> = Vec::new();
    let mut seen: Vec<Message> = Vec::new();
    let mut callback = |m: Message| {
        texts.push(m.description.clone());
        seen.push(m);
    };

    let events: [(u32, u32, &str); 3] = [
        (0x1000, 0x1, "A"),  // error, general
        (0x10, 0x1, "B"),    // information, general
        (0x1000, 0x4, "C"),  // error, performance
    ];
    for (severity_bits, type_bits, text) in events {
        let delivered = registry.deliver(handle, severity_bits, type_bits, None, text.to_string());
        callback(delivered.expect("a live registration delivers every event"));
    }

    assert_eq!(texts, vec!["A".to_string(), "B".to_string(), "C".to_string()]);
    assert_eq!(seen[0].severity, MessageSeverity::errors());
    assert_eq!(seen[0].ty, MessageType::general());
    assert_eq!(seen[1].severity, MessageSeverity::information());
    assert_eq!(seen[1].ty, MessageType::general());
    assert_eq!(seen[2].severity, MessageSeverity::errors());
    assert_eq!(seen[2].ty, MessageType::performance());
}

#[test]
fn failed_callback_does_not_stop_later_deliveries() {
    let mut registry = Registry::new();
    let cb = register_with(&mut registry, true, MessageSeverity::all(), MessageType::all())
        .unwrap();
    let handle = cb.handle();

    let first = registry.deliver(handle, 0x1000, 0x1, None, "boom".to_string());
    assert!(first.is_some());
    // The user callback fails on this message; the guard contains the
    // failure and the trampoline still answers "continue".
    assert_eq!(trampoline_reply(CallbackOutcome::Failed), 0);
    // The next event reaches the callback as if nothing had happened.
    let second = registry.deliver(handle, 0x100, 0x1, None, "still here".to_string());
    assert_eq!(second.unwrap().description, "still here");
}

#[test]
fn no_delivery_after_teardown() {
    let mut registry = Registry::new();
    let mut cb = register_with(&mut registry, true, MessageSeverity::all(), MessageType::all())
        .unwrap();
    let handle = cb.handle();
    assert!(registry.deliver(handle, 0x1, 0x1, None, "before".to_string()).is_some());

    let released = cb.teardown().expect("an active registration surrenders its handle");
    registry.destroy(released);

    // The native double still holds the stored trampoline/user-data pair and
    // tries to invoke it again: nothing may reach the callback.
    assert!(registry.deliver(handle, 0x1, 0x1, None, "after".to_string()).is_none());
    assert!(!registry.is_registered(handle));
    // A later, unrelated registration does not revive the dead handle.
    let other = register_with(&mut registry, true, MessageSeverity::errors(), MessageType::general())
        .unwrap();
    assert_ne!(other.handle(), handle);
    assert!(registry.deliver(handle, 0x1, 0x1, None, "later".to_string()).is_none());
}

#[test]
fn teardown_then_drop_releases_once() {
    // The shell frees the heap-allocated callback object exactly when
    // teardown surrenders the handle; this mimics its close and drop paths
    // and counts the releases.
    let mut registry = Registry::new();
    let mut cb = register_with(&mut registry, true, MessageSeverity::errors(), MessageType::general())
        .unwrap();
    let mut releases: u32 = 0;

    // Explicit close.
    if let Some(handle) = cb.teardown() {
        registry.destroy(handle);
        releases += 1;
    }
    // Drop path runs the same logic again.
    if let Some(handle) = cb.teardown() {
        registry.destroy(handle);
        releases += 1;
    }
    // A second drop of a moved-back value would run it a third time.
    if let Some(handle) = cb.teardown() {
        registry.destroy(handle);
        releases += 1;
    }
    assert_eq!(releases, 1);
}
