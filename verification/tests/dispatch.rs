use pinbot::dispatch::{dispatch, drive, Core, Directive, InboundEvent, PIN_NOTICE_KIND};
use pinbot::handler::Invocation;

fn pin_invocation() -> Invocation {
    Invocation {
        command_name: String::from("Pin Message"),
        guild_id: Some(10),
        channel_id: Some(20),
        channel_name: Some(String::from("general")),
        user_name: Some(String::from("Alice")),
        target_message_id: Some(30),
    }
}

#[test]
fn ready_stores_identity() {
    let mut core = Core { self_id: None };
    let d = dispatch(&mut core, InboundEvent::Ready { user_id: 7 });
    assert_eq!(d, Directive::Nothing);
    assert_eq!(core.self_id, Some(7));
}

#[test]
fn later_ready_overwrites_identity() {
    let mut core = Core { self_id: Some(7) };
    dispatch(&mut core, InboundEvent::Ready { user_id: 8 });
    assert_eq!(core.self_id, Some(8));
}

#[test]
fn own_pin_notice_is_deleted() {
    let mut core = Core { self_id: Some(7) };
    let d = dispatch(
        &mut core,
        InboundEvent::Announced { author_id: 7, kind: PIN_NOTICE_KIND, channel_id: 1, message_id: 2 },
    );
    assert_eq!(d, Directive::Delete { channel_id: 1, message_id: 2 });
}

#[test]
fn other_authors_notice_is_kept() {
    let mut core = Core { self_id: Some(7) };
    let d = dispatch(
        &mut core,
        InboundEvent::Announced { author_id: 9, kind: PIN_NOTICE_KIND, channel_id: 1, message_id: 2 },
    );
    assert_eq!(d, Directive::Nothing);
}

#[test]
fn own_message_of_other_kind_is_kept() {
    let mut core = Core { self_id: Some(7) };
    let d = dispatch(
        &mut core,
        InboundEvent::Announced { author_id: 7, kind: 0, channel_id: 1, message_id: 2 },
    );
    assert_eq!(d, Directive::Nothing);
}

#[test]
fn notice_before_identity_is_known_is_kept() {
    let mut core = Core { self_id: None };
    let d = dispatch(
        &mut core,
        InboundEvent::Announced { author_id: 7, kind: PIN_NOTICE_KIND, channel_id: 1, message_id: 2 },
    );
    assert_eq!(d, Directive::Nothing);
}

#[test]
fn invocation_is_forwarded() {
    let mut core = Core { self_id: Some(7) };
    let inv = pin_invocation();
    let d = dispatch(&mut core, InboundEvent::Invoked { inv: inv.clone() });
    assert_eq!(d, Directive::Forward { inv });
}

#[test]
fn other_events_are_no_ops() {
    let mut core = Core { self_id: Some(7) };
    assert_eq!(dispatch(&mut core, InboundEvent::Other), Directive::Nothing);
    assert_eq!(core.self_id, Some(7));
}

#[test]
fn empty_event_sequence_does_nothing() {
    let mut core = Core { self_id: None };
    let log = drive(&mut core, vec![]);
    assert!(log.is_empty());
    assert_eq!(core.self_id, None);
}

#[test]
fn ready_then_own_notice_then_foreign_notice() {
    let mut core = Core { self_id: None };
    let log = drive(
        &mut core,
        vec![
            InboundEvent::Ready { user_id: 7 },
            InboundEvent::Announced { author_id: 7, kind: PIN_NOTICE_KIND, channel_id: 1, message_id: 2 },
            InboundEvent::Announced { author_id: 9, kind: PIN_NOTICE_KIND, channel_id: 1, message_id: 3 },
        ],
    );
    assert_eq!(
        log,
        vec![
            Directive::Nothing,
            Directive::Delete { channel_id: 1, message_id: 2 },
            Directive::Nothing,
        ]
    );
    assert_eq!(core.self_id, Some(7));
}

#[test]
fn suppression_holds_with_interleaved_invocations() {
    let mut core = Core { self_id: None };
    let log = drive(
        &mut core,
        vec![
            InboundEvent::Ready { user_id: 7 },
            InboundEvent::Invoked { inv: pin_invocation() },
            InboundEvent::Announced { author_id: 7, kind: PIN_NOTICE_KIND, channel_id: 1, message_id: 2 },
            InboundEvent::Other,
            InboundEvent::Announced { author_id: 7, kind: PIN_NOTICE_KIND, channel_id: 1, message_id: 4 },
        ],
    );
    assert_eq!(
        log,
        vec![
            Directive::Nothing,
            Directive::Forward { inv: pin_invocation() },
            Directive::Delete { channel_id: 1, message_id: 2 },
            Directive::Nothing,
            Directive::Delete { channel_id: 1, message_id: 4 },
        ]
    );
}

#[test]
fn nonfatal_transport_error_keeps_processing() {
    let mut core = Core { self_id: None };
    let log = drive(
        &mut core,
        vec![
            InboundEvent::Transport { fatal: false },
            InboundEvent::Ready { user_id: 7 },
            InboundEvent::Announced { author_id: 7, kind: PIN_NOTICE_KIND, channel_id: 1, message_id: 2 },
        ],
    );
    assert_eq!(
        log,
        vec![
            Directive::Nothing,
            Directive::Nothing,
            Directive::Delete { channel_id: 1, message_id: 2 },
        ]
    );
}

#[test]
fn fatal_transport_error_stops_the_loop() {
    let mut core = Core { self_id: None };
    let log = drive(
        &mut core,
        vec![
            InboundEvent::Ready { user_id: 7 },
            InboundEvent::Transport { fatal: true },
            InboundEvent::Announced { author_id: 7, kind: PIN_NOTICE_KIND, channel_id: 1, message_id: 2 },
        ],
    );
    assert_eq!(log, vec![Directive::Nothing, Directive::Exit]);
}
