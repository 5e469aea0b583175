use rusty_rover::{
    classify, dispatch_event, handle_common_evt, handle_gap_evt, handle_gattc_evt,
    handle_gatts_evt, CommonEvent, Dispatched, EventCategory, GapEvent, GattsEvent,
};

#[test]
fn range_boundaries() {
    assert_eq!(classify(0), EventCategory::Unknown);
    assert_eq!(classify(1), EventCategory::Common);
    assert_eq!(classify(15), EventCategory::Common);
    assert_eq!(classify(16), EventCategory::Gap);
    assert_eq!(classify(47), EventCategory::Gap);
    assert_eq!(classify(48), EventCategory::Gattc);
    assert_eq!(classify(79), EventCategory::Gattc);
    assert_eq!(classify(80), EventCategory::Gatts);
    assert_eq!(classify(111), EventCategory::Gatts);
    assert_eq!(classify(112), EventCategory::Unknown);
    assert_eq!(classify(u16::MAX), EventCategory::Unknown);
}

#[test]
fn dispatch_goes_to_one_handler_of_the_right_category() {
    for id in 0u16..=300 {
        let d = dispatch_event(id);
        let expected = match classify(id) {
            EventCategory::Common => Dispatched::Common(handle_common_evt(id)),
            EventCategory::Gap => Dispatched::Gap(handle_gap_evt(id)),
            EventCategory::Gattc => Dispatched::Gattc(handle_gattc_evt(id)),
            EventCategory::Gatts => Dispatched::Gatts(handle_gatts_evt(id)),
            EventCategory::Unknown => Dispatched::Unknown(id),
        };
        assert_eq!(d, expected);
    }
}

#[test]
fn sub_events_are_recognized() {
    assert_eq!(handle_common_evt(1), CommonEvent::UserMemRequest);
    assert_eq!(handle_common_evt(2), CommonEvent::UserMemRelease);
    assert_eq!(handle_common_evt(3), CommonEvent::Unrecognized(3));
    assert_eq!(handle_gap_evt(16), GapEvent::Connected);
    assert_eq!(handle_gap_evt(17), GapEvent::Disconnected);
    assert_eq!(handle_gap_evt(24), GapEvent::Unrecognized(24));
    assert_eq!(handle_gap_evt(38), GapEvent::AdvSetTerminated);
    assert_eq!(handle_gatts_evt(80), GattsEvent::Write);
    assert_eq!(handle_gatts_evt(87), GattsEvent::HvnTxComplete);
    assert_eq!(handle_gatts_evt(88), GattsEvent::Unrecognized(88));
    assert_eq!(handle_gattc_evt(50), 50);
}

#[test]
fn unknown_identifier_is_not_fatal() {
    assert_eq!(dispatch_event(0), Dispatched::Unknown(0));
    assert_eq!(dispatch_event(500), Dispatched::Unknown(500));
}

#[test]
fn only_a_gatts_write_asks_for_the_command() {
    assert!(dispatch_event(80).is_write());
    assert!(!dispatch_event(81).is_write());
    assert!(!dispatch_event(16).is_write());
    assert!(!dispatch_event(0).is_write());
}
