//! Classification: table lookups, unknown pairs, and the power-event
//! exclusion.

use soundboard::event::{Event, EventType, Key, Synchronization};
use soundboard::input::{InputEventWrapper, Timestamp};

fn record(event_type: u16, code: u16) -> InputEventWrapper {
    InputEventWrapper { timestamp: Timestamp { secs: 0, nanos: 0 }, event_type, code, value: 0 }
}

#[test]
fn known_pairs_classify() {
    assert!(matches!(record(0, 0).as_event(), Some(Event::Synchronization(Synchronization::SYN_REPORT))));
    assert!(matches!(record(1, 1).as_event(), Some(Event::Key(Key::KEY_ESC))));
    assert!(matches!(record(1, 127).as_event(), Some(Event::Key(Key::KEY_COMPOSE))));
    assert!(matches!(record(2, 8).as_event(), Some(Event::RelativeAxis(_))));
    assert!(matches!(record(3, 40).as_event(), Some(Event::AbsoluteAxis(_))));
    assert!(matches!(record(4, 4).as_event(), Some(Event::Miscellaneous(_))));
    assert!(matches!(record(5, 16).as_event(), Some(Event::Switch(_))));
    assert!(matches!(record(17, 10).as_event(), Some(Event::LED(_))));
    assert!(matches!(record(18, 2).as_event(), Some(Event::Sound(_))));
    assert!(matches!(record(20, 1).as_event(), Some(Event::AutoRepeat(_))));
    assert!(matches!(record(21, 80).as_event(), Some(Event::ForceFeedback(_))));
    assert!(matches!(record(23, 1).as_event(), Some(Event::ForceFeedbackStatus(_))));
}

#[test]
fn unknown_event_type_yields_none() {
    for t in [6u16, 7, 16, 19, 24, 99, 1000, u16::MAX] {
        assert!(record(t, 0).as_event().is_none());
        assert!(record(t, 0).as_event_type().is_none());
    }
}

#[test]
fn unknown_code_within_known_type_yields_none() {
    assert!(record(0, 4).as_event().is_none());
    assert!(record(1, 84).as_event().is_none());
    assert!(record(1, 128).as_event().is_none());
    assert!(record(2, 10).as_event().is_none());
    assert!(record(3, 11).as_event().is_none());
    assert!(record(3, 41).as_event().is_none());
    assert!(record(4, 6).as_event().is_none());
    assert!(record(5, 17).as_event().is_none());
    assert!(record(17, 11).as_event().is_none());
    assert!(record(18, 3).as_event().is_none());
    assert!(record(20, 2).as_event().is_none());
    assert!(record(21, 79).as_event().is_none());
    assert!(record(21, 94).as_event().is_none());
    assert!(record(23, 2).as_event().is_none());
}

#[test]
fn power_events_are_never_classified() {
    for c in [0u16, 1, 2, 84, 255, u16::MAX] {
        let r = record(22, c);
        assert!(r.as_event().is_none());
        // the raw type is still in the table: the record stays usable
        assert!(matches!(r.as_event_type(), Some(EventType::EV_PWR)));
    }
}

#[test]
fn key_table_lookup() {
    assert!(matches!(Key::from_repr(0), Some(Key::KEY_RESERVED)));
    assert!(matches!(Key::from_repr(57), Some(Key::KEY_SPACE)));
    assert!(matches!(Key::from_repr(83), Some(Key::KEY_KPDOT)));
    assert!(Key::from_repr(84).is_none());
    assert!(matches!(Key::from_repr(85), Some(Key::KEY_ZENKAKUHANKAKU)));
    assert!(Key::from_repr(128).is_none());
    assert!(Key::from_repr(u16::MAX).is_none());
}

#[test]
fn event_type_table_lookup() {
    assert!(matches!(EventType::from_repr(0), Some(EventType::EV_SYN)));
    assert!(matches!(EventType::from_repr(1), Some(EventType::EV_KEY)));
    assert!(matches!(EventType::from_repr(23), Some(EventType::EV_FF_STATUS)));
    assert!(EventType::from_repr(6).is_none());
    assert!(EventType::from_repr(19).is_none());
    assert!(EventType::from_repr(24).is_none());
}
