use rdr2_config::inputs::{ConsoleRecord, KeyCode, KEY_EVENT};
use rdr2_config::session::{raw_mode_of, Action, Backend, Event, Phase, ReadKeySession};

/// Feeds `events` after the first action and returns every action asked for.
fn drive(b: Backend, events: &[Event]) -> (ReadKeySession, Vec<Action>) {
    let (mut s, first) = ReadKeySession::begin(b);
    let mut actions = vec![first];
    for e in events {
        actions.push(s.step(*e));
    }
    (s, actions)
}

/// The mode a terminal holds after performing `actions`, starting at `m`.
fn mode_after(m: u32, actions: &[Action]) -> u32 {
    let mut m = m;
    for a in actions {
        if let Action::WriteMode(x) = a {
            m = *x;
        }
    }
    m
}

const START_MODE: u32 = 0x8a3b;

#[test]
fn raw_mode_clears_only_line_and_echo_bits() {
    assert_eq!(raw_mode_of(Backend::Stream, 0xffff_ffff), 0xffff_fff5);
    assert_eq!(raw_mode_of(Backend::Console, 0xffff_ffff), 0xffff_fff9);
    assert_eq!(raw_mode_of(Backend::Stream, 0x30), 0x30);
    assert_eq!(raw_mode_of(Backend::Stream, START_MODE), 0x8a31);
}

#[test]
fn stream_read_restores_mode_and_returns_key() {
    let events = [
        Event::InputAcquired,
        Event::ModeRead(START_MODE),
        Event::ModeWritten,
        Event::Pending,
        Event::ByteDiscarded,
        Event::Pending,
        Event::ByteDiscarded,
        Event::NothingPending,
        Event::Value(97),
        Event::ModeWritten,
    ];
    let (s, actions) = drive(Backend::Stream, &events);
    assert_eq!(
        actions,
        vec![
            Action::AcquireInput,
            Action::ReadMode,
            Action::WriteMode(raw_mode_of(Backend::Stream, START_MODE)),
            Action::PollPending,
            Action::DiscardByte,
            Action::PollPending,
            Action::DiscardByte,
            Action::PollPending,
            Action::ReadValue,
            Action::WriteMode(START_MODE),
            Action::Finish(KeyCode::Char('a')),
        ]
    );
    assert_eq!(s.phase, Phase::Done { key: KeyCode::Char('a') });
    assert_eq!(mode_after(START_MODE, &actions), START_MODE);
}

#[test]
fn stream_flush_discards_exactly_the_pending_bytes() {
    let events = [
        Event::InputAcquired,
        Event::ModeRead(START_MODE),
        Event::ModeWritten,
        Event::Pending,
        Event::ByteDiscarded,
        Event::Pending,
        Event::ByteDiscarded,
        Event::Pending,
        Event::ByteDiscarded,
        Event::NothingPending,
    ];
    let (s, actions) = drive(Backend::Stream, &events);
    assert_eq!(actions.iter().filter(|a| **a == Action::DiscardByte).count(), 3);
    assert_eq!(*actions.last().unwrap(), Action::ReadValue);
    assert_eq!(s.phase, Phase::AwaitValue { saved: START_MODE });
}

#[test]
fn stream_flush_of_empty_queue_discards_nothing() {
    let events = [Event::InputAcquired, Event::ModeRead(1), Event::ModeWritten, Event::NothingPending];
    let (_, actions) = drive(Backend::Stream, &events);
    assert!(!actions.contains(&Action::DiscardByte));
    assert_eq!(*actions.last().unwrap(), Action::ReadValue);
}

#[test]
fn stream_poll_failure_ends_the_flush() {
    let events = [Event::InputAcquired, Event::ModeRead(1), Event::ModeWritten, Event::PollFailed];
    let (_, actions) = drive(Backend::Stream, &events);
    assert_eq!(*actions.last().unwrap(), Action::ReadValue);
}

#[test]
fn stream_failed_read_yields_other_zero() {
    let events = [
        Event::InputAcquired,
        Event::ModeRead(START_MODE),
        Event::ModeWritten,
        Event::NothingPending,
        Event::Value(0),
        Event::ModeRejected,
    ];
    let (s, actions) = drive(Backend::Stream, &events);
    assert_eq!(s.phase, Phase::Done { key: KeyCode::Other(0) });
    assert_eq!(mode_after(START_MODE, &actions), START_MODE);
}

#[test]
fn stream_arrow_read() {
    let events = [
        Event::InputAcquired,
        Event::ModeRead(START_MODE),
        Event::ModeWritten,
        Event::NothingPending,
        Event::Value(0x425b1b),
        Event::ModeWritten,
    ];
    let (s, _) = drive(Backend::Stream, &events);
    assert_eq!(s.phase, Phase::Done { key: KeyCode::ArrowDown });
}

#[test]
fn unavailable_input_gives_error_without_mode_writes() {
    for b in [Backend::Stream, Backend::Console] {
        let events = [Event::InputUnavailable, Event::ModeWritten, Event::Value(97)];
        let (s, actions) = drive(b, &events);
        assert_eq!(s.phase, Phase::Done { key: KeyCode::Error });
        assert!(actions.iter().all(|a| !matches!(a, Action::WriteMode(_))));
        assert_eq!(actions[1], Action::Finish(KeyCode::Error));
    }
}

#[test]
fn unreadable_mode_gives_error_without_mode_writes() {
    let events = [Event::InputAcquired, Event::ModeUnreadable];
    let (s, actions) = drive(Backend::Stream, &events);
    assert_eq!(s.phase, Phase::Done { key: KeyCode::Error });
    assert!(actions.iter().all(|a| !matches!(a, Action::WriteMode(_))));
}

#[test]
fn rejected_raw_mode_restores_and_gives_error() {
    let events = [Event::InputAcquired, Event::ModeRead(START_MODE), Event::ModeRejected, Event::ModeWritten];
    let (s, actions) = drive(Backend::Console, &events);
    assert_eq!(actions[3], Action::WriteMode(START_MODE));
    assert_eq!(s.phase, Phase::Done { key: KeyCode::Error });
    assert_eq!(mode_after(START_MODE, &actions), START_MODE);
}

fn record(event_type: u16, key_down: bool, vk: u16, ch: u16) -> Event {
    Event::Record(ConsoleRecord { event_type, key_down, virtual_keycode: vk, character_data: ch })
}

#[test]
fn console_read_skips_releases_and_unmapped_keys() {
    let events = [
        Event::InputAcquired,
        Event::ModeRead(START_MODE),
        Event::ModeWritten,
        Event::QueueDiscarded,
        record(2, true, 0, 0),
        record(KEY_EVENT, false, 0x41, 97),
        record(KEY_EVENT, true, 0x10, 0),
        record(KEY_EVENT, true, 0x26, 0),
        Event::ModeWritten,
    ];
    let (s, actions) = drive(Backend::Console, &events);
    assert_eq!(
        actions,
        vec![
            Action::AcquireInput,
            Action::ReadMode,
            Action::WriteMode(raw_mode_of(Backend::Console, START_MODE)),
            Action::DiscardQueued,
            Action::ReadRecord,
            Action::ReadRecord,
            Action::ReadRecord,
            Action::ReadRecord,
            Action::WriteMode(START_MODE),
            Action::Finish(KeyCode::ArrowUp),
        ]
    );
    assert_eq!(s.phase, Phase::Done { key: KeyCode::ArrowUp });
}

#[test]
fn console_read_failure_takes_the_fallback_byte() {
    let events = [
        Event::InputAcquired,
        Event::ModeRead(START_MODE),
        Event::ModeWritten,
        Event::QueueDiscarded,
        Event::RecordFailed,
        Event::FallbackByte(b'x'),
        Event::ModeWritten,
    ];
    let (s, actions) = drive(Backend::Console, &events);
    assert_eq!(actions[5], Action::ReadFallbackByte);
    assert_eq!(actions[6], Action::WriteMode(START_MODE));
    assert_eq!(s.phase, Phase::Done { key: KeyCode::Char('x') });
    assert_eq!(mode_after(START_MODE, &actions), START_MODE);
}

#[test]
fn unexpected_events_repeat_the_awaited_action() {
    let (mut s, _) = ReadKeySession::begin(Backend::Stream);
    assert_eq!(s.step(Event::Value(5)), Action::AcquireInput);
    assert_eq!(s.step(Event::InputAcquired), Action::ReadMode);
    assert_eq!(s.step(Event::Pending), Action::ReadMode);
    assert_eq!(s.pending_action(), Action::ReadMode);
}

#[test]
fn discard_is_followed_by_a_poll_whatever_comes_back() {
    let events = [Event::InputAcquired, Event::ModeRead(1), Event::ModeWritten, Event::Pending, Event::PollFailed];
    let (_, actions) = drive(Backend::Stream, &events);
    assert_eq!(*actions.last().unwrap(), Action::PollPending);
}
