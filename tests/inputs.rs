use rdr2_config::inputs::{
    decode_console_record, decode_fallback_byte, decode_stream_value, stream_value, ConsoleRecord,
    KeyCode, ARROW_DOWN_VALUE, ARROW_LEFT_VALUE, ARROW_RIGHT_VALUE, ARROW_UP_VALUE, KEY_EVENT,
};

fn key_down(vk: u16, ch: u16) -> ConsoleRecord {
    ConsoleRecord { event_type: KEY_EVENT, key_down: true, virtual_keycode: vk, character_data: ch }
}

#[test]
fn stream_letters_decode_to_chars() {
    assert_eq!(decode_stream_value(97), KeyCode::Char('a'));
    assert_eq!(decode_stream_value(65), KeyCode::Char('A'));
    assert_eq!(decode_stream_value(90), KeyCode::Char('Z'));
    assert_eq!(decode_stream_value(122), KeyCode::Char('z'));
}

#[test]
fn stream_enter_from_cr_and_lf() {
    assert_eq!(decode_stream_value(13), KeyCode::Enter);
    assert_eq!(decode_stream_value(10), KeyCode::Enter);
}

#[test]
fn stream_space_and_backspace() {
    assert_eq!(decode_stream_value(32), KeyCode::Space);
    assert_eq!(decode_stream_value(127), KeyCode::Backspace);
}

#[test]
fn stream_arrow_sequences() {
    assert_eq!(decode_stream_value(stream_value(&[0x1b, b'[', b'A'])), KeyCode::ArrowUp);
    assert_eq!(decode_stream_value(stream_value(&[0x1b, b'[', b'B'])), KeyCode::ArrowDown);
    assert_eq!(decode_stream_value(stream_value(&[0x1b, b'[', b'C'])), KeyCode::ArrowRight);
    assert_eq!(decode_stream_value(stream_value(&[0x1b, b'[', b'D'])), KeyCode::ArrowLeft);
    assert_eq!(decode_stream_value(ARROW_UP_VALUE), KeyCode::ArrowUp);
    assert_eq!(decode_stream_value(ARROW_DOWN_VALUE), KeyCode::ArrowDown);
    assert_eq!(decode_stream_value(ARROW_RIGHT_VALUE), KeyCode::ArrowRight);
    assert_eq!(decode_stream_value(ARROW_LEFT_VALUE), KeyCode::ArrowLeft);
}

#[test]
fn stream_other_keeps_the_value() {
    assert_eq!(decode_stream_value(0), KeyCode::Other(0));
    assert_eq!(decode_stream_value(27), KeyCode::Other(27));
    assert_eq!(decode_stream_value(49), KeyCode::Other(49));
    assert_eq!(decode_stream_value(64), KeyCode::Other(64));
    assert_eq!(decode_stream_value(91), KeyCode::Other(91));
    assert_eq!(decode_stream_value(0x7e335b1b), KeyCode::Other(0x7e335b1b));
    assert_eq!(decode_stream_value(u64::MAX), KeyCode::Other(u64::MAX));
}

#[test]
fn stream_decoding_is_repeatable() {
    for v in [0u64, 10, 13, 32, 97, 127, ARROW_UP_VALUE, 12345] {
        assert_eq!(decode_stream_value(v), decode_stream_value(v));
    }
}

#[test]
fn stream_value_is_little_endian() {
    assert_eq!(stream_value(&[]), 0);
    assert_eq!(stream_value(&[97]), 97);
    assert_eq!(stream_value(&[0x1b, 0x5b, 0x41]), 0x415b1b);
    assert_eq!(stream_value(&[1, 2, 3, 4, 5, 6, 7, 8]), 0x0807060504030201);
    assert_eq!(stream_value(&[0xff; 8]), u64::MAX);
}

#[test]
fn console_character_keys() {
    assert_eq!(decode_console_record(&key_down(0x41, 97)), Some(KeyCode::Char('a')));
    assert_eq!(decode_console_record(&key_down(0x41, 65)), Some(KeyCode::Char('A')));
    assert_eq!(decode_console_record(&key_down(0x08, 8)), Some(KeyCode::Backspace));
    assert_eq!(decode_console_record(&key_down(0x0d, 13)), Some(KeyCode::Enter));
    assert_eq!(decode_console_record(&key_down(0x20, 32)), Some(KeyCode::Space));
    assert_eq!(decode_console_record(&key_down(0x31, 49)), Some(KeyCode::Other(49)));
}

#[test]
fn console_character_wins_over_virtual_code() {
    assert_eq!(decode_console_record(&key_down(0x25, 97)), Some(KeyCode::Char('a')));
}

#[test]
fn console_arrow_keys() {
    assert_eq!(decode_console_record(&key_down(0x25, 0)), Some(KeyCode::ArrowLeft));
    assert_eq!(decode_console_record(&key_down(0x26, 0)), Some(KeyCode::ArrowUp));
    assert_eq!(decode_console_record(&key_down(0x27, 0)), Some(KeyCode::ArrowRight));
    assert_eq!(decode_console_record(&key_down(0x28, 0)), Some(KeyCode::ArrowDown));
}

#[test]
fn console_records_without_result_are_skipped() {
    // a modifier press: no character, no arrow
    assert_eq!(decode_console_record(&key_down(0x10, 0)), None);
    // a key release
    let mut up = key_down(0x41, 97);
    up.key_down = false;
    assert_eq!(decode_console_record(&up), None);
    // a non-key event
    let mut focus = key_down(0x41, 97);
    focus.event_type = 0x10;
    assert_eq!(decode_console_record(&focus), None);
}

#[test]
fn fallback_byte_decoding() {
    assert_eq!(decode_fallback_byte(b'q'), KeyCode::Char('q'));
    assert_eq!(decode_fallback_byte(b'Q'), KeyCode::Char('Q'));
    assert_eq!(decode_fallback_byte(0), KeyCode::Other(0));
    assert_eq!(decode_fallback_byte(13), KeyCode::Other(13));
}
