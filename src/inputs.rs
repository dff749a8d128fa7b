//! Key codes and the pure decoders that turn raw terminal input into them.
use vstd::prelude::*;

verus! {

/// One decoded key press.
#[derive(Debug, Clone, Copy, PartialEq, Eq, Structural)]
pub enum KeyCode {
    Char(char),
    Enter,
    Backspace,
    Space,
    ArrowUp,
    ArrowDown,
    ArrowRight,
    ArrowLeft,
    /// Any other input; the payload is the undecoded value.
    Other(u64),
    /// The input device could not be acquired or configured.
    Error,
}

/// `ESC [ A` read as one little-endian integer.
pub const ARROW_UP_VALUE: u64 = 0x415b1b;
/// `ESC [ B` read as one little-endian integer.
pub const ARROW_DOWN_VALUE: u64 = 0x425b1b;
/// `ESC [ C` read as one little-endian integer.
pub const ARROW_RIGHT_VALUE: u64 = 0x435b1b;
/// `ESC [ D` read as one little-endian integer.
pub const ARROW_LEFT_VALUE: u64 = 0x445b1b;

/// Event kind of a console input record that carries a key event.
pub const KEY_EVENT: u16 = 1;

/// Virtual key codes of the arrow keys.
pub const VK_LEFT: u16 = 0x25;
pub const VK_UP: u16 = 0x26;
pub const VK_RIGHT: u16 = 0x27;
pub const VK_DOWN: u16 = 0x28;

/// The fields of a console input record that decoding reads.
#[derive(Debug, Clone, Copy, PartialEq, Eq, Structural)]
pub struct ConsoleRecord {
    pub event_type: u16,
    pub key_down: bool,
    pub virtual_keycode: u16,
    pub character_data: u16,
}

/// ASCII `A`..=`Z` or `a`..=`z`.
pub open spec fn is_letter_code(v: int) -> bool {
    (65 <= v <= 90) || (97 <= v <= 122)
}

/// The key that one read of the byte stream stands for.
pub open spec fn stream_key(v: u64) -> KeyCode {
    if is_letter_code(v as int) {
        KeyCode::Char(v as char)
    } else if v == 10 || v == 13 {
        KeyCode::Enter
    } else if v == 32 {
        KeyCode::Space
    } else if v == 127 {
        KeyCode::Backspace
    } else if v == ARROW_UP_VALUE {
        KeyCode::ArrowUp
    } else if v == ARROW_DOWN_VALUE {
        KeyCode::ArrowDown
    } else if v == ARROW_RIGHT_VALUE {
        KeyCode::ArrowRight
    } else if v == ARROW_LEFT_VALUE {
        KeyCode::ArrowLeft
    } else {
        KeyCode::Other(v)
    }
}

/// The key that a console record stands for, or `None` where the record is
/// not a key press that decodes to anything and the next record must be read.
pub open spec fn console_key(r: ConsoleRecord) -> Option<KeyCode> {
    if r.event_type != KEY_EVENT || !r.key_down {
        None
    } else if r.character_data != 0 {
        let c = r.character_data;
        if is_letter_code(c as int) {
            Some(KeyCode::Char(c as char))
        } else if c == 8 {
            Some(KeyCode::Backspace)
        } else if c == 13 {
            Some(KeyCode::Enter)
        } else if c == 32 {
            Some(KeyCode::Space)
        } else {
            Some(KeyCode::Other(c as u64))
        }
    } else if r.virtual_keycode == VK_LEFT {
        Some(KeyCode::ArrowLeft)
    } else if r.virtual_keycode == VK_UP {
        Some(KeyCode::ArrowUp)
    } else if r.virtual_keycode == VK_RIGHT {
        Some(KeyCode::ArrowRight)
    } else if r.virtual_keycode == VK_DOWN {
        Some(KeyCode::ArrowDown)
    } else {
        None
    }
}

/// The key that a single byte read on the degraded path stands for.
pub open spec fn fallback_key(b: u8) -> KeyCode {
    if is_letter_code(b as int) {
        KeyCode::Char(b as char)
    } else {
        KeyCode::Other(b as u64)
    }
}

/// Decodes the integer assembled from one read of the byte stream.
pub fn decode_stream_value(v: u64) -> (r: KeyCode)
    ensures
        r == stream_key(v),
{
    if (65 <= v && v <= 90) || (97 <= v && v <= 122) {
        KeyCode::Char((v as u8) as char)
    } else if v == 10 || v == 13 {
        KeyCode::Enter
    } else if v == 32 {
        KeyCode::Space
    } else if v == 127 {
        KeyCode::Backspace
    } else if v == ARROW_UP_VALUE {
        KeyCode::ArrowUp
    } else if v == ARROW_DOWN_VALUE {
        KeyCode::ArrowDown
    } else if v == ARROW_RIGHT_VALUE {
        KeyCode::ArrowRight
    } else if v == ARROW_LEFT_VALUE {
        KeyCode::ArrowLeft
    } else {
        KeyCode::Other(v)
    }
}


/// Decodes one console input record; `None` means the record is skipped.
pub fn decode_console_record(r: &ConsoleRecord) -> (k: Option<KeyCode>)
    ensures
        k == console_key(*r),
{
    if r.event_type != KEY_EVENT || !r.key_down {
        return None;
    }
    let c = r.character_data;
    if c != 0 {
        if (65 <= c && c <= 90) || (97 <= c && c <= 122) {
            Some(KeyCode::Char((c as u8) as char))
        } else if c == 8 {
            Some(KeyCode::Backspace)
        } else if c == 13 {
            Some(KeyCode::Enter)
        } else if c == 32 {
            Some(KeyCode::Space)
        } else {
            Some(KeyCode::Other(c as u64))
        }
    } else if r.virtual_keycode == VK_LEFT {
        Some(KeyCode::ArrowLeft)
    } else if r.virtual_keycode == VK_UP {
        Some(KeyCode::ArrowUp)
    } else if r.virtual_keycode == VK_RIGHT {
        Some(KeyCode::ArrowRight)
    } else if r.virtual_keycode == VK_DOWN {
        Some(KeyCode::ArrowDown)
    } else {
        None
    }
}

/// Decodes the single byte read on the degraded console path.
pub fn decode_fallback_byte(b: u8) -> (k: KeyCode)
    ensures
        k == fallback_key(b),
{
    if (65 <= b && b <= 90) || (97 <= b && b <= 122) {
        KeyCode::Char(b as char)
    } else {
        KeyCode::Other(b as u64)
    }
}

/// The value of bytes taken in order, the first byte least significant.
pub open spec fn le_value(s: Seq<u8>) -> nat
    decreases s.len(),
{
    if s.len() == 0 {
        0
    } else {
        s[0] as nat + 256 * le_value(s.drop_first())
    }
}

proof fn lemma_le_value_bound(s: Seq<u8>)
    ensures
        le_value(s) < pow256(s.len()),
    decreases s.len(),
{
    if s.len() > 0 {
        lemma_le_value_bound(s.drop_first());
        let rest = le_value(s.drop_first());
        let p = pow256((s.len() - 1) as nat);
        assert(s[0] as nat + 256 * rest < 256 * p) by (nonlinear_arith)
            requires
                rest < p,
                s[0] < 256,
        ;
    }
}

/// `256` raised to `n`.
pub open spec fn pow256(n: nat) -> nat
    decreases n,
{
    if n == 0 {
        1
    } else {
        256 * pow256((n - 1) as nat)
    }
}

proof fn lemma_pow256_monotone(a: nat, b: nat)
    requires
        a <= b,
    ensures
        pow256(a) <= pow256(b),
    decreases b,
{
    if a < b {
        lemma_pow256_monotone(a, (b - 1) as nat);
    }
}

/// Assembles the bytes of one stream read (at most eight) into the integer
/// that the stream decoder takes, in the order they arrived: the first byte is
/// the least significant.
pub fn stream_value(bytes: &[u8]) -> (v: u64)
    requires
        bytes@.len() <= 8,
    ensures
        v as nat == le_value(bytes@),
{
    let n = bytes.len();
    let mut v: u64 = 0;
    let mut i: usize = n;
    proof {
        assert(bytes@.subrange(n as int, n as int) =~= Seq::<u8>::empty());
    }
    while i > 0
        invariant
            n == bytes@.len(),
            n <= 8,
            i <= n,
            v as nat == le_value(bytes@.subrange(i as int, n as int)),
        decreases i,
    {
        let ghost rest = bytes@.subrange(i as int, n as int);
        let ghost next = bytes@.subrange(i - 1, n as int);
        proof {
            assert(next.drop_first() =~= rest);
            lemma_le_value_bound(next);
            lemma_pow256_monotone(next.len(), 8);
            assert(pow256(8) == 0x1_0000_0000_0000_0000) by {
                reveal_with_fuel(pow256, 9);
            }
        }
        v = v * 256 + bytes[i - 1] as u64;
        i = i - 1;
    }
    proof {
        assert(bytes@.subrange(0, n as int) =~= bytes@);
    }
    v
}

} // verus!
