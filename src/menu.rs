//! The settings editor's screen text and what each key does to the settings.
use vstd::prelude::*;
use vstd::string::{StringExecFns, StrSliceExecFns};
use crate::settings::{
    lemma_wf_selections, Setting, SettingType, setting_type_wf, all_wf, selection_in_range, selections_in_range,
};
use crate::inputs::KeyCode;

verus! {

/// Column at which a setting's value starts on screen.
pub const PADDING: usize = 40;

/// The character of decimal digit `d`.
pub open spec fn digit_char(d: nat) -> char {
    if d == 0 {
        '0'
    } else if d == 1 {
        '1'
    } else if d == 2 {
        '2'
    } else if d == 3 {
        '3'
    } else if d == 4 {
        '4'
    } else if d == 5 {
        '5'
    } else if d == 6 {
        '6'
    } else if d == 7 {
        '7'
    } else if d == 8 {
        '8'
    } else {
        '9'
    }
}

/// The decimal numeral of `n`, without leading zeros.
pub open spec fn decimal(n: nat) -> Seq<char>
    decreases n,
{
    if n < 10 {
        seq![digit_char(n)]
    } else {
        decimal(n / 10).push(digit_char(n % 10))
    }
}

fn digit_str(d: usize) -> (r: &'static str)
    requires
        d < 10,
    ensures
        r@ == seq![digit_char(d as nat)],
{
    proof {
        reveal_strlit("0");
        reveal_strlit("1");
        reveal_strlit("2");
        reveal_strlit("3");
        reveal_strlit("4");
        reveal_strlit("5");
        reveal_strlit("6");
        reveal_strlit("7");
        reveal_strlit("8");
        reveal_strlit("9");
    }
    match d {
        0 => "0",
        1 => "1",
        2 => "2",
        3 => "3",
        4 => "4",
        5 => "5",
        6 => "6",
        7 => "7",
        8 => "8",
        _ => "9",
    }
}

/// The decimal numeral of `n`.
pub fn decimal_string(n: usize) -> (r: String)
    ensures
        r@ == decimal(n as nat),
    decreases n,
{
    if n < 10 {
        digit_str(n).to_owned()
    } else {
        let mut s = decimal_string(n / 10);
        s.append(digit_str(n % 10));
        s
    }
}

/// The value of a setting as shown on screen.
pub open spec fn value_text(t: SettingType) -> Seq<char> {
    match t {
        SettingType::Level(sel, opts, _) => opts@[sel as int].nice_name@,
        SettingType::OnOff(enabled) => if enabled {
            "ON"@
        } else {
            "OFF"@
        },
        SettingType::Multiplier(v, _) => if v == 0 {
            "OFF"@
        } else {
            "X"@ + decimal(v as nat)
        },
        SettingType::OnHalfOff(v) => if v == 0 {
            "OFF"@
        } else if v == 1 {
            "ON"@
        } else if v == 2 {
            "HALF"@
        } else {
            Seq::empty()
        },
        SettingType::Slider(v, _, _) => decimal(v as nat),
    }
}

/// Appends a setting's value as shown on screen, and a line break.
pub fn append_setting_type(format: &mut String, setting_type: &SettingType)
    requires
        selection_in_range(*setting_type),
    ensures
        final(format)@ == old(format)@ + value_text(*setting_type) + "\n"@,
{
    match setting_type {
        SettingType::Level(selected_index, selectable, _) => {
            format.append(selectable[*selected_index].nice_name.as_str());
        },
        SettingType::OnOff(enabled) => {
            if *enabled {
                format.append("ON");
            } else {
                format.append("OFF");
            }
        },
        SettingType::Multiplier(value, _) => {
            if *value == 0 {
                format.append("OFF");
            } else {
                format.append("X");
                let digits = decimal_string(*value);
                format.append(digits.as_str());
                assert(format@ =~= old(format)@ + ("X"@ + decimal(*value as nat)));
            }
        },
        SettingType::OnHalfOff(value) => {
            if *value == 0 {
                format.append("OFF");
            } else if *value == 1 {
                format.append("ON");
            } else if *value == 2 {
                format.append("HALF");
            } else {
                assert(format@ =~= old(format)@ + Seq::<char>::empty());
            }
        },
        SettingType::Slider(value, _, _) => {
            let digits = decimal_string(*value);
            format.append(digits.as_str());
        },
    }
    format.append("\n");
}

/// `n` spaces.
pub open spec fn spaces(n: nat) -> Seq<char> {
    Seq::new(n, |i: int| ' ')
}

/// Appends `spaces_count` spaces.
pub fn pad_with_spaces(text: &mut String, spaces_count: usize)
    ensures
        final(text)@ == old(text)@ + spaces(spaces_count as nat),
{
    proof {
        reveal_strlit(" ");
        assert(old(text)@ =~= old(text)@ + spaces(0));
    }
    let mut i: usize = 0;
    while i < spaces_count
        invariant
            i <= spaces_count,
            text@ == old(text)@ + spaces(i as nat),
        decreases spaces_count - i,
    {
        text.append(" ");
        proof {
            reveal_strlit(" ");
        }
        i = i + 1;
        assert(text@ =~= old(text)@ + spaces(i as nat));
    }
}

/// The length in bytes of the UTF-8 encoding of `s`.
pub open spec fn byte_len(s: Seq<char>) -> nat {
    vstd::utf8::encode_utf8(s).len()
}

/// The total length in bytes of the names of `s[..n]`.
pub open spec fn name_bytes(s: Seq<Setting>, n: nat) -> nat
    decreases n,
{
    if n == 0 || n > s.len() {
        0
    } else {
        name_bytes(s, (n - 1) as nat) + byte_len(s[n - 1].nice_name@)
    }
}

/// The room the names of all settings take, in bytes; `usize::MAX` where the
/// sum does not fit.
pub fn settings_string_capacity(settings: &[Setting]) -> (r: usize)
    ensures
        r as nat == if name_bytes(settings@, settings@.len()) <= usize::MAX {
            name_bytes(settings@, settings@.len())
        } else {
            usize::MAX as nat
        },
{
    let mut capacity: usize = 0;
    let mut i: usize = 0;
    while i < settings.len()
        invariant
            i <= settings@.len(),
            capacity as nat == if name_bytes(settings@, i as nat) <= usize::MAX {
                name_bytes(settings@, i as nat)
            } else {
                usize::MAX as nat
            },
        decreases settings@.len() - i,
    {
        let bytes = settings[i].nice_name.as_str().as_bytes();
        let len = bytes.len();
        assert(name_bytes(settings@, (i + 1) as nat) == name_bytes(settings@, i as nat)
            + byte_len(settings@[i as int].nice_name@));
        capacity = capacity.saturating_add(len);
        i = i + 1;
    }
    capacity
}

/// How many spaces follow a name of `n` characters so that values line up.
pub open spec fn pad_width(n: nat) -> nat {
    if n <= PADDING {
        (PADDING - n) as nat
    } else {
        0
    }
}

/// One line of the menu: a marker on the selected line, the name, padding,
/// and the value.
pub open spec fn row_text(s: Setting, selected: bool) -> Seq<char> {
    (if selected {
        " > "@
    } else {
        "   "@
    }) + s.nice_name@ + spaces(pad_width(s.nice_name@.len())) + value_text(s.setting_type) + "\n"@
}

/// The lines of the first `n` settings, with the one at `cursor` selected.
pub open spec fn menu_text(s: Seq<Setting>, cursor: int, n: nat) -> Seq<char>
    decreases n,
{
    if n == 0 || n > s.len() {
        Seq::empty()
    } else {
        menu_text(s, cursor, (n - 1) as nat) + row_text(s[n - 1], n - 1 == cursor)
    }
}

/// Appends one line per setting, marking the one at `cursor`.
pub fn render_settings(format: &mut String, settings: &[Setting], cursor: usize)
    requires
        selections_in_range(settings@),
    ensures
        final(format)@ == old(format)@ + menu_text(settings@, cursor as int, settings@.len()),
{
    let mut i: usize = 0;
    assert(old(format)@ =~= old(format)@ + menu_text(settings@, cursor as int, 0));
    while i < settings.len()
        invariant
            i <= settings@.len(),
            selections_in_range(settings@),
            format@ == old(format)@ + menu_text(settings@, cursor as int, i as nat),
        decreases settings@.len() - i,
    {
        let ghost before = format@;
        let setting = &settings[i];
        if i == cursor {
            format.append(" > ");
        } else {
            format.append("   ");
        }
        format.append(setting.nice_name.as_str());
        let len = setting.nice_name.as_str().unicode_len();
        let pad = if len <= PADDING {
            PADDING - len
        } else {
            0
        };
        pad_with_spaces(format, pad);
        assert(selection_in_range(settings@[i as int].setting_type));
        append_setting_type(format, &setting.setting_type);
        assert(format@ =~= before + row_text(settings@[i as int], i == cursor));
        i = i + 1;
    }
}

/// What the editor does after a key.
#[derive(Debug, Clone, Copy, PartialEq, Eq, Structural)]
pub enum MenuOutcome {
    /// Show the menu again.
    Continue,
    /// Leave without writing.
    Quit,
    /// Write the configuration and leave.
    Commit,
}

/// Which way a setting's value moves.
#[derive(Debug, Clone, Copy, PartialEq, Eq, Structural)]
pub enum Direction {
    Lower,
    Raise,
}

/// A change of the estimated video memory use: whole megabytes from a level
/// step, or a number of screen pixels.
#[derive(Debug, Clone, Copy, PartialEq, Eq, Structural)]
pub struct VramChange {
    pub grows: bool,
    pub megabytes: usize,
    pub pixels: u128,
}

/// Video memory use stays as it is.
pub open spec fn no_change() -> VramChange {
    VramChange { grows: true, megabytes: 0, pixels: 0 }
}

/// A setting's value after one move in direction `d`. Levels stop at their
/// ends; a multiplier halves to off and doubles from 2 up to its largest
/// factor; off/on/half cycles; a slider moves by its step and does not go
/// below twice its step. A move whose result would not fit leaves the value.
pub open spec fn adjusted(t: SettingType, d: Direction) -> SettingType {
    match t {
        SettingType::Level(sel, o, v) => match d {
            Direction::Lower => if sel > 0 {
                SettingType::Level((sel - 1) as usize, o, v)
            } else {
                t
            },
            Direction::Raise => if sel + 1 < o.len() {
                SettingType::Level((sel + 1) as usize, o, v)
            } else {
                t
            },
        },
        SettingType::OnOff(e) => SettingType::OnOff(!e),
        SettingType::Multiplier(v, m) => match d {
            Direction::Lower => if v <= 2 {
                SettingType::Multiplier(0, m)
            } else {
                SettingType::Multiplier(v / 2, m)
            },
            Direction::Raise => if v == 0 {
                SettingType::Multiplier(2, m)
            } else if v < m && v >= 2 && v * 2 <= usize::MAX {
                SettingType::Multiplier((v * 2) as usize, m)
            } else {
                t
            },
        },
        SettingType::OnHalfOff(v) => match d {
            Direction::Lower => if v == 0 {
                SettingType::OnHalfOff(2)
            } else if v == 1 {
                SettingType::OnHalfOff(0)
            } else if v == 2 {
                SettingType::OnHalfOff(1)
            } else {
                t
            },
            Direction::Raise => if v == 0 {
                SettingType::OnHalfOff(1)
            } else if v == 1 {
                SettingType::OnHalfOff(2)
            } else if v == 2 {
                SettingType::OnHalfOff(0)
            } else {
                t
            },
        },
        SettingType::Slider(v, j, h) => match d {
            Direction::Lower => if v < 2 * j {
                t
            } else {
                SettingType::Slider((v - j) as usize, j, h)
            },
            Direction::Raise => if v + j <= usize::MAX {
                SettingType::Slider((v + j) as usize, j, h)
            } else {
                t
            },
        },
    }
}

/// The change of video memory use of that move: a level step costs the step
/// it crosses; a slider step changes the screen by its step times the other
/// side (`width` or `height`).
pub open spec fn vram_change(t: SettingType, d: Direction, width: usize, height: usize) -> VramChange {
    match t {
        SettingType::Level(sel, o, v) => match d {
            Direction::Lower => if sel > 0 {
                VramChange { grows: false, megabytes: v@[sel - 1], pixels: 0 }
            } else {
                no_change()
            },
            Direction::Raise => if sel + 1 < o.len() {
                VramChange { grows: true, megabytes: v@[sel as int], pixels: 0 }
            } else {
                no_change()
            },
        },
        SettingType::Slider(v, j, h) => {
            let other = if h {
                height
            } else {
                width
            };
            match d {
                Direction::Lower => if v < 2 * j {
                    no_change()
                } else {
                    VramChange { grows: false, megabytes: 0, pixels: (other * j) as u128 }
                },
                Direction::Raise => if v + j <= usize::MAX {
                    VramChange { grows: true, megabytes: 0, pixels: (other * j) as u128 }
                } else {
                    no_change()
                },
            }
        },
        _ => no_change(),
    }
}

fn pixel_product(a: usize, b: usize) -> (r: u128)
    ensures
        r == (a * b) as u128,
{
    proof {
        assert(a * b <= usize::MAX * usize::MAX) by (nonlinear_arith);
        assert(usize::MAX * usize::MAX <= u128::MAX) by (nonlinear_arith)
            requires
                usize::MAX <= u64::MAX,
        ;
    }
    (a as u128) * (b as u128)
}

/// Moves a setting's value one step in direction `d`.
pub fn adjust(t: &mut SettingType, d: Direction, width: usize, height: usize) -> (c: VramChange)
    requires
        setting_type_wf(*old(t)),
    ensures
        *final(t) == adjusted(*old(t), d),
        c == vram_change(*old(t), d, width, height),
        setting_type_wf(*final(t)),
{
    match t {
        SettingType::Level(sel, opts, vram) => match d {
            Direction::Lower => {
                if *sel > 0 {
                    *sel = *sel - 1;
                    VramChange { grows: false, megabytes: vram[*sel], pixels: 0 }
                } else {
                    VramChange { grows: true, megabytes: 0, pixels: 0 }
                }
            },
            Direction::Raise => {
                if *sel + 1 < opts.len() {
                    let cost = vram[*sel];
                    *sel = *sel + 1;
                    VramChange { grows: true, megabytes: cost, pixels: 0 }
                } else {
                    VramChange { grows: true, megabytes: 0, pixels: 0 }
                }
            },
        },
        SettingType::OnOff(enabled) => {
            *enabled = !*enabled;
            VramChange { grows: true, megabytes: 0, pixels: 0 }
        },
        SettingType::Multiplier(value, max_factor) => {
            match d {
                Direction::Lower => {
                    if *value <= 2 {
                        *value = 0;
                    } else {
                        *value = *value / 2;
                    }
                },
                Direction::Raise => {
                    if *value == 0 {
                        *value = 2;
                    } else if *value < *max_factor && *value >= 2 && *value <= usize::MAX / 2 {
                        *value = *value * 2;
                    }
                },
            }
            VramChange { grows: true, megabytes: 0, pixels: 0 }
        },
        SettingType::OnHalfOff(value) => {
            match d {
                Direction::Lower => {
                    if *value == 0 {
                        *value = 2;
                    } else if *value == 1 {
                        *value = 0;
                    } else if *value == 2 {
                        *value = 1;
                    }
                },
                Direction::Raise => {
                    if *value == 0 {
                        *value = 1;
                    } else if *value == 1 {
                        *value = 2;
                    } else if *value == 2 {
                        *value = 0;
                    }
                },
            }
            VramChange { grows: true, megabytes: 0, pixels: 0 }
        },
        SettingType::Slider(value, jump, horizontal) => {
            let jmp = *jump;
            let other = if *horizontal {
                height
            } else {
                width
            };
            match d {
                Direction::Lower => {
                    if *value < jmp || *value - jmp < jmp {
                        VramChange { grows: true, megabytes: 0, pixels: 0 }
                    } else {
                        *value = *value - jmp;
                        VramChange { grows: false, megabytes: 0, pixels: pixel_product(other, jmp) }
                    }
                },
                Direction::Raise => {
                    if *value <= usize::MAX - jmp {
                        *value = *value + jmp;
                        VramChange { grows: true, megabytes: 0, pixels: pixel_product(other, jmp) }
                    } else {
                        VramChange { grows: true, megabytes: 0, pixels: 0 }
                    }
                },
            }
        },
    }
}

/// `k` is the arrow key `arrow` or the letter `lower` in either case.
pub open spec fn key_is(k: KeyCode, arrow: KeyCode, lower: char, upper: char) -> bool {
    k == arrow || k == KeyCode::Char(lower) || k == KeyCode::Char(upper)
}

/// Up: arrow, `w` or `W`.
pub open spec fn is_up(k: KeyCode) -> bool {
    key_is(k, KeyCode::ArrowUp, 'w', 'W')
}

/// Down: arrow, `s` or `S`.
pub open spec fn is_down(k: KeyCode) -> bool {
    key_is(k, KeyCode::ArrowDown, 's', 'S')
}

/// Left: arrow, `a` or `A`.
pub open spec fn is_left(k: KeyCode) -> bool {
    key_is(k, KeyCode::ArrowLeft, 'a', 'A')
}

/// Right: arrow, `d` or `D`.
pub open spec fn is_right(k: KeyCode) -> bool {
    key_is(k, KeyCode::ArrowRight, 'd', 'D')
}

fn matches_key(k: KeyCode, arrow: KeyCode, lower: char, upper: char) -> (r: bool)
    ensures
        r == key_is(k, arrow, lower, upper),
{
    k == arrow || k == KeyCode::Char(lower) || k == KeyCode::Char(upper)
}

/// `s` with the value of the setting at `i` replaced by `t`.
pub open spec fn with_value(s: Seq<Setting>, i: int, t: SettingType) -> Seq<Setting> {
    s.update(i, Setting { setting_type: t, ..s[i] })
}

/// What one key does: Backspace leaves, Enter commits, up and down move the
/// cursor within the list, left and right move the value of the setting under
/// the cursor; any other key changes nothing. `width` and `height` are the
/// current screen sides, which price a slider step.
pub fn handle_key(
    settings: &mut Vec<Setting>,
    cursor: usize,
    width: usize,
    height: usize,
    key: KeyCode,
) -> (r: (usize, MenuOutcome, VramChange))
    requires
        cursor < old(settings)@.len(),
        all_wf(old(settings)@),
    ensures
        all_wf(final(settings)@),
        selections_in_range(final(settings)@),
        key == KeyCode::Backspace ==> final(settings)@ == old(settings)@ && r == (
            cursor,
            MenuOutcome::Quit,
            no_change(),
        ),
        key == KeyCode::Enter ==> final(settings)@ == old(settings)@ && r == (
            cursor,
            MenuOutcome::Commit,
            no_change(),
        ),
        is_up(key) ==> final(settings)@ == old(settings)@ && r == (
            if cursor > 0 {
                (cursor - 1) as usize
            } else {
                cursor
            },
            MenuOutcome::Continue,
            no_change(),
        ),
        is_down(key) ==> final(settings)@ == old(settings)@ && r == (
            if cursor + 1 < old(settings)@.len() {
                (cursor + 1) as usize
            } else {
                cursor
            },
            MenuOutcome::Continue,
            no_change(),
        ),
        is_left(key) ==> ({
            let t = old(settings)@[cursor as int].setting_type;
            &&& final(settings)@ == with_value(
                old(settings)@,
                cursor as int,
                adjusted(t, Direction::Lower),
            )
            &&& r == (cursor, MenuOutcome::Continue, vram_change(t, Direction::Lower, width, height))
        }),
        is_right(key) ==> ({
            let t = old(settings)@[cursor as int].setting_type;
            &&& final(settings)@ == with_value(
                old(settings)@,
                cursor as int,
                adjusted(t, Direction::Raise),
            )
            &&& r == (cursor, MenuOutcome::Continue, vram_change(t, Direction::Raise, width, height))
        }),
        !(key == KeyCode::Backspace || key == KeyCode::Enter || is_up(key) || is_down(key)
            || is_left(key) || is_right(key)) ==> final(settings)@ == old(settings)@ && r == (
            cursor,
            MenuOutcome::Continue,
            no_change(),
        ),
{
    let unchanged = VramChange { grows: true, megabytes: 0, pixels: 0 };
    proof {
        lemma_wf_selections(settings@);
    }
    if key == KeyCode::Backspace {
        (cursor, MenuOutcome::Quit, unchanged)
    } else if key == KeyCode::Enter {
        (cursor, MenuOutcome::Commit, unchanged)
    } else if matches_key(key, KeyCode::ArrowUp, 'w', 'W') {
        let next = if cursor > 0 {
            cursor - 1
        } else {
            cursor
        };
        (next, MenuOutcome::Continue, unchanged)
    } else if matches_key(key, KeyCode::ArrowDown, 's', 'S') {
        let next = if cursor < settings.len() - 1 {
            cursor + 1
        } else {
            cursor
        };
        (next, MenuOutcome::Continue, unchanged)
    } else {
        let left = matches_key(key, KeyCode::ArrowLeft, 'a', 'A');
        let right = matches_key(key, KeyCode::ArrowRight, 'd', 'D');
        if left || right {
            let d = if left {
                Direction::Lower
            } else {
                Direction::Raise
            };
            assert(crate::settings::setting_wf(settings@[cursor as int]));
            let c = adjust(&mut settings[cursor].setting_type, d, width, height);
            assert(settings@ =~= with_value(
                old(settings)@,
                cursor as int,
                adjusted(old(settings)@[cursor as int].setting_type, d),
            ));
            assert forall|i: int| 0 <= i < settings@.len() implies #[trigger] crate::settings::setting_wf(
                settings@[i],
            ) by {
                if i != cursor {
                    assert(settings@[i] == old(settings)@[i]);
                }
            }
            proof {
                lemma_wf_selections(settings@);
            }
            (cursor, MenuOutcome::Continue, c)
        } else {
            proof {
                lemma_wf_selections(settings@);
            }
            (cursor, MenuOutcome::Continue, unchanged)
        }
    }
}

/// The pixel count of the slider at `i`, or `None` if there is no slider there.
pub fn slider_value(settings: &[Setting], i: usize) -> (r: Option<usize>)
    ensures
        r == (if i < settings@.len() {
            match settings@[i as int].setting_type {
                SettingType::Slider(v, _, _) => Some(v),
                _ => None,
            }
        } else {
            None
        }),
{
    if i < settings.len() {
        match settings[i].setting_type {
            SettingType::Slider(v, _, _) => Some(v),
            _ => None,
        }
    } else {
        None
    }
}

} // verus!
