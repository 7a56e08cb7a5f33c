//! Key and modifier translation: pure, total mappings from native key
//! identifiers and modifier snapshots to the UI model's key and modifier
//! types, plus the printable-text filter applied to keyboard text payloads.

use vstd::prelude::*;

verus! {

/// A native key identifier, as delivered by the host windowing system:
/// either one of the named keys this adapter understands, a single
/// character produced by the active keyboard layout, or anything else.
#[derive(Clone, Copy, Debug, PartialEq, Eq, Structural)]
pub enum NativeKey {
    Escape,
    Insert,
    Home,
    Delete,
    End,
    PageDown,
    PageUp,
    ArrowLeft,
    ArrowUp,
    ArrowRight,
    ArrowDown,
    Backspace,
    Enter,
    Tab,
    Space,
    F1,
    F2,
    F3,
    F4,
    F5,
    F6,
    F7,
    F8,
    F9,
    F10,
    F11,
    F12,
    F13,
    F14,
    F15,
    F16,
    F17,
    F18,
    F19,
    F20,
    /// A layout-produced character key (letters, digits, punctuation).
    Character(char),
    /// Any native key with no UI-model equivalent; silently dropped.
    Unidentified,
}

/// A key of the UI model's closed key enumeration. Only keys that the
/// native mapping can actually produce are represented.
#[derive(Clone, Copy, Debug, PartialEq, Eq, Structural)]
pub enum UiKey {
    ArrowDown,
    ArrowLeft,
    ArrowRight,
    ArrowUp,
    Escape,
    Tab,
    Backspace,
    Enter,
    Space,
    Insert,
    Delete,
    Home,
    End,
    PageUp,
    PageDown,
    Colon,
    Comma,
    Minus,
    Period,
    Plus,
    Equals,
    Semicolon,
    Backslash,
    Slash,
    Pipe,
    Questionmark,
    OpenBracket,
    CloseBracket,
    Backtick,
    Num0,
    Num1,
    Num2,
    Num3,
    Num4,
    Num5,
    Num6,
    Num7,
    Num8,
    Num9,
    A,
    B,
    C,
    D,
    E,
    F,
    G,
    H,
    I,
    J,
    K,
    L,
    M,
    N,
    O,
    P,
    Q,
    R,
    S,
    T,
    U,
    V,
    W,
    X,
    Y,
    Z,
    F1,
    F2,
    F3,
    F4,
    F5,
    F6,
    F7,
    F8,
    F9,
    F10,
    F11,
    F12,
    F13,
    F14,
    F15,
    F16,
    F17,
    F18,
    F19,
    F20,
}

/// The native modifier snapshot: which of the four modifier keys are held.
#[derive(Clone, Copy, Debug, PartialEq, Eq, Structural)]
pub struct NativeModifiers {
    pub alt: bool,
    pub ctrl: bool,
    pub shift: bool,
    /// The logo / super key.
    pub logo: bool,
}

/// The UI model's modifier set. `mac_cmd` and `command` exist so that the
/// UI model can treat "the platform's command key" uniformly: on a
/// logo-primary platform both mirror the logo key, elsewhere `command`
/// mirrors ctrl and `mac_cmd` is always false.
#[derive(Clone, Copy, Debug, PartialEq, Eq, Structural)]
pub struct UiModifiers {
    pub alt: bool,
    pub ctrl: bool,
    pub shift: bool,
    pub mac_cmd: bool,
    pub command: bool,
}

impl NativeModifiers {
    /// A snapshot with no modifier held.
    pub fn empty() -> (m: NativeModifiers)
        ensures
            m == (NativeModifiers { alt: false, ctrl: false, shift: false, logo: false }),
    {
        NativeModifiers { alt: false, ctrl: false, shift: false, logo: false }
    }
}

impl UiModifiers {
    /// A modifier set with nothing active.
    pub fn empty() -> (m: UiModifiers)
        ensures
            m == (UiModifiers {
                alt: false,
                ctrl: false,
                shift: false,
                mac_cmd: false,
                command: false,
            }),
    {
        UiModifiers { alt: false, ctrl: false, shift: false, mac_cmd: false, command: false }
    }
}

/// The modifier translation: the three plain modifiers map one-to-one,
/// and the command flags are derived from the platform mode.
pub open spec fn modifiers_of_native(m: NativeModifiers, mac_mode: bool) -> UiModifiers {
    UiModifiers {
        alt: m.alt,
        ctrl: m.ctrl,
        shift: m.shift,
        mac_cmd: mac_mode && m.logo,
        command: if mac_mode {
            m.logo
        } else {
            m.ctrl
        },
    }
}

/// Translates a native modifier snapshot into the UI model's modifier set.
pub fn map_modifiers(m: NativeModifiers, mac_mode: bool) -> (r: UiModifiers)
    ensures
        r == modifiers_of_native(m, mac_mode),
{
    UiModifiers {
        alt: m.alt,
        ctrl: m.ctrl,
        shift: m.shift,
        mac_cmd: mac_mode && m.logo,
        command: if mac_mode {
            m.logo
        } else {
            m.ctrl
        },
    }
}

/// Law: the three plain modifier channels translate independently:
/// each output flag mirrors exactly its own input flag, whatever the
/// other flags hold.
pub proof fn lemma_modifiers_independent(m: NativeModifiers, mac_mode: bool)
    ensures
        modifiers_of_native(m, mac_mode).alt == m.alt,
        modifiers_of_native(m, mac_mode).ctrl == m.ctrl,
        modifiers_of_native(m, mac_mode).shift == m.shift,
{
}

/// The character-key table: which single characters name a UI-model
/// key. Besides the ASCII names this includes the UI model's symbolic
/// aliases: the Unicode minus sign for `Minus` and the triangle arrow
/// symbols for the four arrow keys.
pub open spec fn key_of_char(c: char) -> Option<UiKey> {
    match c {
        ' ' => Some(UiKey::Space),
        ':' => Some(UiKey::Colon),
        ',' => Some(UiKey::Comma),
        '-' | '\u{2212}' => Some(UiKey::Minus),
        '.' => Some(UiKey::Period),
        '+' => Some(UiKey::Plus),
        '=' => Some(UiKey::Equals),
        ';' => Some(UiKey::Semicolon),
        '\\' => Some(UiKey::Backslash),
        '/' => Some(UiKey::Slash),
        '|' => Some(UiKey::Pipe),
        '?' => Some(UiKey::Questionmark),
        '[' => Some(UiKey::OpenBracket),
        ']' => Some(UiKey::CloseBracket),
        '`' => Some(UiKey::Backtick),
        '0' => Some(UiKey::Num0),
        '1' => Some(UiKey::Num1),
        '2' => Some(UiKey::Num2),
        '3' => Some(UiKey::Num3),
        '4' => Some(UiKey::Num4),
        '5' => Some(UiKey::Num5),
        '6' => Some(UiKey::Num6),
        '7' => Some(UiKey::Num7),
        '8' => Some(UiKey::Num8),
        '9' => Some(UiKey::Num9),
        'a' | 'A' => Some(UiKey::A),
        'b' | 'B' => Some(UiKey::B),
        'c' | 'C' => Some(UiKey::C),
        'd' | 'D' => Some(UiKey::D),
        'e' | 'E' => Some(UiKey::E),
        'f' | 'F' => Some(UiKey::F),
        'g' | 'G' => Some(UiKey::G),
        'h' | 'H' => Some(UiKey::H),
        'i' | 'I' => Some(UiKey::I),
        'j' | 'J' => Some(UiKey::J),
        'k' | 'K' => Some(UiKey::K),
        'l' | 'L' => Some(UiKey::L),
        'm' | 'M' => Some(UiKey::M),
        'n' | 'N' => Some(UiKey::N),
        'o' | 'O' => Some(UiKey::O),
        'p' | 'P' => Some(UiKey::P),
        'q' | 'Q' => Some(UiKey::Q),
        'r' | 'R' => Some(UiKey::R),
        's' | 'S' => Some(UiKey::S),
        't' | 'T' => Some(UiKey::T),
        'u' | 'U' => Some(UiKey::U),
        'v' | 'V' => Some(UiKey::V),
        'w' | 'W' => Some(UiKey::W),
        'x' | 'X' => Some(UiKey::X),
        'y' | 'Y' => Some(UiKey::Y),
        'z' | 'Z' => Some(UiKey::Z),
        '\u{23f4}' => Some(UiKey::ArrowLeft),
        '\u{23f5}' => Some(UiKey::ArrowRight),
        '\u{23f6}' => Some(UiKey::ArrowUp),
        '\u{23f7}' => Some(UiKey::ArrowDown),
        _ => None,
    }
}

/// The named-key table together with the character table: what a native
/// key identifier means in the UI model, or `None` when it has no
/// equivalent there.
pub open spec fn key_of_native(k: NativeKey) -> Option<UiKey> {
    match k {
        NativeKey::Escape => Some(UiKey::Escape),
        NativeKey::Insert => Some(UiKey::Insert),
        NativeKey::Home => Some(UiKey::Home),
        NativeKey::Delete => Some(UiKey::Delete),
        NativeKey::End => Some(UiKey::End),
        NativeKey::PageDown => Some(UiKey::PageDown),
        NativeKey::PageUp => Some(UiKey::PageUp),
        NativeKey::ArrowLeft => Some(UiKey::ArrowLeft),
        NativeKey::ArrowUp => Some(UiKey::ArrowUp),
        NativeKey::ArrowRight => Some(UiKey::ArrowRight),
        NativeKey::ArrowDown => Some(UiKey::ArrowDown),
        NativeKey::Backspace => Some(UiKey::Backspace),
        NativeKey::Enter => Some(UiKey::Enter),
        NativeKey::Tab => Some(UiKey::Tab),
        NativeKey::Space => Some(UiKey::Space),
        NativeKey::F1 => Some(UiKey::F1),
        NativeKey::F2 => Some(UiKey::F2),
        NativeKey::F3 => Some(UiKey::F3),
        NativeKey::F4 => Some(UiKey::F4),
        NativeKey::F5 => Some(UiKey::F5),
        NativeKey::F6 => Some(UiKey::F6),
        NativeKey::F7 => Some(UiKey::F7),
        NativeKey::F8 => Some(UiKey::F8),
        NativeKey::F9 => Some(UiKey::F9),
        NativeKey::F10 => Some(UiKey::F10),
        NativeKey::F11 => Some(UiKey::F11),
        NativeKey::F12 => Some(UiKey::F12),
        NativeKey::F13 => Some(UiKey::F13),
        NativeKey::F14 => Some(UiKey::F14),
        NativeKey::F15 => Some(UiKey::F15),
        NativeKey::F16 => Some(UiKey::F16),
        NativeKey::F17 => Some(UiKey::F17),
        NativeKey::F18 => Some(UiKey::F18),
        NativeKey::F19 => Some(UiKey::F19),
        NativeKey::F20 => Some(UiKey::F20),
        NativeKey::Character(c) => key_of_char(c),
        NativeKey::Unidentified => None,
    }
}

/// Translates a native key identifier to the UI model's key, or `None`
/// for a key with no UI-model equivalent (those are dropped, not errors).
pub fn map_key(k: NativeKey) -> (r: Option<UiKey>)
    ensures
        r == key_of_native(k),
{
    match k {
        NativeKey::Escape => Some(UiKey::Escape),
        NativeKey::Insert => Some(UiKey::Insert),
        NativeKey::Home => Some(UiKey::Home),
        NativeKey::Delete => Some(UiKey::Delete),
        NativeKey::End => Some(UiKey::End),
        NativeKey::PageDown => Some(UiKey::PageDown),
        NativeKey::PageUp => Some(UiKey::PageUp),
        NativeKey::ArrowLeft => Some(UiKey::ArrowLeft),
        NativeKey::ArrowUp => Some(UiKey::ArrowUp),
        NativeKey::ArrowRight => Some(UiKey::ArrowRight),
        NativeKey::ArrowDown => Some(UiKey::ArrowDown),
        NativeKey::Backspace => Some(UiKey::Backspace),
        NativeKey::Enter => Some(UiKey::Enter),
        NativeKey::Tab => Some(UiKey::Tab),
        NativeKey::Space => Some(UiKey::Space),
        NativeKey::F1 => Some(UiKey::F1),
        NativeKey::F2 => Some(UiKey::F2),
        NativeKey::F3 => Some(UiKey::F3),
        NativeKey::F4 => Some(UiKey::F4),
        NativeKey::F5 => Some(UiKey::F5),
        NativeKey::F6 => Some(UiKey::F6),
        NativeKey::F7 => Some(UiKey::F7),
        NativeKey::F8 => Some(UiKey::F8),
        NativeKey::F9 => Some(UiKey::F9),
        NativeKey::F10 => Some(UiKey::F10),
        NativeKey::F11 => Some(UiKey::F11),
        NativeKey::F12 => Some(UiKey::F12),
        NativeKey::F13 => Some(UiKey::F13),
        NativeKey::F14 => Some(UiKey::F14),
        NativeKey::F15 => Some(UiKey::F15),
        NativeKey::F16 => Some(UiKey::F16),
        NativeKey::F17 => Some(UiKey::F17),
        NativeKey::F18 => Some(UiKey::F18),
        NativeKey::F19 => Some(UiKey::F19),
        NativeKey::F20 => Some(UiKey::F20),
        NativeKey::Character(c) => map_char_key(c),
        NativeKey::Unidentified => None,
    }
}

/// Translates a single character to the UI-model key it names, if any.
pub fn map_char_key(c: char) -> (r: Option<UiKey>)
    ensures
        r == key_of_char(c),
{
    match c {
        ' ' => Some(UiKey::Space),
        ':' => Some(UiKey::Colon),
        ',' => Some(UiKey::Comma),
        '-' | '\u{2212}' => Some(UiKey::Minus),
        '.' => Some(UiKey::Period),
        '+' => Some(UiKey::Plus),
        '=' => Some(UiKey::Equals),
        ';' => Some(UiKey::Semicolon),
        '\\' => Some(UiKey::Backslash),
        '/' => Some(UiKey::Slash),
        '|' => Some(UiKey::Pipe),
        '?' => Some(UiKey::Questionmark),
        '[' => Some(UiKey::OpenBracket),
        ']' => Some(UiKey::CloseBracket),
        '`' => Some(UiKey::Backtick),
        '0' => Some(UiKey::Num0),
        '1' => Some(UiKey::Num1),
        '2' => Some(UiKey::Num2),
        '3' => Some(UiKey::Num3),
        '4' => Some(UiKey::Num4),
        '5' => Some(UiKey::Num5),
        '6' => Some(UiKey::Num6),
        '7' => Some(UiKey::Num7),
        '8' => Some(UiKey::Num8),
        '9' => Some(UiKey::Num9),
        'a' | 'A' => Some(UiKey::A),
        'b' | 'B' => Some(UiKey::B),
        'c' | 'C' => Some(UiKey::C),
        'd' | 'D' => Some(UiKey::D),
        'e' | 'E' => Some(UiKey::E),
        'f' | 'F' => Some(UiKey::F),
        'g' | 'G' => Some(UiKey::G),
        'h' | 'H' => Some(UiKey::H),
        'i' | 'I' => Some(UiKey::I),
        'j' | 'J' => Some(UiKey::J),
        'k' | 'K' => Some(UiKey::K),
        'l' | 'L' => Some(UiKey::L),
        'm' | 'M' => Some(UiKey::M),
        'n' | 'N' => Some(UiKey::N),
        'o' | 'O' => Some(UiKey::O),
        'p' | 'P' => Some(UiKey::P),
        'q' | 'Q' => Some(UiKey::Q),
        'r' | 'R' => Some(UiKey::R),
        's' | 'S' => Some(UiKey::S),
        't' | 'T' => Some(UiKey::T),
        'u' | 'U' => Some(UiKey::U),
        'v' | 'V' => Some(UiKey::V),
        'w' | 'W' => Some(UiKey::W),
        'x' | 'X' => Some(UiKey::X),
        'y' | 'Y' => Some(UiKey::Y),
        'z' | 'Z' => Some(UiKey::Z),
        '\u{23f4}' => Some(UiKey::ArrowLeft),
        '\u{23f5}' => Some(UiKey::ArrowRight),
        '\u{23f6}' => Some(UiKey::ArrowUp),
        '\u{23f7}' => Some(UiKey::ArrowDown),
        _ => None,
    }
}

/// A character is printable when it is neither an ASCII control character
/// nor a Unicode private-use-area code point; only printable characters
/// may enter a text event.
pub open spec fn is_printable_char(c: char) -> bool {
    let u = c as u32;
    &&& !(0xe000 <= u && u <= 0xf8ff)
    &&& !(0xf0000 <= u && u <= 0xffffd)
    &&& !(0x100000 <= u && u <= 0x10fffd)
    &&& !(u < 0x20)
    &&& u != 0x7f
}

/// Decides whether a character may appear in a text event.
pub fn is_printable(c: char) -> (r: bool)
    ensures
        r == is_printable_char(c),
{
    let u = c as u32;
    let in_private_use = (0xe000 <= u && u <= 0xf8ff) || (0xf0000 <= u && u <= 0xffffd) || (
    0x100000 <= u && u <= 0x10fffd);
    let is_control = u < 0x20 || u == 0x7f;
    !in_private_use && !is_control
}

/// The printable projection of a character sequence: the subsequence of
/// its printable characters, in order.
pub open spec fn printable_filter(s: Seq<char>) -> Seq<char>
    decreases s.len(),
{
    if s.len() == 0 {
        Seq::empty()
    } else {
        let rest = printable_filter(s.drop_last());
        if is_printable_char(s.last()) {
            rest.push(s.last())
        } else {
            rest
        }
    }
}

/// Keeps only the printable characters of a text payload, in order.
pub fn filter_printable(text: &str) -> (r: Vec<char>)
    ensures
        r@ == printable_filter(text@),
{
    let n = text.unicode_len();
    let mut r: Vec<char> = Vec::new();
    let mut i: usize = 0;
    proof {
        assert(text@.take(0int) =~= Seq::<char>::empty());
    }
    while i < n
        invariant
            n == text@.len(),
            i <= n,
            r@ == printable_filter(text@.take(i as int)),
        decreases n - i,
    {
        let c = text.get_char(i);
        proof {
            assert(text@.take(i + 1int).drop_last() =~= text@.take(i as int));
            assert(text@.take(i + 1int).last() == text@[i as int]);
        }
        if is_printable(c) {
            r.push(c);
        }
        i = i + 1;
    }
    proof {
        assert(text@.take(n as int) =~= text@);
    }
    r
}

/// Copies the characters of a string slice into a vector, unchanged.
pub fn chars_of(s: &str) -> (r: Vec<char>)
    ensures
        r@ == s@,
{
    let n = s.unicode_len();
    let mut r: Vec<char> = Vec::new();
    let mut i: usize = 0;
    proof {
        assert(s@.take(0int) =~= Seq::<char>::empty());
    }
    while i < n
        invariant
            n == s@.len(),
            i <= n,
            r@ == s@.take(i as int),
        decreases n - i,
    {
        let c = s.get_char(i);
        r.push(c);
        proof {
            assert(s@.take(i + 1int) =~= s@.take(i as int).push(s@[i as int]));
        }
        i = i + 1;
    }
    proof {
        assert(s@.take(n as int) =~= s@);
    }
    r
}

} // verus!
