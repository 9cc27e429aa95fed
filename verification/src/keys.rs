//! Keystrokes: the key codes the front-end distinguishes, a parsed keystroke
//! ([`KeySpec`]) with its config-file syntax and its on-screen label, and the
//! conversion from a live terminal key event.

use vstd::prelude::*;
use vstd::string::*;
use crate::text::{decimal, push_char, push_decimal, push_str, str_eq, to_lowercase, trim, trim_spec,
    unicode_lowercase, is_lower, lower, all_ascii, lower_seq, trim_end_spec};

verus! {

/// A media key, as the terminal reports it.
#[derive(Debug, Clone, Copy, PartialEq, Eq, Structural, Hash)]
pub enum MediaKey {
    Play,
    Pause,
    PlayPause,
    Reverse,
    Stop,
    FastForward,
    Rewind,
    TrackNext,
    TrackPrevious,
    Record,
    LowerVolume,
    RaiseVolume,
    MuteVolume,
}

/// A modifier key pressed on its own, as the terminal reports it.
#[derive(Debug, Clone, Copy, PartialEq, Eq, Structural, Hash)]
pub enum ModifierKey {
    LeftShift,
    LeftControl,
    LeftAlt,
    LeftSuper,
    LeftHyper,
    LeftMeta,
    RightShift,
    RightControl,
    RightAlt,
    RightSuper,
    RightHyper,
    RightMeta,
    IsoLevel3Shift,
    IsoLevel5Shift,
}

/// A key, one variant per key code the terminal layer reports.
#[derive(Debug, Clone, Copy, PartialEq, Eq, Structural, Hash)]
pub enum Key {
    Backspace,
    Enter,
    Left,
    Right,
    Up,
    Down,
    Home,
    End,
    PageUp,
    PageDown,
    Tab,
    BackTab,
    Delete,
    Insert,
    F(u8),
    Char(char),
    Null,
    Esc,
    CapsLock,
    ScrollLock,
    NumLock,
    PrintScreen,
    Pause,
    Menu,
    KeypadBegin,
    Media(MediaKey),
    Modifier(ModifierKey),
}

/// A parsed keystroke: key code plus modifier flags.
#[derive(Debug, Clone, Copy, PartialEq, Eq, Structural)]
pub struct KeySpec {
    pub code: Key,
    pub ctrl: bool,
    pub shift: bool,
    pub alt: bool,
}

// ── Labels ───────────────────────────────────────────────────────────────────

/// `char::to_uppercase` of one character: full Unicode case mapping, which may
/// yield several characters.
pub uninterp spec fn unicode_uppercase(c: char) -> Seq<char>;

/// Calls `char::to_uppercase` and collects it. The result is named by
/// [`unicode_uppercase`]; what is stated besides is std's documented ASCII
/// behaviour: a lowercase ASCII letter maps to its capital, any other ASCII
/// character to itself.
#[verifier::external_body]
fn char_to_uppercase(c: char) -> (r: String)
    ensures
        r@ == unicode_uppercase(c),
        is_lower(c) ==> r@ == seq![((c as u32) - 32) as char],
        (c as u32) < 128 && !is_lower(c) ==> r@ == seq![c],
{
    c.to_uppercase().to_string()
}

/// The name `Debug` gives a media key inside `KeyCode::Media(..)`.
pub open spec fn media_name(m: MediaKey) -> Seq<char> {
    match m {
        MediaKey::Play => "Play"@,
        MediaKey::Pause => "Pause"@,
        MediaKey::PlayPause => "PlayPause"@,
        MediaKey::Reverse => "Reverse"@,
        MediaKey::Stop => "Stop"@,
        MediaKey::FastForward => "FastForward"@,
        MediaKey::Rewind => "Rewind"@,
        MediaKey::TrackNext => "TrackNext"@,
        MediaKey::TrackPrevious => "TrackPrevious"@,
        MediaKey::Record => "Record"@,
        MediaKey::LowerVolume => "LowerVolume"@,
        MediaKey::RaiseVolume => "RaiseVolume"@,
        MediaKey::MuteVolume => "MuteVolume"@,
    }
}

/// The name `Debug` gives a modifier key inside `KeyCode::Modifier(..)`.
pub open spec fn modifier_name(m: ModifierKey) -> Seq<char> {
    match m {
        ModifierKey::LeftShift => "LeftShift"@,
        ModifierKey::LeftControl => "LeftControl"@,
        ModifierKey::LeftAlt => "LeftAlt"@,
        ModifierKey::LeftSuper => "LeftSuper"@,
        ModifierKey::LeftHyper => "LeftHyper"@,
        ModifierKey::LeftMeta => "LeftMeta"@,
        ModifierKey::RightShift => "RightShift"@,
        ModifierKey::RightControl => "RightControl"@,
        ModifierKey::RightAlt => "RightAlt"@,
        ModifierKey::RightSuper => "RightSuper"@,
        ModifierKey::RightHyper => "RightHyper"@,
        ModifierKey::RightMeta => "RightMeta"@,
        ModifierKey::IsoLevel3Shift => "IsoLevel3Shift"@,
        ModifierKey::IsoLevel5Shift => "IsoLevel5Shift"@,
    }
}

/// How a key is written in the hint bar and help screen: arrows as arrows,
/// short names for the navigation keys, a character as itself (`h`), or in
/// capitals after a modifier prefix (the `S` of `Ctrl+S`), and the terminal
/// layer's own name for anything else.
pub open spec fn key_text(k: Key, prefixed: bool) -> Seq<char> {
    match k {
        Key::Left => "←"@,
        Key::Right => "→"@,
        Key::Up => "↑"@,
        Key::Down => "↓"@,
        Key::Tab => "Tab"@,
        Key::BackTab => "BackTab"@,
        Key::Esc => "Esc"@,
        Key::Enter => "Enter"@,
        Key::Backspace => "Backspace"@,
        Key::Home => "Home"@,
        Key::End => "End"@,
        Key::PageUp => "PgUp"@,
        Key::PageDown => "PgDn"@,
        Key::F(n) => "F"@ + decimal(n as nat),
        Key::Char(c) => if c == ' ' {
            "Space"@
        } else if prefixed {
            unicode_uppercase(c)
        } else {
            seq![c]
        },
        Key::Delete => "Delete"@,
        Key::Insert => "Insert"@,
        Key::Null => "Null"@,
        Key::CapsLock => "CapsLock"@,
        Key::ScrollLock => "ScrollLock"@,
        Key::NumLock => "NumLock"@,
        Key::PrintScreen => "PrintScreen"@,
        Key::Pause => "Pause"@,
        Key::Menu => "Menu"@,
        Key::KeypadBegin => "KeypadBegin"@,
        Key::Media(m) => "Media("@ + media_name(m) + ")"@,
        Key::Modifier(m) => "Modifier("@ + modifier_name(m) + ")"@,
    }
}

/// `prefix` when `flag` is set, nothing otherwise.
pub open spec fn flag_text(flag: bool, prefix: Seq<char>) -> Seq<char> {
    if flag { prefix } else { Seq::empty() }
}

/// The label of a keystroke: `Ctrl+`, `Alt+`, `Shift+` in that order, then the
/// key. BackTab is always `Shift+Tab`, whatever its shift flag says.
pub open spec fn label_spec(k: KeySpec) -> Seq<char> {
    if k.code == Key::BackTab {
        flag_text(k.ctrl, "Ctrl+"@) + flag_text(k.alt, "Alt+"@) + "Shift+Tab"@
    } else {
        flag_text(k.ctrl, "Ctrl+"@) + flag_text(k.alt, "Alt+"@) + flag_text(k.shift, "Shift+"@) + key_text(
            k.code,
            k.ctrl || k.alt || k.shift,
        )
    }
}

fn push_media_name(s: &mut String, m: MediaKey)
    ensures
        final(s)@ == old(s)@ + media_name(m),
{
    let t = match m {
        MediaKey::Play => "Play",
        MediaKey::Pause => "Pause",
        MediaKey::PlayPause => "PlayPause",
        MediaKey::Reverse => "Reverse",
        MediaKey::Stop => "Stop",
        MediaKey::FastForward => "FastForward",
        MediaKey::Rewind => "Rewind",
        MediaKey::TrackNext => "TrackNext",
        MediaKey::TrackPrevious => "TrackPrevious",
        MediaKey::Record => "Record",
        MediaKey::LowerVolume => "LowerVolume",
        MediaKey::RaiseVolume => "RaiseVolume",
        MediaKey::MuteVolume => "MuteVolume",
    };
    push_str(s, t);
}

fn push_modifier_name(s: &mut String, m: ModifierKey)
    ensures
        final(s)@ == old(s)@ + modifier_name(m),
{
    let t = match m {
        ModifierKey::LeftShift => "LeftShift",
        ModifierKey::LeftControl => "LeftControl",
        ModifierKey::LeftAlt => "LeftAlt",
        ModifierKey::LeftSuper => "LeftSuper",
        ModifierKey::LeftHyper => "LeftHyper",
        ModifierKey::LeftMeta => "LeftMeta",
        ModifierKey::RightShift => "RightShift",
        ModifierKey::RightControl => "RightControl",
        ModifierKey::RightAlt => "RightAlt",
        ModifierKey::RightSuper => "RightSuper",
        ModifierKey::RightHyper => "RightHyper",
        ModifierKey::RightMeta => "RightMeta",
        ModifierKey::IsoLevel3Shift => "IsoLevel3Shift",
        ModifierKey::IsoLevel5Shift => "IsoLevel5Shift",
    };
    push_str(s, t);
}

/// An ASCII character in capitals: a lowercase letter becomes its capital,
/// anything else stays.
pub open spec fn ascii_capital(c: char) -> char {
    if is_lower(c) { ((c as u32) - 32) as char } else { c }
}

/// Append [`key_text`] of `k`. After a modifier prefix an ASCII character is
/// written as its capital.
pub fn push_key_text(s: &mut String, k: Key, prefixed: bool)
    ensures
        final(s)@ == old(s)@ + key_text(k, prefixed),
        k matches Key::Char(c) ==> (prefixed && c != ' ' && (c as u32) < 128 ==> final(s)@ == old(s)@ + seq![
            ascii_capital(c),
        ]),
{
    match k {
        Key::F(n) => {
            push_str(s, "F");
            let ghost mid = s@;
            push_decimal(s, n as u64);
            assert(s@ =~= old(s)@ + key_text(k, prefixed));
        },
        Key::Char(c) => {
            if c == ' ' {
                push_str(s, "Space");
            } else if prefixed {
                let up = char_to_uppercase(c);
                push_str(s, up.as_str());
            } else {
                push_char(s, c);
                assert(s@ =~= old(s)@ + key_text(k, prefixed));
            }
        },
        Key::Media(m) => {
            push_str(s, "Media(");
            push_media_name(s, m);
            push_str(s, ")");
            assert(s@ =~= old(s)@ + key_text(k, prefixed));
        },
        Key::Modifier(m) => {
            push_str(s, "Modifier(");
            push_modifier_name(s, m);
            push_str(s, ")");
            assert(s@ =~= old(s)@ + key_text(k, prefixed));
        },
        _ => {
            let t = match k {
                Key::Left => "←",
                Key::Right => "→",
                Key::Up => "↑",
                Key::Down => "↓",
                Key::Tab => "Tab",
                Key::BackTab => "BackTab",
                Key::Esc => "Esc",
                Key::Enter => "Enter",
                Key::Backspace => "Backspace",
                Key::Home => "Home",
                Key::End => "End",
                Key::PageUp => "PgUp",
                Key::PageDown => "PgDn",
                Key::Delete => "Delete",
                Key::Insert => "Insert",
                Key::Null => "Null",
                Key::CapsLock => "CapsLock",
                Key::ScrollLock => "ScrollLock",
                Key::NumLock => "NumLock",
                Key::PrintScreen => "PrintScreen",
                Key::Pause => "Pause",
                Key::Menu => "Menu",
                _ => "KeypadBegin",
            };
            push_str(s, t);
        },
    }
}

impl KeySpec {
    /// Human-readable label for the hint bar / help screen, such as `Ctrl+S`,
    /// `Shift+←`, `h`, `F1`, `Space` or `Shift+Tab`: a character with no
    /// modifier stands as itself, one after a modifier prefix in capitals.
    pub fn label(&self) -> (s: String)
        ensures
            s@ == label_spec(*self),
            self.code matches Key::Char(c) ==> ((self.ctrl || self.alt || self.shift) && c != ' ' && (c as u32) < 128
                ==> s@ == label_prefix(self.ctrl, self.alt, self.shift) + seq![ascii_capital(c)]),
    {
        let mut s = String::new();
        if self.ctrl {
            push_str(&mut s, "Ctrl+");
        }
        if self.alt {
            push_str(&mut s, "Alt+");
        }
        if let Key::BackTab = self.code {
            push_str(&mut s, "Shift+Tab");
            assert(s@ =~= label_spec(*self));
            return s;
        }
        if self.shift {
            push_str(&mut s, "Shift+");
        }
        let ghost before = s@;
        push_key_text(&mut s, self.code, self.ctrl || self.alt || self.shift);
        assert(s@ =~= label_spec(*self));
        assert(before =~= label_prefix(self.ctrl, self.alt, self.shift));
        s
    }
}

// ── Parsing ──────────────────────────────────────────────────────────────────

/// `s` split at every `+`, as `str::split('+')` does: always at least one part,
/// and an empty part wherever two separators meet or one stands at an end.
pub open spec fn split_plus(s: Seq<char>) -> Seq<Seq<char>>
    decreases s.len(),
{
    if s.len() == 0 {
        seq![Seq::empty()]
    } else {
        let p = split_plus(s.drop_last());
        if s.last() == '+' {
            p.push(Seq::empty())
        } else {
            p.update(p.len() - 1, p.last().push(s.last()))
        }
    }
}

/// The modifier flags and key token a list of `+`-separated parts spells: the
/// words `ctrl`/`control`, `shift` and `alt` set their flag wherever they stand,
/// an empty part is the `+` key itself, and otherwise the last other part is the
/// key. Parts are trimmed first.
pub open spec fn walk_parts(parts: Seq<Seq<char>>) -> (bool, bool, bool, Option<Seq<char>>)
    decreases parts.len(),
{
    if parts.len() == 0 {
        (false, false, false, None)
    } else {
        let (c, sh, a, k) = walk_parts(parts.drop_last());
        let p = trim_spec(parts.last());
        if p == "ctrl"@ || p == "control"@ {
            (true, sh, a, k)
        } else if p == "shift"@ {
            (c, true, a, k)
        } else if p == "alt"@ {
            (c, sh, true, k)
        } else if p.len() == 0 {
            (c, sh, a, Some("+"@))
        } else {
            (c, sh, a, Some(p))
        }
    }
}

/// The key a (lowercased) token names, if any.
pub open spec fn token_key(t: Seq<char>) -> Option<Key> {
    if t == "left"@ { Some(Key::Left) }
    else if t == "right"@ { Some(Key::Right) }
    else if t == "up"@ { Some(Key::Up) }
    else if t == "down"@ { Some(Key::Down) }
    else if t == "tab"@ { Some(Key::Tab) }
    else if t == "backtab"@ { Some(Key::BackTab) }
    else if t == "space"@ { Some(Key::Char(' ')) }
    else if t == "esc"@ || t == "escape"@ { Some(Key::Esc) }
    else if t == "enter"@ || t == "return"@ { Some(Key::Enter) }
    else if t == "backspace"@ { Some(Key::Backspace) }
    else if t == "home"@ { Some(Key::Home) }
    else if t == "end"@ { Some(Key::End) }
    else if t == "pageup"@ || t == "pgup"@ { Some(Key::PageUp) }
    else if t == "pagedown"@ || t == "pgdn"@ || t == "pgdown"@ { Some(Key::PageDown) }
    else if t == "f1"@ { Some(Key::F(1)) }
    else if t == "f2"@ { Some(Key::F(2)) }
    else if t == "f3"@ { Some(Key::F(3)) }
    else if t == "f4"@ { Some(Key::F(4)) }
    else if t == "f5"@ { Some(Key::F(5)) }
    else if t == "f6"@ { Some(Key::F(6)) }
    else if t == "f7"@ { Some(Key::F(7)) }
    else if t == "f8"@ { Some(Key::F(8)) }
    else if t == "f9"@ { Some(Key::F(9)) }
    else if t == "f10"@ { Some(Key::F(10)) }
    else if t == "f11"@ { Some(Key::F(11)) }
    else if t == "f12"@ { Some(Key::F(12)) }
    else if t.len() == 1 { Some(Key::Char(t[0])) }
    else { None }
}

/// What parsing the key-spec text `s` gives, once its trimmed text has been
/// lowercased to `lower`: a lone `+` is the `+` key; otherwise the text is read
/// as `+`-separated modifiers and a key, and `shift+tab` is BackTab (which
/// carries the shift itself). The error strings are the ones shown in config
/// warnings, and quote `s` as it was given.
pub open spec fn parse_lowered_spec(lower: Seq<char>, s: Seq<char>) -> Result<KeySpec, Seq<char>> {
    if lower == "+"@ {
        Ok(KeySpec { code: Key::Char('+'), ctrl: false, shift: false, alt: false })
    } else {
        let (ctrl, shift, alt, tok) = walk_parts(split_plus(lower));
        match tok {
            None => Err("empty key spec: '"@ + s + "'"@),
            Some(t) => match token_key(t) {
                None => Err("unknown key token: '"@ + t + "'"@),
                Some(code) => if code == Key::Tab && shift {
                    Ok(KeySpec { code: Key::BackTab, ctrl, shift: false, alt })
                } else {
                    Ok(KeySpec { code, ctrl, shift, alt })
                },
            },
        }
    }
}

/// What parsing the key-spec text `s` gives: its trimmed text lowercased (as
/// `str::to_lowercase` does it), then read by [`parse_lowered_spec`].
pub open spec fn parse_spec(s: Seq<char>) -> Result<KeySpec, Seq<char>> {
    parse_lowered_spec(unicode_lowercase(trim_spec(s)), s)
}

/// Whether a (trimmed) part is a modifier word.
pub open spec fn is_modifier_word(p: Seq<char>) -> bool {
    p == "ctrl"@ || p == "control"@ || p == "shift"@ || p == "alt"@
}

/// Modifiers may come in any order: swapping two neighbouring modifier parts
/// of a key spec changes nothing it spells.
pub proof fn lemma_modifier_order(parts: Seq<Seq<char>>, i: int)
    requires
        0 <= i,
        i + 1 < parts.len(),
        is_modifier_word(trim_spec(parts[i])),
        is_modifier_word(trim_spec(parts[i + 1])),
    ensures
        walk_parts(parts.update(i, parts[i + 1]).update(i + 1, parts[i])) == walk_parts(parts),
    decreases parts.len(),
{
    let q = parts.update(i, parts[i + 1]).update(i + 1, parts[i]);
    if i + 1 == parts.len() - 1 {
        let base = parts.drop_last().drop_last();
        assert(q.drop_last().drop_last() =~= base);
        assert(q.drop_last().last() == parts.last());
        assert(q.last() == parts.drop_last().last());
        let w = walk_parts(base);
        assert(walk_parts(parts.drop_last()) == walk_parts(parts.drop_last().drop_last().push(
            parts.drop_last().last()))) by {
            assert(parts.drop_last().drop_last().push(parts.drop_last().last()) =~= parts.drop_last());
        }
        assert(walk_parts(q.drop_last()) == walk_parts(q.drop_last().drop_last().push(q.drop_last().last()))) by {
            assert(q.drop_last().drop_last().push(q.drop_last().last()) =~= q.drop_last());
        }
    } else {
        lemma_modifier_order(parts.drop_last(), i);
        assert(q.drop_last() =~= parts.drop_last().update(i, parts[i + 1]).update(i + 1, parts[i]));
        assert(q.last() == parts.last());
    }
}

proof fn lemma_trim_end_subrange(s: Seq<char>)
    ensures
        trim_end_spec(s) == s.subrange(0, trim_end_spec(s).len() as int),
        trim_end_spec(s).len() <= s.len(),
    decreases s.len(),
{
    if s.len() > 0 && crate::text::is_space(s.last()) {
        lemma_trim_end_subrange(s.drop_last());
        assert(s.drop_last().subrange(0, trim_end_spec(s).len() as int) =~= s.subrange(
            0,
            trim_end_spec(s).len() as int,
        ));
    } else {
        assert(s.subrange(0, s.len() as int) =~= s);
    }
}

/// Trimming an all-ASCII text leaves it all-ASCII.
proof fn lemma_trim_ascii(s: Seq<char>)
    requires
        all_ascii(s),
    ensures
        all_ascii(trim_spec(s)),
{
    let t = s.skip(crate::text::first_non_space(s));
    crate::text::lemma_first_non_space_bounds(s);
    assert forall|i: int| 0 <= i < t.len() implies (#[trigger] t[i] as u32) < 128 by {
        assert(t[i] == s[i + crate::text::first_non_space(s)]);
    }
    lemma_trim_end_subrange(t);
    let u = trim_end_spec(t);
    assert forall|i: int| 0 <= i < u.len() implies (#[trigger] u[i] as u32) < 128 by {
        assert(u[i] == t[i]);
    }
}

fn split_on_plus(s: &str) -> (parts: Vec<String>)
    ensures
        parts@.map_values(|p: String| p@) == split_plus(s@),
{
    let n = s.unicode_len();
    let mut parts: Vec<String> = Vec::new();
    parts.push(String::new());
    let mut i: usize = 0;
    assert(s@.take(0) =~= Seq::<char>::empty());
    assert(parts@.map_values(|p: String| p@) =~= split_plus(s@.take(0)));
    while i < n
        invariant
            n == s@.len(),
            i <= n,
            parts@.len() >= 1,
            parts@.map_values(|p: String| p@) == split_plus(s@.take(i as int)),
        decreases n - i,
    {
        let c = s.get_char(i);
        let ghost prev = parts@.map_values(|p: String| p@);
        assert(s@.take(i + 1).drop_last() =~= s@.take(i as int));
        assert(s@.take(i + 1).last() == c);
        if c == '+' {
            parts.push(String::new());
            assert(parts@.map_values(|p: String| p@) =~= prev.push(Seq::empty()));
        } else {
            let last = parts.len() - 1;
            let mut cur = parts.pop().unwrap();
            push_char(&mut cur, c);
            parts.push(cur);
            assert(parts@.map_values(|p: String| p@) =~= prev.update(prev.len() - 1, prev.last().push(c)));
        }
        i = i + 1;
    }
    assert(s@.take(n as int) =~= s@);
    parts
}

/// Which of the words `+`, the token table knows, and the ones it does not.
fn token_to_key(t: &str) -> (r: Option<Key>)
    ensures
        r == token_key(t@),
{
    if str_eq(t, "left") { Some(Key::Left) }
    else if str_eq(t, "right") { Some(Key::Right) }
    else if str_eq(t, "up") { Some(Key::Up) }
    else if str_eq(t, "down") { Some(Key::Down) }
    else if str_eq(t, "tab") { Some(Key::Tab) }
    else if str_eq(t, "backtab") { Some(Key::BackTab) }
    else if str_eq(t, "space") { Some(Key::Char(' ')) }
    else if str_eq(t, "esc") || str_eq(t, "escape") { Some(Key::Esc) }
    else if str_eq(t, "enter") || str_eq(t, "return") { Some(Key::Enter) }
    else if str_eq(t, "backspace") { Some(Key::Backspace) }
    else if str_eq(t, "home") { Some(Key::Home) }
    else if str_eq(t, "end") { Some(Key::End) }
    else if str_eq(t, "pageup") || str_eq(t, "pgup") { Some(Key::PageUp) }
    else if str_eq(t, "pagedown") || str_eq(t, "pgdn") || str_eq(t, "pgdown") { Some(Key::PageDown) }
    else if str_eq(t, "f1") { Some(Key::F(1)) }
    else if str_eq(t, "f2") { Some(Key::F(2)) }
    else if str_eq(t, "f3") { Some(Key::F(3)) }
    else if str_eq(t, "f4") { Some(Key::F(4)) }
    else if str_eq(t, "f5") { Some(Key::F(5)) }
    else if str_eq(t, "f6") { Some(Key::F(6)) }
    else if str_eq(t, "f7") { Some(Key::F(7)) }
    else if str_eq(t, "f8") { Some(Key::F(8)) }
    else if str_eq(t, "f9") { Some(Key::F(9)) }
    else if str_eq(t, "f10") { Some(Key::F(10)) }
    else if str_eq(t, "f11") { Some(Key::F(11)) }
    else if str_eq(t, "f12") { Some(Key::F(12)) }
    else if t.unicode_len() == 1 { Some(Key::Char(t.get_char(0))) }
    else { None }
}

impl KeySpec {
    /// Parse a key spec such as `ctrl+s`, `shift+left`, `+`, `f1` or `space`.
    ///
    /// Modifiers may appear in any order before the key token, separated by
    /// `+`; a lone `+` is the `+` key.
    pub fn parse(s: &str) -> (r: Result<KeySpec, String>)
        ensures
            match r {
                Ok(k) => parse_spec(s@) == Ok::<KeySpec, Seq<char>>(k),
                Err(e) => parse_spec(s@) == Err::<KeySpec, Seq<char>>(e@),
            },
            all_ascii(s@) ==> parse_spec(s@) == parse_lowered_spec(lower_seq(trim_spec(s@)), s@),
    {
        let trimmed = trim(s);
        proof {
            if all_ascii(s@) {
                lemma_trim_ascii(s@);
            }
        }
        let lower = to_lowercase(trimmed.as_str());
        if str_eq(lower.as_str(), "+") {
            return Ok(KeySpec { code: Key::Char('+'), ctrl: false, shift: false, alt: false });
        }
        let parts = split_on_plus(lower.as_str());
        let ghost pv = parts@.map_values(|p: String| p@);
        let mut ctrl = false;
        let mut shift = false;
        let mut alt = false;
        let mut key_token: Option<String> = None;
        let n = parts.len();
        let mut i: usize = 0;
        assert(pv.take(0) =~= Seq::<Seq<char>>::empty());
        while i < n
            invariant
                n == parts@.len(),
                pv == parts@.map_values(|p: String| p@),
                i <= n,
                walk_parts(pv.take(i as int)) == (ctrl, shift, alt, match key_token {
                    Some(t) => Some(t@),
                    None => None::<Seq<char>>,
                }),
            decreases n - i,
        {
            assert(pv.take(i + 1).drop_last() =~= pv.take(i as int));
            assert(pv.take(i + 1).last() == parts@[i as int]@);
            let p = trim(parts[i].as_str());
            let ps = p.as_str();
            if str_eq(ps, "ctrl") || str_eq(ps, "control") {
                ctrl = true;
            } else if str_eq(ps, "shift") {
                shift = true;
            } else if str_eq(ps, "alt") {
                alt = true;
            } else if ps.unicode_len() == 0 {
                key_token = Some(String::from_str("+"));
            } else {
                key_token = Some(p);
            }
            i = i + 1;
        }
        assert(pv.take(n as int) =~= pv);
        let tok = match key_token {
            Some(t) => t,
            None => {
                let mut e = String::from_str("empty key spec: '");
                push_str(&mut e, s);
                push_str(&mut e, "'");
                return Err(e);
            },
        };
        match token_to_key(tok.as_str()) {
            None => {
                let mut e = String::from_str("unknown key token: '");
                push_str(&mut e, tok.as_str());
                push_str(&mut e, "'");
                Err(e)
            },
            Some(code) => {
                if code == Key::Tab && shift {
                    Ok(KeySpec { code: Key::BackTab, ctrl, shift: false, alt })
                } else {
                    Ok(KeySpec { code, ctrl, shift, alt })
                }
            },
        }
    }
}

impl std::str::FromStr for KeySpec {
    type Err = String;

    /// The same parse as [`KeySpec::parse`].
    fn from_str(s: &str) -> (r: Result<KeySpec, String>)
        ensures
            match r {
                Ok(k) => parse_spec(s@) == Ok::<KeySpec, Seq<char>>(k),
                Err(e) => parse_spec(s@) == Err::<KeySpec, Seq<char>>(e@),
            },
            all_ascii(s@) ==> parse_spec(s@) == parse_lowered_spec(lower_seq(trim_spec(s@)), s@),
    {
        KeySpec::parse(s)
    }
}

// ── Laws of the key-spec syntax ──────────────────────────────────────────────

/// The modifier words `ctrl+`, `alt+` and `shift+` for the flags that are set,
/// in that order: the text a key spec starts with.
pub open spec fn modifier_text(ctrl: bool, alt: bool, shift: bool) -> Seq<char> {
    flag_text(ctrl, "ctrl+"@) + flag_text(alt, "alt+"@) + flag_text(shift, "shift+"@)
}

/// A key token: not empty, and free of `+` and of white space.
pub open spec fn plain_token(t: Seq<char>) -> bool {
    &&& t.len() > 0
    &&& forall|i: int| 0 <= i < t.len() ==> #[trigger] t[i] != '+' && !crate::text::is_space(t[i])
}

proof fn lemma_split_plus_nonempty(x: Seq<char>)
    ensures
        split_plus(x).len() >= 1,
    decreases x.len(),
{
    if x.len() > 0 {
        lemma_split_plus_nonempty(x.drop_last());
    }
}

/// Text without `+` extends the last part.
proof fn lemma_split_plus_append(x: Seq<char>, t: Seq<char>)
    requires
        forall|i: int| 0 <= i < t.len() ==> #[trigger] t[i] != '+',
    ensures
        split_plus(x + t) == split_plus(x).drop_last().push(split_plus(x).last() + t),
    decreases t.len(),
{
    lemma_split_plus_nonempty(x);
    if t.len() == 0 {
        assert(x + t =~= x);
        assert(split_plus(x).last() + t =~= split_plus(x).last());
        assert(split_plus(x).drop_last().push(split_plus(x).last()) =~= split_plus(x));
    } else {
        let t0 = t.drop_last();
        lemma_split_plus_append(x, t0);
        assert((x + t).drop_last() =~= x + t0);
        assert((x + t).last() == t.last());
        assert((split_plus(x).last() + t0).push(t.last()) =~= split_plus(x).last() + t);
        let p = split_plus(x + t0);
        assert(p.update(p.len() - 1, p.last().push(t.last())) =~= split_plus(x).drop_last().push(
            split_plus(x).last() + t,
        ));
    }
}

/// A part without space is its own trim.
proof fn lemma_trim_plain(t: Seq<char>)
    requires
        forall|i: int| 0 <= i < t.len() ==> !crate::text::is_space(#[trigger] t[i]),
    ensures
        trim_spec(t) == t,
{
    crate::text::lemma_first_non_space_from(t, 0);
    assert(t.skip(0) =~= t);
}

/// One modifier word and its `+` add one part to the split.
proof fn lemma_split_word(x: Seq<char>, w: Seq<char>, parts: Seq<Seq<char>>)
    requires
        split_plus(x) == parts.push(Seq::<char>::empty()),
        forall|i: int| 0 <= i < w.len() ==> #[trigger] w[i] != '+',
    ensures
        split_plus(x + w + seq!['+']) == parts.push(w).push(Seq::<char>::empty()),
{
    lemma_split_plus_append(x, w);
    assert(split_plus(x).drop_last() =~= parts);
    assert(Seq::<char>::empty() + w =~= w);
    let y = x + w;
    assert((y + seq!['+']).drop_last() =~= y);
}

/// The parts a modifier text and a token split into, and what they spell: the
/// flags as written and the token as the key.
proof fn lemma_modifier_walk(ctrl: bool, alt: bool, shift: bool, t: Seq<char>)
    requires
        plain_token(t),
        !is_modifier_word(t),
    ensures
        walk_parts(split_plus(modifier_text(ctrl, alt, shift) + t)) == (ctrl, shift, alt, Some(t)),
        modifier_text(ctrl, alt, shift) + t != "+"@,
{
    reveal_strlit("ctrl+");
    reveal_strlit("alt+");
    reveal_strlit("shift+");
    reveal_strlit("ctrl");
    reveal_strlit("control");
    reveal_strlit("alt");
    reveal_strlit("shift");
    reveal_strlit("+");
    let e = Seq::<char>::empty();
    let x0 = e;
    let p0 = Seq::<Seq<char>>::empty();
    assert(split_plus(x0) == p0.push(e)) by {
        assert(p0.push(e) =~= seq![e]);
    }
    // ctrl
    let x1 = x0 + flag_text(ctrl, "ctrl+"@);
    let p1 = if ctrl { p0.push("ctrl"@) } else { p0 };
    if ctrl {
        lemma_split_word(x0, "ctrl"@, p0);
        assert(x1 =~= x0 + "ctrl"@ + seq!['+']);
    } else {
        assert(x1 =~= x0);
    }
    // alt
    let x2 = x1 + flag_text(alt, "alt+"@);
    let p2 = if alt { p1.push("alt"@) } else { p1 };
    if alt {
        lemma_split_word(x1, "alt"@, p1);
        assert(x2 =~= x1 + "alt"@ + seq!['+']);
    } else {
        assert(x2 =~= x1);
    }
    // shift
    let x3 = x2 + flag_text(shift, "shift+"@);
    let p3 = if shift { p2.push("shift"@) } else { p2 };
    if shift {
        lemma_split_word(x2, "shift"@, p2);
        assert(x3 =~= x2 + "shift"@ + seq!['+']);
    } else {
        assert(x3 =~= x2);
    }
    assert(x3 =~= modifier_text(ctrl, alt, shift));
    // the token
    lemma_split_plus_append(x3, t);
    assert(split_plus(x3).drop_last() =~= p3);
    assert(e + t =~= t);
    assert(split_plus(x3 + t) =~= p3.push(t));
    // what the parts spell
    lemma_trim_plain("ctrl"@);
    lemma_trim_plain("alt"@);
    lemma_trim_plain("shift"@);
    lemma_trim_plain(t);
    assert(walk_parts(p0) == (false, false, false, None::<Seq<char>>));
    assert(walk_parts(p1) == (ctrl, false, false, None::<Seq<char>>)) by {
        if ctrl {
            assert(p1.drop_last() =~= p0);
        }
    }
    assert(walk_parts(p2) == (ctrl, false, alt, None::<Seq<char>>)) by {
        if alt {
            assert(p2.drop_last() =~= p1);
        }
    }
    assert(walk_parts(p3) == (ctrl, shift, alt, None::<Seq<char>>)) by {
        if shift {
            assert(p3.drop_last() =~= p2);
        }
    }
    assert(p3.push(t).drop_last() =~= p3);
    let whole = modifier_text(ctrl, alt, shift) + t;
    assert(whole.last() == t.last());
    assert(whole != "+"@) by {
        if whole == "+"@ {
            assert(whole.len() == 1);
            assert(whole[whole.len() - 1] == t[t.len() - 1]);
        }
    }
}

/// A plain token after any modifiers parses to the key it names with exactly
/// the modifiers written (for the key-naming tokens of the laws below).
proof fn lemma_token_parses(ctrl: bool, alt: bool, shift: bool, t: Seq<char>, s: Seq<char>)
    requires
        plain_token(t),
        !is_modifier_word(t),
        token_key(t) is Some,
        token_key(t) != Some(Key::Tab),
    ensures
        parse_lowered_spec(modifier_text(ctrl, alt, shift) + t, s) == Ok::<KeySpec, Seq<char>>(
            KeySpec { code: token_key(t)->0, ctrl, shift, alt },
        ),
{
    lemma_modifier_walk(ctrl, alt, shift, t);
}

proof fn lemma_token_left()
    ensures
        token_key("left"@) == Some(Key::Left),
        !is_modifier_word("left"@),
        plain_token("left"@),
{
    reveal_strlit("left");
    reveal_strlit("ctrl");
    assert("left"@ != "ctrl"@) by { assert("left"@[0] != "ctrl"@[0]); }
    reveal_strlit("control");
    assert("left"@ != "control"@) by { assert("left"@.len() != "control"@.len()); }
    reveal_strlit("shift");
    assert("left"@ != "shift"@) by { assert("left"@.len() != "shift"@.len()); }
    reveal_strlit("alt");
    assert("left"@ != "alt"@) by { assert("left"@.len() != "alt"@.len()); }
}

proof fn lemma_token_right()
    ensures
        token_key("right"@) == Some(Key::Right),
        !is_modifier_word("right"@),
        plain_token("right"@),
{
    reveal_strlit("right");
    reveal_strlit("left");
    assert("right"@ != "left"@) by { assert("right"@.len() != "left"@.len()); }
    reveal_strlit("ctrl");
    assert("right"@ != "ctrl"@) by { assert("right"@.len() != "ctrl"@.len()); }
    reveal_strlit("control");
    assert("right"@ != "control"@) by { assert("right"@.len() != "control"@.len()); }
    reveal_strlit("shift");
    assert("right"@ != "shift"@) by { assert("right"@[0] != "shift"@[0]); }
    reveal_strlit("alt");
    assert("right"@ != "alt"@) by { assert("right"@.len() != "alt"@.len()); }
}

proof fn lemma_token_up()
    ensures
        token_key("up"@) == Some(Key::Up),
        !is_modifier_word("up"@),
        plain_token("up"@),
{
    reveal_strlit("up");
    reveal_strlit("left");
    assert("up"@ != "left"@) by { assert("up"@.len() != "left"@.len()); }
    reveal_strlit("right");
    assert("up"@ != "right"@) by { assert("up"@.len() != "right"@.len()); }
    reveal_strlit("ctrl");
    assert("up"@ != "ctrl"@) by { assert("up"@.len() != "ctrl"@.len()); }
    reveal_strlit("control");
    assert("up"@ != "control"@) by { assert("up"@.len() != "control"@.len()); }
    reveal_strlit("shift");
    assert("up"@ != "shift"@) by { assert("up"@.len() != "shift"@.len()); }
    reveal_strlit("alt");
    assert("up"@ != "alt"@) by { assert("up"@.len() != "alt"@.len()); }
}

proof fn lemma_token_down()
    ensures
        token_key("down"@) == Some(Key::Down),
        !is_modifier_word("down"@),
        plain_token("down"@),
{
    reveal_strlit("down");
    reveal_strlit("left");
    assert("down"@ != "left"@) by { assert("down"@[0] != "left"@[0]); }
    reveal_strlit("right");
    assert("down"@ != "right"@) by { assert("down"@.len() != "right"@.len()); }
    reveal_strlit("up");
    assert("down"@ != "up"@) by { assert("down"@.len() != "up"@.len()); }
    reveal_strlit("ctrl");
    assert("down"@ != "ctrl"@) by { assert("down"@[0] != "ctrl"@[0]); }
    reveal_strlit("control");
    assert("down"@ != "control"@) by { assert("down"@.len() != "control"@.len()); }
    reveal_strlit("shift");
    assert("down"@ != "shift"@) by { assert("down"@.len() != "shift"@.len()); }
    reveal_strlit("alt");
    assert("down"@ != "alt"@) by { assert("down"@.len() != "alt"@.len()); }
}

proof fn lemma_token_backtab()
    ensures
        token_key("backtab"@) == Some(Key::BackTab),
        !is_modifier_word("backtab"@),
        plain_token("backtab"@),
{
    reveal_strlit("backtab");
    reveal_strlit("left");
    assert("backtab"@ != "left"@) by { assert("backtab"@.len() != "left"@.len()); }
    reveal_strlit("right");
    assert("backtab"@ != "right"@) by { assert("backtab"@.len() != "right"@.len()); }
    reveal_strlit("up");
    assert("backtab"@ != "up"@) by { assert("backtab"@.len() != "up"@.len()); }
    reveal_strlit("down");
    assert("backtab"@ != "down"@) by { assert("backtab"@.len() != "down"@.len()); }
    reveal_strlit("tab");
    assert("backtab"@ != "tab"@) by { assert("backtab"@.len() != "tab"@.len()); }
    reveal_strlit("ctrl");
    assert("backtab"@ != "ctrl"@) by { assert("backtab"@.len() != "ctrl"@.len()); }
    reveal_strlit("control");
    assert("backtab"@ != "control"@) by { assert("backtab"@[0] != "control"@[0]); }
    reveal_strlit("shift");
    assert("backtab"@ != "shift"@) by { assert("backtab"@.len() != "shift"@.len()); }
    reveal_strlit("alt");
    assert("backtab"@ != "alt"@) by { assert("backtab"@.len() != "alt"@.len()); }
}

proof fn lemma_token_space()
    ensures
        token_key("space"@) == Some(Key::Char(' ')),
        !is_modifier_word("space"@),
        plain_token("space"@),
{
    reveal_strlit("space");
    reveal_strlit("left");
    assert("space"@ != "left"@) by { assert("space"@.len() != "left"@.len()); }
    reveal_strlit("right");
    assert("space"@ != "right"@) by { assert("space"@[0] != "right"@[0]); }
    reveal_strlit("up");
    assert("space"@ != "up"@) by { assert("space"@.len() != "up"@.len()); }
    reveal_strlit("down");
    assert("space"@ != "down"@) by { assert("space"@.len() != "down"@.len()); }
    reveal_strlit("tab");
    assert("space"@ != "tab"@) by { assert("space"@.len() != "tab"@.len()); }
    reveal_strlit("backtab");
    assert("space"@ != "backtab"@) by { assert("space"@.len() != "backtab"@.len()); }
    reveal_strlit("ctrl");
    assert("space"@ != "ctrl"@) by { assert("space"@.len() != "ctrl"@.len()); }
    reveal_strlit("control");
    assert("space"@ != "control"@) by { assert("space"@.len() != "control"@.len()); }
    reveal_strlit("shift");
    assert("space"@ != "shift"@) by { assert("space"@[1] != "shift"@[1]); }
    reveal_strlit("alt");
    assert("space"@ != "alt"@) by { assert("space"@.len() != "alt"@.len()); }
}

proof fn lemma_token_esc()
    ensures
        token_key("esc"@) == Some(Key::Esc),
        !is_modifier_word("esc"@),
        plain_token("esc"@),
{
    reveal_strlit("esc");
    reveal_strlit("left");
    assert("esc"@ != "left"@) by { assert("esc"@.len() != "left"@.len()); }
    reveal_strlit("right");
    assert("esc"@ != "right"@) by { assert("esc"@.len() != "right"@.len()); }
    reveal_strlit("up");
    assert("esc"@ != "up"@) by { assert("esc"@.len() != "up"@.len()); }
    reveal_strlit("down");
    assert("esc"@ != "down"@) by { assert("esc"@.len() != "down"@.len()); }
    reveal_strlit("tab");
    assert("esc"@ != "tab"@) by { assert("esc"@[0] != "tab"@[0]); }
    reveal_strlit("backtab");
    assert("esc"@ != "backtab"@) by { assert("esc"@.len() != "backtab"@.len()); }
    reveal_strlit("space");
    assert("esc"@ != "space"@) by { assert("esc"@.len() != "space"@.len()); }
    reveal_strlit("ctrl");
    assert("esc"@ != "ctrl"@) by { assert("esc"@.len() != "ctrl"@.len()); }
    reveal_strlit("control");
    assert("esc"@ != "control"@) by { assert("esc"@.len() != "control"@.len()); }
    reveal_strlit("shift");
    assert("esc"@ != "shift"@) by { assert("esc"@.len() != "shift"@.len()); }
    reveal_strlit("alt");
    assert("esc"@ != "alt"@) by { assert("esc"@[0] != "alt"@[0]); }
}

proof fn lemma_token_escape()
    ensures
        token_key("escape"@) == Some(Key::Esc),
        !is_modifier_word("escape"@),
        plain_token("escape"@),
{
    reveal_strlit("escape");
    reveal_strlit("left");
    assert("escape"@ != "left"@) by { assert("escape"@.len() != "left"@.len()); }
    reveal_strlit("right");
    assert("escape"@ != "right"@) by { assert("escape"@.len() != "right"@.len()); }
    reveal_strlit("up");
    assert("escape"@ != "up"@) by { assert("escape"@.len() != "up"@.len()); }
    reveal_strlit("down");
    assert("escape"@ != "down"@) by { assert("escape"@.len() != "down"@.len()); }
    reveal_strlit("tab");
    assert("escape"@ != "tab"@) by { assert("escape"@.len() != "tab"@.len()); }
    reveal_strlit("backtab");
    assert("escape"@ != "backtab"@) by { assert("escape"@.len() != "backtab"@.len()); }
    reveal_strlit("space");
    assert("escape"@ != "space"@) by { assert("escape"@.len() != "space"@.len()); }
    reveal_strlit("esc");
    assert("escape"@ != "esc"@) by { assert("escape"@.len() != "esc"@.len()); }
    reveal_strlit("ctrl");
    assert("escape"@ != "ctrl"@) by { assert("escape"@.len() != "ctrl"@.len()); }
    reveal_strlit("control");
    assert("escape"@ != "control"@) by { assert("escape"@.len() != "control"@.len()); }
    reveal_strlit("shift");
    assert("escape"@ != "shift"@) by { assert("escape"@.len() != "shift"@.len()); }
    reveal_strlit("alt");
    assert("escape"@ != "alt"@) by { assert("escape"@.len() != "alt"@.len()); }
}

proof fn lemma_token_enter()
    ensures
        token_key("enter"@) == Some(Key::Enter),
        !is_modifier_word("enter"@),
        plain_token("enter"@),
{
    reveal_strlit("enter");
    reveal_strlit("left");
    assert("enter"@ != "left"@) by { assert("enter"@.len() != "left"@.len()); }
    reveal_strlit("right");
    assert("enter"@ != "right"@) by { assert("enter"@[0] != "right"@[0]); }
    reveal_strlit("up");
    assert("enter"@ != "up"@) by { assert("enter"@.len() != "up"@.len()); }
    reveal_strlit("down");
    assert("enter"@ != "down"@) by { assert("enter"@.len() != "down"@.len()); }
    reveal_strlit("tab");
    assert("enter"@ != "tab"@) by { assert("enter"@.len() != "tab"@.len()); }
    reveal_strlit("backtab");
    assert("enter"@ != "backtab"@) by { assert("enter"@.len() != "backtab"@.len()); }
    reveal_strlit("space");
    assert("enter"@ != "space"@) by { assert("enter"@[0] != "space"@[0]); }
    reveal_strlit("esc");
    assert("enter"@ != "esc"@) by { assert("enter"@.len() != "esc"@.len()); }
    reveal_strlit("escape");
    assert("enter"@ != "escape"@) by { assert("enter"@.len() != "escape"@.len()); }
    reveal_strlit("ctrl");
    assert("enter"@ != "ctrl"@) by { assert("enter"@.len() != "ctrl"@.len()); }
    reveal_strlit("control");
    assert("enter"@ != "control"@) by { assert("enter"@.len() != "control"@.len()); }
    reveal_strlit("shift");
    assert("enter"@ != "shift"@) by { assert("enter"@[0] != "shift"@[0]); }
    reveal_strlit("alt");
    assert("enter"@ != "alt"@) by { assert("enter"@.len() != "alt"@.len()); }
}

proof fn lemma_token_return()
    ensures
        token_key("return"@) == Some(Key::Enter),
        !is_modifier_word("return"@),
        plain_token("return"@),
{
    reveal_strlit("return");
    reveal_strlit("left");
    assert("return"@ != "left"@) by { assert("return"@.len() != "left"@.len()); }
    reveal_strlit("right");
    assert("return"@ != "right"@) by { assert("return"@.len() != "right"@.len()); }
    reveal_strlit("up");
    assert("return"@ != "up"@) by { assert("return"@.len() != "up"@.len()); }
    reveal_strlit("down");
    assert("return"@ != "down"@) by { assert("return"@.len() != "down"@.len()); }
    reveal_strlit("tab");
    assert("return"@ != "tab"@) by { assert("return"@.len() != "tab"@.len()); }
    reveal_strlit("backtab");
    assert("return"@ != "backtab"@) by { assert("return"@.len() != "backtab"@.len()); }
    reveal_strlit("space");
    assert("return"@ != "space"@) by { assert("return"@.len() != "space"@.len()); }
    reveal_strlit("esc");
    assert("return"@ != "esc"@) by { assert("return"@.len() != "esc"@.len()); }
    reveal_strlit("escape");
    assert("return"@ != "escape"@) by { assert("return"@[0] != "escape"@[0]); }
    reveal_strlit("enter");
    assert("return"@ != "enter"@) by { assert("return"@.len() != "enter"@.len()); }
    reveal_strlit("ctrl");
    assert("return"@ != "ctrl"@) by { assert("return"@.len() != "ctrl"@.len()); }
    reveal_strlit("control");
    assert("return"@ != "control"@) by { assert("return"@.len() != "control"@.len()); }
    reveal_strlit("shift");
    assert("return"@ != "shift"@) by { assert("return"@.len() != "shift"@.len()); }
    reveal_strlit("alt");
    assert("return"@ != "alt"@) by { assert("return"@.len() != "alt"@.len()); }
}

proof fn lemma_token_backspace()
    ensures
        token_key("backspace"@) == Some(Key::Backspace),
        !is_modifier_word("backspace"@),
        plain_token("backspace"@),
{
    reveal_strlit("backspace");
    reveal_strlit("left");
    assert("backspace"@ != "left"@) by { assert("backspace"@.len() != "left"@.len()); }
    reveal_strlit("right");
    assert("backspace"@ != "right"@) by { assert("backspace"@.len() != "right"@.len()); }
    reveal_strlit("up");
    assert("backspace"@ != "up"@) by { assert("backspace"@.len() != "up"@.len()); }
    reveal_strlit("down");
    assert("backspace"@ != "down"@) by { assert("backspace"@.len() != "down"@.len()); }
    reveal_strlit("tab");
    assert("backspace"@ != "tab"@) by { assert("backspace"@.len() != "tab"@.len()); }
    reveal_strlit("backtab");
    assert("backspace"@ != "backtab"@) by { assert("backspace"@.len() != "backtab"@.len()); }
    reveal_strlit("space");
    assert("backspace"@ != "space"@) by { assert("backspace"@.len() != "space"@.len()); }
    reveal_strlit("esc");
    assert("backspace"@ != "esc"@) by { assert("backspace"@.len() != "esc"@.len()); }
    reveal_strlit("escape");
    assert("backspace"@ != "escape"@) by { assert("backspace"@.len() != "escape"@.len()); }
    reveal_strlit("enter");
    assert("backspace"@ != "enter"@) by { assert("backspace"@.len() != "enter"@.len()); }
    reveal_strlit("return");
    assert("backspace"@ != "return"@) by { assert("backspace"@.len() != "return"@.len()); }
    reveal_strlit("ctrl");
    assert("backspace"@ != "ctrl"@) by { assert("backspace"@.len() != "ctrl"@.len()); }
    reveal_strlit("control");
    assert("backspace"@ != "control"@) by { assert("backspace"@.len() != "control"@.len()); }
    reveal_strlit("shift");
    assert("backspace"@ != "shift"@) by { assert("backspace"@.len() != "shift"@.len()); }
    reveal_strlit("alt");
    assert("backspace"@ != "alt"@) by { assert("backspace"@.len() != "alt"@.len()); }
}

proof fn lemma_token_home()
    ensures
        token_key("home"@) == Some(Key::Home),
        !is_modifier_word("home"@),
        plain_token("home"@),
{
    reveal_strlit("home");
    reveal_strlit("left");
    assert("home"@ != "left"@) by { assert("home"@[0] != "left"@[0]); }
    reveal_strlit("right");
    assert("home"@ != "right"@) by { assert("home"@.len() != "right"@.len()); }
    reveal_strlit("up");
    assert("home"@ != "up"@) by { assert("home"@.len() != "up"@.len()); }
    reveal_strlit("down");
    assert("home"@ != "down"@) by { assert("home"@[0] != "down"@[0]); }
    reveal_strlit("tab");
    assert("home"@ != "tab"@) by { assert("home"@.len() != "tab"@.len()); }
    reveal_strlit("backtab");
    assert("home"@ != "backtab"@) by { assert("home"@.len() != "backtab"@.len()); }
    reveal_strlit("space");
    assert("home"@ != "space"@) by { assert("home"@.len() != "space"@.len()); }
    reveal_strlit("esc");
    assert("home"@ != "esc"@) by { assert("home"@.len() != "esc"@.len()); }
    reveal_strlit("escape");
    assert("home"@ != "escape"@) by { assert("home"@.len() != "escape"@.len()); }
    reveal_strlit("enter");
    assert("home"@ != "enter"@) by { assert("home"@.len() != "enter"@.len()); }
    reveal_strlit("return");
    assert("home"@ != "return"@) by { assert("home"@.len() != "return"@.len()); }
    reveal_strlit("backspace");
    assert("home"@ != "backspace"@) by { assert("home"@.len() != "backspace"@.len()); }
    reveal_strlit("ctrl");
    assert("home"@ != "ctrl"@) by { assert("home"@[0] != "ctrl"@[0]); }
    reveal_strlit("control");
    assert("home"@ != "control"@) by { assert("home"@.len() != "control"@.len()); }
    reveal_strlit("shift");
    assert("home"@ != "shift"@) by { assert("home"@.len() != "shift"@.len()); }
    reveal_strlit("alt");
    assert("home"@ != "alt"@) by { assert("home"@.len() != "alt"@.len()); }
}

proof fn lemma_token_end()
    ensures
        token_key("end"@) == Some(Key::End),
        !is_modifier_word("end"@),
        plain_token("end"@),
{
    reveal_strlit("end");
    reveal_strlit("left");
    assert("end"@ != "left"@) by { assert("end"@.len() != "left"@.len()); }
    reveal_strlit("right");
    assert("end"@ != "right"@) by { assert("end"@.len() != "right"@.len()); }
    reveal_strlit("up");
    assert("end"@ != "up"@) by { assert("end"@.len() != "up"@.len()); }
    reveal_strlit("down");
    assert("end"@ != "down"@) by { assert("end"@.len() != "down"@.len()); }
    reveal_strlit("tab");
    assert("end"@ != "tab"@) by { assert("end"@[0] != "tab"@[0]); }
    reveal_strlit("backtab");
    assert("end"@ != "backtab"@) by { assert("end"@.len() != "backtab"@.len()); }
    reveal_strlit("space");
    assert("end"@ != "space"@) by { assert("end"@.len() != "space"@.len()); }
    reveal_strlit("esc");
    assert("end"@ != "esc"@) by { assert("end"@[1] != "esc"@[1]); }
    reveal_strlit("escape");
    assert("end"@ != "escape"@) by { assert("end"@.len() != "escape"@.len()); }
    reveal_strlit("enter");
    assert("end"@ != "enter"@) by { assert("end"@.len() != "enter"@.len()); }
    reveal_strlit("return");
    assert("end"@ != "return"@) by { assert("end"@.len() != "return"@.len()); }
    reveal_strlit("backspace");
    assert("end"@ != "backspace"@) by { assert("end"@.len() != "backspace"@.len()); }
    reveal_strlit("home");
    assert("end"@ != "home"@) by { assert("end"@.len() != "home"@.len()); }
    reveal_strlit("ctrl");
    assert("end"@ != "ctrl"@) by { assert("end"@.len() != "ctrl"@.len()); }
    reveal_strlit("control");
    assert("end"@ != "control"@) by { assert("end"@.len() != "control"@.len()); }
    reveal_strlit("shift");
    assert("end"@ != "shift"@) by { assert("end"@.len() != "shift"@.len()); }
    reveal_strlit("alt");
    assert("end"@ != "alt"@) by { assert("end"@[0] != "alt"@[0]); }
}

proof fn lemma_token_pageup()
    ensures
        token_key("pageup"@) == Some(Key::PageUp),
        !is_modifier_word("pageup"@),
        plain_token("pageup"@),
{
    reveal_strlit("pageup");
    reveal_strlit("left");
    assert("pageup"@ != "left"@) by { assert("pageup"@.len() != "left"@.len()); }
    reveal_strlit("right");
    assert("pageup"@ != "right"@) by { assert("pageup"@.len() != "right"@.len()); }
    reveal_strlit("up");
    assert("pageup"@ != "up"@) by { assert("pageup"@.len() != "up"@.len()); }
    reveal_strlit("down");
    assert("pageup"@ != "down"@) by { assert("pageup"@.len() != "down"@.len()); }
    reveal_strlit("tab");
    assert("pageup"@ != "tab"@) by { assert("pageup"@.len() != "tab"@.len()); }
    reveal_strlit("backtab");
    assert("pageup"@ != "backtab"@) by { assert("pageup"@.len() != "backtab"@.len()); }
    reveal_strlit("space");
    assert("pageup"@ != "space"@) by { assert("pageup"@.len() != "space"@.len()); }
    reveal_strlit("esc");
    assert("pageup"@ != "esc"@) by { assert("pageup"@.len() != "esc"@.len()); }
    reveal_strlit("escape");
    assert("pageup"@ != "escape"@) by { assert("pageup"@[0] != "escape"@[0]); }
    reveal_strlit("enter");
    assert("pageup"@ != "enter"@) by { assert("pageup"@.len() != "enter"@.len()); }
    reveal_strlit("return");
    assert("pageup"@ != "return"@) by { assert("pageup"@[0] != "return"@[0]); }
    reveal_strlit("backspace");
    assert("pageup"@ != "backspace"@) by { assert("pageup"@.len() != "backspace"@.len()); }
    reveal_strlit("home");
    assert("pageup"@ != "home"@) by { assert("pageup"@.len() != "home"@.len()); }
    reveal_strlit("end");
    assert("pageup"@ != "end"@) by { assert("pageup"@.len() != "end"@.len()); }
    reveal_strlit("ctrl");
    assert("pageup"@ != "ctrl"@) by { assert("pageup"@.len() != "ctrl"@.len()); }
    reveal_strlit("control");
    assert("pageup"@ != "control"@) by { assert("pageup"@.len() != "control"@.len()); }
    reveal_strlit("shift");
    assert("pageup"@ != "shift"@) by { assert("pageup"@.len() != "shift"@.len()); }
    reveal_strlit("alt");
    assert("pageup"@ != "alt"@) by { assert("pageup"@.len() != "alt"@.len()); }
}

proof fn lemma_token_pgup()
    ensures
        token_key("pgup"@) == Some(Key::PageUp),
        !is_modifier_word("pgup"@),
        plain_token("pgup"@),
{
    reveal_strlit("pgup");
    reveal_strlit("left");
    assert("pgup"@ != "left"@) by { assert("pgup"@[0] != "left"@[0]); }
    reveal_strlit("right");
    assert("pgup"@ != "right"@) by { assert("pgup"@.len() != "right"@.len()); }
    reveal_strlit("up");
    assert("pgup"@ != "up"@) by { assert("pgup"@.len() != "up"@.len()); }
    reveal_strlit("down");
    assert("pgup"@ != "down"@) by { assert("pgup"@[0] != "down"@[0]); }
    reveal_strlit("tab");
    assert("pgup"@ != "tab"@) by { assert("pgup"@.len() != "tab"@.len()); }
    reveal_strlit("backtab");
    assert("pgup"@ != "backtab"@) by { assert("pgup"@.len() != "backtab"@.len()); }
    reveal_strlit("space");
    assert("pgup"@ != "space"@) by { assert("pgup"@.len() != "space"@.len()); }
    reveal_strlit("esc");
    assert("pgup"@ != "esc"@) by { assert("pgup"@.len() != "esc"@.len()); }
    reveal_strlit("escape");
    assert("pgup"@ != "escape"@) by { assert("pgup"@.len() != "escape"@.len()); }
    reveal_strlit("enter");
    assert("pgup"@ != "enter"@) by { assert("pgup"@.len() != "enter"@.len()); }
    reveal_strlit("return");
    assert("pgup"@ != "return"@) by { assert("pgup"@.len() != "return"@.len()); }
    reveal_strlit("backspace");
    assert("pgup"@ != "backspace"@) by { assert("pgup"@.len() != "backspace"@.len()); }
    reveal_strlit("home");
    assert("pgup"@ != "home"@) by { assert("pgup"@[0] != "home"@[0]); }
    reveal_strlit("end");
    assert("pgup"@ != "end"@) by { assert("pgup"@.len() != "end"@.len()); }
    reveal_strlit("pageup");
    assert("pgup"@ != "pageup"@) by { assert("pgup"@.len() != "pageup"@.len()); }
    reveal_strlit("ctrl");
    assert("pgup"@ != "ctrl"@) by { assert("pgup"@[0] != "ctrl"@[0]); }
    reveal_strlit("control");
    assert("pgup"@ != "control"@) by { assert("pgup"@.len() != "control"@.len()); }
    reveal_strlit("shift");
    assert("pgup"@ != "shift"@) by { assert("pgup"@.len() != "shift"@.len()); }
    reveal_strlit("alt");
    assert("pgup"@ != "alt"@) by { assert("pgup"@.len() != "alt"@.len()); }
}

proof fn lemma_token_pagedown()
    ensures
        token_key("pagedown"@) == Some(Key::PageDown),
        !is_modifier_word("pagedown"@),
        plain_token("pagedown"@),
{
    reveal_strlit("pagedown");
    reveal_strlit("left");
    assert("pagedown"@ != "left"@) by { assert("pagedown"@.len() != "left"@.len()); }
    reveal_strlit("right");
    assert("pagedown"@ != "right"@) by { assert("pagedown"@.len() != "right"@.len()); }
    reveal_strlit("up");
    assert("pagedown"@ != "up"@) by { assert("pagedown"@.len() != "up"@.len()); }
    reveal_strlit("down");
    assert("pagedown"@ != "down"@) by { assert("pagedown"@.len() != "down"@.len()); }
    reveal_strlit("tab");
    assert("pagedown"@ != "tab"@) by { assert("pagedown"@.len() != "tab"@.len()); }
    reveal_strlit("backtab");
    assert("pagedown"@ != "backtab"@) by { assert("pagedown"@.len() != "backtab"@.len()); }
    reveal_strlit("space");
    assert("pagedown"@ != "space"@) by { assert("pagedown"@.len() != "space"@.len()); }
    reveal_strlit("esc");
    assert("pagedown"@ != "esc"@) by { assert("pagedown"@.len() != "esc"@.len()); }
    reveal_strlit("escape");
    assert("pagedown"@ != "escape"@) by { assert("pagedown"@.len() != "escape"@.len()); }
    reveal_strlit("enter");
    assert("pagedown"@ != "enter"@) by { assert("pagedown"@.len() != "enter"@.len()); }
    reveal_strlit("return");
    assert("pagedown"@ != "return"@) by { assert("pagedown"@.len() != "return"@.len()); }
    reveal_strlit("backspace");
    assert("pagedown"@ != "backspace"@) by { assert("pagedown"@.len() != "backspace"@.len()); }
    reveal_strlit("home");
    assert("pagedown"@ != "home"@) by { assert("pagedown"@.len() != "home"@.len()); }
    reveal_strlit("end");
    assert("pagedown"@ != "end"@) by { assert("pagedown"@.len() != "end"@.len()); }
    reveal_strlit("pageup");
    assert("pagedown"@ != "pageup"@) by { assert("pagedown"@.len() != "pageup"@.len()); }
    reveal_strlit("pgup");
    assert("pagedown"@ != "pgup"@) by { assert("pagedown"@.len() != "pgup"@.len()); }
    reveal_strlit("ctrl");
    assert("pagedown"@ != "ctrl"@) by { assert("pagedown"@.len() != "ctrl"@.len()); }
    reveal_strlit("control");
    assert("pagedown"@ != "control"@) by { assert("pagedown"@.len() != "control"@.len()); }
    reveal_strlit("shift");
    assert("pagedown"@ != "shift"@) by { assert("pagedown"@.len() != "shift"@.len()); }
    reveal_strlit("alt");
    assert("pagedown"@ != "alt"@) by { assert("pagedown"@.len() != "alt"@.len()); }
}

proof fn lemma_token_pgdn()
    ensures
        token_key("pgdn"@) == Some(Key::PageDown),
        !is_modifier_word("pgdn"@),
        plain_token("pgdn"@),
{
    reveal_strlit("pgdn");
    reveal_strlit("left");
    assert("pgdn"@ != "left"@) by { assert("pgdn"@[0] != "left"@[0]); }
    reveal_strlit("right");
    assert("pgdn"@ != "right"@) by { assert("pgdn"@.len() != "right"@.len()); }
    reveal_strlit("up");
    assert("pgdn"@ != "up"@) by { assert("pgdn"@.len() != "up"@.len()); }
    reveal_strlit("down");
    assert("pgdn"@ != "down"@) by { assert("pgdn"@[0] != "down"@[0]); }
    reveal_strlit("tab");
    assert("pgdn"@ != "tab"@) by { assert("pgdn"@.len() != "tab"@.len()); }
    reveal_strlit("backtab");
    assert("pgdn"@ != "backtab"@) by { assert("pgdn"@.len() != "backtab"@.len()); }
    reveal_strlit("space");
    assert("pgdn"@ != "space"@) by { assert("pgdn"@.len() != "space"@.len()); }
    reveal_strlit("esc");
    assert("pgdn"@ != "esc"@) by { assert("pgdn"@.len() != "esc"@.len()); }
    reveal_strlit("escape");
    assert("pgdn"@ != "escape"@) by { assert("pgdn"@.len() != "escape"@.len()); }
    reveal_strlit("enter");
    assert("pgdn"@ != "enter"@) by { assert("pgdn"@.len() != "enter"@.len()); }
    reveal_strlit("return");
    assert("pgdn"@ != "return"@) by { assert("pgdn"@.len() != "return"@.len()); }
    reveal_strlit("backspace");
    assert("pgdn"@ != "backspace"@) by { assert("pgdn"@.len() != "backspace"@.len()); }
    reveal_strlit("home");
    assert("pgdn"@ != "home"@) by { assert("pgdn"@[0] != "home"@[0]); }
    reveal_strlit("end");
    assert("pgdn"@ != "end"@) by { assert("pgdn"@.len() != "end"@.len()); }
    reveal_strlit("pageup");
    assert("pgdn"@ != "pageup"@) by { assert("pgdn"@.len() != "pageup"@.len()); }
    reveal_strlit("pgup");
    assert("pgdn"@ != "pgup"@) by { assert("pgdn"@[2] != "pgup"@[2]); }
    reveal_strlit("pagedown");
    assert("pgdn"@ != "pagedown"@) by { assert("pgdn"@.len() != "pagedown"@.len()); }
    reveal_strlit("ctrl");
    assert("pgdn"@ != "ctrl"@) by { assert("pgdn"@[0] != "ctrl"@[0]); }
    reveal_strlit("control");
    assert("pgdn"@ != "control"@) by { assert("pgdn"@.len() != "control"@.len()); }
    reveal_strlit("shift");
    assert("pgdn"@ != "shift"@) by { assert("pgdn"@.len() != "shift"@.len()); }
    reveal_strlit("alt");
    assert("pgdn"@ != "alt"@) by { assert("pgdn"@.len() != "alt"@.len()); }
}

proof fn lemma_token_pgdown()
    ensures
        token_key("pgdown"@) == Some(Key::PageDown),
        !is_modifier_word("pgdown"@),
        plain_token("pgdown"@),
{
    reveal_strlit("pgdown");
    reveal_strlit("left");
    assert("pgdown"@ != "left"@) by { assert("pgdown"@.len() != "left"@.len()); }
    reveal_strlit("right");
    assert("pgdown"@ != "right"@) by { assert("pgdown"@.len() != "right"@.len()); }
    reveal_strlit("up");
    assert("pgdown"@ != "up"@) by { assert("pgdown"@.len() != "up"@.len()); }
    reveal_strlit("down");
    assert("pgdown"@ != "down"@) by { assert("pgdown"@.len() != "down"@.len()); }
    reveal_strlit("tab");
    assert("pgdown"@ != "tab"@) by { assert("pgdown"@.len() != "tab"@.len()); }
    reveal_strlit("backtab");
    assert("pgdown"@ != "backtab"@) by { assert("pgdown"@.len() != "backtab"@.len()); }
    reveal_strlit("space");
    assert("pgdown"@ != "space"@) by { assert("pgdown"@.len() != "space"@.len()); }
    reveal_strlit("esc");
    assert("pgdown"@ != "esc"@) by { assert("pgdown"@.len() != "esc"@.len()); }
    reveal_strlit("escape");
    assert("pgdown"@ != "escape"@) by { assert("pgdown"@[0] != "escape"@[0]); }
    reveal_strlit("enter");
    assert("pgdown"@ != "enter"@) by { assert("pgdown"@.len() != "enter"@.len()); }
    reveal_strlit("return");
    assert("pgdown"@ != "return"@) by { assert("pgdown"@[0] != "return"@[0]); }
    reveal_strlit("backspace");
    assert("pgdown"@ != "backspace"@) by { assert("pgdown"@.len() != "backspace"@.len()); }
    reveal_strlit("home");
    assert("pgdown"@ != "home"@) by { assert("pgdown"@.len() != "home"@.len()); }
    reveal_strlit("end");
    assert("pgdown"@ != "end"@) by { assert("pgdown"@.len() != "end"@.len()); }
    reveal_strlit("pageup");
    assert("pgdown"@ != "pageup"@) by { assert("pgdown"@[1] != "pageup"@[1]); }
    reveal_strlit("pgup");
    assert("pgdown"@ != "pgup"@) by { assert("pgdown"@.len() != "pgup"@.len()); }
    reveal_strlit("pagedown");
    assert("pgdown"@ != "pagedown"@) by { assert("pgdown"@.len() != "pagedown"@.len()); }
    reveal_strlit("pgdn");
    assert("pgdown"@ != "pgdn"@) by { assert("pgdown"@.len() != "pgdn"@.len()); }
    reveal_strlit("ctrl");
    assert("pgdown"@ != "ctrl"@) by { assert("pgdown"@.len() != "ctrl"@.len()); }
    reveal_strlit("control");
    assert("pgdown"@ != "control"@) by { assert("pgdown"@.len() != "control"@.len()); }
    reveal_strlit("shift");
    assert("pgdown"@ != "shift"@) by { assert("pgdown"@.len() != "shift"@.len()); }
    reveal_strlit("alt");
    assert("pgdown"@ != "alt"@) by { assert("pgdown"@.len() != "alt"@.len()); }
}

proof fn lemma_token_f1()
    ensures
        token_key("f1"@) == Some(Key::F(1)),
        !is_modifier_word("f1"@),
        plain_token("f1"@),
{
    reveal_strlit("f1");
    reveal_strlit("left");
    assert("f1"@ != "left"@) by { assert("f1"@.len() != "left"@.len()); }
    reveal_strlit("right");
    assert("f1"@ != "right"@) by { assert("f1"@.len() != "right"@.len()); }
    reveal_strlit("up");
    assert("f1"@ != "up"@) by { assert("f1"@[0] != "up"@[0]); }
    reveal_strlit("down");
    assert("f1"@ != "down"@) by { assert("f1"@.len() != "down"@.len()); }
    reveal_strlit("tab");
    assert("f1"@ != "tab"@) by { assert("f1"@.len() != "tab"@.len()); }
    reveal_strlit("backtab");
    assert("f1"@ != "backtab"@) by { assert("f1"@.len() != "backtab"@.len()); }
    reveal_strlit("space");
    assert("f1"@ != "space"@) by { assert("f1"@.len() != "space"@.len()); }
    reveal_strlit("esc");
    assert("f1"@ != "esc"@) by { assert("f1"@.len() != "esc"@.len()); }
    reveal_strlit("escape");
    assert("f1"@ != "escape"@) by { assert("f1"@.len() != "escape"@.len()); }
    reveal_strlit("enter");
    assert("f1"@ != "enter"@) by { assert("f1"@.len() != "enter"@.len()); }
    reveal_strlit("return");
    assert("f1"@ != "return"@) by { assert("f1"@.len() != "return"@.len()); }
    reveal_strlit("backspace");
    assert("f1"@ != "backspace"@) by { assert("f1"@.len() != "backspace"@.len()); }
    reveal_strlit("home");
    assert("f1"@ != "home"@) by { assert("f1"@.len() != "home"@.len()); }
    reveal_strlit("end");
    assert("f1"@ != "end"@) by { assert("f1"@.len() != "end"@.len()); }
    reveal_strlit("pageup");
    assert("f1"@ != "pageup"@) by { assert("f1"@.len() != "pageup"@.len()); }
    reveal_strlit("pgup");
    assert("f1"@ != "pgup"@) by { assert("f1"@.len() != "pgup"@.len()); }
    reveal_strlit("pagedown");
    assert("f1"@ != "pagedown"@) by { assert("f1"@.len() != "pagedown"@.len()); }
    reveal_strlit("pgdn");
    assert("f1"@ != "pgdn"@) by { assert("f1"@.len() != "pgdn"@.len()); }
    reveal_strlit("pgdown");
    assert("f1"@ != "pgdown"@) by { assert("f1"@.len() != "pgdown"@.len()); }
    reveal_strlit("ctrl");
    assert("f1"@ != "ctrl"@) by { assert("f1"@.len() != "ctrl"@.len()); }
    reveal_strlit("control");
    assert("f1"@ != "control"@) by { assert("f1"@.len() != "control"@.len()); }
    reveal_strlit("shift");
    assert("f1"@ != "shift"@) by { assert("f1"@.len() != "shift"@.len()); }
    reveal_strlit("alt");
    assert("f1"@ != "alt"@) by { assert("f1"@.len() != "alt"@.len()); }
}

proof fn lemma_token_f2()
    ensures
        token_key("f2"@) == Some(Key::F(2)),
        !is_modifier_word("f2"@),
        plain_token("f2"@),
{
    reveal_strlit("f2");
    reveal_strlit("left");
    assert("f2"@ != "left"@) by { assert("f2"@.len() != "left"@.len()); }
    reveal_strlit("right");
    assert("f2"@ != "right"@) by { assert("f2"@.len() != "right"@.len()); }
    reveal_strlit("up");
    assert("f2"@ != "up"@) by { assert("f2"@[0] != "up"@[0]); }
    reveal_strlit("down");
    assert("f2"@ != "down"@) by { assert("f2"@.len() != "down"@.len()); }
    reveal_strlit("tab");
    assert("f2"@ != "tab"@) by { assert("f2"@.len() != "tab"@.len()); }
    reveal_strlit("backtab");
    assert("f2"@ != "backtab"@) by { assert("f2"@.len() != "backtab"@.len()); }
    reveal_strlit("space");
    assert("f2"@ != "space"@) by { assert("f2"@.len() != "space"@.len()); }
    reveal_strlit("esc");
    assert("f2"@ != "esc"@) by { assert("f2"@.len() != "esc"@.len()); }
    reveal_strlit("escape");
    assert("f2"@ != "escape"@) by { assert("f2"@.len() != "escape"@.len()); }
    reveal_strlit("enter");
    assert("f2"@ != "enter"@) by { assert("f2"@.len() != "enter"@.len()); }
    reveal_strlit("return");
    assert("f2"@ != "return"@) by { assert("f2"@.len() != "return"@.len()); }
    reveal_strlit("backspace");
    assert("f2"@ != "backspace"@) by { assert("f2"@.len() != "backspace"@.len()); }
    reveal_strlit("home");
    assert("f2"@ != "home"@) by { assert("f2"@.len() != "home"@.len()); }
    reveal_strlit("end");
    assert("f2"@ != "end"@) by { assert("f2"@.len() != "end"@.len()); }
    reveal_strlit("pageup");
    assert("f2"@ != "pageup"@) by { assert("f2"@.len() != "pageup"@.len()); }
    reveal_strlit("pgup");
    assert("f2"@ != "pgup"@) by { assert("f2"@.len() != "pgup"@.len()); }
    reveal_strlit("pagedown");
    assert("f2"@ != "pagedown"@) by { assert("f2"@.len() != "pagedown"@.len()); }
    reveal_strlit("pgdn");
    assert("f2"@ != "pgdn"@) by { assert("f2"@.len() != "pgdn"@.len()); }
    reveal_strlit("pgdown");
    assert("f2"@ != "pgdown"@) by { assert("f2"@.len() != "pgdown"@.len()); }
    reveal_strlit("f1");
    assert("f2"@ != "f1"@) by { assert("f2"@[1] != "f1"@[1]); }
    reveal_strlit("ctrl");
    assert("f2"@ != "ctrl"@) by { assert("f2"@.len() != "ctrl"@.len()); }
    reveal_strlit("control");
    assert("f2"@ != "control"@) by { assert("f2"@.len() != "control"@.len()); }
    reveal_strlit("shift");
    assert("f2"@ != "shift"@) by { assert("f2"@.len() != "shift"@.len()); }
    reveal_strlit("alt");
    assert("f2"@ != "alt"@) by { assert("f2"@.len() != "alt"@.len()); }
}

proof fn lemma_token_f3()
    ensures
        token_key("f3"@) == Some(Key::F(3)),
        !is_modifier_word("f3"@),
        plain_token("f3"@),
{
    reveal_strlit("f3");
    reveal_strlit("left");
    assert("f3"@ != "left"@) by { assert("f3"@.len() != "left"@.len()); }
    reveal_strlit("right");
    assert("f3"@ != "right"@) by { assert("f3"@.len() != "right"@.len()); }
    reveal_strlit("up");
    assert("f3"@ != "up"@) by { assert("f3"@[0] != "up"@[0]); }
    reveal_strlit("down");
    assert("f3"@ != "down"@) by { assert("f3"@.len() != "down"@.len()); }
    reveal_strlit("tab");
    assert("f3"@ != "tab"@) by { assert("f3"@.len() != "tab"@.len()); }
    reveal_strlit("backtab");
    assert("f3"@ != "backtab"@) by { assert("f3"@.len() != "backtab"@.len()); }
    reveal_strlit("space");
    assert("f3"@ != "space"@) by { assert("f3"@.len() != "space"@.len()); }
    reveal_strlit("esc");
    assert("f3"@ != "esc"@) by { assert("f3"@.len() != "esc"@.len()); }
    reveal_strlit("escape");
    assert("f3"@ != "escape"@) by { assert("f3"@.len() != "escape"@.len()); }
    reveal_strlit("enter");
    assert("f3"@ != "enter"@) by { assert("f3"@.len() != "enter"@.len()); }
    reveal_strlit("return");
    assert("f3"@ != "return"@) by { assert("f3"@.len() != "return"@.len()); }
    reveal_strlit("backspace");
    assert("f3"@ != "backspace"@) by { assert("f3"@.len() != "backspace"@.len()); }
    reveal_strlit("home");
    assert("f3"@ != "home"@) by { assert("f3"@.len() != "home"@.len()); }
    reveal_strlit("end");
    assert("f3"@ != "end"@) by { assert("f3"@.len() != "end"@.len()); }
    reveal_strlit("pageup");
    assert("f3"@ != "pageup"@) by { assert("f3"@.len() != "pageup"@.len()); }
    reveal_strlit("pgup");
    assert("f3"@ != "pgup"@) by { assert("f3"@.len() != "pgup"@.len()); }
    reveal_strlit("pagedown");
    assert("f3"@ != "pagedown"@) by { assert("f3"@.len() != "pagedown"@.len()); }
    reveal_strlit("pgdn");
    assert("f3"@ != "pgdn"@) by { assert("f3"@.len() != "pgdn"@.len()); }
    reveal_strlit("pgdown");
    assert("f3"@ != "pgdown"@) by { assert("f3"@.len() != "pgdown"@.len()); }
    reveal_strlit("f1");
    assert("f3"@ != "f1"@) by { assert("f3"@[1] != "f1"@[1]); }
    reveal_strlit("f2");
    assert("f3"@ != "f2"@) by { assert("f3"@[1] != "f2"@[1]); }
    reveal_strlit("ctrl");
    assert("f3"@ != "ctrl"@) by { assert("f3"@.len() != "ctrl"@.len()); }
    reveal_strlit("control");
    assert("f3"@ != "control"@) by { assert("f3"@.len() != "control"@.len()); }
    reveal_strlit("shift");
    assert("f3"@ != "shift"@) by { assert("f3"@.len() != "shift"@.len()); }
    reveal_strlit("alt");
    assert("f3"@ != "alt"@) by { assert("f3"@.len() != "alt"@.len()); }
}

proof fn lemma_token_f4()
    ensures
        token_key("f4"@) == Some(Key::F(4)),
        !is_modifier_word("f4"@),
        plain_token("f4"@),
{
    reveal_strlit("f4");
    reveal_strlit("left");
    assert("f4"@ != "left"@) by { assert("f4"@.len() != "left"@.len()); }
    reveal_strlit("right");
    assert("f4"@ != "right"@) by { assert("f4"@.len() != "right"@.len()); }
    reveal_strlit("up");
    assert("f4"@ != "up"@) by { assert("f4"@[0] != "up"@[0]); }
    reveal_strlit("down");
    assert("f4"@ != "down"@) by { assert("f4"@.len() != "down"@.len()); }
    reveal_strlit("tab");
    assert("f4"@ != "tab"@) by { assert("f4"@.len() != "tab"@.len()); }
    reveal_strlit("backtab");
    assert("f4"@ != "backtab"@) by { assert("f4"@.len() != "backtab"@.len()); }
    reveal_strlit("space");
    assert("f4"@ != "space"@) by { assert("f4"@.len() != "space"@.len()); }
    reveal_strlit("esc");
    assert("f4"@ != "esc"@) by { assert("f4"@.len() != "esc"@.len()); }
    reveal_strlit("escape");
    assert("f4"@ != "escape"@) by { assert("f4"@.len() != "escape"@.len()); }
    reveal_strlit("enter");
    assert("f4"@ != "enter"@) by { assert("f4"@.len() != "enter"@.len()); }
    reveal_strlit("return");
    assert("f4"@ != "return"@) by { assert("f4"@.len() != "return"@.len()); }
    reveal_strlit("backspace");
    assert("f4"@ != "backspace"@) by { assert("f4"@.len() != "backspace"@.len()); }
    reveal_strlit("home");
    assert("f4"@ != "home"@) by { assert("f4"@.len() != "home"@.len()); }
    reveal_strlit("end");
    assert("f4"@ != "end"@) by { assert("f4"@.len() != "end"@.len()); }
    reveal_strlit("pageup");
    assert("f4"@ != "pageup"@) by { assert("f4"@.len() != "pageup"@.len()); }
    reveal_strlit("pgup");
    assert("f4"@ != "pgup"@) by { assert("f4"@.len() != "pgup"@.len()); }
    reveal_strlit("pagedown");
    assert("f4"@ != "pagedown"@) by { assert("f4"@.len() != "pagedown"@.len()); }
    reveal_strlit("pgdn");
    assert("f4"@ != "pgdn"@) by { assert("f4"@.len() != "pgdn"@.len()); }
    reveal_strlit("pgdown");
    assert("f4"@ != "pgdown"@) by { assert("f4"@.len() != "pgdown"@.len()); }
    reveal_strlit("f1");
    assert("f4"@ != "f1"@) by { assert("f4"@[1] != "f1"@[1]); }
    reveal_strlit("f2");
    assert("f4"@ != "f2"@) by { assert("f4"@[1] != "f2"@[1]); }
    reveal_strlit("f3");
    assert("f4"@ != "f3"@) by { assert("f4"@[1] != "f3"@[1]); }
    reveal_strlit("ctrl");
    assert("f4"@ != "ctrl"@) by { assert("f4"@.len() != "ctrl"@.len()); }
    reveal_strlit("control");
    assert("f4"@ != "control"@) by { assert("f4"@.len() != "control"@.len()); }
    reveal_strlit("shift");
    assert("f4"@ != "shift"@) by { assert("f4"@.len() != "shift"@.len()); }
    reveal_strlit("alt");
    assert("f4"@ != "alt"@) by { assert("f4"@.len() != "alt"@.len()); }
}

proof fn lemma_token_f5()
    ensures
        token_key("f5"@) == Some(Key::F(5)),
        !is_modifier_word("f5"@),
        plain_token("f5"@),
{
    reveal_strlit("f5");
    reveal_strlit("left");
    assert("f5"@ != "left"@) by { assert("f5"@.len() != "left"@.len()); }
    reveal_strlit("right");
    assert("f5"@ != "right"@) by { assert("f5"@.len() != "right"@.len()); }
    reveal_strlit("up");
    assert("f5"@ != "up"@) by { assert("f5"@[0] != "up"@[0]); }
    reveal_strlit("down");
    assert("f5"@ != "down"@) by { assert("f5"@.len() != "down"@.len()); }
    reveal_strlit("tab");
    assert("f5"@ != "tab"@) by { assert("f5"@.len() != "tab"@.len()); }
    reveal_strlit("backtab");
    assert("f5"@ != "backtab"@) by { assert("f5"@.len() != "backtab"@.len()); }
    reveal_strlit("space");
    assert("f5"@ != "space"@) by { assert("f5"@.len() != "space"@.len()); }
    reveal_strlit("esc");
    assert("f5"@ != "esc"@) by { assert("f5"@.len() != "esc"@.len()); }
    reveal_strlit("escape");
    assert("f5"@ != "escape"@) by { assert("f5"@.len() != "escape"@.len()); }
    reveal_strlit("enter");
    assert("f5"@ != "enter"@) by { assert("f5"@.len() != "enter"@.len()); }
    reveal_strlit("return");
    assert("f5"@ != "return"@) by { assert("f5"@.len() != "return"@.len()); }
    reveal_strlit("backspace");
    assert("f5"@ != "backspace"@) by { assert("f5"@.len() != "backspace"@.len()); }
    reveal_strlit("home");
    assert("f5"@ != "home"@) by { assert("f5"@.len() != "home"@.len()); }
    reveal_strlit("end");
    assert("f5"@ != "end"@) by { assert("f5"@.len() != "end"@.len()); }
    reveal_strlit("pageup");
    assert("f5"@ != "pageup"@) by { assert("f5"@.len() != "pageup"@.len()); }
    reveal_strlit("pgup");
    assert("f5"@ != "pgup"@) by { assert("f5"@.len() != "pgup"@.len()); }
    reveal_strlit("pagedown");
    assert("f5"@ != "pagedown"@) by { assert("f5"@.len() != "pagedown"@.len()); }
    reveal_strlit("pgdn");
    assert("f5"@ != "pgdn"@) by { assert("f5"@.len() != "pgdn"@.len()); }
    reveal_strlit("pgdown");
    assert("f5"@ != "pgdown"@) by { assert("f5"@.len() != "pgdown"@.len()); }
    reveal_strlit("f1");
    assert("f5"@ != "f1"@) by { assert("f5"@[1] != "f1"@[1]); }
    reveal_strlit("f2");
    assert("f5"@ != "f2"@) by { assert("f5"@[1] != "f2"@[1]); }
    reveal_strlit("f3");
    assert("f5"@ != "f3"@) by { assert("f5"@[1] != "f3"@[1]); }
    reveal_strlit("f4");
    assert("f5"@ != "f4"@) by { assert("f5"@[1] != "f4"@[1]); }
    reveal_strlit("ctrl");
    assert("f5"@ != "ctrl"@) by { assert("f5"@.len() != "ctrl"@.len()); }
    reveal_strlit("control");
    assert("f5"@ != "control"@) by { assert("f5"@.len() != "control"@.len()); }
    reveal_strlit("shift");
    assert("f5"@ != "shift"@) by { assert("f5"@.len() != "shift"@.len()); }
    reveal_strlit("alt");
    assert("f5"@ != "alt"@) by { assert("f5"@.len() != "alt"@.len()); }
}

proof fn lemma_token_f6()
    ensures
        token_key("f6"@) == Some(Key::F(6)),
        !is_modifier_word("f6"@),
        plain_token("f6"@),
{
    reveal_strlit("f6");
    reveal_strlit("left");
    assert("f6"@ != "left"@) by { assert("f6"@.len() != "left"@.len()); }
    reveal_strlit("right");
    assert("f6"@ != "right"@) by { assert("f6"@.len() != "right"@.len()); }
    reveal_strlit("up");
    assert("f6"@ != "up"@) by { assert("f6"@[0] != "up"@[0]); }
    reveal_strlit("down");
    assert("f6"@ != "down"@) by { assert("f6"@.len() != "down"@.len()); }
    reveal_strlit("tab");
    assert("f6"@ != "tab"@) by { assert("f6"@.len() != "tab"@.len()); }
    reveal_strlit("backtab");
    assert("f6"@ != "backtab"@) by { assert("f6"@.len() != "backtab"@.len()); }
    reveal_strlit("space");
    assert("f6"@ != "space"@) by { assert("f6"@.len() != "space"@.len()); }
    reveal_strlit("esc");
    assert("f6"@ != "esc"@) by { assert("f6"@.len() != "esc"@.len()); }
    reveal_strlit("escape");
    assert("f6"@ != "escape"@) by { assert("f6"@.len() != "escape"@.len()); }
    reveal_strlit("enter");
    assert("f6"@ != "enter"@) by { assert("f6"@.len() != "enter"@.len()); }
    reveal_strlit("return");
    assert("f6"@ != "return"@) by { assert("f6"@.len() != "return"@.len()); }
    reveal_strlit("backspace");
    assert("f6"@ != "backspace"@) by { assert("f6"@.len() != "backspace"@.len()); }
    reveal_strlit("home");
    assert("f6"@ != "home"@) by { assert("f6"@.len() != "home"@.len()); }
    reveal_strlit("end");
    assert("f6"@ != "end"@) by { assert("f6"@.len() != "end"@.len()); }
    reveal_strlit("pageup");
    assert("f6"@ != "pageup"@) by { assert("f6"@.len() != "pageup"@.len()); }
    reveal_strlit("pgup");
    assert("f6"@ != "pgup"@) by { assert("f6"@.len() != "pgup"@.len()); }
    reveal_strlit("pagedown");
    assert("f6"@ != "pagedown"@) by { assert("f6"@.len() != "pagedown"@.len()); }
    reveal_strlit("pgdn");
    assert("f6"@ != "pgdn"@) by { assert("f6"@.len() != "pgdn"@.len()); }
    reveal_strlit("pgdown");
    assert("f6"@ != "pgdown"@) by { assert("f6"@.len() != "pgdown"@.len()); }
    reveal_strlit("f1");
    assert("f6"@ != "f1"@) by { assert("f6"@[1] != "f1"@[1]); }
    reveal_strlit("f2");
    assert("f6"@ != "f2"@) by { assert("f6"@[1] != "f2"@[1]); }
    reveal_strlit("f3");
    assert("f6"@ != "f3"@) by { assert("f6"@[1] != "f3"@[1]); }
    reveal_strlit("f4");
    assert("f6"@ != "f4"@) by { assert("f6"@[1] != "f4"@[1]); }
    reveal_strlit("f5");
    assert("f6"@ != "f5"@) by { assert("f6"@[1] != "f5"@[1]); }
    reveal_strlit("ctrl");
    assert("f6"@ != "ctrl"@) by { assert("f6"@.len() != "ctrl"@.len()); }
    reveal_strlit("control");
    assert("f6"@ != "control"@) by { assert("f6"@.len() != "control"@.len()); }
    reveal_strlit("shift");
    assert("f6"@ != "shift"@) by { assert("f6"@.len() != "shift"@.len()); }
    reveal_strlit("alt");
    assert("f6"@ != "alt"@) by { assert("f6"@.len() != "alt"@.len()); }
}

proof fn lemma_token_f7()
    ensures
        token_key("f7"@) == Some(Key::F(7)),
        !is_modifier_word("f7"@),
        plain_token("f7"@),
{
    reveal_strlit("f7");
    reveal_strlit("left");
    assert("f7"@ != "left"@) by { assert("f7"@.len() != "left"@.len()); }
    reveal_strlit("right");
    assert("f7"@ != "right"@) by { assert("f7"@.len() != "right"@.len()); }
    reveal_strlit("up");
    assert("f7"@ != "up"@) by { assert("f7"@[0] != "up"@[0]); }
    reveal_strlit("down");
    assert("f7"@ != "down"@) by { assert("f7"@.len() != "down"@.len()); }
    reveal_strlit("tab");
    assert("f7"@ != "tab"@) by { assert("f7"@.len() != "tab"@.len()); }
    reveal_strlit("backtab");
    assert("f7"@ != "backtab"@) by { assert("f7"@.len() != "backtab"@.len()); }
    reveal_strlit("space");
    assert("f7"@ != "space"@) by { assert("f7"@.len() != "space"@.len()); }
    reveal_strlit("esc");
    assert("f7"@ != "esc"@) by { assert("f7"@.len() != "esc"@.len()); }
    reveal_strlit("escape");
    assert("f7"@ != "escape"@) by { assert("f7"@.len() != "escape"@.len()); }
    reveal_strlit("enter");
    assert("f7"@ != "enter"@) by { assert("f7"@.len() != "enter"@.len()); }
    reveal_strlit("return");
    assert("f7"@ != "return"@) by { assert("f7"@.len() != "return"@.len()); }
    reveal_strlit("backspace");
    assert("f7"@ != "backspace"@) by { assert("f7"@.len() != "backspace"@.len()); }
    reveal_strlit("home");
    assert("f7"@ != "home"@) by { assert("f7"@.len() != "home"@.len()); }
    reveal_strlit("end");
    assert("f7"@ != "end"@) by { assert("f7"@.len() != "end"@.len()); }
    reveal_strlit("pageup");
    assert("f7"@ != "pageup"@) by { assert("f7"@.len() != "pageup"@.len()); }
    reveal_strlit("pgup");
    assert("f7"@ != "pgup"@) by { assert("f7"@.len() != "pgup"@.len()); }
    reveal_strlit("pagedown");
    assert("f7"@ != "pagedown"@) by { assert("f7"@.len() != "pagedown"@.len()); }
    reveal_strlit("pgdn");
    assert("f7"@ != "pgdn"@) by { assert("f7"@.len() != "pgdn"@.len()); }
    reveal_strlit("pgdown");
    assert("f7"@ != "pgdown"@) by { assert("f7"@.len() != "pgdown"@.len()); }
    reveal_strlit("f1");
    assert("f7"@ != "f1"@) by { assert("f7"@[1] != "f1"@[1]); }
    reveal_strlit("f2");
    assert("f7"@ != "f2"@) by { assert("f7"@[1] != "f2"@[1]); }
    reveal_strlit("f3");
    assert("f7"@ != "f3"@) by { assert("f7"@[1] != "f3"@[1]); }
    reveal_strlit("f4");
    assert("f7"@ != "f4"@) by { assert("f7"@[1] != "f4"@[1]); }
    reveal_strlit("f5");
    assert("f7"@ != "f5"@) by { assert("f7"@[1] != "f5"@[1]); }
    reveal_strlit("f6");
    assert("f7"@ != "f6"@) by { assert("f7"@[1] != "f6"@[1]); }
    reveal_strlit("ctrl");
    assert("f7"@ != "ctrl"@) by { assert("f7"@.len() != "ctrl"@.len()); }
    reveal_strlit("control");
    assert("f7"@ != "control"@) by { assert("f7"@.len() != "control"@.len()); }
    reveal_strlit("shift");
    assert("f7"@ != "shift"@) by { assert("f7"@.len() != "shift"@.len()); }
    reveal_strlit("alt");
    assert("f7"@ != "alt"@) by { assert("f7"@.len() != "alt"@.len()); }
}

proof fn lemma_token_f8()
    ensures
        token_key("f8"@) == Some(Key::F(8)),
        !is_modifier_word("f8"@),
        plain_token("f8"@),
{
    reveal_strlit("f8");
    reveal_strlit("left");
    assert("f8"@ != "left"@) by { assert("f8"@.len() != "left"@.len()); }
    reveal_strlit("right");
    assert("f8"@ != "right"@) by { assert("f8"@.len() != "right"@.len()); }
    reveal_strlit("up");
    assert("f8"@ != "up"@) by { assert("f8"@[0] != "up"@[0]); }
    reveal_strlit("down");
    assert("f8"@ != "down"@) by { assert("f8"@.len() != "down"@.len()); }
    reveal_strlit("tab");
    assert("f8"@ != "tab"@) by { assert("f8"@.len() != "tab"@.len()); }
    reveal_strlit("backtab");
    assert("f8"@ != "backtab"@) by { assert("f8"@.len() != "backtab"@.len()); }
    reveal_strlit("space");
    assert("f8"@ != "space"@) by { assert("f8"@.len() != "space"@.len()); }
    reveal_strlit("esc");
    assert("f8"@ != "esc"@) by { assert("f8"@.len() != "esc"@.len()); }
    reveal_strlit("escape");
    assert("f8"@ != "escape"@) by { assert("f8"@.len() != "escape"@.len()); }
    reveal_strlit("enter");
    assert("f8"@ != "enter"@) by { assert("f8"@.len() != "enter"@.len()); }
    reveal_strlit("return");
    assert("f8"@ != "return"@) by { assert("f8"@.len() != "return"@.len()); }
    reveal_strlit("backspace");
    assert("f8"@ != "backspace"@) by { assert("f8"@.len() != "backspace"@.len()); }
    reveal_strlit("home");
    assert("f8"@ != "home"@) by { assert("f8"@.len() != "home"@.len()); }
    reveal_strlit("end");
    assert("f8"@ != "end"@) by { assert("f8"@.len() != "end"@.len()); }
    reveal_strlit("pageup");
    assert("f8"@ != "pageup"@) by { assert("f8"@.len() != "pageup"@.len()); }
    reveal_strlit("pgup");
    assert("f8"@ != "pgup"@) by { assert("f8"@.len() != "pgup"@.len()); }
    reveal_strlit("pagedown");
    assert("f8"@ != "pagedown"@) by { assert("f8"@.len() != "pagedown"@.len()); }
    reveal_strlit("pgdn");
    assert("f8"@ != "pgdn"@) by { assert("f8"@.len() != "pgdn"@.len()); }
    reveal_strlit("pgdown");
    assert("f8"@ != "pgdown"@) by { assert("f8"@.len() != "pgdown"@.len()); }
    reveal_strlit("f1");
    assert("f8"@ != "f1"@) by { assert("f8"@[1] != "f1"@[1]); }
    reveal_strlit("f2");
    assert("f8"@ != "f2"@) by { assert("f8"@[1] != "f2"@[1]); }
    reveal_strlit("f3");
    assert("f8"@ != "f3"@) by { assert("f8"@[1] != "f3"@[1]); }
    reveal_strlit("f4");
    assert("f8"@ != "f4"@) by { assert("f8"@[1] != "f4"@[1]); }
    reveal_strlit("f5");
    assert("f8"@ != "f5"@) by { assert("f8"@[1] != "f5"@[1]); }
    reveal_strlit("f6");
    assert("f8"@ != "f6"@) by { assert("f8"@[1] != "f6"@[1]); }
    reveal_strlit("f7");
    assert("f8"@ != "f7"@) by { assert("f8"@[1] != "f7"@[1]); }
    reveal_strlit("ctrl");
    assert("f8"@ != "ctrl"@) by { assert("f8"@.len() != "ctrl"@.len()); }
    reveal_strlit("control");
    assert("f8"@ != "control"@) by { assert("f8"@.len() != "control"@.len()); }
    reveal_strlit("shift");
    assert("f8"@ != "shift"@) by { assert("f8"@.len() != "shift"@.len()); }
    reveal_strlit("alt");
    assert("f8"@ != "alt"@) by { assert("f8"@.len() != "alt"@.len()); }
}

proof fn lemma_token_f9()
    ensures
        token_key("f9"@) == Some(Key::F(9)),
        !is_modifier_word("f9"@),
        plain_token("f9"@),
{
    reveal_strlit("f9");
    reveal_strlit("left");
    assert("f9"@ != "left"@) by { assert("f9"@.len() != "left"@.len()); }
    reveal_strlit("right");
    assert("f9"@ != "right"@) by { assert("f9"@.len() != "right"@.len()); }
    reveal_strlit("up");
    assert("f9"@ != "up"@) by { assert("f9"@[0] != "up"@[0]); }
    reveal_strlit("down");
    assert("f9"@ != "down"@) by { assert("f9"@.len() != "down"@.len()); }
    reveal_strlit("tab");
    assert("f9"@ != "tab"@) by { assert("f9"@.len() != "tab"@.len()); }
    reveal_strlit("backtab");
    assert("f9"@ != "backtab"@) by { assert("f9"@.len() != "backtab"@.len()); }
    reveal_strlit("space");
    assert("f9"@ != "space"@) by { assert("f9"@.len() != "space"@.len()); }
    reveal_strlit("esc");
    assert("f9"@ != "esc"@) by { assert("f9"@.len() != "esc"@.len()); }
    reveal_strlit("escape");
    assert("f9"@ != "escape"@) by { assert("f9"@.len() != "escape"@.len()); }
    reveal_strlit("enter");
    assert("f9"@ != "enter"@) by { assert("f9"@.len() != "enter"@.len()); }
    reveal_strlit("return");
    assert("f9"@ != "return"@) by { assert("f9"@.len() != "return"@.len()); }
    reveal_strlit("backspace");
    assert("f9"@ != "backspace"@) by { assert("f9"@.len() != "backspace"@.len()); }
    reveal_strlit("home");
    assert("f9"@ != "home"@) by { assert("f9"@.len() != "home"@.len()); }
    reveal_strlit("end");
    assert("f9"@ != "end"@) by { assert("f9"@.len() != "end"@.len()); }
    reveal_strlit("pageup");
    assert("f9"@ != "pageup"@) by { assert("f9"@.len() != "pageup"@.len()); }
    reveal_strlit("pgup");
    assert("f9"@ != "pgup"@) by { assert("f9"@.len() != "pgup"@.len()); }
    reveal_strlit("pagedown");
    assert("f9"@ != "pagedown"@) by { assert("f9"@.len() != "pagedown"@.len()); }
    reveal_strlit("pgdn");
    assert("f9"@ != "pgdn"@) by { assert("f9"@.len() != "pgdn"@.len()); }
    reveal_strlit("pgdown");
    assert("f9"@ != "pgdown"@) by { assert("f9"@.len() != "pgdown"@.len()); }
    reveal_strlit("f1");
    assert("f9"@ != "f1"@) by { assert("f9"@[1] != "f1"@[1]); }
    reveal_strlit("f2");
    assert("f9"@ != "f2"@) by { assert("f9"@[1] != "f2"@[1]); }
    reveal_strlit("f3");
    assert("f9"@ != "f3"@) by { assert("f9"@[1] != "f3"@[1]); }
    reveal_strlit("f4");
    assert("f9"@ != "f4"@) by { assert("f9"@[1] != "f4"@[1]); }
    reveal_strlit("f5");
    assert("f9"@ != "f5"@) by { assert("f9"@[1] != "f5"@[1]); }
    reveal_strlit("f6");
    assert("f9"@ != "f6"@) by { assert("f9"@[1] != "f6"@[1]); }
    reveal_strlit("f7");
    assert("f9"@ != "f7"@) by { assert("f9"@[1] != "f7"@[1]); }
    reveal_strlit("f8");
    assert("f9"@ != "f8"@) by { assert("f9"@[1] != "f8"@[1]); }
    reveal_strlit("ctrl");
    assert("f9"@ != "ctrl"@) by { assert("f9"@.len() != "ctrl"@.len()); }
    reveal_strlit("control");
    assert("f9"@ != "control"@) by { assert("f9"@.len() != "control"@.len()); }
    reveal_strlit("shift");
    assert("f9"@ != "shift"@) by { assert("f9"@.len() != "shift"@.len()); }
    reveal_strlit("alt");
    assert("f9"@ != "alt"@) by { assert("f9"@.len() != "alt"@.len()); }
}

proof fn lemma_token_f10()
    ensures
        token_key("f10"@) == Some(Key::F(10)),
        !is_modifier_word("f10"@),
        plain_token("f10"@),
{
    reveal_strlit("f10");
    reveal_strlit("left");
    assert("f10"@ != "left"@) by { assert("f10"@.len() != "left"@.len()); }
    reveal_strlit("right");
    assert("f10"@ != "right"@) by { assert("f10"@.len() != "right"@.len()); }
    reveal_strlit("up");
    assert("f10"@ != "up"@) by { assert("f10"@.len() != "up"@.len()); }
    reveal_strlit("down");
    assert("f10"@ != "down"@) by { assert("f10"@.len() != "down"@.len()); }
    reveal_strlit("tab");
    assert("f10"@ != "tab"@) by { assert("f10"@[0] != "tab"@[0]); }
    reveal_strlit("backtab");
    assert("f10"@ != "backtab"@) by { assert("f10"@.len() != "backtab"@.len()); }
    reveal_strlit("space");
    assert("f10"@ != "space"@) by { assert("f10"@.len() != "space"@.len()); }
    reveal_strlit("esc");
    assert("f10"@ != "esc"@) by { assert("f10"@[0] != "esc"@[0]); }
    reveal_strlit("escape");
    assert("f10"@ != "escape"@) by { assert("f10"@.len() != "escape"@.len()); }
    reveal_strlit("enter");
    assert("f10"@ != "enter"@) by { assert("f10"@.len() != "enter"@.len()); }
    reveal_strlit("return");
    assert("f10"@ != "return"@) by { assert("f10"@.len() != "return"@.len()); }
    reveal_strlit("backspace");
    assert("f10"@ != "backspace"@) by { assert("f10"@.len() != "backspace"@.len()); }
    reveal_strlit("home");
    assert("f10"@ != "home"@) by { assert("f10"@.len() != "home"@.len()); }
    reveal_strlit("end");
    assert("f10"@ != "end"@) by { assert("f10"@[0] != "end"@[0]); }
    reveal_strlit("pageup");
    assert("f10"@ != "pageup"@) by { assert("f10"@.len() != "pageup"@.len()); }
    reveal_strlit("pgup");
    assert("f10"@ != "pgup"@) by { assert("f10"@.len() != "pgup"@.len()); }
    reveal_strlit("pagedown");
    assert("f10"@ != "pagedown"@) by { assert("f10"@.len() != "pagedown"@.len()); }
    reveal_strlit("pgdn");
    assert("f10"@ != "pgdn"@) by { assert("f10"@.len() != "pgdn"@.len()); }
    reveal_strlit("pgdown");
    assert("f10"@ != "pgdown"@) by { assert("f10"@.len() != "pgdown"@.len()); }
    reveal_strlit("f1");
    assert("f10"@ != "f1"@) by { assert("f10"@.len() != "f1"@.len()); }
    reveal_strlit("f2");
    assert("f10"@ != "f2"@) by { assert("f10"@.len() != "f2"@.len()); }
    reveal_strlit("f3");
    assert("f10"@ != "f3"@) by { assert("f10"@.len() != "f3"@.len()); }
    reveal_strlit("f4");
    assert("f10"@ != "f4"@) by { assert("f10"@.len() != "f4"@.len()); }
    reveal_strlit("f5");
    assert("f10"@ != "f5"@) by { assert("f10"@.len() != "f5"@.len()); }
    reveal_strlit("f6");
    assert("f10"@ != "f6"@) by { assert("f10"@.len() != "f6"@.len()); }
    reveal_strlit("f7");
    assert("f10"@ != "f7"@) by { assert("f10"@.len() != "f7"@.len()); }
    reveal_strlit("f8");
    assert("f10"@ != "f8"@) by { assert("f10"@.len() != "f8"@.len()); }
    reveal_strlit("f9");
    assert("f10"@ != "f9"@) by { assert("f10"@.len() != "f9"@.len()); }
    reveal_strlit("ctrl");
    assert("f10"@ != "ctrl"@) by { assert("f10"@.len() != "ctrl"@.len()); }
    reveal_strlit("control");
    assert("f10"@ != "control"@) by { assert("f10"@.len() != "control"@.len()); }
    reveal_strlit("shift");
    assert("f10"@ != "shift"@) by { assert("f10"@.len() != "shift"@.len()); }
    reveal_strlit("alt");
    assert("f10"@ != "alt"@) by { assert("f10"@[0] != "alt"@[0]); }
}

proof fn lemma_token_f11()
    ensures
        token_key("f11"@) == Some(Key::F(11)),
        !is_modifier_word("f11"@),
        plain_token("f11"@),
{
    reveal_strlit("f11");
    reveal_strlit("left");
    assert("f11"@ != "left"@) by { assert("f11"@.len() != "left"@.len()); }
    reveal_strlit("right");
    assert("f11"@ != "right"@) by { assert("f11"@.len() != "right"@.len()); }
    reveal_strlit("up");
    assert("f11"@ != "up"@) by { assert("f11"@.len() != "up"@.len()); }
    reveal_strlit("down");
    assert("f11"@ != "down"@) by { assert("f11"@.len() != "down"@.len()); }
    reveal_strlit("tab");
    assert("f11"@ != "tab"@) by { assert("f11"@[0] != "tab"@[0]); }
    reveal_strlit("backtab");
    assert("f11"@ != "backtab"@) by { assert("f11"@.len() != "backtab"@.len()); }
    reveal_strlit("space");
    assert("f11"@ != "space"@) by { assert("f11"@.len() != "space"@.len()); }
    reveal_strlit("esc");
    assert("f11"@ != "esc"@) by { assert("f11"@[0] != "esc"@[0]); }
    reveal_strlit("escape");
    assert("f11"@ != "escape"@) by { assert("f11"@.len() != "escape"@.len()); }
    reveal_strlit("enter");
    assert("f11"@ != "enter"@) by { assert("f11"@.len() != "enter"@.len()); }
    reveal_strlit("return");
    assert("f11"@ != "return"@) by { assert("f11"@.len() != "return"@.len()); }
    reveal_strlit("backspace");
    assert("f11"@ != "backspace"@) by { assert("f11"@.len() != "backspace"@.len()); }
    reveal_strlit("home");
    assert("f11"@ != "home"@) by { assert("f11"@.len() != "home"@.len()); }
    reveal_strlit("end");
    assert("f11"@ != "end"@) by { assert("f11"@[0] != "end"@[0]); }
    reveal_strlit("pageup");
    assert("f11"@ != "pageup"@) by { assert("f11"@.len() != "pageup"@.len()); }
    reveal_strlit("pgup");
    assert("f11"@ != "pgup"@) by { assert("f11"@.len() != "pgup"@.len()); }
    reveal_strlit("pagedown");
    assert("f11"@ != "pagedown"@) by { assert("f11"@.len() != "pagedown"@.len()); }
    reveal_strlit("pgdn");
    assert("f11"@ != "pgdn"@) by { assert("f11"@.len() != "pgdn"@.len()); }
    reveal_strlit("pgdown");
    assert("f11"@ != "pgdown"@) by { assert("f11"@.len() != "pgdown"@.len()); }
    reveal_strlit("f1");
    assert("f11"@ != "f1"@) by { assert("f11"@.len() != "f1"@.len()); }
    reveal_strlit("f2");
    assert("f11"@ != "f2"@) by { assert("f11"@.len() != "f2"@.len()); }
    reveal_strlit("f3");
    assert("f11"@ != "f3"@) by { assert("f11"@.len() != "f3"@.len()); }
    reveal_strlit("f4");
    assert("f11"@ != "f4"@) by { assert("f11"@.len() != "f4"@.len()); }
    reveal_strlit("f5");
    assert("f11"@ != "f5"@) by { assert("f11"@.len() != "f5"@.len()); }
    reveal_strlit("f6");
    assert("f11"@ != "f6"@) by { assert("f11"@.len() != "f6"@.len()); }
    reveal_strlit("f7");
    assert("f11"@ != "f7"@) by { assert("f11"@.len() != "f7"@.len()); }
    reveal_strlit("f8");
    assert("f11"@ != "f8"@) by { assert("f11"@.len() != "f8"@.len()); }
    reveal_strlit("f9");
    assert("f11"@ != "f9"@) by { assert("f11"@.len() != "f9"@.len()); }
    reveal_strlit("f10");
    assert("f11"@ != "f10"@) by { assert("f11"@[2] != "f10"@[2]); }
    reveal_strlit("ctrl");
    assert("f11"@ != "ctrl"@) by { assert("f11"@.len() != "ctrl"@.len()); }
    reveal_strlit("control");
    assert("f11"@ != "control"@) by { assert("f11"@.len() != "control"@.len()); }
    reveal_strlit("shift");
    assert("f11"@ != "shift"@) by { assert("f11"@.len() != "shift"@.len()); }
    reveal_strlit("alt");
    assert("f11"@ != "alt"@) by { assert("f11"@[0] != "alt"@[0]); }
}

proof fn lemma_token_f12()
    ensures
        token_key("f12"@) == Some(Key::F(12)),
        !is_modifier_word("f12"@),
        plain_token("f12"@),
{
    reveal_strlit("f12");
    reveal_strlit("left");
    assert("f12"@ != "left"@) by { assert("f12"@.len() != "left"@.len()); }
    reveal_strlit("right");
    assert("f12"@ != "right"@) by { assert("f12"@.len() != "right"@.len()); }
    reveal_strlit("up");
    assert("f12"@ != "up"@) by { assert("f12"@.len() != "up"@.len()); }
    reveal_strlit("down");
    assert("f12"@ != "down"@) by { assert("f12"@.len() != "down"@.len()); }
    reveal_strlit("tab");
    assert("f12"@ != "tab"@) by { assert("f12"@[0] != "tab"@[0]); }
    reveal_strlit("backtab");
    assert("f12"@ != "backtab"@) by { assert("f12"@.len() != "backtab"@.len()); }
    reveal_strlit("space");
    assert("f12"@ != "space"@) by { assert("f12"@.len() != "space"@.len()); }
    reveal_strlit("esc");
    assert("f12"@ != "esc"@) by { assert("f12"@[0] != "esc"@[0]); }
    reveal_strlit("escape");
    assert("f12"@ != "escape"@) by { assert("f12"@.len() != "escape"@.len()); }
    reveal_strlit("enter");
    assert("f12"@ != "enter"@) by { assert("f12"@.len() != "enter"@.len()); }
    reveal_strlit("return");
    assert("f12"@ != "return"@) by { assert("f12"@.len() != "return"@.len()); }
    reveal_strlit("backspace");
    assert("f12"@ != "backspace"@) by { assert("f12"@.len() != "backspace"@.len()); }
    reveal_strlit("home");
    assert("f12"@ != "home"@) by { assert("f12"@.len() != "home"@.len()); }
    reveal_strlit("end");
    assert("f12"@ != "end"@) by { assert("f12"@[0] != "end"@[0]); }
    reveal_strlit("pageup");
    assert("f12"@ != "pageup"@) by { assert("f12"@.len() != "pageup"@.len()); }
    reveal_strlit("pgup");
    assert("f12"@ != "pgup"@) by { assert("f12"@.len() != "pgup"@.len()); }
    reveal_strlit("pagedown");
    assert("f12"@ != "pagedown"@) by { assert("f12"@.len() != "pagedown"@.len()); }
    reveal_strlit("pgdn");
    assert("f12"@ != "pgdn"@) by { assert("f12"@.len() != "pgdn"@.len()); }
    reveal_strlit("pgdown");
    assert("f12"@ != "pgdown"@) by { assert("f12"@.len() != "pgdown"@.len()); }
    reveal_strlit("f1");
    assert("f12"@ != "f1"@) by { assert("f12"@.len() != "f1"@.len()); }
    reveal_strlit("f2");
    assert("f12"@ != "f2"@) by { assert("f12"@.len() != "f2"@.len()); }
    reveal_strlit("f3");
    assert("f12"@ != "f3"@) by { assert("f12"@.len() != "f3"@.len()); }
    reveal_strlit("f4");
    assert("f12"@ != "f4"@) by { assert("f12"@.len() != "f4"@.len()); }
    reveal_strlit("f5");
    assert("f12"@ != "f5"@) by { assert("f12"@.len() != "f5"@.len()); }
    reveal_strlit("f6");
    assert("f12"@ != "f6"@) by { assert("f12"@.len() != "f6"@.len()); }
    reveal_strlit("f7");
    assert("f12"@ != "f7"@) by { assert("f12"@.len() != "f7"@.len()); }
    reveal_strlit("f8");
    assert("f12"@ != "f8"@) by { assert("f12"@.len() != "f8"@.len()); }
    reveal_strlit("f9");
    assert("f12"@ != "f9"@) by { assert("f12"@.len() != "f9"@.len()); }
    reveal_strlit("f10");
    assert("f12"@ != "f10"@) by { assert("f12"@[2] != "f10"@[2]); }
    reveal_strlit("f11");
    assert("f12"@ != "f11"@) by { assert("f12"@[2] != "f11"@[2]); }
    reveal_strlit("ctrl");
    assert("f12"@ != "ctrl"@) by { assert("f12"@.len() != "ctrl"@.len()); }
    reveal_strlit("control");
    assert("f12"@ != "control"@) by { assert("f12"@.len() != "control"@.len()); }
    reveal_strlit("shift");
    assert("f12"@ != "shift"@) by { assert("f12"@.len() != "shift"@.len()); }
    reveal_strlit("alt");
    assert("f12"@ != "alt"@) by { assert("f12"@[0] != "alt"@[0]); }
}

/// The arrow words name the arrow keys, `backtab` names BackTab and `space` the space bar, whatever modifiers come before them.
pub proof fn lemma_arrow_tokens_parse(ctrl: bool, alt: bool, shift: bool, s: Seq<char>)
    ensures
        parse_lowered_spec(modifier_text(ctrl, alt, shift) + "left"@, s) == Ok::<KeySpec, Seq<char>>(
            KeySpec { code: Key::Left, ctrl, shift, alt },
        ),
        parse_lowered_spec(modifier_text(ctrl, alt, shift) + "right"@, s) == Ok::<KeySpec, Seq<char>>(
            KeySpec { code: Key::Right, ctrl, shift, alt },
        ),
        parse_lowered_spec(modifier_text(ctrl, alt, shift) + "up"@, s) == Ok::<KeySpec, Seq<char>>(
            KeySpec { code: Key::Up, ctrl, shift, alt },
        ),
        parse_lowered_spec(modifier_text(ctrl, alt, shift) + "down"@, s) == Ok::<KeySpec, Seq<char>>(
            KeySpec { code: Key::Down, ctrl, shift, alt },
        ),
        parse_lowered_spec(modifier_text(ctrl, alt, shift) + "backtab"@, s) == Ok::<KeySpec, Seq<char>>(
            KeySpec { code: Key::BackTab, ctrl, shift, alt },
        ),
        parse_lowered_spec(modifier_text(ctrl, alt, shift) + "space"@, s) == Ok::<KeySpec, Seq<char>>(
            KeySpec { code: Key::Char(' '), ctrl, shift, alt },
        ),
{
    lemma_token_left();
    lemma_token_parses(ctrl, alt, shift, "left"@, s);
    lemma_token_right();
    lemma_token_parses(ctrl, alt, shift, "right"@, s);
    lemma_token_up();
    lemma_token_parses(ctrl, alt, shift, "up"@, s);
    lemma_token_down();
    lemma_token_parses(ctrl, alt, shift, "down"@, s);
    lemma_token_backtab();
    lemma_token_parses(ctrl, alt, shift, "backtab"@, s);
    lemma_token_space();
    lemma_token_parses(ctrl, alt, shift, "space"@, s);
}

/// `esc`/`escape`, `enter`/`return`, `backspace`, `home` and `end` name those keys, whatever modifiers come before them.
pub proof fn lemma_edit_tokens_parse(ctrl: bool, alt: bool, shift: bool, s: Seq<char>)
    ensures
        parse_lowered_spec(modifier_text(ctrl, alt, shift) + "esc"@, s) == Ok::<KeySpec, Seq<char>>(
            KeySpec { code: Key::Esc, ctrl, shift, alt },
        ),
        parse_lowered_spec(modifier_text(ctrl, alt, shift) + "escape"@, s) == Ok::<KeySpec, Seq<char>>(
            KeySpec { code: Key::Esc, ctrl, shift, alt },
        ),
        parse_lowered_spec(modifier_text(ctrl, alt, shift) + "enter"@, s) == Ok::<KeySpec, Seq<char>>(
            KeySpec { code: Key::Enter, ctrl, shift, alt },
        ),
        parse_lowered_spec(modifier_text(ctrl, alt, shift) + "return"@, s) == Ok::<KeySpec, Seq<char>>(
            KeySpec { code: Key::Enter, ctrl, shift, alt },
        ),
        parse_lowered_spec(modifier_text(ctrl, alt, shift) + "backspace"@, s) == Ok::<KeySpec, Seq<char>>(
            KeySpec { code: Key::Backspace, ctrl, shift, alt },
        ),
        parse_lowered_spec(modifier_text(ctrl, alt, shift) + "home"@, s) == Ok::<KeySpec, Seq<char>>(
            KeySpec { code: Key::Home, ctrl, shift, alt },
        ),
        parse_lowered_spec(modifier_text(ctrl, alt, shift) + "end"@, s) == Ok::<KeySpec, Seq<char>>(
            KeySpec { code: Key::End, ctrl, shift, alt },
        ),
{
    lemma_token_esc();
    lemma_token_parses(ctrl, alt, shift, "esc"@, s);
    lemma_token_escape();
    lemma_token_parses(ctrl, alt, shift, "escape"@, s);
    lemma_token_enter();
    lemma_token_parses(ctrl, alt, shift, "enter"@, s);
    lemma_token_return();
    lemma_token_parses(ctrl, alt, shift, "return"@, s);
    lemma_token_backspace();
    lemma_token_parses(ctrl, alt, shift, "backspace"@, s);
    lemma_token_home();
    lemma_token_parses(ctrl, alt, shift, "home"@, s);
    lemma_token_end();
    lemma_token_parses(ctrl, alt, shift, "end"@, s);
}

/// `pageup` and `pgup` name Page Up; `pagedown`, `pgdn` and `pgdown` name Page Down; whatever modifiers come before them.
pub proof fn lemma_page_tokens_parse(ctrl: bool, alt: bool, shift: bool, s: Seq<char>)
    ensures
        parse_lowered_spec(modifier_text(ctrl, alt, shift) + "pageup"@, s) == Ok::<KeySpec, Seq<char>>(
            KeySpec { code: Key::PageUp, ctrl, shift, alt },
        ),
        parse_lowered_spec(modifier_text(ctrl, alt, shift) + "pgup"@, s) == Ok::<KeySpec, Seq<char>>(
            KeySpec { code: Key::PageUp, ctrl, shift, alt },
        ),
        parse_lowered_spec(modifier_text(ctrl, alt, shift) + "pagedown"@, s) == Ok::<KeySpec, Seq<char>>(
            KeySpec { code: Key::PageDown, ctrl, shift, alt },
        ),
        parse_lowered_spec(modifier_text(ctrl, alt, shift) + "pgdn"@, s) == Ok::<KeySpec, Seq<char>>(
            KeySpec { code: Key::PageDown, ctrl, shift, alt },
        ),
        parse_lowered_spec(modifier_text(ctrl, alt, shift) + "pgdown"@, s) == Ok::<KeySpec, Seq<char>>(
            KeySpec { code: Key::PageDown, ctrl, shift, alt },
        ),
{
    lemma_token_pageup();
    lemma_token_parses(ctrl, alt, shift, "pageup"@, s);
    lemma_token_pgup();
    lemma_token_parses(ctrl, alt, shift, "pgup"@, s);
    lemma_token_pagedown();
    lemma_token_parses(ctrl, alt, shift, "pagedown"@, s);
    lemma_token_pgdn();
    lemma_token_parses(ctrl, alt, shift, "pgdn"@, s);
    lemma_token_pgdown();
    lemma_token_parses(ctrl, alt, shift, "pgdown"@, s);
}

/// `f1` to `f12` name the function keys of those numbers, whatever modifiers come before them.
pub proof fn lemma_function_tokens_parse(ctrl: bool, alt: bool, shift: bool, s: Seq<char>)
    ensures
        parse_lowered_spec(modifier_text(ctrl, alt, shift) + "f1"@, s) == Ok::<KeySpec, Seq<char>>(
            KeySpec { code: Key::F(1), ctrl, shift, alt },
        ),
        parse_lowered_spec(modifier_text(ctrl, alt, shift) + "f2"@, s) == Ok::<KeySpec, Seq<char>>(
            KeySpec { code: Key::F(2), ctrl, shift, alt },
        ),
        parse_lowered_spec(modifier_text(ctrl, alt, shift) + "f3"@, s) == Ok::<KeySpec, Seq<char>>(
            KeySpec { code: Key::F(3), ctrl, shift, alt },
        ),
        parse_lowered_spec(modifier_text(ctrl, alt, shift) + "f4"@, s) == Ok::<KeySpec, Seq<char>>(
            KeySpec { code: Key::F(4), ctrl, shift, alt },
        ),
        parse_lowered_spec(modifier_text(ctrl, alt, shift) + "f5"@, s) == Ok::<KeySpec, Seq<char>>(
            KeySpec { code: Key::F(5), ctrl, shift, alt },
        ),
        parse_lowered_spec(modifier_text(ctrl, alt, shift) + "f6"@, s) == Ok::<KeySpec, Seq<char>>(
            KeySpec { code: Key::F(6), ctrl, shift, alt },
        ),
        parse_lowered_spec(modifier_text(ctrl, alt, shift) + "f7"@, s) == Ok::<KeySpec, Seq<char>>(
            KeySpec { code: Key::F(7), ctrl, shift, alt },
        ),
        parse_lowered_spec(modifier_text(ctrl, alt, shift) + "f8"@, s) == Ok::<KeySpec, Seq<char>>(
            KeySpec { code: Key::F(8), ctrl, shift, alt },
        ),
        parse_lowered_spec(modifier_text(ctrl, alt, shift) + "f9"@, s) == Ok::<KeySpec, Seq<char>>(
            KeySpec { code: Key::F(9), ctrl, shift, alt },
        ),
        parse_lowered_spec(modifier_text(ctrl, alt, shift) + "f10"@, s) == Ok::<KeySpec, Seq<char>>(
            KeySpec { code: Key::F(10), ctrl, shift, alt },
        ),
        parse_lowered_spec(modifier_text(ctrl, alt, shift) + "f11"@, s) == Ok::<KeySpec, Seq<char>>(
            KeySpec { code: Key::F(11), ctrl, shift, alt },
        ),
        parse_lowered_spec(modifier_text(ctrl, alt, shift) + "f12"@, s) == Ok::<KeySpec, Seq<char>>(
            KeySpec { code: Key::F(12), ctrl, shift, alt },
        ),
{
    lemma_token_f1();
    lemma_token_parses(ctrl, alt, shift, "f1"@, s);
    lemma_token_f2();
    lemma_token_parses(ctrl, alt, shift, "f2"@, s);
    lemma_token_f3();
    lemma_token_parses(ctrl, alt, shift, "f3"@, s);
    lemma_token_f4();
    lemma_token_parses(ctrl, alt, shift, "f4"@, s);
    lemma_token_f5();
    lemma_token_parses(ctrl, alt, shift, "f5"@, s);
    lemma_token_f6();
    lemma_token_parses(ctrl, alt, shift, "f6"@, s);
    lemma_token_f7();
    lemma_token_parses(ctrl, alt, shift, "f7"@, s);
    lemma_token_f8();
    lemma_token_parses(ctrl, alt, shift, "f8"@, s);
    lemma_token_f9();
    lemma_token_parses(ctrl, alt, shift, "f9"@, s);
    lemma_token_f10();
    lemma_token_parses(ctrl, alt, shift, "f10"@, s);
    lemma_token_f11();
    lemma_token_parses(ctrl, alt, shift, "f11"@, s);
    lemma_token_f12();
    lemma_token_parses(ctrl, alt, shift, "f12"@, s);
}

proof fn lemma_token_tab()
    ensures
        token_key("tab"@) == Some(Key::Tab),
        !is_modifier_word("tab"@),
        plain_token("tab"@),
{
    reveal_strlit("tab");
    reveal_strlit("left");
    reveal_strlit("right");
    reveal_strlit("up");
    reveal_strlit("down");
    reveal_strlit("ctrl");
    reveal_strlit("control");
    reveal_strlit("shift");
    reveal_strlit("alt");
    assert("tab"@ != "left"@) by { assert("tab"@.len() != "left"@.len()); }
    assert("tab"@ != "right"@) by { assert("tab"@.len() != "right"@.len()); }
    assert("tab"@ != "up"@) by { assert("tab"@.len() != "up"@.len()); }
    assert("tab"@ != "down"@) by { assert("tab"@.len() != "down"@.len()); }
    assert("tab"@ != "ctrl"@) by { assert("tab"@.len() != "ctrl"@.len()); }
    assert("tab"@ != "control"@) by { assert("tab"@.len() != "control"@.len()); }
    assert("tab"@ != "shift"@) by { assert("tab"@.len() != "shift"@.len()); }
    assert("tab"@ != "alt"@) by { assert("tab"@[0] != "alt"@[0]); }
}

/// `tab` names Tab; with `shift` written before it, it is BackTab, which
/// carries the shift itself.
pub proof fn lemma_tab_token_parse(ctrl: bool, alt: bool, shift: bool, s: Seq<char>)
    ensures
        parse_lowered_spec(modifier_text(ctrl, alt, shift) + "tab"@, s) == Ok::<KeySpec, Seq<char>>(
            KeySpec { code: if shift { Key::BackTab } else { Key::Tab }, ctrl, shift: false, alt },
        ),
{
    lemma_token_tab();
    lemma_modifier_walk(ctrl, alt, shift, "tab"@);
}

proof fn lemma_single_char_token(c: char)
    ensures
        token_key(seq![c]) == Some(Key::Char(c)),
        !is_modifier_word(seq![c]),
{
    let t = seq![c];
    reveal_strlit("left");
    reveal_strlit("right");
    reveal_strlit("up");
    reveal_strlit("down");
    reveal_strlit("tab");
    reveal_strlit("backtab");
    reveal_strlit("space");
    reveal_strlit("esc");
    reveal_strlit("escape");
    reveal_strlit("enter");
    reveal_strlit("return");
    reveal_strlit("backspace");
    reveal_strlit("home");
    reveal_strlit("end");
    reveal_strlit("pageup");
    reveal_strlit("pgup");
    reveal_strlit("pagedown");
    reveal_strlit("pgdn");
    reveal_strlit("pgdown");
    reveal_strlit("f1");
    reveal_strlit("f2");
    reveal_strlit("f3");
    reveal_strlit("f4");
    reveal_strlit("f5");
    reveal_strlit("f6");
    reveal_strlit("f7");
    reveal_strlit("f8");
    reveal_strlit("f9");
    reveal_strlit("f10");
    reveal_strlit("f11");
    reveal_strlit("f12");
    reveal_strlit("ctrl");
    reveal_strlit("control");
    reveal_strlit("shift");
    reveal_strlit("alt");
    assert(t.len() == 1);
}

/// A single character other than `+` and white space, after any modifiers, is
/// the key of that very character.
pub proof fn lemma_char_token_parse(ctrl: bool, alt: bool, shift: bool, c: char, s: Seq<char>)
    requires
        c != '+',
        !crate::text::is_space(c),
    ensures
        parse_lowered_spec(modifier_text(ctrl, alt, shift) + seq![c], s) == Ok::<KeySpec, Seq<char>>(
            KeySpec { code: Key::Char(c), ctrl, shift, alt },
        ),
{
    lemma_single_char_token(c);
    lemma_modifier_walk(ctrl, alt, shift, seq![c]);
}

/// `+` after any modifiers is the `+` key with those modifiers: a lone `+`,
/// and the empty part a doubled `+` leaves, both name it.
pub proof fn lemma_plus_key_parse(ctrl: bool, alt: bool, shift: bool, s: Seq<char>)
    ensures
        parse_lowered_spec(modifier_text(ctrl, alt, shift) + "+"@, s) == Ok::<KeySpec, Seq<char>>(
            KeySpec { code: Key::Char('+'), ctrl, shift, alt },
        ),
{
    reveal_strlit("+");
    reveal_strlit("ctrl+");
    reveal_strlit("alt+");
    reveal_strlit("shift+");
    reveal_strlit("ctrl");
    reveal_strlit("control");
    reveal_strlit("alt");
    reveal_strlit("shift");
    let e = Seq::<char>::empty();
    let p0 = Seq::<Seq<char>>::empty();
    assert(split_plus(e) == p0.push(e)) by {
        assert(p0.push(e) =~= seq![e]);
    }
    let x1 = flag_text(ctrl, "ctrl+"@);
    let p1 = if ctrl { p0.push("ctrl"@) } else { p0 };
    if ctrl {
        lemma_split_word(e, "ctrl"@, p0);
        assert(x1 =~= e + "ctrl"@ + seq!['+']);
    }
    let x2 = x1 + flag_text(alt, "alt+"@);
    let p2 = if alt { p1.push("alt"@) } else { p1 };
    if alt {
        lemma_split_word(x1, "alt"@, p1);
        assert(x2 =~= x1 + "alt"@ + seq!['+']);
    } else {
        assert(x2 =~= x1);
    }
    let x3 = x2 + flag_text(shift, "shift+"@);
    let p3 = if shift { p2.push("shift"@) } else { p2 };
    if shift {
        lemma_split_word(x2, "shift"@, p2);
        assert(x3 =~= x2 + "shift"@ + seq!['+']);
    } else {
        assert(x3 =~= x2);
    }
    assert(x3 =~= modifier_text(ctrl, alt, shift));
    let whole = x3 + "+"@;
    assert(whole =~= x3.push('+'));
    assert(whole.drop_last() =~= x3);
    assert(split_plus(whole) == p3.push(e).push(e));
    lemma_trim_plain("ctrl"@);
    lemma_trim_plain("alt"@);
    lemma_trim_plain("shift"@);
    lemma_trim_plain(e);
    assert(walk_parts(p0) == (false, false, false, None::<Seq<char>>));
    assert(walk_parts(p1) == (ctrl, false, false, None::<Seq<char>>)) by {
        if ctrl {
            assert(p1.drop_last() =~= p0);
        }
    }
    assert(walk_parts(p2) == (ctrl, false, alt, None::<Seq<char>>)) by {
        if alt {
            assert(p2.drop_last() =~= p1);
        }
    }
    assert(walk_parts(p3) == (ctrl, shift, alt, None::<Seq<char>>)) by {
        if shift {
            assert(p3.drop_last() =~= p2);
        }
    }
    assert(p3.push(e).drop_last() =~= p3);
    assert(p3.push(e).push(e).drop_last() =~= p3.push(e));
    assert(walk_parts(p3.push(e)) == (ctrl, shift, alt, Some("+"@)));
    assert(walk_parts(p3.push(e).push(e)) == (ctrl, shift, alt, Some("+"@)));
    lemma_single_char_token('+');
    assert("+"@ =~= seq!['+']);
    if !ctrl && !alt && !shift {
        assert(whole =~= "+"@);
    }
}

/// `control` is another way to write `ctrl`: the one stands for the other
/// before any key token and any further modifiers.
pub proof fn lemma_control_is_ctrl(alt: bool, shift: bool, t: Seq<char>, s: Seq<char>)
    requires
        plain_token(t),
        !is_modifier_word(t),
    ensures
        parse_lowered_spec("control+"@ + modifier_text(false, alt, shift) + t, s) == parse_lowered_spec(
            modifier_text(true, alt, shift) + t,
            s,
        ),
{
    reveal_strlit("control+");
    reveal_strlit("control");
    reveal_strlit("ctrl+");
    reveal_strlit("ctrl");
    reveal_strlit("alt+");
    reveal_strlit("shift+");
    reveal_strlit("alt");
    reveal_strlit("shift");
    reveal_strlit("+");
    let e = Seq::<char>::empty();
    let p0 = Seq::<Seq<char>>::empty();
    assert(split_plus(e) == p0.push(e)) by {
        assert(p0.push(e) =~= seq![e]);
    }
    // The two texts split alike but for their first part.
    let rest = modifier_text(false, alt, shift) + t;
    let a = "control+"@ + rest;
    let b = modifier_text(true, alt, shift) + t;
    assert(b =~= "ctrl+"@ + rest);
    lemma_split_word(e, "control"@, p0);
    lemma_split_word(e, "ctrl"@, p0);
    assert("control+"@ =~= e + "control"@ + seq!['+']);
    assert("ctrl+"@ =~= e + "ctrl"@ + seq!['+']);
    lemma_modifier_walk(true, alt, shift, t);
    lemma_split_rest(seq!["control"@], rest);
    lemma_split_rest(seq!["ctrl"@], rest);
    assert(p0.push("control"@) =~= seq!["control"@]);
    assert(p0.push("ctrl"@) =~= seq!["ctrl"@]);
    assert(seq!["control"@][0] == "control"@);
    assert(seq!["ctrl"@][0] == "ctrl"@);
    assert(a =~= "control"@ + seq!['+'] + rest);
    assert(b =~= "ctrl"@ + seq!['+'] + rest);
    let q = split_plus(rest);
    lemma_trim_plain("control"@);
    lemma_trim_plain("ctrl"@);
    lemma_walk_first(q, "control"@, "ctrl"@);
    assert(split_plus(a) == seq!["control"@] + q);
    assert(split_plus(b) == seq!["ctrl"@] + q);
    assert("control+"@ + modifier_text(false, alt, shift) + t =~= a);
    assert(a != "+"@) by {
        if a == "+"@ {
            assert(a.len() == 1);
            assert(a.len() >= 8);
        }
    }
}

/// Splitting `w+` followed by more text: the word, then the parts of the rest.
proof fn lemma_split_rest(w: Seq<Seq<char>>, rest: Seq<char>)
    requires
        w.len() == 1,
        forall|i: int| 0 <= i < w[0].len() ==> #[trigger] w[0][i] != '+',
    ensures
        split_plus(w[0] + seq!['+'] + rest) == w + split_plus(rest),
    decreases rest.len(),
{
    let x = w[0] + seq!['+'];
    if rest.len() == 0 {
        let e = Seq::<char>::empty();
        lemma_split_plus_append(e, w[0]);
        assert(split_plus(e) =~= seq![e]);
        assert(e + w[0] =~= w[0]);
        assert((w[0] + seq!['+']).drop_last() =~= w[0]);
        assert(x + rest =~= x);
        assert(split_plus(x) =~= w + seq![e]);
        assert(split_plus(rest) =~= seq![e]);
    } else {
        lemma_split_rest(w, rest.drop_last());
        assert((x + rest).drop_last() =~= x + rest.drop_last());
        let p = split_plus(rest.drop_last());
        lemma_split_plus_nonempty(rest.drop_last());
        if rest.last() == '+' {
            assert(split_plus(x + rest) =~= w + split_plus(rest));
        } else {
            assert((w + p).update((w + p).len() - 1, (w + p).last().push(rest.last())) =~= w + p.update(
                p.len() - 1,
                p.last().push(rest.last()),
            ));
        }
    }
}

/// Two lists of parts that differ only in a first part that is `control` in
/// one and `ctrl` in the other spell the same.
proof fn lemma_walk_first(q: Seq<Seq<char>>, w1: Seq<char>, w2: Seq<char>)
    requires
        (w1 == "control"@ && w2 == "ctrl"@),
        trim_spec(w1) == w1,
        trim_spec(w2) == w2,
    ensures
        walk_parts(seq![w1] + q) == walk_parts(seq![w2] + q),
    decreases q.len(),
{
    if q.len() == 0 {
        assert(seq![w1] + q =~= seq![w1]);
        assert(seq![w2] + q =~= seq![w2]);
        assert(seq![w1].drop_last() =~= Seq::<Seq<char>>::empty());
        assert(seq![w2].drop_last() =~= Seq::<Seq<char>>::empty());
    } else {
        lemma_walk_first(q.drop_last(), w1, w2);
        assert((seq![w1] + q).drop_last() =~= seq![w1] + q.drop_last());
        assert((seq![w2] + q).drop_last() =~= seq![w2] + q.drop_last());
    }
}

/// The modifier prefixes of a label, `Ctrl+`, `Alt+` and `Shift+` for the
/// flags that are set, in that order.
pub open spec fn label_prefix(ctrl: bool, alt: bool, shift: bool) -> Seq<char> {
    flag_text(ctrl, "Ctrl+"@) + flag_text(alt, "Alt+"@) + flag_text(shift, "Shift+"@)
}

/// The keystrokes whose label is also key-spec text: the named keys (Tab and
/// BackTab without a separate shift, which the label cannot show), the
/// function keys `F1` to `F12`, the space bar, and a character that is not a
/// capital or white space when no modifier is held.
pub open spec fn label_parses_back(k: KeySpec) -> bool {
    match k.code {
        Key::Tab | Key::BackTab => !k.shift,
        Key::Esc | Key::Enter | Key::Backspace | Key::Home | Key::End | Key::PageUp | Key::PageDown => true,
        Key::F(n) => 1 <= n <= 12,
        Key::Char(c) => c == ' ' || (!k.ctrl && !k.alt && !k.shift && !crate::text::is_upper(c)
            && !crate::text::is_space(c)),
        _ => false,
    }
}

proof fn lemma_lower_concat(x: Seq<char>, y: Seq<char>)
    ensures
        lower_seq(x + y) == lower_seq(x) + lower_seq(y),
{
    assert(lower_seq(x + y) =~= lower_seq(x) + lower_seq(y));
}

proof fn lemma_lower_label_prefix(ctrl: bool, alt: bool, shift: bool)
    ensures
        lower_seq(label_prefix(ctrl, alt, shift)) == modifier_text(ctrl, alt, shift),
{
    reveal_strlit("Ctrl+");
    reveal_strlit("Alt+");
    reveal_strlit("Shift+");
    reveal_strlit("ctrl+");
    reveal_strlit("alt+");
    reveal_strlit("shift+");
    let a = flag_text(ctrl, "Ctrl+"@);
    let b = flag_text(alt, "Alt+"@);
    let c = flag_text(shift, "Shift+"@);
    assert(lower_seq(a) =~= flag_text(ctrl, "ctrl+"@));
    assert(lower_seq(b) =~= flag_text(alt, "alt+"@));
    assert(lower_seq(c) =~= flag_text(shift, "shift+"@));
    lemma_lower_concat(a, b);
    lemma_lower_concat(a + b, c);
}

proof fn lemma_lower_names()
    ensures
        lower_seq("Tab"@) == "tab"@,
        lower_seq("Esc"@) == "esc"@,
        lower_seq("Enter"@) == "enter"@,
        lower_seq("Backspace"@) == "backspace"@,
        lower_seq("Home"@) == "home"@,
        lower_seq("End"@) == "end"@,
        lower_seq("PgUp"@) == "pgup"@,
        lower_seq("PgDn"@) == "pgdn"@,
        lower_seq("Space"@) == "space"@,
        lower_seq("Shift+Tab"@) == "shift+"@ + "tab"@,
{
    reveal_strlit("Tab");
    reveal_strlit("tab");
    reveal_strlit("Esc");
    reveal_strlit("esc");
    reveal_strlit("Enter");
    reveal_strlit("enter");
    reveal_strlit("Backspace");
    reveal_strlit("backspace");
    reveal_strlit("Home");
    reveal_strlit("home");
    reveal_strlit("End");
    reveal_strlit("end");
    reveal_strlit("PgUp");
    reveal_strlit("pgup");
    reveal_strlit("PgDn");
    reveal_strlit("pgdn");
    reveal_strlit("Space");
    reveal_strlit("space");
    reveal_strlit("Shift+Tab");
    reveal_strlit("shift+");
    assert(lower_seq("Tab"@) =~= "tab"@);
    assert(lower_seq("Esc"@) =~= "esc"@);
    assert(lower_seq("Enter"@) =~= "enter"@);
    assert(lower_seq("Backspace"@) =~= "backspace"@);
    assert(lower_seq("Home"@) =~= "home"@);
    assert(lower_seq("End"@) =~= "end"@);
    assert(lower_seq("PgUp"@) =~= "pgup"@);
    assert(lower_seq("PgDn"@) =~= "pgdn"@);
    assert(lower_seq("Space"@) =~= "space"@);
    assert(lower_seq("Shift+Tab"@) =~= "shift+"@ + "tab"@);
}

/// The lowered label of function key `n` is the token `f<n>` naming it.
proof fn lemma_function_label_parses(n: u8, ctrl: bool, alt: bool, shift: bool, s: Seq<char>)
    requires
        1 <= n <= 12,
    ensures
        parse_lowered_spec(modifier_text(ctrl, alt, shift) + lower_seq("F"@ + decimal(n as nat)), s)
            == Ok::<KeySpec, Seq<char>>(KeySpec { code: Key::F(n), ctrl, shift, alt }),
{
    reveal_strlit("F");
    lemma_function_tokens_parse(ctrl, alt, shift, s);
    let low = lower_seq("F"@ + decimal(n as nat));
    reveal_strlit("f1");
    reveal_strlit("f2");
    reveal_strlit("f3");
    reveal_strlit("f4");
    reveal_strlit("f5");
    reveal_strlit("f6");
    reveal_strlit("f7");
    reveal_strlit("f8");
    reveal_strlit("f9");
    reveal_strlit("f10");
    reveal_strlit("f11");
    reveal_strlit("f12");
    if n < 10 {
        assert(decimal(n as nat) == seq![crate::text::digit_char(n as int)]);
    } else {
        assert(decimal(1) == seq!['1']);
        assert(decimal(n as nat) == seq!['1', crate::text::digit_char((n % 10) as int)]);
    }
    if n == 1 { assert(low =~= "f1"@); }
    else if n == 2 { assert(low =~= "f2"@); }
    else if n == 3 { assert(low =~= "f3"@); }
    else if n == 4 { assert(low =~= "f4"@); }
    else if n == 5 { assert(low =~= "f5"@); }
    else if n == 6 { assert(low =~= "f6"@); }
    else if n == 7 { assert(low =~= "f7"@); }
    else if n == 8 { assert(low =~= "f8"@); }
    else if n == 9 { assert(low =~= "f9"@); }
    else if n == 10 { assert(low =~= "f10"@); }
    else if n == 11 { assert(low =~= "f11"@); }
    else { assert(low =~= "f12"@); }
}

/// Reading a keystroke's label back as key-spec text (lowercased, as the
/// parser reads it) gives that very keystroke, for every keystroke whose label
/// is key-spec text. So no two of these keystrokes share a label, and each
/// named key's label names it and no other key.
#[verifier::rlimit(40)]
pub proof fn lemma_label_parses_back(k: KeySpec, s: Seq<char>)
    requires
        label_parses_back(k),
    ensures
        parse_lowered_spec(lower_seq(label_spec(k)), s) == Ok::<KeySpec, Seq<char>>(k),
{
    let (c, a, sh) = (k.ctrl, k.alt, k.shift);
    lemma_lower_label_prefix(c, a, sh);
    lemma_lower_names();
    lemma_arrow_tokens_parse(c, a, sh, s);
    lemma_edit_tokens_parse(c, a, sh, s);
    lemma_page_tokens_parse(c, a, sh, s);
    match k.code {
        Key::BackTab => {
            lemma_lower_label_prefix(c, a, false);
            let p = flag_text(c, "Ctrl+"@) + flag_text(a, "Alt+"@);
            assert(label_prefix(c, a, false) =~= p);
            lemma_lower_concat(p, "Shift+Tab"@);
            lemma_tab_token_parse(c, a, true, s);
            reveal_strlit("shift+");
            assert(modifier_text(c, a, false) + ("shift+"@ + "tab"@) =~= modifier_text(c, a, true) + "tab"@);
        },
        _ => {
            let key = key_text(k.code, c || a || sh);
            assert(label_spec(k) == label_prefix(c, a, sh) + key);
            lemma_lower_concat(label_prefix(c, a, sh), key);
            match k.code {
                Key::Tab => lemma_tab_token_parse(c, a, sh, s),
                Key::F(n) => lemma_function_label_parses(n, c, a, sh, s),
                Key::Char(ch) => {
                    if ch != ' ' {
                        assert(lower_seq(key) =~= seq![ch]);
                        assert(modifier_text(c, a, sh) =~= Seq::<char>::empty());
                        assert(Seq::<char>::empty() + seq![ch] =~= seq![ch]);
                        if ch == '+' {
                            reveal_strlit("+");
                            assert(seq![ch] =~= "+"@);
                        } else {
                            lemma_char_token_parse(c, a, sh, ch, s);
                        }
                    }
                },
                _ => {},
            }
        },
    }
}

/// The labels of the named keys, after the modifier prefixes: `Tab`,
/// `Shift+Tab` for BackTab (whatever its shift flag says), `Esc`, `Enter`,
/// `Backspace`, `Home`, `End`, `PgUp`, `PgDn`, `Space`, `F<n>`, the arrows
/// drawn as arrows, and the rarer keys under their own names.
pub proof fn lemma_named_key_labels(ctrl: bool, alt: bool, shift: bool, n: u8)
    ensures
        label_spec(KeySpec { code: Key::PageUp, ctrl, shift, alt }) == label_prefix(ctrl, alt, shift) + "PgUp"@,
        label_spec(KeySpec { code: Key::PageDown, ctrl, shift, alt }) == label_prefix(ctrl, alt, shift) + "PgDn"@,
        label_spec(KeySpec { code: Key::Home, ctrl, shift, alt }) == label_prefix(ctrl, alt, shift) + "Home"@,
        label_spec(KeySpec { code: Key::End, ctrl, shift, alt }) == label_prefix(ctrl, alt, shift) + "End"@,
        label_spec(KeySpec { code: Key::Esc, ctrl, shift, alt }) == label_prefix(ctrl, alt, shift) + "Esc"@,
        label_spec(KeySpec { code: Key::Enter, ctrl, shift, alt }) == label_prefix(ctrl, alt, shift) + "Enter"@,
        label_spec(KeySpec { code: Key::Backspace, ctrl, shift, alt }) == label_prefix(ctrl, alt, shift)
            + "Backspace"@,
        label_spec(KeySpec { code: Key::Tab, ctrl, shift, alt }) == label_prefix(ctrl, alt, shift) + "Tab"@,
        label_spec(KeySpec { code: Key::BackTab, ctrl, shift, alt }) == label_prefix(ctrl, alt, false)
            + "Shift+Tab"@,
        label_spec(KeySpec { code: Key::Char(' '), ctrl, shift, alt }) == label_prefix(ctrl, alt, shift) + "Space"@,
        label_spec(KeySpec { code: Key::F(n), ctrl, shift, alt }) == label_prefix(ctrl, alt, shift) + "F"@ + decimal(
            n as nat,
        ),
        label_spec(KeySpec { code: Key::Left, ctrl, shift, alt }) == label_prefix(ctrl, alt, shift) + "←"@,
        label_spec(KeySpec { code: Key::Right, ctrl, shift, alt }) == label_prefix(ctrl, alt, shift) + "→"@,
        label_spec(KeySpec { code: Key::Up, ctrl, shift, alt }) == label_prefix(ctrl, alt, shift) + "↑"@,
        label_spec(KeySpec { code: Key::Down, ctrl, shift, alt }) == label_prefix(ctrl, alt, shift) + "↓"@,
        label_spec(KeySpec { code: Key::Delete, ctrl, shift, alt }) == label_prefix(ctrl, alt, shift) + "Delete"@,
        label_spec(KeySpec { code: Key::Insert, ctrl, shift, alt }) == label_prefix(ctrl, alt, shift) + "Insert"@,
        label_spec(KeySpec { code: Key::Null, ctrl, shift, alt }) == label_prefix(ctrl, alt, shift) + "Null"@,
        label_spec(KeySpec { code: Key::CapsLock, ctrl, shift, alt }) == label_prefix(ctrl, alt, shift) + "CapsLock"@,
        label_spec(KeySpec { code: Key::ScrollLock, ctrl, shift, alt }) == label_prefix(ctrl, alt, shift) + "ScrollLock"@,
        label_spec(KeySpec { code: Key::NumLock, ctrl, shift, alt }) == label_prefix(ctrl, alt, shift) + "NumLock"@,
        label_spec(KeySpec { code: Key::PrintScreen, ctrl, shift, alt }) == label_prefix(ctrl, alt, shift) + "PrintScreen"@,
        label_spec(KeySpec { code: Key::Pause, ctrl, shift, alt }) == label_prefix(ctrl, alt, shift) + "Pause"@,
        label_spec(KeySpec { code: Key::Menu, ctrl, shift, alt }) == label_prefix(ctrl, alt, shift) + "Menu"@,
        label_spec(KeySpec { code: Key::KeypadBegin, ctrl, shift, alt }) == label_prefix(ctrl, alt, shift) + "KeypadBegin"@,
{
    assert(flag_text(ctrl, "Ctrl+"@) + flag_text(alt, "Alt+"@) =~= label_prefix(ctrl, alt, false));
}

// ── Live key presses ─────────────────────────────────────────────────────────

/// The Shift bit of [`KeyPress::modifiers`].
pub const MOD_SHIFT: u8 = 0b0000_0001;
/// The Control bit of [`KeyPress::modifiers`].
pub const MOD_CONTROL: u8 = 0b0000_0010;
/// The Alt bit of [`KeyPress::modifiers`].
pub const MOD_ALT: u8 = 0b0000_0100;
/// The Super bit of [`KeyPress::modifiers`].
pub const MOD_SUPER: u8 = 0b0000_1000;
/// The Hyper bit of [`KeyPress::modifiers`].
pub const MOD_HYPER: u8 = 0b0001_0000;
/// The Meta bit of [`KeyPress::modifiers`].
pub const MOD_META: u8 = 0b0010_0000;

/// One key press as the terminal delivered it: the key and the modifier bits
/// held with it (the terminal layer's own bit layout, see the `MOD_*` constants).
#[derive(Debug, Clone, Copy, PartialEq, Eq, Structural)]
pub struct KeyPress {
    pub code: Key,
    pub modifiers: u8,
}

impl KeyPress {
    /// A press of `code` with the modifier bits `modifiers`.
    pub fn new(code: Key, modifiers: u8) -> (k: KeyPress)
        ensures
            k.code == code,
            k.modifiers == modifiers,
    {
        KeyPress { code, modifiers }
    }
}

impl KeySpec {
    /// Normalize a live key press into a `KeySpec` for lookups: the key, and
    /// whether Control, Shift and Alt were held.
    pub fn from_key_event(k: KeyPress) -> (s: KeySpec)
        ensures
            s.code == k.code,
            s.ctrl == (k.modifiers & MOD_CONTROL != 0),
            s.shift == (k.modifiers & MOD_SHIFT != 0),
            s.alt == (k.modifiers & MOD_ALT != 0),
    {
        KeySpec {
            code: k.code,
            ctrl: k.modifiers & MOD_CONTROL != 0,
            shift: k.modifiers & MOD_SHIFT != 0,
            alt: k.modifiers & MOD_ALT != 0,
        }
    }
}

/// Whether a key pressed while the game waits for a single keypress goes to
/// the game: only with no overlay open, and never the hotkey prefix or a
/// Control or Alt combination, which stay with the app so the player can always
/// leave a keypress form (quit, hotkeys).
pub fn char_mode_forwards(char_mode: bool, overlay_open: bool, key: KeyPress, prefix: KeySpec) -> (b: bool)
    ensures
        b == (char_mode && !overlay_open && (KeySpec {
            code: key.code,
            ctrl: key.modifiers & MOD_CONTROL != 0,
            shift: key.modifiers & MOD_SHIFT != 0,
            alt: key.modifiers & MOD_ALT != 0,
        }) != prefix && key.modifiers & MOD_CONTROL == 0 && key.modifiers & MOD_ALT == 0),
{
    if !char_mode || overlay_open {
        return false;
    }
    let spec = KeySpec::from_key_event(key);
    let app_combo = key.modifiers & MOD_CONTROL != 0 || key.modifiers & MOD_ALT != 0;
    spec != prefix && !app_combo
}

} // verus!
