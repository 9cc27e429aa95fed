//! The configurable keymap: which command string each keystroke runs in each
//! dispatch layer, its built-in defaults, lookups with the Map-to-Global
//! fall-through, and how a config file's overrides are folded in.

use vstd::prelude::*;
use vstd::string::*;
use crate::keys::{Key, KeySpec, parse_spec};
use crate::text::{contains_str, first_word, first_word_of, first_word_or_empty, is_space, join_from, join_with,
    push_char, push_str, split_words, str_eq, string_of, words, is_word, lemma_words_are_words,
    lemma_words_of_joined};

verus! {

/// Which dispatch layer a binding belongs to.
#[derive(Debug, Clone, Copy, PartialEq, Eq, Structural, Hash)]
pub enum Context {
    /// Reached in any focus when no prompt or anim sub-mode is active.
    Global,
    /// Map-pane bindings (also fall through to Global on miss).
    MapPane,
    /// Tidy-animation sub-mode (does NOT fall through).
    Anim,
}

/// One binding as the contracts see it: keystroke, command string, layer.
pub type BindingView = (KeySpec, Seq<char>, Context);

/// The full binding table. Each entry is `(KeySpec, command string, Context)`;
/// several keystrokes may run the same command.
#[derive(Debug)]
pub struct KeyMap {
    pub bindings: Vec<(KeySpec, String, Context)>,
}

/// The view of a stored binding.
pub open spec fn binding_view(b: (KeySpec, String, Context)) -> BindingView {
    (b.0, b.1@, b.2)
}

impl View for KeyMap {
    type V = Seq<BindingView>;

    open spec fn view(&self) -> Seq<BindingView> {
        self.bindings@.map_values(|b: (KeySpec, String, Context)| binding_view(b))
    }
}

// ── Defaults ─────────────────────────────────────────────────────────────────

/// A plain keystroke: no modifiers.
pub open spec fn plain(code: Key) -> KeySpec {
    KeySpec { code, ctrl: false, shift: false, alt: false }
}

/// The keystroke with Control held.
pub open spec fn ctrl(code: Key) -> KeySpec {
    KeySpec { code, ctrl: true, shift: false, alt: false }
}

/// The keystroke with Shift held.
pub open spec fn shifted(code: Key) -> KeySpec {
    KeySpec { code, ctrl: false, shift: true, alt: false }
}

/// The number of built-in bindings.
pub const DEFAULT_BINDING_COUNT: usize = 63;

/// The `i`-th built-in binding, in table order.
pub open spec fn default_binding(i: int) -> BindingView {
    if i == 0 {
        (plain(Key::Tab), "toggle-focus"@, Context::Global)
    } else if i == 1 {
        (ctrl(Key::Char('s')), "save-state"@, Context::Global)
    } else if i == 2 {
        (ctrl(Key::Char('r')), "restore-state"@, Context::Global)
    } else if i == 3 {
        (ctrl(Key::Char('e')), "export-svg"@, Context::Global)
    } else if i == 4 {
        (ctrl(Key::Char('g')), "export-dot"@, Context::Global)
    } else if i == 5 {
        (ctrl(Key::Char('d')), "export-dump"@, Context::Global)
    } else if i == 6 {
        (ctrl(Key::Char('l')), "cycle-layout"@, Context::Global)
    } else if i == 7 {
        (ctrl(Key::Char('t')), "tidy-map"@, Context::Global)
    } else if i == 8 {
        (ctrl(Key::Char('y')), "animate-tidy"@, Context::Global)
    } else if i == 9 {
        (ctrl(Key::Char('a')), "toggle-alignment"@, Context::Global)
    } else if i == 10 {
        (ctrl(Key::Char('p')), "toggle-portal-labels"@, Context::Global)
    } else if i == 11 {
        (ctrl(Key::Char('o')), "open-saves"@, Context::Global)
    } else if i == 12 {
        (plain(Key::Char('v')), "toggle-inventory"@, Context::Global)
    } else if i == 13 {
        (plain(Key::Char('m')), "open-verb-menu"@, Context::Global)
    } else if i == 14 {
        (plain(Key::F(2)), "open-config"@, Context::Global)
    } else if i == 15 {
        (plain(Key::F(3)), "open-style-editor"@, Context::Global)
    } else if i == 16 {
        (plain(Key::BackTab), "cycle-layout reverse"@, Context::Global)
    } else if i == 17 {
        (plain(Key::F(5)), "reset-game"@, Context::Global)
    } else if i == 18 {
        (plain(Key::F(4)), "open-history"@, Context::Global)
    } else if i == 19 {
        (plain(Key::F(6)), "nudge-room -1 0"@, Context::Global)
    } else if i == 20 {
        (plain(Key::F(7)), "nudge-room 1 0"@, Context::Global)
    } else if i == 21 {
        (plain(Key::F(8)), "nudge-room 0 -1"@, Context::Global)
    } else if i == 22 {
        (plain(Key::F(9)), "nudge-room 0 1"@, Context::Global)
    } else if i == 23 {
        (plain(Key::Left), "pan-map -1 0"@, Context::MapPane)
    } else if i == 24 {
        (plain(Key::Right), "pan-map 1 0"@, Context::MapPane)
    } else if i == 25 {
        (plain(Key::Up), "pan-map 0 -1"@, Context::MapPane)
    } else if i == 26 {
        (plain(Key::Down), "pan-map 0 1"@, Context::MapPane)
    } else if i == 27 {
        (plain(Key::Char('h')), "pan-map -1 0"@, Context::MapPane)
    } else if i == 28 {
        (plain(Key::Char('l')), "pan-map 1 0"@, Context::MapPane)
    } else if i == 29 {
        (plain(Key::Char('k')), "pan-map 0 -1"@, Context::MapPane)
    } else if i == 30 {
        (plain(Key::Char('j')), "pan-map 0 1"@, Context::MapPane)
    } else if i == 31 {
        (plain(Key::Char('+')), "zoom-map in"@, Context::MapPane)
    } else if i == 32 {
        (plain(Key::Char('=')), "zoom-map in"@, Context::MapPane)
    } else if i == 33 {
        (plain(Key::Char('-')), "zoom-map out"@, Context::MapPane)
    } else if i == 34 {
        (plain(Key::Char('0')), "zoom-map reset"@, Context::MapPane)
    } else if i == 35 {
        (plain(Key::Char('c')), "center-map"@, Context::MapPane)
    } else if i == 36 {
        (plain(Key::Char('n')), "select-room next"@, Context::MapPane)
    } else if i == 37 {
        (plain(Key::Char('p')), "select-room prev"@, Context::MapPane)
    } else if i == 38 {
        (shifted(Key::Char('N')), "rename-layer"@, Context::MapPane)
    } else if i == 39 {
        (shifted(Key::Char('P')), "peel-layer"@, Context::MapPane)
    } else if i == 40 {
        (shifted(Key::Char('M')), "merge-layer"@, Context::MapPane)
    } else if i == 41 {
        (shifted(Key::Char('R')), "tidy-map"@, Context::MapPane)
    } else if i == 42 {
        (plain(Key::Char(']')), "cycle-layer next"@, Context::MapPane)
    } else if i == 43 {
        (plain(Key::Char('[')), "cycle-layer prev"@, Context::MapPane)
    } else if i == 44 {
        (plain(Key::Char('r')), "rename-room"@, Context::MapPane)
    } else if i == 45 {
        (plain(Key::Char('o')), "edit-notes"@, Context::MapPane)
    } else if i == 46 {
        (plain(Key::Char('d')), "delete-connection"@, Context::MapPane)
    } else if i == 47 {
        (plain(Key::Char('e')), "relabel-edge"@, Context::MapPane)
    } else if i == 48 {
        (plain(Key::Char('i')), "toggle-inspector"@, Context::MapPane)
    } else if i == 49 {
        (plain(Key::Char('g')), "open-gallery"@, Context::MapPane)
    } else if i == 50 {
        (plain(Key::Esc), "toggle-focus"@, Context::MapPane)
    } else if i == 51 {
        (plain(Key::Char('h')), "pan-map -1 0"@, Context::Anim)
    } else if i == 52 {
        (plain(Key::Char('l')), "pan-map 1 0"@, Context::Anim)
    } else if i == 53 {
        (plain(Key::Char('k')), "pan-map 0 -1"@, Context::Anim)
    } else if i == 54 {
        (plain(Key::Char('j')), "pan-map 0 1"@, Context::Anim)
    } else if i == 55 {
        (plain(Key::Char('+')), "zoom-map in"@, Context::Anim)
    } else if i == 56 {
        (plain(Key::Char('=')), "zoom-map in"@, Context::Anim)
    } else if i == 57 {
        (plain(Key::Char('-')), "zoom-map out"@, Context::Anim)
    } else if i == 58 {
        (plain(Key::Left), "anim-step back"@, Context::Anim)
    } else if i == 59 {
        (plain(Key::Right), "anim-step forward"@, Context::Anim)
    } else if i == 60 {
        (plain(Key::Char(' ')), "anim-play"@, Context::Anim)
    } else if i == 61 {
        (plain(Key::Esc), "anim-exit"@, Context::Anim)
    } else {
        (plain(Key::Enter), "anim-exit"@, Context::Anim)
    }
}

/// The built-in bindings, in table order.
pub open spec fn default_bindings() -> Seq<BindingView> {
    Seq::new(DEFAULT_BINDING_COUNT as nat, |i: int| default_binding(i))
}

/// The `i`-th built-in binding.
fn default_entry(i: usize) -> (r: (KeySpec, &'static str, Context))
    requires
        i < DEFAULT_BINDING_COUNT,
    ensures
        (r.0, r.1@, r.2) == default_binding(i as int),
{
    let g = Context::Global;
    let m = Context::MapPane;
    let a = Context::Anim;
    match i {
        0 => (KeySpec { code: Key::Tab, ctrl: false, shift: false, alt: false }, "toggle-focus", g),
        1 => (KeySpec { code: Key::Char('s'), ctrl: true, shift: false, alt: false }, "save-state", g),
        2 => (KeySpec { code: Key::Char('r'), ctrl: true, shift: false, alt: false }, "restore-state", g),
        3 => (KeySpec { code: Key::Char('e'), ctrl: true, shift: false, alt: false }, "export-svg", g),
        4 => (KeySpec { code: Key::Char('g'), ctrl: true, shift: false, alt: false }, "export-dot", g),
        5 => (KeySpec { code: Key::Char('d'), ctrl: true, shift: false, alt: false }, "export-dump", g),
        6 => (KeySpec { code: Key::Char('l'), ctrl: true, shift: false, alt: false }, "cycle-layout", g),
        7 => (KeySpec { code: Key::Char('t'), ctrl: true, shift: false, alt: false }, "tidy-map", g),
        8 => (KeySpec { code: Key::Char('y'), ctrl: true, shift: false, alt: false }, "animate-tidy", g),
        9 => (KeySpec { code: Key::Char('a'), ctrl: true, shift: false, alt: false }, "toggle-alignment", g),
        10 => (KeySpec { code: Key::Char('p'), ctrl: true, shift: false, alt: false }, "toggle-portal-labels", g),
        11 => (KeySpec { code: Key::Char('o'), ctrl: true, shift: false, alt: false }, "open-saves", g),
        12 => (KeySpec { code: Key::Char('v'), ctrl: false, shift: false, alt: false }, "toggle-inventory", g),
        13 => (KeySpec { code: Key::Char('m'), ctrl: false, shift: false, alt: false }, "open-verb-menu", g),
        14 => (KeySpec { code: Key::F(2), ctrl: false, shift: false, alt: false }, "open-config", g),
        15 => (KeySpec { code: Key::F(3), ctrl: false, shift: false, alt: false }, "open-style-editor", g),
        16 => (KeySpec { code: Key::BackTab, ctrl: false, shift: false, alt: false }, "cycle-layout reverse", g),
        17 => (KeySpec { code: Key::F(5), ctrl: false, shift: false, alt: false }, "reset-game", g),
        18 => (KeySpec { code: Key::F(4), ctrl: false, shift: false, alt: false }, "open-history", g),
        19 => (KeySpec { code: Key::F(6), ctrl: false, shift: false, alt: false }, "nudge-room -1 0", g),
        20 => (KeySpec { code: Key::F(7), ctrl: false, shift: false, alt: false }, "nudge-room 1 0", g),
        21 => (KeySpec { code: Key::F(8), ctrl: false, shift: false, alt: false }, "nudge-room 0 -1", g),
        22 => (KeySpec { code: Key::F(9), ctrl: false, shift: false, alt: false }, "nudge-room 0 1", g),
        23 => (KeySpec { code: Key::Left, ctrl: false, shift: false, alt: false }, "pan-map -1 0", m),
        24 => (KeySpec { code: Key::Right, ctrl: false, shift: false, alt: false }, "pan-map 1 0", m),
        25 => (KeySpec { code: Key::Up, ctrl: false, shift: false, alt: false }, "pan-map 0 -1", m),
        26 => (KeySpec { code: Key::Down, ctrl: false, shift: false, alt: false }, "pan-map 0 1", m),
        27 => (KeySpec { code: Key::Char('h'), ctrl: false, shift: false, alt: false }, "pan-map -1 0", m),
        28 => (KeySpec { code: Key::Char('l'), ctrl: false, shift: false, alt: false }, "pan-map 1 0", m),
        29 => (KeySpec { code: Key::Char('k'), ctrl: false, shift: false, alt: false }, "pan-map 0 -1", m),
        30 => (KeySpec { code: Key::Char('j'), ctrl: false, shift: false, alt: false }, "pan-map 0 1", m),
        31 => (KeySpec { code: Key::Char('+'), ctrl: false, shift: false, alt: false }, "zoom-map in", m),
        32 => (KeySpec { code: Key::Char('='), ctrl: false, shift: false, alt: false }, "zoom-map in", m),
        33 => (KeySpec { code: Key::Char('-'), ctrl: false, shift: false, alt: false }, "zoom-map out", m),
        34 => (KeySpec { code: Key::Char('0'), ctrl: false, shift: false, alt: false }, "zoom-map reset", m),
        35 => (KeySpec { code: Key::Char('c'), ctrl: false, shift: false, alt: false }, "center-map", m),
        36 => (KeySpec { code: Key::Char('n'), ctrl: false, shift: false, alt: false }, "select-room next", m),
        37 => (KeySpec { code: Key::Char('p'), ctrl: false, shift: false, alt: false }, "select-room prev", m),
        38 => (KeySpec { code: Key::Char('N'), ctrl: false, shift: true, alt: false }, "rename-layer", m),
        39 => (KeySpec { code: Key::Char('P'), ctrl: false, shift: true, alt: false }, "peel-layer", m),
        40 => (KeySpec { code: Key::Char('M'), ctrl: false, shift: true, alt: false }, "merge-layer", m),
        41 => (KeySpec { code: Key::Char('R'), ctrl: false, shift: true, alt: false }, "tidy-map", m),
        42 => (KeySpec { code: Key::Char(']'), ctrl: false, shift: false, alt: false }, "cycle-layer next", m),
        43 => (KeySpec { code: Key::Char('['), ctrl: false, shift: false, alt: false }, "cycle-layer prev", m),
        44 => (KeySpec { code: Key::Char('r'), ctrl: false, shift: false, alt: false }, "rename-room", m),
        45 => (KeySpec { code: Key::Char('o'), ctrl: false, shift: false, alt: false }, "edit-notes", m),
        46 => (KeySpec { code: Key::Char('d'), ctrl: false, shift: false, alt: false }, "delete-connection", m),
        47 => (KeySpec { code: Key::Char('e'), ctrl: false, shift: false, alt: false }, "relabel-edge", m),
        48 => (KeySpec { code: Key::Char('i'), ctrl: false, shift: false, alt: false }, "toggle-inspector", m),
        49 => (KeySpec { code: Key::Char('g'), ctrl: false, shift: false, alt: false }, "open-gallery", m),
        50 => (KeySpec { code: Key::Esc, ctrl: false, shift: false, alt: false }, "toggle-focus", m),
        51 => (KeySpec { code: Key::Char('h'), ctrl: false, shift: false, alt: false }, "pan-map -1 0", a),
        52 => (KeySpec { code: Key::Char('l'), ctrl: false, shift: false, alt: false }, "pan-map 1 0", a),
        53 => (KeySpec { code: Key::Char('k'), ctrl: false, shift: false, alt: false }, "pan-map 0 -1", a),
        54 => (KeySpec { code: Key::Char('j'), ctrl: false, shift: false, alt: false }, "pan-map 0 1", a),
        55 => (KeySpec { code: Key::Char('+'), ctrl: false, shift: false, alt: false }, "zoom-map in", a),
        56 => (KeySpec { code: Key::Char('='), ctrl: false, shift: false, alt: false }, "zoom-map in", a),
        57 => (KeySpec { code: Key::Char('-'), ctrl: false, shift: false, alt: false }, "zoom-map out", a),
        58 => (KeySpec { code: Key::Left, ctrl: false, shift: false, alt: false }, "anim-step back", a),
        59 => (KeySpec { code: Key::Right, ctrl: false, shift: false, alt: false }, "anim-step forward", a),
        60 => (KeySpec { code: Key::Char(' '), ctrl: false, shift: false, alt: false }, "anim-play", a),
        61 => (KeySpec { code: Key::Esc, ctrl: false, shift: false, alt: false }, "anim-exit", a),
        _ => (KeySpec { code: Key::Enter, ctrl: false, shift: false, alt: false }, "anim-exit", a),
    }
}

impl KeyMap {
    /// A keymap with no bindings.
    pub fn empty() -> (km: KeyMap)
        ensures
            km@ == Seq::<BindingView>::empty(),
    {
        let km = KeyMap { bindings: Vec::new() };
        assert(km@ =~= Seq::<BindingView>::empty());
        km
    }

    /// Append the binding `spec` → `cmd` in `ctx`.
    fn bind(&mut self, spec: KeySpec, cmd: &str, ctx: Context)
        ensures
            final(self)@ == old(self)@.push((spec, cmd@, ctx)),
    {
        self.bindings.push((spec, string_of(cmd), ctx));
        assert(self@ =~= old(self)@.push((spec, cmd@, ctx)));
    }

}

impl Default for KeyMap {
    /// The built-in keymap (see [`default_binding`]).
    fn default() -> (km: KeyMap)
        ensures
            km@ == default_bindings(),
    {
        let mut km = KeyMap::empty();
        let mut i: usize = 0;
        while i < DEFAULT_BINDING_COUNT
            invariant
                i <= DEFAULT_BINDING_COUNT,
                km@ == default_bindings().take(i as int),
            decreases DEFAULT_BINDING_COUNT - i,
        {
            let (spec, cmd, ctx) = default_entry(i);
            km.bind(spec, cmd, ctx);
            assert(km@ =~= default_bindings().take(i + 1));
            i = i + 1;
        }
        assert(km@ =~= default_bindings());
        km
    }
}

// ── Lookups ──────────────────────────────────────────────────────────────────

/// A borrowed command string, as the contracts see it.
pub open spec fn opt_str(r: Option<&str>) -> Option<Seq<char>> {
    match r {
        Some(s) => Some(s@),
        None => None,
    }
}

/// The command of the first binding for `spec` in exactly the layer `ctx`.
pub open spec fn find_exact(b: Seq<BindingView>, spec: KeySpec, ctx: Context) -> Option<Seq<char>>
    decreases b.len(),
{
    if b.len() == 0 {
        None
    } else {
        match find_exact(b.drop_last(), spec, ctx) {
            Some(c) => Some(c),
            None => if b.last().0 == spec && b.last().2 == ctx { Some(b.last().1) } else { None },
        }
    }
}

/// A hit in a prefix of the table is the hit in the whole table.
proof fn lemma_find_prefix(b: Seq<BindingView>, spec: KeySpec, ctx: Context, k: int)
    requires
        0 <= k <= b.len(),
        find_exact(b.take(k), spec, ctx) is Some,
    ensures
        find_exact(b, spec, ctx) == find_exact(b.take(k), spec, ctx),
    decreases b.len(),
{
    if k == b.len() {
        assert(b.take(k) =~= b);
    } else {
        assert(b.drop_last().take(k) =~= b.take(k));
        lemma_find_prefix(b.drop_last(), spec, ctx, k);
    }
}

/// What `lookup` answers: the first binding in `ctx`; on a miss in the Map
/// layer, the first binding in the Global layer.
pub open spec fn lookup_spec(b: Seq<BindingView>, spec: KeySpec, ctx: Context) -> Option<Seq<char>> {
    match find_exact(b, spec, ctx) {
        Some(c) => Some(c),
        None => if ctx == Context::MapPane { find_exact(b, spec, Context::Global) } else { None },
    }
}

/// What `lookup_any` answers: the first binding in Global, else in Map, else
/// in Anim.
pub open spec fn lookup_any_spec(b: Seq<BindingView>, spec: KeySpec) -> Option<Seq<char>> {
    match find_exact(b, spec, Context::Global) {
        Some(c) => Some(c),
        None => match find_exact(b, spec, Context::MapPane) {
            Some(c) => Some(c),
            None => find_exact(b, spec, Context::Anim),
        },
    }
}

/// The keystroke of the first binding whose command's first word is `name`.
pub open spec fn primary_spec(b: Seq<BindingView>, name: Seq<char>) -> Option<KeySpec>
    decreases b.len(),
{
    if b.len() == 0 {
        None
    } else {
        match primary_spec(b.drop_last(), name) {
            Some(k) => Some(k),
            None => if first_word(b.last().1) == Some(name) { Some(b.last().0) } else { None },
        }
    }
}

proof fn lemma_primary_prefix(b: Seq<BindingView>, name: Seq<char>, k: int)
    requires
        0 <= k <= b.len(),
        primary_spec(b.take(k), name) is Some,
    ensures
        primary_spec(b, name) == primary_spec(b.take(k), name),
    decreases b.len(),
{
    if k == b.len() {
        assert(b.take(k) =~= b);
    } else {
        assert(b.drop_last().take(k) =~= b.take(k));
        lemma_primary_prefix(b.drop_last(), name, k);
    }
}

/// The `(keystroke, command)` pairs of the bindings in layer `ctx`, in table
/// order.
pub open spec fn in_context(b: Seq<BindingView>, ctx: Context) -> Seq<(KeySpec, Seq<char>)>
    decreases b.len(),
{
    if b.len() == 0 {
        Seq::empty()
    } else {
        let r = in_context(b.drop_last(), ctx);
        if b.last().2 == ctx { r.push((b.last().0, b.last().1)) } else { r }
    }
}

impl KeyMap {
    fn find(&self, spec: &KeySpec, ctx: Context) -> (r: Option<&str>)
        ensures
            opt_str(r) == find_exact(self@, *spec, ctx),
    {
        let n = self.bindings.len();
        let mut i: usize = 0;
        assert(self@.take(0) =~= Seq::<BindingView>::empty());
        while i < n
            invariant
                n == self@.len(),
                i <= n,
                find_exact(self@.take(i as int), *spec, ctx) is None,
            decreases n - i,
        {
            let b = &self.bindings[i];
            assert(self@.take(i + 1).drop_last() =~= self@.take(i as int));
            assert(self@.take(i + 1).last() == binding_view(*b));
            if b.2 == ctx && b.0 == *spec {
                proof {
                    lemma_find_prefix(self@, *spec, ctx, i + 1);
                }
                return Some(b.1.as_str());
            }
            i = i + 1;
        }
        assert(self@.take(n as int) =~= self@);
        None
    }

    /// Look up a key in the given context.
    ///
    /// The Map layer also searches the Global layer on a miss; Global and Anim
    /// do not fall through.
    pub fn lookup(&self, spec: &KeySpec, ctx: Context) -> (r: Option<&str>)
        ensures
            opt_str(r) == lookup_spec(self@, *spec, ctx),
    {
        match self.find(spec, ctx) {
            Some(c) => Some(c),
            None => {
                if ctx == Context::MapPane {
                    self.find(spec, Context::Global)
                } else {
                    None
                }
            },
        }
    }

    /// Look up a key across all layers, Global first, then Map, then Anim, each
    /// matched exactly. The hotkey dialog uses this so that commands of any
    /// layer can be run from it.
    pub fn lookup_any(&self, spec: &KeySpec) -> (r: Option<&str>)
        ensures
            opt_str(r) == lookup_any_spec(self@, *spec),
    {
        match self.find(spec, Context::Global) {
            Some(c) => Some(c),
            None => match self.find(spec, Context::MapPane) {
                Some(c) => Some(c),
                None => self.find(spec, Context::Anim),
            },
        }
    }

    /// The first (primary) keystroke bound to a command whose first word is
    /// `command_name`.
    pub fn primary_key(&self, command_name: &str) -> (r: Option<KeySpec>)
        ensures
            r == primary_spec(self@, command_name@),
    {
        let n = self.bindings.len();
        let mut i: usize = 0;
        assert(self@.take(0) =~= Seq::<BindingView>::empty());
        while i < n
            invariant
                n == self@.len(),
                i <= n,
                primary_spec(self@.take(i as int), command_name@) is None,
            decreases n - i,
        {
            let b = &self.bindings[i];
            assert(self@.take(i + 1).drop_last() =~= self@.take(i as int));
            assert(self@.take(i + 1).last() == binding_view(*b));
            let ws = split_words(b.1.as_str());
            if ws.len() > 0 && str_eq(ws[0].as_str(), command_name) {
                assert(ws@.map_values(|w: String| w@)[0] == ws@[0]@);
                proof {
                    lemma_primary_prefix(self@, command_name@, i + 1);
                }
                return Some(b.0);
            }
            assert(ws@.len() > 0 ==> ws@.map_values(|w: String| w@)[0] == ws@[0]@);
            i = i + 1;
        }
        assert(self@.take(n as int) =~= self@);
        None
    }

    /// The `(keystroke, command)` pairs of layer `ctx`, in table order (for the
    /// help screen's per-layer listing).
    pub fn for_context(&self, ctx: Context) -> (r: Vec<(KeySpec, String)>)
        ensures
            r@.map_values(|p: (KeySpec, String)| (p.0, p.1@)) == in_context(self@, ctx),
    {
        let n = self.bindings.len();
        let mut out: Vec<(KeySpec, String)> = Vec::new();
        let mut i: usize = 0;
        assert(self@.take(0) =~= Seq::<BindingView>::empty());
        while i < n
            invariant
                n == self@.len(),
                i <= n,
                out@.map_values(|p: (KeySpec, String)| (p.0, p.1@)) == in_context(self@.take(i as int), ctx),
            decreases n - i,
        {
            let b = &self.bindings[i];
            let ghost prev = out@.map_values(|p: (KeySpec, String)| (p.0, p.1@));
            assert(self@.take(i + 1).drop_last() =~= self@.take(i as int));
            assert(self@.take(i + 1).last() == binding_view(*b));
            if b.2 == ctx {
                out.push((b.0, b.1.clone()));
                assert(out@.map_values(|p: (KeySpec, String)| (p.0, p.1@)) =~= prev.push((b.0, b.1@)));
            }
            i = i + 1;
        }
        assert(self@.take(n as int) =~= self@);
        out
    }
}

// ── Config overrides ─────────────────────────────────────────────────────────

/// The `[keymap]` section of the config file: whether the built-in bindings
/// are the base, and the `key = "command"` overrides of each layer, in file
/// order.
#[derive(Debug, Clone)]
pub struct KeymapConfig {
    pub use_defaults: bool,
    pub global: Vec<(String, String)>,
    pub map: Vec<(String, String)>,
    pub anim: Vec<(String, String)>,
}

impl Default for KeymapConfig {
    /// The built-in bindings as the base, and no overrides.
    fn default() -> (c: KeymapConfig)
        ensures
            c.use_defaults,
            c.global@.len() == 0,
            c.map@.len() == 0,
            c.anim@.len() == 0,
    {
        KeymapConfig { use_defaults: true, global: Vec::new(), map: Vec::new(), anim: Vec::new() }
    }
}

/// The view of a list of strings.
pub open spec fn strs(v: Seq<String>) -> Seq<Seq<char>> {
    v.map_values(|s: String| s@)
}

/// The view of a config section.
pub open spec fn pairs(v: Seq<(String, String)>) -> Seq<(Seq<char>, Seq<char>)> {
    v.map_values(|e: (String, String)| (e.0@, e.1@))
}

/// `b` without the bindings of `spec` in layer `ctx`.
pub open spec fn unbind(b: Seq<BindingView>, spec: KeySpec, ctx: Context) -> Seq<BindingView>
    decreases b.len(),
{
    if b.len() == 0 {
        b
    } else {
        let r = unbind(b.drop_last(), spec, ctx);
        if b.last().0 == spec && b.last().2 == ctx { r } else { r.push(b.last()) }
    }
}

/// `b` with `spec` in layer `ctx` bound to `cmd` alone: earlier bindings of
/// that keystroke in that layer go, and the new one comes last.
pub open spec fn rebind(b: Seq<BindingView>, spec: KeySpec, cmd: Seq<char>, ctx: Context) -> Seq<BindingView> {
    unbind(b, spec, ctx).push((spec, cmd, ctx))
}

/// The warning for an override key that does not parse.
pub open spec fn bad_key_warning(key: Seq<char>, err: Seq<char>) -> Seq<char> {
    "keymap: cannot parse key '"@ + key + "': "@ + err + "; skipped"@
}

/// The warning for an override naming a command the registry does not know.
pub open spec fn unknown_command_warning(command: Seq<char>) -> Seq<char> {
    "keymap: unknown command '"@ + command + "'; skipped"@
}

/// Bindings and warnings after one override `key = command` in layer `ctx`,
/// `registry` being the names of the known commands.
pub open spec fn apply_override(
    st: (Seq<BindingView>, Seq<Seq<char>>),
    key: Seq<char>,
    command: Seq<char>,
    ctx: Context,
    registry: Seq<Seq<char>>,
) -> (Seq<BindingView>, Seq<Seq<char>>) {
    match parse_spec(key) {
        Err(e) => (st.0, st.1.push(bad_key_warning(key, e))),
        Ok(spec) => if registry.contains(first_word_or_empty(command)) {
            (rebind(st.0, spec, command, ctx), st.1)
        } else {
            (st.0, st.1.push(unknown_command_warning(command)))
        },
    }
}

/// Bindings and warnings after the overrides `entries` of layer `ctx`, in order.
pub open spec fn apply_section(
    st: (Seq<BindingView>, Seq<Seq<char>>),
    entries: Seq<(Seq<char>, Seq<char>)>,
    ctx: Context,
    registry: Seq<Seq<char>>,
) -> (Seq<BindingView>, Seq<Seq<char>>)
    decreases entries.len(),
{
    if entries.len() == 0 {
        st
    } else {
        apply_override(
            apply_section(st, entries.drop_last(), ctx, registry),
            entries.last().0,
            entries.last().1,
            ctx,
            registry,
        )
    }
}

/// What `KeyMap::resolve` gives: the base table (the defaults or nothing),
/// then the Global, Map and Anim overrides applied in that order.
pub open spec fn resolve_spec(
    use_defaults: bool,
    global: Seq<(Seq<char>, Seq<char>)>,
    map: Seq<(Seq<char>, Seq<char>)>,
    anim: Seq<(Seq<char>, Seq<char>)>,
    registry: Seq<Seq<char>>,
) -> (Seq<BindingView>, Seq<Seq<char>>) {
    let base: Seq<BindingView> = if use_defaults { default_bindings() } else { Seq::empty() };
    let s1 = apply_section((base, Seq::empty()), global, Context::Global, registry);
    let s2 = apply_section(s1, map, Context::MapPane, registry);
    apply_section(s2, anim, Context::Anim, registry)
}

proof fn lemma_unbind_find(b: Seq<BindingView>, spec: KeySpec, ctx: Context, s2: KeySpec, c2: Context)
    ensures
        find_exact(unbind(b, spec, ctx), spec, ctx) is None,
        !(s2 == spec && c2 == ctx) ==> find_exact(unbind(b, spec, ctx), s2, c2) == find_exact(b, s2, c2),
    decreases b.len(),
{
    if b.len() > 0 {
        lemma_unbind_find(b.drop_last(), spec, ctx, s2, c2);
        let r = unbind(b.drop_last(), spec, ctx);
        if !(b.last().0 == spec && b.last().2 == ctx) {
            assert(r.push(b.last()).drop_last() =~= r);
        }
    }
}

/// Binding a keystroke in a layer is what a lookup of that keystroke in that
/// layer then finds, and no other keystroke or layer is answered differently.
pub proof fn lemma_rebind_find(
    b: Seq<BindingView>,
    spec: KeySpec,
    cmd: Seq<char>,
    ctx: Context,
    other: KeySpec,
    other_ctx: Context,
)
    ensures
        find_exact(rebind(b, spec, cmd, ctx), spec, ctx) == Some(cmd),
        !(other == spec && other_ctx == ctx)
            ==> find_exact(rebind(b, spec, cmd, ctx), other, other_ctx) == find_exact(b, other, other_ctx),
{
    lemma_unbind_find(b, spec, ctx, other, other_ctx);
    let u = unbind(b, spec, ctx);
    assert(u.push((spec, cmd, ctx)).drop_last() =~= u);
}

/// Whether the override `key = command` is kept: its key parses and its
/// command names a known command.
pub open spec fn accepted(key: Seq<char>, command: Seq<char>, registry: Seq<Seq<char>>) -> bool {
    parse_spec(key) is Ok && registry.contains(first_word_or_empty(command))
}

/// The command of the last kept override in `entries` whose key parses to
/// `spec`, if any.
pub open spec fn last_accepted(
    entries: Seq<(Seq<char>, Seq<char>)>,
    spec: KeySpec,
    registry: Seq<Seq<char>>,
) -> Option<Seq<char>>
    decreases entries.len(),
{
    if entries.len() == 0 {
        None
    } else {
        let e = entries.last();
        if accepted(e.0, e.1, registry) && parse_spec(e.0) == Ok::<KeySpec, Seq<char>>(spec) {
            Some(e.1)
        } else {
            last_accepted(entries.drop_last(), spec, registry)
        }
    }
}

/// The overrides of layer `ctx`.
pub open spec fn layer_section(
    ctx: Context,
    global: Seq<(Seq<char>, Seq<char>)>,
    map: Seq<(Seq<char>, Seq<char>)>,
    anim: Seq<(Seq<char>, Seq<char>)>,
) -> Seq<(Seq<char>, Seq<char>)> {
    match ctx {
        Context::Global => global,
        Context::MapPane => map,
        Context::Anim => anim,
    }
}

/// The table overrides start from: the built-in bindings, or none.
pub open spec fn base_table(use_defaults: bool) -> Seq<BindingView> {
    if use_defaults { default_bindings() } else { Seq::empty() }
}

/// How many overrides in `entries` are rejected.
pub open spec fn rejected_count(entries: Seq<(Seq<char>, Seq<char>)>, registry: Seq<Seq<char>>) -> nat
    decreases entries.len(),
{
    if entries.len() == 0 {
        0
    } else {
        rejected_count(entries.drop_last(), registry) + if accepted(entries.last().0, entries.last().1, registry) {
            0nat
        } else {
            1nat
        }
    }
}

/// A layer's overrides: a keystroke answers the command of the last kept
/// override for it, or what it answered before when none names it; other
/// layers answer as before; and there is one warning per rejected override.
pub proof fn lemma_apply_section_binds(
    st: (Seq<BindingView>, Seq<Seq<char>>),
    entries: Seq<(Seq<char>, Seq<char>)>,
    ctx: Context,
    registry: Seq<Seq<char>>,
    spec: KeySpec,
    other_ctx: Context,
)
    ensures
        find_exact(apply_section(st, entries, ctx, registry).0, spec, ctx) == match last_accepted(
            entries,
            spec,
            registry,
        ) {
            Some(c) => Some(c),
            None => find_exact(st.0, spec, ctx),
        },
        other_ctx != ctx ==> find_exact(apply_section(st, entries, ctx, registry).0, spec, other_ctx)
            == find_exact(st.0, spec, other_ctx),
        apply_section(st, entries, ctx, registry).1.len() == st.1.len() + rejected_count(entries, registry),
    decreases entries.len(),
{
    if entries.len() > 0 {
        lemma_apply_section_binds(st, entries.drop_last(), ctx, registry, spec, other_ctx);
        let prev = apply_section(st, entries.drop_last(), ctx, registry);
        let e = entries.last();
        match parse_spec(e.0) {
            Err(_) => {},
            Ok(s2) => if registry.contains(first_word_or_empty(e.1)) {
                lemma_rebind_find(prev.0, s2, e.1, ctx, spec, ctx);
                lemma_rebind_find(prev.0, s2, e.1, ctx, spec, other_ctx);
            },
        }
    }
}

/// What the resolved keymap answers: in each layer, a keystroke is bound to
/// the command of its layer's last kept override, else to its built-in binding
/// (when the defaults are used) or to nothing; and each rejected override
/// gives one warning.
pub proof fn lemma_resolve_binds(
    use_defaults: bool,
    global: Seq<(Seq<char>, Seq<char>)>,
    map: Seq<(Seq<char>, Seq<char>)>,
    anim: Seq<(Seq<char>, Seq<char>)>,
    registry: Seq<Seq<char>>,
    spec: KeySpec,
)
    ensures
        ({
            let base: Seq<BindingView> = if use_defaults { default_bindings() } else { Seq::empty() };
            let r = resolve_spec(use_defaults, global, map, anim, registry);
            &&& find_exact(r.0, spec, Context::Global) == match last_accepted(global, spec, registry) {
                Some(c) => Some(c),
                None => find_exact(base, spec, Context::Global),
            }
            &&& find_exact(r.0, spec, Context::MapPane) == match last_accepted(map, spec, registry) {
                Some(c) => Some(c),
                None => find_exact(base, spec, Context::MapPane),
            }
            &&& find_exact(r.0, spec, Context::Anim) == match last_accepted(anim, spec, registry) {
                Some(c) => Some(c),
                None => find_exact(base, spec, Context::Anim),
            }
            &&& r.1.len() == rejected_count(global, registry) + rejected_count(map, registry) + rejected_count(
                anim,
                registry,
            )
        }),
{
    let base: Seq<BindingView> = if use_defaults { default_bindings() } else { Seq::empty() };
    let s0 = (base, Seq::<Seq<char>>::empty());
    let s1 = apply_section(s0, global, Context::Global, registry);
    let s2 = apply_section(s1, map, Context::MapPane, registry);
    lemma_apply_section_binds(s0, global, Context::Global, registry, spec, Context::MapPane);
    lemma_apply_section_binds(s0, global, Context::Global, registry, spec, Context::Anim);
    lemma_apply_section_binds(s1, map, Context::MapPane, registry, spec, Context::Global);
    lemma_apply_section_binds(s1, map, Context::MapPane, registry, spec, Context::Anim);
    lemma_apply_section_binds(s2, anim, Context::Anim, registry, spec, Context::Global);
    lemma_apply_section_binds(s2, anim, Context::Anim, registry, spec, Context::MapPane);
}

impl KeyMap {
    /// Drop the bindings of `spec` in layer `ctx`.
    fn unbind(&mut self, spec: KeySpec, ctx: Context)
        ensures
            final(self)@ == unbind(old(self)@, spec, ctx),
    {
        let n = self.bindings.len();
        let mut kept = KeyMap::empty();
        let mut i: usize = 0;
        assert(self@.take(0) =~= Seq::<BindingView>::empty());
        while i < n
            invariant
                n == self@.len(),
                i <= n,
                kept@ == unbind(self@.take(i as int), spec, ctx),
            decreases n - i,
        {
            let b = &self.bindings[i];
            assert(self@.take(i + 1).drop_last() =~= self@.take(i as int));
            assert(self@.take(i + 1).last() == binding_view(*b));
            if !(b.0 == spec && b.2 == ctx) {
                kept.bind(b.0, b.1.as_str(), b.2);
            }
            i = i + 1;
        }
        assert(self@.take(n as int) =~= self@);
        self.bindings = kept.bindings;
    }

    /// Fold the overrides of one layer in.
    fn apply_section(
        &mut self,
        warnings: &mut Vec<String>,
        section: &Vec<(String, String)>,
        ctx: Context,
        registry: &Vec<String>,
    )
        ensures
            (final(self)@, strs(final(warnings)@))
                == apply_section((old(self)@, strs(old(warnings)@)), pairs(section@), ctx, strs(registry@)),
    {
        let n = section.len();
        let mut i: usize = 0;
        let ghost entries = pairs(section@);
        assert(entries.take(0) =~= Seq::<(Seq<char>, Seq<char>)>::empty());
        while i < n
            invariant
                n == section@.len(),
                entries == pairs(section@),
                i <= n,
                (self@, strs(warnings@))
                    == apply_section((old(self)@, strs(old(warnings)@)), entries.take(i as int), ctx, strs(registry@)),
            decreases n - i,
        {
            let (key, command) = (&section[i].0, &section[i].1);
            assert(entries.take(i + 1).drop_last() =~= entries.take(i as int));
            assert(entries.take(i + 1).last() == (key@, command@));
            let ghost w0 = strs(warnings@);
            match KeySpec::parse(key.as_str()) {
                Err(e) => {
                    let mut w = String::from_str("keymap: cannot parse key '");
                    push_str(&mut w, key.as_str());
                    push_str(&mut w, "': ");
                    push_str(&mut w, e.as_str());
                    push_str(&mut w, "; skipped");
                    warnings.push(w);
                    assert(w@ =~= bad_key_warning(key@, e@));
                    assert(strs(warnings@) =~= w0.push(bad_key_warning(key@, e@)));
                },
                Ok(spec) => {
                    let name = first_word_of(command.as_str());
                    if contains_str(registry, name.as_str()) {
                        self.unbind(spec, ctx);
                        self.bind(spec, command.as_str(), ctx);
                    } else {
                        let mut w = String::from_str("keymap: unknown command '");
                        push_str(&mut w, command.as_str());
                        push_str(&mut w, "'; skipped");
                        warnings.push(w);
                        assert(w@ =~= unknown_command_warning(command@));
                        assert(strs(warnings@) =~= w0.push(unknown_command_warning(command@)));
                    }
                },
            }
            i = i + 1;
        }
        assert(entries.take(n as int) =~= entries);
    }

    /// Build a keymap from config overrides. `registry` holds the names of the
    /// commands the application knows; an override is kept when its key parses
    /// and its command's first word is among them, and it then replaces the
    /// bindings of that keystroke in that layer.
    ///
    /// Returns the resolved keymap and a warning for each override that was
    /// rejected.
    pub fn resolve(cfg: &KeymapConfig, registry: &Vec<String>) -> (r: (KeyMap, Vec<String>))
        ensures
            (r.0@, strs(r.1@))
                == resolve_spec(cfg.use_defaults, pairs(cfg.global@), pairs(cfg.map@), pairs(cfg.anim@), strs(registry@)),
            // A keystroke answers its layer's last kept override, else what the base table answered.
            forall|spec: KeySpec, ctx: Context|
                #![trigger find_exact(r.0@, spec, ctx)]
                find_exact(r.0@, spec, ctx) == match last_accepted(
                    layer_section(ctx, pairs(cfg.global@), pairs(cfg.map@), pairs(cfg.anim@)),
                    spec,
                    strs(registry@),
                ) {
                    Some(c) => Some(c),
                    None => find_exact(base_table(cfg.use_defaults), spec, ctx),
                },
            // So a kept override that no later one supersedes is what a lookup returns.
            forall|spec: KeySpec, ctx: Context|
                #![trigger lookup_spec(r.0@, spec, ctx)]
                last_accepted(
                    layer_section(ctx, pairs(cfg.global@), pairs(cfg.map@), pairs(cfg.anim@)),
                    spec,
                    strs(registry@),
                ) is Some ==> lookup_spec(r.0@, spec, ctx) == last_accepted(
                    layer_section(ctx, pairs(cfg.global@), pairs(cfg.map@), pairs(cfg.anim@)),
                    spec,
                    strs(registry@),
                ),
            // One warning per rejected override.
            r.1@.len() == rejected_count(pairs(cfg.global@), strs(registry@)) + rejected_count(
                pairs(cfg.map@),
                strs(registry@),
            ) + rejected_count(pairs(cfg.anim@), strs(registry@)),
    {
        let mut km = if cfg.use_defaults { KeyMap::default() } else { KeyMap::empty() };
        let mut warnings: Vec<String> = Vec::new();
        assert(strs(warnings@) =~= Seq::<Seq<char>>::empty());
        km.apply_section(&mut warnings, &cfg.global, Context::Global, registry);
        km.apply_section(&mut warnings, &cfg.map, Context::MapPane, registry);
        km.apply_section(&mut warnings, &cfg.anim, Context::Anim, registry);
        proof {
            let (g, m, a, reg) = (pairs(cfg.global@), pairs(cfg.map@), pairs(cfg.anim@), strs(registry@));
            assert forall|spec: KeySpec, ctx: Context| #![trigger find_exact(km@, spec, ctx)]
                find_exact(km@, spec, ctx) == match last_accepted(layer_section(ctx, g, m, a), spec, reg) {
                    Some(c) => Some(c),
                    None => find_exact(base_table(cfg.use_defaults), spec, ctx),
                } by {
                lemma_resolve_binds(cfg.use_defaults, g, m, a, reg, spec);
            }
            // The warning count does not depend on the keystroke asked about.
            lemma_resolve_binds(cfg.use_defaults, g, m, a, reg, KeySpec { code: Key::Esc, ctrl: false, shift: false, alt: false });
            assert(strs(warnings@).len() == warnings@.len());
        }
        (km, warnings)
    }
}

// ── Hotkey dialog layout ─────────────────────────────────────────────────────

/// A dialog group as the contracts see it: title and `(leader letter,
/// command string)` entries.
pub type GroupView = (Seq<char>, Seq<(char, Seq<char>)>);

/// Runtime layout for the hotkey dialog: the key that opens (and closes) it,
/// the command strings that are always reachable without it,
/// and the groups of commands shown inside it, each entry reached by its
/// leader letter.
#[derive(Debug)]
pub struct HotkeyLayout {
    pub prefix: KeySpec,
    pub direct: Vec<String>,
    pub groups: Vec<(String, Vec<(char, String)>)>,
}

/// The view of a stored group.
pub open spec fn group_view(g: (String, Vec<(char, String)>)) -> GroupView {
    (g.0@, g.1@.map_values(|p: (char, String)| (p.0, p.1@)))
}

/// The view of a list of groups.
pub open spec fn groups_view(v: Seq<(String, Vec<(char, String)>)>) -> Seq<GroupView> {
    v.map_values(|g: (String, Vec<(char, String)>)| group_view(g))
}

/// All leader entries of `gs`, group after group.
pub open spec fn leaders(gs: Seq<GroupView>) -> Seq<(char, Seq<char>)>
    decreases gs.len(),
{
    if gs.len() == 0 { Seq::empty() } else { leaders(gs.drop_last()) + gs.last().1 }
}

/// The leader letters of `gs`, in dialog order.
pub open spec fn leader_letters(gs: Seq<GroupView>) -> Seq<char> {
    leaders(gs).map_values(|p: (char, Seq<char>)| p.0)
}

/// No leader letter is used twice across the dialog.
pub open spec fn leaders_unique(gs: Seq<GroupView>) -> bool {
    leader_letters(gs).no_duplicates()
}

/// The command of the first entry of `ls` whose letter is `key`.
pub open spec fn leader_find(ls: Seq<(char, Seq<char>)>, key: char) -> Option<Seq<char>>
    decreases ls.len(),
{
    if ls.len() == 0 {
        None
    } else {
        match leader_find(ls.drop_last(), key) {
            Some(c) => Some(c),
            None => if ls.last().0 == key { Some(ls.last().1) } else { None },
        }
    }
}

proof fn lemma_leader_find_append(a: Seq<(char, Seq<char>)>, b: Seq<(char, Seq<char>)>, key: char)
    ensures
        leader_find(a + b, key) == match leader_find(a, key) {
            Some(c) => Some(c),
            None => leader_find(b, key),
        },
    decreases b.len(),
{
    if b.len() == 0 {
        assert(a + b =~= a);
    } else {
        lemma_leader_find_append(a, b.drop_last(), key);
        assert((a + b).drop_last() =~= a + b.drop_last());
    }
}

/// The always-available commands of the built-in layout.
pub open spec fn default_direct() -> Seq<Seq<char>> {
    seq![
        "quit"@,
        "save-state"@,
        "restore-state"@,
        "pan-map -1 0"@,
        "pan-map 1 0"@,
        "pan-map 0 -1"@,
        "pan-map 0 1"@,
        "zoom-map in"@,
        "zoom-map out"@,
        "zoom-map reset"@,
        "select-room next"@,
        "select-room prev"@,
        "center-map"@,
        "toggle-focus"@,
        "cycle-layout reverse"@,
        "nudge-room -1 0"@,
        "nudge-room 1 0"@,
        "nudge-room 0 -1"@,
        "nudge-room 0 1"@
    ]
}

/// The dialog groups of the built-in layout.
pub open spec fn default_groups() -> Seq<GroupView> {
    seq![
        ("Layout"@, seq![('t', "tidy-map"@), ('a', "animate-tidy"@), ('l', "cycle-layout"@)]),
        ("Layers"@, seq![('p', "peel-layer"@), ('m', "merge-layer"@), ('c', "cycle-layer next"@), ('n', "rename-layer"@)]),
        ("Edit"@, seq![('r', "rename-room"@), ('o', "edit-notes"@), ('d', "delete-connection"@), ('e', "relabel-edge"@)]),
        ("Files"@, seq![('s', "open-saves"@), ('h', "open-history"@), ('x', "reset-game"@), ('v', "export-svg"@), ('g', "export-dot"@), ('u', "export-dump"@)]),
        ("View"@, seq![('i', "toggle-inspector"@), ('f', "open-gallery"@), ('b', "open-verb-menu"@), ('w', "open-config"@), ('y', "toggle-inventory"@), ('j', "toggle-alignment"@), ('q', "toggle-portal-labels"@)])
    ]
}

/// The key that opens the dialog in the built-in layout: Ctrl+K.
pub open spec fn default_prefix() -> KeySpec {
    ctrl(Key::Char('k'))
}

/// The `i`-th always-available command of the built-in layout.
fn default_direct_entry(i: usize) -> (r: &'static str)
    requires
        i < 19,
    ensures
        r@ == default_direct()[i as int],
{
    match i {
        0 => "quit",
        1 => "save-state",
        2 => "restore-state",
        3 => "pan-map -1 0",
        4 => "pan-map 1 0",
        5 => "pan-map 0 -1",
        6 => "pan-map 0 1",
        7 => "zoom-map in",
        8 => "zoom-map out",
        9 => "zoom-map reset",
        10 => "select-room next",
        11 => "select-room prev",
        12 => "center-map",
        13 => "toggle-focus",
        14 => "cycle-layout reverse",
        15 => "nudge-room -1 0",
        16 => "nudge-room 1 0",
        17 => "nudge-room 0 -1",
        _ => "nudge-room 0 1",
    }
}

fn push_leader(cmds: &mut Vec<(char, String)>, letter: char, cmd: &str)
    ensures
        final(cmds)@.map_values(|p: (char, String)| (p.0, p.1@))
            == old(cmds)@.map_values(|p: (char, String)| (p.0, p.1@)).push((letter, cmd@)),
{
    cmds.push((letter, string_of(cmd)));
    assert(cmds@.map_values(|p: (char, String)| (p.0, p.1@))
        =~= old(cmds)@.map_values(|p: (char, String)| (p.0, p.1@)).push((letter, cmd@)));
}

/// The `g`-th dialog group of the built-in layout.
fn default_group(g: usize) -> (r: (String, Vec<(char, String)>))
    requires
        g < 5,
    ensures
        group_view(r) == default_groups()[g as int],
{
    let mut cmds: Vec<(char, String)> = Vec::new();
    let title;
    match g {
        0 => {
            title = "Layout";
            push_leader(&mut cmds, 't', "tidy-map");
            push_leader(&mut cmds, 'a', "animate-tidy");
            push_leader(&mut cmds, 'l', "cycle-layout");
        },
        1 => {
            title = "Layers";
            push_leader(&mut cmds, 'p', "peel-layer");
            push_leader(&mut cmds, 'm', "merge-layer");
            push_leader(&mut cmds, 'c', "cycle-layer next");
            push_leader(&mut cmds, 'n', "rename-layer");
        },
        2 => {
            title = "Edit";
            push_leader(&mut cmds, 'r', "rename-room");
            push_leader(&mut cmds, 'o', "edit-notes");
            push_leader(&mut cmds, 'd', "delete-connection");
            push_leader(&mut cmds, 'e', "relabel-edge");
        },
        3 => {
            title = "Files";
            push_leader(&mut cmds, 's', "open-saves");
            push_leader(&mut cmds, 'h', "open-history");
            push_leader(&mut cmds, 'x', "reset-game");
            push_leader(&mut cmds, 'v', "export-svg");
            push_leader(&mut cmds, 'g', "export-dot");
            push_leader(&mut cmds, 'u', "export-dump");
        },
        _ => {
            title = "View";
            push_leader(&mut cmds, 'i', "toggle-inspector");
            push_leader(&mut cmds, 'f', "open-gallery");
            push_leader(&mut cmds, 'b', "open-verb-menu");
            push_leader(&mut cmds, 'w', "open-config");
            push_leader(&mut cmds, 'y', "toggle-inventory");
            push_leader(&mut cmds, 'j', "toggle-alignment");
            push_leader(&mut cmds, 'q', "toggle-portal-labels");
        },
    }
    let r = (string_of(title), cmds);
    assert(group_view(r).1 =~= default_groups()[g as int].1);
    r
}

impl Default for HotkeyLayout {
    /// The built-in layout: Ctrl+K opens the dialog, and the direct commands
    /// and groups are [`default_direct`] and [`default_groups`].
    fn default() -> (l: HotkeyLayout)
        ensures
            l.prefix == default_prefix(),
            strs(l.direct@) == default_direct(),
            groups_view(l.groups@) == default_groups(),
    {
        let prefix = KeySpec { code: Key::Char('k'), ctrl: true, shift: false, alt: false };
        let mut direct: Vec<String> = Vec::new();
        let mut i: usize = 0;
        assert(strs(direct@) =~= default_direct().take(0));
        while i < 19
            invariant
                i <= 19,
                strs(direct@) == default_direct().take(i as int),
            decreases 19 - i,
        {
            let ghost prev = strs(direct@);
            let s = string_of(default_direct_entry(i));
            direct.push(s);
            assert(strs(direct@) =~= prev.push(s@));
            assert(strs(direct@) =~= default_direct().take(i + 1));
            i = i + 1;
        }
        assert(default_direct().take(19) =~= default_direct());
        let mut groups: Vec<(String, Vec<(char, String)>)> = Vec::new();
        let mut g: usize = 0;
        assert(groups_view(groups@) =~= default_groups().take(0));
        while g < 5
            invariant
                g <= 5,
                groups_view(groups@) == default_groups().take(g as int),
            decreases 5 - g,
        {
            let ghost prev = groups_view(groups@);
            let grp = default_group(g);
            groups.push(grp);
            assert(groups_view(groups@) =~= prev.push(group_view(grp)));
            assert(groups_view(groups@) =~= default_groups().take(g + 1));
            g = g + 1;
        }
        assert(default_groups().take(5) =~= default_groups());
        HotkeyLayout { prefix, direct, groups }
    }
}

impl HotkeyLayout {
    /// The command string bound to leader letter `key`, if any: the first
    /// entry with that letter, in dialog order.
    pub fn leader_command(&self, key: char) -> (r: Option<&str>)
        ensures
            opt_str(r) == leader_find(leaders(groups_view(self.groups@)), key),
    {
        let ghost gs = groups_view(self.groups@);
        let n = self.groups.len();
        let mut g: usize = 0;
        assert(gs.take(0) =~= Seq::<GroupView>::empty());
        while g < n
            invariant
                n == self.groups@.len(),
                gs == groups_view(self.groups@),
                g <= n,
                leader_find(leaders(gs.take(g as int)), key) is None,
            decreases n - g,
        {
            let cmds = &self.groups[g].1;
            let ghost ls = gs[g as int].1;
            assert(ls == cmds@.map_values(|p: (char, String)| (p.0, p.1@)));
            let m = cmds.len();
            let mut j: usize = 0;
            assert(ls.take(0) =~= Seq::<(char, Seq<char>)>::empty());
            while j < m
                invariant
                    n == self.groups@.len(),
                    gs == groups_view(self.groups@),
                    g < n,
                    leader_find(leaders(gs.take(g as int)), key) is None,
                    ls == gs[g as int].1,
                    m == cmds@.len(),
                    ls == cmds@.map_values(|p: (char, String)| (p.0, p.1@)),
                    j <= m,
                    leader_find(ls.take(j as int), key) is None,
                decreases m - j,
            {
                assert(ls.take(j + 1).drop_last() =~= ls.take(j as int));
                assert(ls.take(j + 1).last() == (cmds@[j as int].0, cmds@[j as int].1@));
                if cmds[j].0 == key {
                    proof {
                        assert(gs.take(g + 1).drop_last() =~= gs.take(g as int));
                        lemma_leader_find_append(leaders(gs.take(g as int)), ls, key);
                        lemma_leader_find_append(ls.take(j + 1), ls.skip(j + 1), key);
                        assert(ls.take(j + 1) + ls.skip(j + 1) =~= ls);
                        lemma_leader_find_append(leaders(gs.take(g + 1)), leaders(gs.skip(g + 1)), key);
                        lemma_leaders_split(gs, g + 1);
                    }
                    return Some(cmds[j].1.as_str());
                }
                j = j + 1;
            }
            proof {
                assert(ls.take(m as int) =~= ls);
                assert(gs.take(g + 1).drop_last() =~= gs.take(g as int));
                lemma_leader_find_append(leaders(gs.take(g as int)), ls, key);
            }
            g = g + 1;
        }
        assert(gs.take(n as int) =~= gs);
        None
    }

    /// Whether a full command string (as `KeyMap::lookup` returns it, such as
    /// `zoom-map in`) is a direct command. It is matched whole, so a command
    /// with arguments is matched exactly: `cycle-layout` is not direct even
    /// though `cycle-layout reverse` is.
    pub fn is_direct_name(&self, cmd_str: &str) -> (b: bool)
        ensures
            b == strs(self.direct@).contains(cmd_str@),
    {
        contains_str(&self.direct, cmd_str)
    }
}

/// Splitting the groups splits their leader entries.
proof fn lemma_leaders_split(gs: Seq<GroupView>, k: int)
    requires
        0 <= k <= gs.len(),
    ensures
        leaders(gs) == leaders(gs.take(k)) + leaders(gs.skip(k)),
    decreases gs.len() - k,
{
    if k == gs.len() {
        assert(gs.take(k) =~= gs);
        assert(leaders(gs.skip(k)) =~= Seq::<(char, Seq<char>)>::empty());
    } else {
        lemma_leaders_split(gs, k + 1);
        lemma_leaders_skip(gs, k);
        assert(gs.take(k + 1).drop_last() =~= gs.take(k));
        assert(leaders(gs.take(k + 1)) == leaders(gs.take(k)) + gs[k].1);
    }
}

/// The leader entries from group `k` on are group `k`'s, then the rest.
proof fn lemma_leaders_skip(gs: Seq<GroupView>, k: int)
    requires
        0 <= k < gs.len(),
    ensures
        leaders(gs.skip(k)) == gs[k].1 + leaders(gs.skip(k + 1)),
    decreases gs.len() - k,
{
    if k == gs.len() - 1 {
        let s = gs.skip(k);
        assert(s.drop_last() =~= Seq::<GroupView>::empty());
        assert(s.last() == gs[k]);
        assert(leaders(s.drop_last()) =~= Seq::<(char, Seq<char>)>::empty());
        assert(gs.skip(k + 1) =~= Seq::<GroupView>::empty());
        assert(leaders(gs.skip(k + 1)) =~= Seq::<(char, Seq<char>)>::empty());
        assert(leaders(s) =~= gs[k].1);
    } else {
        lemma_leaders_skip(gs.drop_last(), k);
        assert(gs.drop_last().skip(k) =~= gs.skip(k).drop_last());
        assert(gs.drop_last().skip(k + 1) =~= gs.skip(k + 1).drop_last());
        assert(gs.skip(k).last() == gs.last());
        assert(gs.skip(k + 1).last() == gs.last());
    }
}

// ── Hotkey config ────────────────────────────────────────────────────────────

/// One `[[hotkeys.group]]` table of the config file: a title and its entries,
/// each either `"<letter> <command>"` or a bare command string.
#[derive(Debug, Clone)]
pub struct HotkeyGroupConfig {
    pub title: String,
    pub commands: Vec<String>,
}

/// The `[hotkeys]` section of the config file. A field left out keeps the
/// built-in value; an empty group list keeps the built-in groups.
#[derive(Debug, Clone)]
pub struct HotkeysConfig {
    pub prefix: Option<String>,
    pub direct: Option<Vec<String>>,
    pub group: Vec<HotkeyGroupConfig>,
}

/// The view of an optional string.
pub open spec fn opt_string(o: Option<String>) -> Option<Seq<char>> {
    match o {
        Some(s) => Some(s@),
        None => None,
    }
}

/// The view of an optional string list.
pub open spec fn opt_strs(o: Option<Vec<String>>) -> Option<Seq<Seq<char>>> {
    match o {
        Some(v) => Some(strs(v@)),
        None => None,
    }
}

/// The view of the configured groups.
pub open spec fn group_cfgs(v: Seq<HotkeyGroupConfig>) -> Seq<(Seq<char>, Seq<Seq<char>>)> {
    v.map_values(|g: HotkeyGroupConfig| (g.title@, strs(g.commands@)))
}

/// The warning for a dialog key that does not parse.
pub open spec fn prefix_warning(prefix: Seq<char>, err: Seq<char>) -> Seq<char> {
    "hotkeys: prefix '"@ + prefix + "': "@ + err + "; using default"@
}

/// The warning for a direct command the registry does not know.
pub open spec fn direct_warning(cmd: Seq<char>) -> Seq<char> {
    "hotkeys: direct: unknown command '"@ + cmd + "'; skipped"@
}

/// The warning for a group entry whose command the registry does not know.
pub open spec fn unknown_entry_warning(title: Seq<char>, entry: Seq<char>) -> Seq<char> {
    "hotkeys: group '"@ + title + "': unknown command '"@ + entry + "'; dropped"@
}

/// The warning for a group entry left without a letter.
pub open spec fn no_letter_warning(title: Seq<char>, entry: Seq<char>) -> Seq<char> {
    "hotkeys: group '"@ + title + "': no free letter for '"@ + entry + "'; dropped"@
}

/// The warning for a group entry whose letter an earlier entry took.
pub open spec fn taken_letter_warning(title: Seq<char>, letter: char, cmd: Seq<char>) -> Seq<char> {
    "hotkeys: group '"@ + title + "': letter '"@ + seq![letter] + "' already used; dropped '"@ + cmd + "'"@
}

/// The dialog key and the warnings of the `prefix` setting.
pub open spec fn resolve_prefix(prefix: Option<Seq<char>>) -> (KeySpec, Seq<Seq<char>>) {
    match prefix {
        None => (default_prefix(), Seq::empty()),
        Some(s) => match parse_spec(s) {
            Ok(k) => (k, Seq::empty()),
            Err(e) => (default_prefix(), seq![prefix_warning(s, e)]),
        },
    }
}

/// The direct set and warnings of a `direct` list: each entry whose first word
/// the registry knows is kept (once), the others are warned about.
pub open spec fn resolve_direct(cmds: Seq<Seq<char>>, registry: Seq<Seq<char>>) -> (Seq<Seq<char>>, Seq<Seq<char>>)
    decreases cmds.len(),
{
    if cmds.len() == 0 {
        (Seq::empty(), Seq::empty())
    } else {
        let (set, ws) = resolve_direct(cmds.drop_last(), registry);
        let c = cmds.last();
        if registry.contains(first_word_or_empty(c)) {
            (if set.contains(c) { set } else { set.push(c) }, ws)
        } else {
            (set, ws.push(direct_warning(c)))
        }
    }
}

/// The first letter from `a` + `n` through `z` that `used` does not hold.
pub open spec fn free_letter_from(used: Seq<char>, n: nat) -> Option<char>
    decreases 26 - n,
{
    if n >= 26 {
        None
    } else if !used.contains(((97 + n) as u8) as char) {
        Some(((97 + n) as u8) as char)
    } else {
        free_letter_from(used, n + 1)
    }
}

/// What a group entry asks for: nothing (a blank entry), a letter and command,
/// or a warning. `"<letter> <command>"` is read as such when the letter is a
/// single character and the second word is a known command; otherwise the
/// whole entry is the command string, and it gets the first free letter.
pub open spec fn entry_choice(
    title: Seq<char>,
    entry: Seq<char>,
    used: Seq<char>,
    registry: Seq<Seq<char>>,
) -> Option<Result<(char, Seq<char>), Seq<char>>> {
    let tokens = words(entry);
    if tokens.len() == 0 {
        None
    } else if tokens[0].len() == 1 && tokens.len() > 1 && registry.contains(tokens[1]) {
        Some(Ok((tokens[0][0], join_with(tokens.skip(1), " "@))))
    } else if !registry.contains(tokens[0]) {
        Some(Err(unknown_entry_warning(title, entry)))
    } else {
        match free_letter_from(used, 0) {
            Some(l) => Some(Ok((l, entry))),
            None => Some(Err(no_letter_warning(title, entry))),
        }
    }
}

/// Used letters, the group's entries so far and the warnings, after one more
/// entry of the group titled `title`.
pub open spec fn group_step(
    st: (Seq<char>, Seq<(char, Seq<char>)>, Seq<Seq<char>>),
    title: Seq<char>,
    entry: Seq<char>,
    registry: Seq<Seq<char>>,
) -> (Seq<char>, Seq<(char, Seq<char>)>, Seq<Seq<char>>) {
    match entry_choice(title, entry, st.0, registry) {
        None => st,
        Some(Err(w)) => (st.0, st.1, st.2.push(w)),
        Some(Ok((l, c))) => if st.0.contains(l) {
            (st.0, st.1, st.2.push(taken_letter_warning(title, l, c)))
        } else {
            (st.0.push(l), st.1.push((l, c)), st.2)
        },
    }
}

/// [`group_step`] over the entries of one group, in order.
pub open spec fn group_entries(
    st: (Seq<char>, Seq<(char, Seq<char>)>, Seq<Seq<char>>),
    title: Seq<char>,
    entries: Seq<Seq<char>>,
    registry: Seq<Seq<char>>,
) -> (Seq<char>, Seq<(char, Seq<char>)>, Seq<Seq<char>>)
    decreases entries.len(),
{
    if entries.len() == 0 {
        st
    } else {
        group_step(group_entries(st, title, entries.drop_last(), registry), title, entries.last(), registry)
    }
}

/// Used letters, resolved groups and warnings after the configured groups, in
/// order; letters are shared across all groups.
pub open spec fn resolve_groups(gs: Seq<(Seq<char>, Seq<Seq<char>>)>, registry: Seq<Seq<char>>) -> (
    Seq<char>,
    Seq<GroupView>,
    Seq<Seq<char>>,
)
    decreases gs.len(),
{
    if gs.len() == 0 {
        (Seq::empty(), Seq::empty(), Seq::empty())
    } else {
        let (used, out, ws) = resolve_groups(gs.drop_last(), registry);
        let g = gs.last();
        let (used2, cmds, ws2) = group_entries((used, Seq::empty(), ws), g.0, g.1, registry);
        (used2, out.push((g.0, cmds)), ws2)
    }
}

/// What `HotkeyLayout::resolve` gives: dialog key, direct set, groups, and the
/// warnings of the prefix, direct and group settings in that order.
pub open spec fn resolve_hotkeys_spec(
    prefix: Option<Seq<char>>,
    direct: Option<Seq<Seq<char>>>,
    groups: Seq<(Seq<char>, Seq<Seq<char>>)>,
    registry: Seq<Seq<char>>,
) -> (KeySpec, Seq<Seq<char>>, Seq<GroupView>, Seq<Seq<char>>) {
    let (p, w1) = resolve_prefix(prefix);
    let (d, w2) = match direct {
        None => (default_direct(), Seq::empty()),
        Some(cs) => resolve_direct(cs, registry),
    };
    let (gs, w3) = if groups.len() == 0 {
        (default_groups(), Seq::empty())
    } else {
        let r = resolve_groups(groups, registry);
        (r.1, r.2)
    };
    (p, d, gs, w1 + w2 + w3)
}

/// The direct set a configured list resolves to holds each command once, and
/// every command in it names a command of the registry.
pub proof fn lemma_resolved_direct_known(cmds: Seq<Seq<char>>, registry: Seq<Seq<char>>)
    ensures
        resolve_direct(cmds, registry).0.no_duplicates(),
        forall|i: int|
            0 <= i < resolve_direct(cmds, registry).0.len() ==> registry.contains(
                first_word_or_empty(#[trigger] resolve_direct(cmds, registry).0[i]),
            ),
    decreases cmds.len(),
{
    if cmds.len() > 0 {
        lemma_resolved_direct_known(cmds.drop_last(), registry);
        let set = resolve_direct(cmds.drop_last(), registry).0;
        let c = cmds.last();
        if registry.contains(first_word_or_empty(c)) && !set.contains(c) {
            let t = set.push(c);
            assert forall|i: int, j: int| 0 <= i < t.len() && 0 <= j < t.len() && i != j implies t[i] != t[j] by {
                if i == set.len() {
                    assert(!set.contains(c));
                    assert(t[j] == set[j]);
                } else if j == set.len() {
                    assert(t[i] == set[i]);
                }
            }
            assert forall|i: int| 0 <= i < t.len() implies registry.contains(first_word_or_empty(#[trigger] t[i])) by {
                if i < set.len() {
                    assert(t[i] == set[i]);
                }
            }
        }
    }
}

/// The built-in direct set holds each command once.
pub proof fn lemma_default_direct_distinct()
    ensures
        default_direct().no_duplicates(),
{
    let d = default_direct();
    reveal_strlit("quit");
    reveal_strlit("save-state");
    reveal_strlit("restore-state");
    reveal_strlit("pan-map -1 0");
    reveal_strlit("pan-map 1 0");
    reveal_strlit("pan-map 0 -1");
    reveal_strlit("pan-map 0 1");
    reveal_strlit("zoom-map in");
    reveal_strlit("zoom-map out");
    reveal_strlit("zoom-map reset");
    reveal_strlit("select-room next");
    reveal_strlit("select-room prev");
    reveal_strlit("center-map");
    reveal_strlit("toggle-focus");
    reveal_strlit("cycle-layout reverse");
    reveal_strlit("nudge-room -1 0");
    reveal_strlit("nudge-room 1 0");
    reveal_strlit("nudge-room 0 -1");
    reveal_strlit("nudge-room 0 1");
    assert forall|i: int, j: int| 0 <= i < d.len() && 0 <= j < d.len() && i != j implies d[i] != d[j] by {
        if d[i] == d[j] {
            assert(d[i].len() == d[j].len());
            assert(d[i][0] == d[j][0]);
            assert(d[i][d[i].len() - 1] == d[j][d[j].len() - 1]);
            if d[i].len() > 8 {
                assert(d[i][8] == d[j][8]);
            }
            if d[i].len() > 13 {
                assert(d[i][13] == d[j][13]);
            }
        }
    }
}

/// Every command of a direct set names a command of the registry.
pub open spec fn direct_known(direct: Seq<Seq<char>>, registry: Seq<Seq<char>>) -> bool {
    forall|i: int| 0 <= i < direct.len() ==> registry.contains(first_word_or_empty(#[trigger] direct[i]))
}

/// Every command of every group names a command of the registry.
pub open spec fn group_commands_known(gs: Seq<GroupView>, registry: Seq<Seq<char>>) -> bool {
    forall|i: int, j: int|
        0 <= i < gs.len() && 0 <= j < gs[i].1.len() ==> registry.contains(
            first_word_or_empty(#[trigger] gs[i].1[j].1),
        )
}

proof fn lemma_entry_choice_known(title: Seq<char>, entry: Seq<char>, used: Seq<char>, registry: Seq<Seq<char>>)
    ensures
        entry_choice(title, entry, used, registry) matches Some(Ok((l, c))) ==> registry.contains(
            first_word_or_empty(c),
        ),
{
    let tokens = words(entry);
    if tokens.len() > 0 {
        lemma_words_are_words(entry);
        if tokens[0].len() == 1 && tokens.len() > 1 && registry.contains(tokens[1]) {
            let ws = tokens.skip(1);
            assert forall|i: int| 0 <= i < ws.len() implies is_word(#[trigger] ws[i]) by {
                assert(ws[i] == tokens[i + 1]);
            }
            lemma_words_of_joined(ws);
            assert(ws[0] == tokens[1]);
        }
    }
}

proof fn lemma_group_entries_known(
    st: (Seq<char>, Seq<(char, Seq<char>)>, Seq<Seq<char>>),
    title: Seq<char>,
    entries: Seq<Seq<char>>,
    registry: Seq<Seq<char>>,
)
    requires
        forall|j: int| 0 <= j < st.1.len() ==> registry.contains(first_word_or_empty(#[trigger] st.1[j].1)),
    ensures
        forall|j: int|
            0 <= j < group_entries(st, title, entries, registry).1.len() ==> registry.contains(
                first_word_or_empty(#[trigger] group_entries(st, title, entries, registry).1[j].1),
            ),
    decreases entries.len(),
{
    if entries.len() > 0 {
        lemma_group_entries_known(st, title, entries.drop_last(), registry);
        let prev = group_entries(st, title, entries.drop_last(), registry);
        lemma_entry_choice_known(title, entries.last(), prev.0, registry);
        let r = group_entries(st, title, entries, registry);
        assert forall|j: int| 0 <= j < r.1.len() implies registry.contains(first_word_or_empty(#[trigger] r.1[j].1)) by {
            if j < prev.1.len() {
                assert(r.1[j] == prev.1[j]);
            }
        }
    }
}

proof fn lemma_resolve_groups_known(gs: Seq<(Seq<char>, Seq<Seq<char>>)>, registry: Seq<Seq<char>>)
    ensures
        group_commands_known(resolve_groups(gs, registry).1, registry),
    decreases gs.len(),
{
    if gs.len() > 0 {
        lemma_resolve_groups_known(gs.drop_last(), registry);
        let (used, out, ws) = resolve_groups(gs.drop_last(), registry);
        let g = gs.last();
        lemma_group_entries_known((used, Seq::empty(), ws), g.0, g.1, registry);
        let r = resolve_groups(gs, registry).1;
        assert forall|i: int, j: int| 0 <= i < r.len() && 0 <= j < r[i].1.len() implies registry.contains(
            first_word_or_empty(#[trigger] r[i].1[j].1),
        ) by {
            if i < out.len() {
                assert(r[i] == out[i]);
            }
        }
    }
}

/// Given a registry that holds the built-in commands, every command the
/// resolved layout keeps (direct or in a group) names a registry command.
pub proof fn lemma_resolved_hotkeys_known(
    prefix: Option<Seq<char>>,
    direct: Option<Seq<Seq<char>>>,
    groups: Seq<(Seq<char>, Seq<Seq<char>>)>,
    registry: Seq<Seq<char>>,
)
    requires
        direct_known(default_direct(), registry),
        group_commands_known(default_groups(), registry),
    ensures
        direct_known(resolve_hotkeys_spec(prefix, direct, groups, registry).1, registry),
        group_commands_known(resolve_hotkeys_spec(prefix, direct, groups, registry).2, registry),
{
    match direct {
        Some(cs) => lemma_resolved_direct_known(cs, registry),
        None => {},
    }
    if groups.len() > 0 {
        lemma_resolve_groups_known(groups, registry);
    }
}

/// The letters of a list of leader entries.
pub open spec fn letters_of(cmds: Seq<(char, Seq<char>)>) -> Seq<char> {
    cmds.map_values(|p: (char, Seq<char>)| p.0)
}

proof fn lemma_push_distinct(s: Seq<char>, c: char)
    requires
        s.no_duplicates(),
        !s.contains(c),
    ensures
        s.push(c).no_duplicates(),
{
    let t = s.push(c);
    assert forall|i: int, j: int| 0 <= i < t.len() && 0 <= j < t.len() && i != j implies t[i] != t[j] by {
        if i == s.len() {
            assert(s[j] == t[j]);
        } else if j == s.len() {
            assert(s[i] == t[i]);
        } else {
            assert(s[i] == t[i] && s[j] == t[j]);
        }
    }
}

proof fn lemma_group_entries_unique(
    st: (Seq<char>, Seq<(char, Seq<char>)>, Seq<Seq<char>>),
    before: Seq<char>,
    title: Seq<char>,
    entries: Seq<Seq<char>>,
    registry: Seq<Seq<char>>,
)
    requires
        st.0 == before + letters_of(st.1),
        st.0.no_duplicates(),
    ensures
        group_entries(st, title, entries, registry).0
            == before + letters_of(group_entries(st, title, entries, registry).1),
        group_entries(st, title, entries, registry).0.no_duplicates(),
    decreases entries.len(),
{
    if entries.len() > 0 {
        lemma_group_entries_unique(st, before, title, entries.drop_last(), registry);
        let m = group_entries(st, title, entries.drop_last(), registry);
        match entry_choice(title, entries.last(), m.0, registry) {
            Some(Ok((l, c))) => {
                if !m.0.contains(l) {
                    lemma_push_distinct(m.0, l);
                    assert(letters_of(m.1.push((l, c))) =~= letters_of(m.1).push(l));
                    assert(m.0.push(l) =~= before + letters_of(m.1).push(l));
                }
            },
            _ => {},
        }
    }
}

proof fn lemma_resolve_groups_unique(gs: Seq<(Seq<char>, Seq<Seq<char>>)>, registry: Seq<Seq<char>>)
    ensures
        resolve_groups(gs, registry).0 == leader_letters(resolve_groups(gs, registry).1),
        resolve_groups(gs, registry).0.no_duplicates(),
    decreases gs.len(),
{
    if gs.len() == 0 {
        assert(leader_letters(Seq::<GroupView>::empty()) =~= Seq::<char>::empty());
    } else {
        lemma_resolve_groups_unique(gs.drop_last(), registry);
        let (used, out, ws) = resolve_groups(gs.drop_last(), registry);
        let g = gs.last();
        let st = (used, Seq::<(char, Seq<char>)>::empty(), ws);
        assert(used + letters_of(st.1) =~= used);
        lemma_group_entries_unique(st, used, g.0, g.1, registry);
        let (used2, cmds, ws2) = group_entries(st, g.0, g.1, registry);
        let out2 = out.push((g.0, cmds));
        assert(out2.drop_last() =~= out);
        assert(leaders(out2) == leaders(out) + cmds);
        assert(leader_letters(out2) =~= leader_letters(out) + letters_of(cmds));
    }
}

/// In a resolved dialog no leader letter is used twice, whether the groups
/// come from the config or are the built-in ones.
pub proof fn lemma_resolved_leaders_unique(
    prefix: Option<Seq<char>>,
    direct: Option<Seq<Seq<char>>>,
    groups: Seq<(Seq<char>, Seq<Seq<char>>)>,
    registry: Seq<Seq<char>>,
)
    ensures
        leaders_unique(resolve_hotkeys_spec(prefix, direct, groups, registry).2),
{
    if groups.len() == 0 {
        lemma_default_leaders_unique();
    } else {
        lemma_resolve_groups_unique(groups, registry);
    }
}

fn contains_char(v: &Vec<char>, c: char) -> (b: bool)
    ensures
        b == v@.contains(c),
{
    let n = v.len();
    let mut i: usize = 0;
    while i < n
        invariant
            n == v@.len(),
            i <= n,
            forall|j: int| 0 <= j < i ==> v@[j] != c,
        decreases n - i,
    {
        if v[i] == c {
            return true;
        }
        i = i + 1;
    }
    false
}

fn free_letter(used: &Vec<char>) -> (r: Option<char>)
    ensures
        r == free_letter_from(used@, 0),
{
    let mut k: u8 = 0;
    while k < 26
        invariant
            k <= 26,
            free_letter_from(used@, 0) == free_letter_from(used@, k as nat),
        decreases 26 - k,
    {
        let c = (97u8 + k) as char;
        assert(c == ((97 + k as nat) as u8) as char);
        if !contains_char(used, c) {
            return Some(c);
        }
        k = k + 1;
    }
    None
}

/// The view of a computed entry choice.
pub open spec fn choice_view(r: Option<Result<(char, String), String>>) -> Option<Result<(char, Seq<char>), Seq<char>>> {
    match r {
        None => None,
        Some(Ok((l, c))) => Some(Ok((l, c@))),
        Some(Err(w)) => Some(Err(w@)),
    }
}

fn choose_entry(title: &str, entry: &str, used: &Vec<char>, registry: &Vec<String>) -> (r: Option<
    Result<(char, String), String>,
>)
    ensures
        choice_view(r) == entry_choice(title@, entry@, used@, strs(registry@)),
{
    let tokens = split_words(entry);
    let ghost tv = tokens@.map_values(|w: String| w@);
    if tokens.len() == 0 {
        return None;
    }
    assert(tv[0] == tokens@[0]@);
    if tokens[0].unicode_len() == 1 && tokens.len() > 1 {
        assert(tv[1] == tokens@[1]@);
        if contains_str(registry, tokens[1].as_str()) {
            let letter = tokens[0].get_char(0);
            let cmd = join_from(&tokens, 1, " ");
            return Some(Ok((letter, cmd)));
        }
    }
    if !contains_str(registry, tokens[0].as_str()) {
        let mut w = String::from_str("hotkeys: group '");
        push_str(&mut w, title);
        push_str(&mut w, "': unknown command '");
        push_str(&mut w, entry);
        push_str(&mut w, "'; dropped");
        assert(w@ =~= unknown_entry_warning(title@, entry@));
        return Some(Err(w));
    }
    match free_letter(used) {
        Some(l) => Some(Ok((l, string_of(entry)))),
        None => {
            let mut w = String::from_str("hotkeys: group '");
            push_str(&mut w, title);
            push_str(&mut w, "': no free letter for '");
            push_str(&mut w, entry);
            push_str(&mut w, "'; dropped");
            assert(w@ =~= no_letter_warning(title@, entry@));
            Some(Err(w))
        },
    }
}

/// The view of a group's stored entries.
pub open spec fn cmds_view(v: Seq<(char, String)>) -> Seq<(char, Seq<char>)> {
    v.map_values(|p: (char, String)| (p.0, p.1@))
}

fn apply_group_entry(
    used: &mut Vec<char>,
    cmds: &mut Vec<(char, String)>,
    warnings: &mut Vec<String>,
    title: &str,
    entry: &str,
    registry: &Vec<String>,
)
    ensures
        (final(used)@, cmds_view(final(cmds)@), strs(final(warnings)@))
            == group_step((old(used)@, cmds_view(old(cmds)@), strs(old(warnings)@)), title@, entry@, strs(registry@)),
{
    let ghost w0 = strs(warnings@);
    let ghost c0 = cmds_view(cmds@);
    match choose_entry(title, entry, used, registry) {
        None => {},
        Some(Err(w)) => {
            warnings.push(w);
            assert(strs(warnings@) =~= w0.push(w@));
        },
        Some(Ok((l, c))) => {
            if contains_char(used, l) {
                let mut w = String::from_str("hotkeys: group '");
                push_str(&mut w, title);
                push_str(&mut w, "': letter '");
                push_char(&mut w, l);
                push_str(&mut w, "' already used; dropped '");
                push_str(&mut w, c.as_str());
                push_str(&mut w, "'");
                assert(w@ =~= taken_letter_warning(title@, l, c@));
                warnings.push(w);
                assert(strs(warnings@) =~= w0.push(taken_letter_warning(title@, l, c@)));
            } else {
                used.push(l);
                let ghost cv = c@;
                cmds.push((l, c));
                assert(cmds_view(cmds@) =~= c0.push((l, cv)));
            }
        },
    }
}

impl HotkeyLayout {
    /// Resolve the dialog layout from config. Settings left out keep the
    /// built-in values. `registry` holds the names of the known commands: a
    /// direct command or group entry naming another is dropped with a
    /// warning, as is an entry whose letter is already taken. A dialog key
    /// that does not parse keeps Ctrl+K, with a warning.
    pub fn resolve(cfg: &HotkeysConfig, registry: &Vec<String>) -> (r: (HotkeyLayout, Vec<String>))
        ensures
            (r.0.prefix, strs(r.0.direct@), groups_view(r.0.groups@), strs(r.1@))
                == resolve_hotkeys_spec(opt_string(cfg.prefix), opt_strs(cfg.direct), group_cfgs(cfg.group@), strs(registry@)),
            leaders_unique(groups_view(r.0.groups@)),
            strs(r.0.direct@).no_duplicates(),
            // Configured commands that are kept name registry commands.
            cfg.direct is Some ==> direct_known(strs(r.0.direct@), strs(registry@)),
            cfg.group.len() > 0 ==> group_commands_known(groups_view(r.0.groups@), strs(registry@)),
            // With a registry that knows the built-in commands, every kept command names one.
            direct_known(default_direct(), strs(registry@)) && group_commands_known(default_groups(), strs(registry@))
                ==> direct_known(strs(r.0.direct@), strs(registry@)) && group_commands_known(
                groups_view(r.0.groups@),
                strs(registry@),
            ),
    {
        proof {
            lemma_resolve_groups_known(group_cfgs(cfg.group@), strs(registry@));
            if direct_known(default_direct(), strs(registry@)) && group_commands_known(default_groups(), strs(registry@)) {
                lemma_resolved_hotkeys_known(opt_string(cfg.prefix), opt_strs(cfg.direct), group_cfgs(cfg.group@), strs(registry@));
            }
            lemma_default_direct_distinct();
            match opt_strs(cfg.direct) {
                Some(cs) => lemma_resolved_direct_known(cs, strs(registry@)),
                None => {},
            }
        }
        let ghost reg = strs(registry@);
        let mut layout = HotkeyLayout::default();
        let mut warnings: Vec<String> = Vec::new();
        // The dialog key.
        match &cfg.prefix {
            Some(p) => match KeySpec::parse(p.as_str()) {
                Ok(spec) => {
                    layout.prefix = spec;
                },
                Err(e) => {
                    let mut w = String::from_str("hotkeys: prefix '");
                    push_str(&mut w, p.as_str());
                    push_str(&mut w, "': ");
                    push_str(&mut w, e.as_str());
                    push_str(&mut w, "; using default");
                    assert(w@ =~= prefix_warning(p@, e@));
                    warnings.push(w);
                },
            },
            None => {},
        }
        let ghost w1 = strs(warnings@);
        assert(w1 =~= resolve_prefix(opt_string(cfg.prefix)).1);
        // The direct set.
        match &cfg.direct {
            Some(list) => {
                let ghost cs = strs(list@);
                let mut direct: Vec<String> = Vec::new();
                let n = list.len();
                let mut i: usize = 0;
                assert(cs.take(0) =~= Seq::<Seq<char>>::empty());
                assert(strs(direct@) =~= Seq::<Seq<char>>::empty());
                assert(strs(warnings@) =~= w1 + Seq::<Seq<char>>::empty());
                while i < n
                    invariant
                        n == list@.len(),
                        cs == strs(list@),
                        i <= n,
                        reg == strs(registry@),
                        strs(direct@) == resolve_direct(cs.take(i as int), reg).0,
                        strs(warnings@) == w1 + resolve_direct(cs.take(i as int), reg).1,
                    decreases n - i,
                {
                    let cmd = &list[i];
                    assert(cs.take(i + 1).drop_last() =~= cs.take(i as int));
                    assert(cs.take(i + 1).last() == cmd@);
                    let name = first_word_of(cmd.as_str());
                    let ghost d0 = strs(direct@);
                    let ghost ws0 = strs(warnings@);
                    if contains_str(registry, name.as_str()) {
                        if !contains_str(&direct, cmd.as_str()) {
                            direct.push(cmd.clone());
                            assert(strs(direct@) =~= d0.push(cmd@));
                        }
                    } else {
                        let mut w = String::from_str("hotkeys: direct: unknown command '");
                        push_str(&mut w, cmd.as_str());
                        push_str(&mut w, "'; skipped");
                        assert(w@ =~= direct_warning(cmd@));
                        warnings.push(w);
                        assert(strs(warnings@) =~= ws0.push(direct_warning(cmd@)));
                        assert(w1 + resolve_direct(cs.take(i + 1), reg).1
                            =~= (w1 + resolve_direct(cs.take(i as int), reg).1).push(direct_warning(cmd@)));
                    }
                    i = i + 1;
                }
                assert(cs.take(n as int) =~= cs);
                layout.direct = direct;
            },
            None => {
                assert(strs(warnings@) =~= w1 + Seq::<Seq<char>>::empty());
            },
        }
        let ghost w2 = strs(warnings@);
        // The dialog groups.
        if cfg.group.len() > 0 {
            let ghost gs = group_cfgs(cfg.group@);
            let mut used: Vec<char> = Vec::new();
            let mut groups: Vec<(String, Vec<(char, String)>)> = Vec::new();
            let n = cfg.group.len();
            let mut g: usize = 0;
            assert(gs.take(0) =~= Seq::<(Seq<char>, Seq<Seq<char>>)>::empty());
            assert(groups_view(groups@) =~= Seq::<GroupView>::empty());
            assert(strs(warnings@) =~= w2 + Seq::<Seq<char>>::empty());
            while g < n
                invariant
                    n == cfg.group@.len(),
                    gs == group_cfgs(cfg.group@),
                    g <= n,
                    reg == strs(registry@),
                    used@ == resolve_groups(gs.take(g as int), reg).0,
                    groups_view(groups@) == resolve_groups(gs.take(g as int), reg).1,
                    strs(warnings@) == w2 + resolve_groups(gs.take(g as int), reg).2,
                decreases n - g,
            {
                let grp = &cfg.group[g];
                assert(gs.take(g + 1).drop_last() =~= gs.take(g as int));
                assert(gs.take(g + 1).last() == (grp.title@, strs(grp.commands@)));
                let ghost es = strs(grp.commands@);
                let ghost prev = resolve_groups(gs.take(g as int), reg);
                let ghost ws_before = strs(warnings@);
                let mut group_warnings: Vec<String> = Vec::new();
                let mut cmds: Vec<(char, String)> = Vec::new();
                let m = grp.commands.len();
                let mut j: usize = 0;
                assert(es.take(0) =~= Seq::<Seq<char>>::empty());
                assert(cmds_view(cmds@) =~= Seq::<(char, Seq<char>)>::empty());
                assert(strs(group_warnings@) =~= Seq::<Seq<char>>::empty());
                while j < m
                    invariant
                        m == grp.commands@.len(),
                        es == strs(grp.commands@),
                        j <= m,
                        reg == strs(registry@),
                        (used@, cmds_view(cmds@), prev.2 + strs(group_warnings@))
                            == group_entries((prev.0, Seq::empty(), prev.2), grp.title@, es.take(j as int), reg),
                    decreases m - j,
                {
                    assert(es.take(j + 1).drop_last() =~= es.take(j as int));
                    assert(es.take(j + 1).last() == grp.commands@[j as int]@);
                    let ghost gw0 = strs(group_warnings@);
                    apply_group_entry(&mut used, &mut cmds, &mut group_warnings, grp.title.as_str(),
                        grp.commands[j].as_str(), registry);
                    proof {
                        let gw1 = strs(group_warnings@);
                        if gw1.len() > gw0.len() {
                            assert(prev.2 + gw1 =~= (prev.2 + gw0).push(gw1.last()));
                        } else {
                            assert(gw1 =~= gw0);
                        }
                    }
                    j = j + 1;
                }
                assert(es.take(m as int) =~= es);
                let ghost gv = cmds_view(cmds@);
                let ghost pv = groups_view(groups@);
                let title = grp.title.clone();
                groups.push((title, cmds));
                assert(groups_view(groups@) =~= pv.push((grp.title@, gv)));
                let ghost wv = strs(warnings@);
                let ghost gwv = strs(group_warnings@);
                warnings.append(&mut group_warnings);
                assert(strs(warnings@) =~= wv + gwv);
                assert(w2 + (prev.2 + gwv) =~= wv + gwv);
                g = g + 1;
            }
            assert(gs.take(n as int) =~= gs);
            layout.groups = groups;
        } else {
            assert(strs(warnings@) =~= w2 + Seq::<Seq<char>>::empty());
        }
        proof {
            lemma_resolved_leaders_unique(opt_string(cfg.prefix), opt_strs(cfg.direct), group_cfgs(cfg.group@), reg);
        }
        (layout, warnings)
    }
}

// ── Laws of the built-in tables ──────────────────────────────────────────────

spec fn occurs(c: char, s: Seq<char>) -> bool
    decreases s.len(),
{
    s.len() > 0 && (s.last() == c || occurs(c, s.drop_last()))
}

spec fn all_distinct(s: Seq<char>) -> bool
    decreases s.len(),
{
    s.len() == 0 || (!occurs(s.last(), s.drop_last()) && all_distinct(s.drop_last()))
}

proof fn lemma_occurs(c: char, s: Seq<char>, i: int)
    requires
        0 <= i < s.len(),
        s[i] == c,
    ensures
        occurs(c, s),
    decreases s.len(),
{
    if i < s.len() - 1 {
        lemma_occurs(c, s.drop_last(), i);
    }
}

proof fn lemma_all_distinct(s: Seq<char>)
    requires
        all_distinct(s),
    ensures
        s.no_duplicates(),
    decreases s.len(),
{
    if s.len() > 0 {
        let t = s.drop_last();
        lemma_all_distinct(t);
        assert forall|i: int, j: int| 0 <= i < s.len() && 0 <= j < s.len() && i != j implies s[i] != s[j] by {
            if i == s.len() - 1 {
                if s[j] == s[i] {
                    lemma_occurs(s.last(), t, j);
                }
            } else if j == s.len() - 1 {
                if s[i] == s[j] {
                    lemma_occurs(s.last(), t, i);
                }
            } else {
                assert(t[i] == s[i] && t[j] == s[j]);
            }
        }
    }
}

/// No leader letter of the built-in dialog is used twice.
pub proof fn lemma_default_leaders_unique()
    ensures
        leaders_unique(default_groups()),
        leader_letters(default_groups()).len() == 24,
{
    let gs = default_groups();
    reveal_with_fuel(leaders, 6);
    assert(gs.drop_last().drop_last().drop_last().drop_last().drop_last() =~= Seq::<GroupView>::empty());
    let ls = leader_letters(gs);
    let expected = seq!['t', 'a', 'l', 'p', 'm', 'c', 'n', 'r', 'o', 'd', 'e', 's', 'h', 'x', 'v', 'g', 'u',
        'i', 'f', 'b', 'w', 'y', 'j', 'q'];
    assert(ls =~= expected);
    assert(all_distinct(expected)) by {
        reveal_with_fuel(all_distinct, 25);
        reveal_with_fuel(occurs, 25);
    }
    lemma_all_distinct(expected);
}

/// A word with no white space in it is its own first word.
proof fn lemma_single_word(s: Seq<char>)
    requires
        s.len() > 0,
        forall|k: int| 0 <= k < s.len() ==> !is_space(#[trigger] s[k]),
    ensures
        words(s) == seq![s],
    decreases s.len(),
{
    if s.len() > 1 {
        let t = s.drop_last();
        assert forall|k: int| 0 <= k < t.len() implies !is_space(#[trigger] t[k]) by {
            assert(t[k] == s[k]);
        }
        lemma_single_word(t);
        assert(!is_space(s[s.len() - 1]));
        assert(!is_space(s[s.len() - 2]));
        assert(t[t.len() - 1] == s[s.len() - 2]);
        let w = words(t);
        assert(t.push(s.last()) =~= s);
        assert(w.len() == 1 && w.last() == t);
        assert(words(s) == w.update(w.len() - 1, w.last().push(s.last())));
        assert(w.update(0, s) =~= seq![s]);
    } else {
        assert(!is_space(s[0]));
        assert(s.drop_last() =~= Seq::<char>::empty());
        assert(words(s.drop_last()) =~= Seq::<Seq<char>>::empty());
        assert(words(s) == seq![seq![s.last()]]);
        assert(seq![s.last()] =~= s);
    }
}

/// A command other than each built-in direct command is not among them.
proof fn lemma_not_default_direct(c: Seq<char>)
    requires
        c != "quit"@,
        c != "save-state"@,
        c != "restore-state"@,
        c != "pan-map -1 0"@,
        c != "pan-map 1 0"@,
        c != "pan-map 0 -1"@,
        c != "pan-map 0 1"@,
        c != "zoom-map in"@,
        c != "zoom-map out"@,
        c != "zoom-map reset"@,
        c != "select-room next"@,
        c != "select-room prev"@,
        c != "center-map"@,
        c != "toggle-focus"@,
        c != "cycle-layout reverse"@,
        c != "nudge-room -1 0"@,
        c != "nudge-room 1 0"@,
        c != "nudge-room 0 -1"@,
        c != "nudge-room 0 1"@,
    ensures
        !default_direct().contains(c),
{
    assert forall|k: int| 0 <= k < default_direct().len() implies default_direct()[k] != c by {
        if k == 0 {
        } else if k == 1 {
        } else if k == 2 {
        } else if k == 3 {
        } else if k == 4 {
        } else if k == 5 {
        } else if k == 6 {
        } else if k == 7 {
        } else if k == 8 {
        } else if k == 9 {
        } else if k == 10 {
        } else if k == 11 {
        } else if k == 12 {
        } else if k == 13 {
        } else if k == 14 {
        } else if k == 15 {
        } else if k == 16 {
        } else if k == 17 {
        } else if k == 18 {
        }
    }
}

proof fn lemma_ctrl_commands_own_words()
    ensures
        first_word_or_empty("save-state"@) == "save-state"@,
        first_word_or_empty("restore-state"@) == "restore-state"@,
{
    reveal_strlit("save-state");
    reveal_strlit("restore-state");
    lemma_single_word("save-state"@);
    lemma_single_word("restore-state"@);
}

/// The commands bound with a modifier, other than save-state and
/// restore-state, are not direct.
proof fn lemma_modified_commands_not_direct()
    ensures
        !default_direct().contains("export-svg"@),
        !default_direct().contains("export-dot"@),
        !default_direct().contains("export-dump"@),
        !default_direct().contains("cycle-layout"@),
        !default_direct().contains("tidy-map"@),
        !default_direct().contains("animate-tidy"@),
        !default_direct().contains("toggle-alignment"@),
        !default_direct().contains("toggle-portal-labels"@),
        !default_direct().contains("open-saves"@),
        !default_direct().contains("rename-layer"@),
        !default_direct().contains("peel-layer"@),
        !default_direct().contains("merge-layer"@),
{
    assert(!default_direct().contains("export-svg"@)) by {
        reveal_strlit("export-svg");
        reveal_strlit("quit");
        assert("export-svg"@.len() != "quit"@.len());
        reveal_strlit("save-state");
        assert("export-svg"@[0] != "save-state"@[0]);
        reveal_strlit("restore-state");
        assert("export-svg"@.len() != "restore-state"@.len());
        reveal_strlit("pan-map -1 0");
        assert("export-svg"@.len() != "pan-map -1 0"@.len());
        reveal_strlit("pan-map 1 0");
        assert("export-svg"@.len() != "pan-map 1 0"@.len());
        reveal_strlit("pan-map 0 -1");
        assert("export-svg"@.len() != "pan-map 0 -1"@.len());
        reveal_strlit("pan-map 0 1");
        assert("export-svg"@.len() != "pan-map 0 1"@.len());
        reveal_strlit("zoom-map in");
        assert("export-svg"@.len() != "zoom-map in"@.len());
        reveal_strlit("zoom-map out");
        assert("export-svg"@.len() != "zoom-map out"@.len());
        reveal_strlit("zoom-map reset");
        assert("export-svg"@.len() != "zoom-map reset"@.len());
        reveal_strlit("select-room next");
        assert("export-svg"@.len() != "select-room next"@.len());
        reveal_strlit("select-room prev");
        assert("export-svg"@.len() != "select-room prev"@.len());
        reveal_strlit("center-map");
        assert("export-svg"@[0] != "center-map"@[0]);
        reveal_strlit("toggle-focus");
        assert("export-svg"@.len() != "toggle-focus"@.len());
        reveal_strlit("cycle-layout reverse");
        assert("export-svg"@.len() != "cycle-layout reverse"@.len());
        reveal_strlit("nudge-room -1 0");
        assert("export-svg"@.len() != "nudge-room -1 0"@.len());
        reveal_strlit("nudge-room 1 0");
        assert("export-svg"@.len() != "nudge-room 1 0"@.len());
        reveal_strlit("nudge-room 0 -1");
        assert("export-svg"@.len() != "nudge-room 0 -1"@.len());
        reveal_strlit("nudge-room 0 1");
        assert("export-svg"@.len() != "nudge-room 0 1"@.len());
        lemma_not_default_direct("export-svg"@);
    }
    assert(!default_direct().contains("export-dot"@)) by {
        reveal_strlit("export-dot");
        reveal_strlit("quit");
        assert("export-dot"@.len() != "quit"@.len());
        reveal_strlit("save-state");
        assert("export-dot"@[0] != "save-state"@[0]);
        reveal_strlit("restore-state");
        assert("export-dot"@.len() != "restore-state"@.len());
        reveal_strlit("pan-map -1 0");
        assert("export-dot"@.len() != "pan-map -1 0"@.len());
        reveal_strlit("pan-map 1 0");
        assert("export-dot"@.len() != "pan-map 1 0"@.len());
        reveal_strlit("pan-map 0 -1");
        assert("export-dot"@.len() != "pan-map 0 -1"@.len());
        reveal_strlit("pan-map 0 1");
        assert("export-dot"@.len() != "pan-map 0 1"@.len());
        reveal_strlit("zoom-map in");
        assert("export-dot"@.len() != "zoom-map in"@.len());
        reveal_strlit("zoom-map out");
        assert("export-dot"@.len() != "zoom-map out"@.len());
        reveal_strlit("zoom-map reset");
        assert("export-dot"@.len() != "zoom-map reset"@.len());
        reveal_strlit("select-room next");
        assert("export-dot"@.len() != "select-room next"@.len());
        reveal_strlit("select-room prev");
        assert("export-dot"@.len() != "select-room prev"@.len());
        reveal_strlit("center-map");
        assert("export-dot"@[0] != "center-map"@[0]);
        reveal_strlit("toggle-focus");
        assert("export-dot"@.len() != "toggle-focus"@.len());
        reveal_strlit("cycle-layout reverse");
        assert("export-dot"@.len() != "cycle-layout reverse"@.len());
        reveal_strlit("nudge-room -1 0");
        assert("export-dot"@.len() != "nudge-room -1 0"@.len());
        reveal_strlit("nudge-room 1 0");
        assert("export-dot"@.len() != "nudge-room 1 0"@.len());
        reveal_strlit("nudge-room 0 -1");
        assert("export-dot"@.len() != "nudge-room 0 -1"@.len());
        reveal_strlit("nudge-room 0 1");
        assert("export-dot"@.len() != "nudge-room 0 1"@.len());
        lemma_not_default_direct("export-dot"@);
    }
    assert(!default_direct().contains("export-dump"@)) by {
        reveal_strlit("export-dump");
        reveal_strlit("quit");
        assert("export-dump"@.len() != "quit"@.len());
        reveal_strlit("save-state");
        assert("export-dump"@.len() != "save-state"@.len());
        reveal_strlit("restore-state");
        assert("export-dump"@.len() != "restore-state"@.len());
        reveal_strlit("pan-map -1 0");
        assert("export-dump"@.len() != "pan-map -1 0"@.len());
        reveal_strlit("pan-map 1 0");
        assert("export-dump"@[0] != "pan-map 1 0"@[0]);
        reveal_strlit("pan-map 0 -1");
        assert("export-dump"@.len() != "pan-map 0 -1"@.len());
        reveal_strlit("pan-map 0 1");
        assert("export-dump"@[0] != "pan-map 0 1"@[0]);
        reveal_strlit("zoom-map in");
        assert("export-dump"@[0] != "zoom-map in"@[0]);
        reveal_strlit("zoom-map out");
        assert("export-dump"@.len() != "zoom-map out"@.len());
        reveal_strlit("zoom-map reset");
        assert("export-dump"@.len() != "zoom-map reset"@.len());
        reveal_strlit("select-room next");
        assert("export-dump"@.len() != "select-room next"@.len());
        reveal_strlit("select-room prev");
        assert("export-dump"@.len() != "select-room prev"@.len());
        reveal_strlit("center-map");
        assert("export-dump"@.len() != "center-map"@.len());
        reveal_strlit("toggle-focus");
        assert("export-dump"@.len() != "toggle-focus"@.len());
        reveal_strlit("cycle-layout reverse");
        assert("export-dump"@.len() != "cycle-layout reverse"@.len());
        reveal_strlit("nudge-room -1 0");
        assert("export-dump"@.len() != "nudge-room -1 0"@.len());
        reveal_strlit("nudge-room 1 0");
        assert("export-dump"@.len() != "nudge-room 1 0"@.len());
        reveal_strlit("nudge-room 0 -1");
        assert("export-dump"@.len() != "nudge-room 0 -1"@.len());
        reveal_strlit("nudge-room 0 1");
        assert("export-dump"@.len() != "nudge-room 0 1"@.len());
        lemma_not_default_direct("export-dump"@);
    }
    assert(!default_direct().contains("cycle-layout"@)) by {
        reveal_strlit("cycle-layout");
        reveal_strlit("quit");
        assert("cycle-layout"@.len() != "quit"@.len());
        reveal_strlit("save-state");
        assert("cycle-layout"@.len() != "save-state"@.len());
        reveal_strlit("restore-state");
        assert("cycle-layout"@.len() != "restore-state"@.len());
        reveal_strlit("pan-map -1 0");
        assert("cycle-layout"@[0] != "pan-map -1 0"@[0]);
        reveal_strlit("pan-map 1 0");
        assert("cycle-layout"@.len() != "pan-map 1 0"@.len());
        reveal_strlit("pan-map 0 -1");
        assert("cycle-layout"@[0] != "pan-map 0 -1"@[0]);
        reveal_strlit("pan-map 0 1");
        assert("cycle-layout"@.len() != "pan-map 0 1"@.len());
        reveal_strlit("zoom-map in");
        assert("cycle-layout"@.len() != "zoom-map in"@.len());
        reveal_strlit("zoom-map out");
        assert("cycle-layout"@[0] != "zoom-map out"@[0]);
        reveal_strlit("zoom-map reset");
        assert("cycle-layout"@.len() != "zoom-map reset"@.len());
        reveal_strlit("select-room next");
        assert("cycle-layout"@.len() != "select-room next"@.len());
        reveal_strlit("select-room prev");
        assert("cycle-layout"@.len() != "select-room prev"@.len());
        reveal_strlit("center-map");
        assert("cycle-layout"@.len() != "center-map"@.len());
        reveal_strlit("toggle-focus");
        assert("cycle-layout"@[0] != "toggle-focus"@[0]);
        reveal_strlit("cycle-layout reverse");
        assert("cycle-layout"@.len() != "cycle-layout reverse"@.len());
        reveal_strlit("nudge-room -1 0");
        assert("cycle-layout"@.len() != "nudge-room -1 0"@.len());
        reveal_strlit("nudge-room 1 0");
        assert("cycle-layout"@.len() != "nudge-room 1 0"@.len());
        reveal_strlit("nudge-room 0 -1");
        assert("cycle-layout"@.len() != "nudge-room 0 -1"@.len());
        reveal_strlit("nudge-room 0 1");
        assert("cycle-layout"@.len() != "nudge-room 0 1"@.len());
        lemma_not_default_direct("cycle-layout"@);
    }
    assert(!default_direct().contains("tidy-map"@)) by {
        reveal_strlit("tidy-map");
        reveal_strlit("quit");
        assert("tidy-map"@.len() != "quit"@.len());
        reveal_strlit("save-state");
        assert("tidy-map"@.len() != "save-state"@.len());
        reveal_strlit("restore-state");
        assert("tidy-map"@.len() != "restore-state"@.len());
        reveal_strlit("pan-map -1 0");
        assert("tidy-map"@.len() != "pan-map -1 0"@.len());
        reveal_strlit("pan-map 1 0");
        assert("tidy-map"@.len() != "pan-map 1 0"@.len());
        reveal_strlit("pan-map 0 -1");
        assert("tidy-map"@.len() != "pan-map 0 -1"@.len());
        reveal_strlit("pan-map 0 1");
        assert("tidy-map"@.len() != "pan-map 0 1"@.len());
        reveal_strlit("zoom-map in");
        assert("tidy-map"@.len() != "zoom-map in"@.len());
        reveal_strlit("zoom-map out");
        assert("tidy-map"@.len() != "zoom-map out"@.len());
        reveal_strlit("zoom-map reset");
        assert("tidy-map"@.len() != "zoom-map reset"@.len());
        reveal_strlit("select-room next");
        assert("tidy-map"@.len() != "select-room next"@.len());
        reveal_strlit("select-room prev");
        assert("tidy-map"@.len() != "select-room prev"@.len());
        reveal_strlit("center-map");
        assert("tidy-map"@.len() != "center-map"@.len());
        reveal_strlit("toggle-focus");
        assert("tidy-map"@.len() != "toggle-focus"@.len());
        reveal_strlit("cycle-layout reverse");
        assert("tidy-map"@.len() != "cycle-layout reverse"@.len());
        reveal_strlit("nudge-room -1 0");
        assert("tidy-map"@.len() != "nudge-room -1 0"@.len());
        reveal_strlit("nudge-room 1 0");
        assert("tidy-map"@.len() != "nudge-room 1 0"@.len());
        reveal_strlit("nudge-room 0 -1");
        assert("tidy-map"@.len() != "nudge-room 0 -1"@.len());
        reveal_strlit("nudge-room 0 1");
        assert("tidy-map"@.len() != "nudge-room 0 1"@.len());
        lemma_not_default_direct("tidy-map"@);
    }
    assert(!default_direct().contains("animate-tidy"@)) by {
        reveal_strlit("animate-tidy");
        reveal_strlit("quit");
        assert("animate-tidy"@.len() != "quit"@.len());
        reveal_strlit("save-state");
        assert("animate-tidy"@.len() != "save-state"@.len());
        reveal_strlit("restore-state");
        assert("animate-tidy"@.len() != "restore-state"@.len());
        reveal_strlit("pan-map -1 0");
        assert("animate-tidy"@[0] != "pan-map -1 0"@[0]);
        reveal_strlit("pan-map 1 0");
        assert("animate-tidy"@.len() != "pan-map 1 0"@.len());
        reveal_strlit("pan-map 0 -1");
        assert("animate-tidy"@[0] != "pan-map 0 -1"@[0]);
        reveal_strlit("pan-map 0 1");
        assert("animate-tidy"@.len() != "pan-map 0 1"@.len());
        reveal_strlit("zoom-map in");
        assert("animate-tidy"@.len() != "zoom-map in"@.len());
        reveal_strlit("zoom-map out");
        assert("animate-tidy"@[0] != "zoom-map out"@[0]);
        reveal_strlit("zoom-map reset");
        assert("animate-tidy"@.len() != "zoom-map reset"@.len());
        reveal_strlit("select-room next");
        assert("animate-tidy"@.len() != "select-room next"@.len());
        reveal_strlit("select-room prev");
        assert("animate-tidy"@.len() != "select-room prev"@.len());
        reveal_strlit("center-map");
        assert("animate-tidy"@.len() != "center-map"@.len());
        reveal_strlit("toggle-focus");
        assert("animate-tidy"@[0] != "toggle-focus"@[0]);
        reveal_strlit("cycle-layout reverse");
        assert("animate-tidy"@.len() != "cycle-layout reverse"@.len());
        reveal_strlit("nudge-room -1 0");
        assert("animate-tidy"@.len() != "nudge-room -1 0"@.len());
        reveal_strlit("nudge-room 1 0");
        assert("animate-tidy"@.len() != "nudge-room 1 0"@.len());
        reveal_strlit("nudge-room 0 -1");
        assert("animate-tidy"@.len() != "nudge-room 0 -1"@.len());
        reveal_strlit("nudge-room 0 1");
        assert("animate-tidy"@.len() != "nudge-room 0 1"@.len());
        lemma_not_default_direct("animate-tidy"@);
    }
    assert(!default_direct().contains("toggle-alignment"@)) by {
        reveal_strlit("toggle-alignment");
        reveal_strlit("quit");
        assert("toggle-alignment"@.len() != "quit"@.len());
        reveal_strlit("save-state");
        assert("toggle-alignment"@.len() != "save-state"@.len());
        reveal_strlit("restore-state");
        assert("toggle-alignment"@.len() != "restore-state"@.len());
        reveal_strlit("pan-map -1 0");
        assert("toggle-alignment"@.len() != "pan-map -1 0"@.len());
        reveal_strlit("pan-map 1 0");
        assert("toggle-alignment"@.len() != "pan-map 1 0"@.len());
        reveal_strlit("pan-map 0 -1");
        assert("toggle-alignment"@.len() != "pan-map 0 -1"@.len());
        reveal_strlit("pan-map 0 1");
        assert("toggle-alignment"@.len() != "pan-map 0 1"@.len());
        reveal_strlit("zoom-map in");
        assert("toggle-alignment"@.len() != "zoom-map in"@.len());
        reveal_strlit("zoom-map out");
        assert("toggle-alignment"@.len() != "zoom-map out"@.len());
        reveal_strlit("zoom-map reset");
        assert("toggle-alignment"@.len() != "zoom-map reset"@.len());
        reveal_strlit("select-room next");
        assert("toggle-alignment"@[0] != "select-room next"@[0]);
        reveal_strlit("select-room prev");
        assert("toggle-alignment"@[0] != "select-room prev"@[0]);
        reveal_strlit("center-map");
        assert("toggle-alignment"@.len() != "center-map"@.len());
        reveal_strlit("toggle-focus");
        assert("toggle-alignment"@.len() != "toggle-focus"@.len());
        reveal_strlit("cycle-layout reverse");
        assert("toggle-alignment"@.len() != "cycle-layout reverse"@.len());
        reveal_strlit("nudge-room -1 0");
        assert("toggle-alignment"@.len() != "nudge-room -1 0"@.len());
        reveal_strlit("nudge-room 1 0");
        assert("toggle-alignment"@.len() != "nudge-room 1 0"@.len());
        reveal_strlit("nudge-room 0 -1");
        assert("toggle-alignment"@.len() != "nudge-room 0 -1"@.len());
        reveal_strlit("nudge-room 0 1");
        assert("toggle-alignment"@.len() != "nudge-room 0 1"@.len());
        lemma_not_default_direct("toggle-alignment"@);
    }
    assert(!default_direct().contains("toggle-portal-labels"@)) by {
        reveal_strlit("toggle-portal-labels");
        reveal_strlit("quit");
        assert("toggle-portal-labels"@.len() != "quit"@.len());
        reveal_strlit("save-state");
        assert("toggle-portal-labels"@.len() != "save-state"@.len());
        reveal_strlit("restore-state");
        assert("toggle-portal-labels"@.len() != "restore-state"@.len());
        reveal_strlit("pan-map -1 0");
        assert("toggle-portal-labels"@.len() != "pan-map -1 0"@.len());
        reveal_strlit("pan-map 1 0");
        assert("toggle-portal-labels"@.len() != "pan-map 1 0"@.len());
        reveal_strlit("pan-map 0 -1");
        assert("toggle-portal-labels"@.len() != "pan-map 0 -1"@.len());
        reveal_strlit("pan-map 0 1");
        assert("toggle-portal-labels"@.len() != "pan-map 0 1"@.len());
        reveal_strlit("zoom-map in");
        assert("toggle-portal-labels"@.len() != "zoom-map in"@.len());
        reveal_strlit("zoom-map out");
        assert("toggle-portal-labels"@.len() != "zoom-map out"@.len());
        reveal_strlit("zoom-map reset");
        assert("toggle-portal-labels"@.len() != "zoom-map reset"@.len());
        reveal_strlit("select-room next");
        assert("toggle-portal-labels"@.len() != "select-room next"@.len());
        reveal_strlit("select-room prev");
        assert("toggle-portal-labels"@.len() != "select-room prev"@.len());
        reveal_strlit("center-map");
        assert("toggle-portal-labels"@.len() != "center-map"@.len());
        reveal_strlit("toggle-focus");
        assert("toggle-portal-labels"@.len() != "toggle-focus"@.len());
        reveal_strlit("cycle-layout reverse");
        assert("toggle-portal-labels"@[0] != "cycle-layout reverse"@[0]);
        reveal_strlit("nudge-room -1 0");
        assert("toggle-portal-labels"@.len() != "nudge-room -1 0"@.len());
        reveal_strlit("nudge-room 1 0");
        assert("toggle-portal-labels"@.len() != "nudge-room 1 0"@.len());
        reveal_strlit("nudge-room 0 -1");
        assert("toggle-portal-labels"@.len() != "nudge-room 0 -1"@.len());
        reveal_strlit("nudge-room 0 1");
        assert("toggle-portal-labels"@.len() != "nudge-room 0 1"@.len());
        lemma_not_default_direct("toggle-portal-labels"@);
    }
    assert(!default_direct().contains("open-saves"@)) by {
        reveal_strlit("open-saves");
        reveal_strlit("quit");
        assert("open-saves"@.len() != "quit"@.len());
        reveal_strlit("save-state");
        assert("open-saves"@[0] != "save-state"@[0]);
        reveal_strlit("restore-state");
        assert("open-saves"@.len() != "restore-state"@.len());
        reveal_strlit("pan-map -1 0");
        assert("open-saves"@.len() != "pan-map -1 0"@.len());
        reveal_strlit("pan-map 1 0");
        assert("open-saves"@.len() != "pan-map 1 0"@.len());
        reveal_strlit("pan-map 0 -1");
        assert("open-saves"@.len() != "pan-map 0 -1"@.len());
        reveal_strlit("pan-map 0 1");
        assert("open-saves"@.len() != "pan-map 0 1"@.len());
        reveal_strlit("zoom-map in");
        assert("open-saves"@.len() != "zoom-map in"@.len());
        reveal_strlit("zoom-map out");
        assert("open-saves"@.len() != "zoom-map out"@.len());
        reveal_strlit("zoom-map reset");
        assert("open-saves"@.len() != "zoom-map reset"@.len());
        reveal_strlit("select-room next");
        assert("open-saves"@.len() != "select-room next"@.len());
        reveal_strlit("select-room prev");
        assert("open-saves"@.len() != "select-room prev"@.len());
        reveal_strlit("center-map");
        assert("open-saves"@[0] != "center-map"@[0]);
        reveal_strlit("toggle-focus");
        assert("open-saves"@.len() != "toggle-focus"@.len());
        reveal_strlit("cycle-layout reverse");
        assert("open-saves"@.len() != "cycle-layout reverse"@.len());
        reveal_strlit("nudge-room -1 0");
        assert("open-saves"@.len() != "nudge-room -1 0"@.len());
        reveal_strlit("nudge-room 1 0");
        assert("open-saves"@.len() != "nudge-room 1 0"@.len());
        reveal_strlit("nudge-room 0 -1");
        assert("open-saves"@.len() != "nudge-room 0 -1"@.len());
        reveal_strlit("nudge-room 0 1");
        assert("open-saves"@.len() != "nudge-room 0 1"@.len());
        lemma_not_default_direct("open-saves"@);
    }
    assert(!default_direct().contains("rename-layer"@)) by {
        reveal_strlit("rename-layer");
        reveal_strlit("quit");
        assert("rename-layer"@.len() != "quit"@.len());
        reveal_strlit("save-state");
        assert("rename-layer"@.len() != "save-state"@.len());
        reveal_strlit("restore-state");
        assert("rename-layer"@.len() != "restore-state"@.len());
        reveal_strlit("pan-map -1 0");
        assert("rename-layer"@[0] != "pan-map -1 0"@[0]);
        reveal_strlit("pan-map 1 0");
        assert("rename-layer"@.len() != "pan-map 1 0"@.len());
        reveal_strlit("pan-map 0 -1");
        assert("rename-layer"@[0] != "pan-map 0 -1"@[0]);
        reveal_strlit("pan-map 0 1");
        assert("rename-layer"@.len() != "pan-map 0 1"@.len());
        reveal_strlit("zoom-map in");
        assert("rename-layer"@.len() != "zoom-map in"@.len());
        reveal_strlit("zoom-map out");
        assert("rename-layer"@[0] != "zoom-map out"@[0]);
        reveal_strlit("zoom-map reset");
        assert("rename-layer"@.len() != "zoom-map reset"@.len());
        reveal_strlit("select-room next");
        assert("rename-layer"@.len() != "select-room next"@.len());
        reveal_strlit("select-room prev");
        assert("rename-layer"@.len() != "select-room prev"@.len());
        reveal_strlit("center-map");
        assert("rename-layer"@.len() != "center-map"@.len());
        reveal_strlit("toggle-focus");
        assert("rename-layer"@[0] != "toggle-focus"@[0]);
        reveal_strlit("cycle-layout reverse");
        assert("rename-layer"@.len() != "cycle-layout reverse"@.len());
        reveal_strlit("nudge-room -1 0");
        assert("rename-layer"@.len() != "nudge-room -1 0"@.len());
        reveal_strlit("nudge-room 1 0");
        assert("rename-layer"@.len() != "nudge-room 1 0"@.len());
        reveal_strlit("nudge-room 0 -1");
        assert("rename-layer"@.len() != "nudge-room 0 -1"@.len());
        reveal_strlit("nudge-room 0 1");
        assert("rename-layer"@.len() != "nudge-room 0 1"@.len());
        lemma_not_default_direct("rename-layer"@);
    }
    assert(!default_direct().contains("peel-layer"@)) by {
        reveal_strlit("peel-layer");
        reveal_strlit("quit");
        assert("peel-layer"@.len() != "quit"@.len());
        reveal_strlit("save-state");
        assert("peel-layer"@[0] != "save-state"@[0]);
        reveal_strlit("restore-state");
        assert("peel-layer"@.len() != "restore-state"@.len());
        reveal_strlit("pan-map -1 0");
        assert("peel-layer"@.len() != "pan-map -1 0"@.len());
        reveal_strlit("pan-map 1 0");
        assert("peel-layer"@.len() != "pan-map 1 0"@.len());
        reveal_strlit("pan-map 0 -1");
        assert("peel-layer"@.len() != "pan-map 0 -1"@.len());
        reveal_strlit("pan-map 0 1");
        assert("peel-layer"@.len() != "pan-map 0 1"@.len());
        reveal_strlit("zoom-map in");
        assert("peel-layer"@.len() != "zoom-map in"@.len());
        reveal_strlit("zoom-map out");
        assert("peel-layer"@.len() != "zoom-map out"@.len());
        reveal_strlit("zoom-map reset");
        assert("peel-layer"@.len() != "zoom-map reset"@.len());
        reveal_strlit("select-room next");
        assert("peel-layer"@.len() != "select-room next"@.len());
        reveal_strlit("select-room prev");
        assert("peel-layer"@.len() != "select-room prev"@.len());
        reveal_strlit("center-map");
        assert("peel-layer"@[0] != "center-map"@[0]);
        reveal_strlit("toggle-focus");
        assert("peel-layer"@.len() != "toggle-focus"@.len());
        reveal_strlit("cycle-layout reverse");
        assert("peel-layer"@.len() != "cycle-layout reverse"@.len());
        reveal_strlit("nudge-room -1 0");
        assert("peel-layer"@.len() != "nudge-room -1 0"@.len());
        reveal_strlit("nudge-room 1 0");
        assert("peel-layer"@.len() != "nudge-room 1 0"@.len());
        reveal_strlit("nudge-room 0 -1");
        assert("peel-layer"@.len() != "nudge-room 0 -1"@.len());
        reveal_strlit("nudge-room 0 1");
        assert("peel-layer"@.len() != "nudge-room 0 1"@.len());
        lemma_not_default_direct("peel-layer"@);
    }
    assert(!default_direct().contains("merge-layer"@)) by {
        reveal_strlit("merge-layer");
        reveal_strlit("quit");
        assert("merge-layer"@.len() != "quit"@.len());
        reveal_strlit("save-state");
        assert("merge-layer"@.len() != "save-state"@.len());
        reveal_strlit("restore-state");
        assert("merge-layer"@.len() != "restore-state"@.len());
        reveal_strlit("pan-map -1 0");
        assert("merge-layer"@.len() != "pan-map -1 0"@.len());
        reveal_strlit("pan-map 1 0");
        assert("merge-layer"@[0] != "pan-map 1 0"@[0]);
        reveal_strlit("pan-map 0 -1");
        assert("merge-layer"@.len() != "pan-map 0 -1"@.len());
        reveal_strlit("pan-map 0 1");
        assert("merge-layer"@[0] != "pan-map 0 1"@[0]);
        reveal_strlit("zoom-map in");
        assert("merge-layer"@[0] != "zoom-map in"@[0]);
        reveal_strlit("zoom-map out");
        assert("merge-layer"@.len() != "zoom-map out"@.len());
        reveal_strlit("zoom-map reset");
        assert("merge-layer"@.len() != "zoom-map reset"@.len());
        reveal_strlit("select-room next");
        assert("merge-layer"@.len() != "select-room next"@.len());
        reveal_strlit("select-room prev");
        assert("merge-layer"@.len() != "select-room prev"@.len());
        reveal_strlit("center-map");
        assert("merge-layer"@.len() != "center-map"@.len());
        reveal_strlit("toggle-focus");
        assert("merge-layer"@.len() != "toggle-focus"@.len());
        reveal_strlit("cycle-layout reverse");
        assert("merge-layer"@.len() != "cycle-layout reverse"@.len());
        reveal_strlit("nudge-room -1 0");
        assert("merge-layer"@.len() != "nudge-room -1 0"@.len());
        reveal_strlit("nudge-room 1 0");
        assert("merge-layer"@.len() != "nudge-room 1 0"@.len());
        reveal_strlit("nudge-room 0 -1");
        assert("merge-layer"@.len() != "nudge-room 0 -1"@.len());
        reveal_strlit("nudge-room 0 1");
        assert("merge-layer"@.len() != "nudge-room 0 1"@.len());
        lemma_not_default_direct("merge-layer"@);
    }
}

/// Every built-in binding of a direct command is a plain keystroke, without
/// Ctrl or Shift, save for `save-state` and `restore-state`, which use Ctrl on
/// purpose: direct commands are reachable with unmodified keys.
pub proof fn lemma_default_direct_bindings_unmodified()
    ensures
        forall|i: int|
            0 <= i < DEFAULT_BINDING_COUNT
                && default_direct().contains(#[trigger] default_binding(i).1)
                && first_word_or_empty(default_binding(i).1) != "save-state"@
                && first_word_or_empty(default_binding(i).1) != "restore-state"@
                ==> !default_binding(i).0.ctrl && !default_binding(i).0.shift,
{
    lemma_ctrl_commands_own_words();
    lemma_modified_commands_not_direct();
    assert forall|i: int|
        0 <= i < DEFAULT_BINDING_COUNT
            && default_direct().contains(#[trigger] default_binding(i).1)
            && first_word_or_empty(default_binding(i).1) != "save-state"@
            && first_word_or_empty(default_binding(i).1) != "restore-state"@
        implies !default_binding(i).0.ctrl && !default_binding(i).0.shift by {
        if i == 0 {
        } else if i == 1 {
        } else if i == 2 {
        } else if i == 3 {
        } else if i == 4 {
        } else if i == 5 {
        } else if i == 6 {
        } else if i == 7 {
        } else if i == 8 {
        } else if i == 9 {
        } else if i == 10 {
        } else if i == 11 {
        } else if i == 12 {
        } else if i == 13 {
        } else if i == 14 {
        } else if i == 15 {
        } else if i == 16 {
        } else if i == 17 {
        } else if i == 18 {
        } else if i == 19 {
        } else if i == 20 {
        } else if i == 21 {
        } else if i == 22 {
        } else if i == 23 {
        } else if i == 24 {
        } else if i == 25 {
        } else if i == 26 {
        } else if i == 27 {
        } else if i == 28 {
        } else if i == 29 {
        } else if i == 30 {
        } else if i == 31 {
        } else if i == 32 {
        } else if i == 33 {
        } else if i == 34 {
        } else if i == 35 {
        } else if i == 36 {
        } else if i == 37 {
        } else if i == 38 {
        } else if i == 39 {
        } else if i == 40 {
        } else if i == 41 {
        } else if i == 42 {
        } else if i == 43 {
        } else if i == 44 {
        } else if i == 45 {
        } else if i == 46 {
        } else if i == 47 {
        } else if i == 48 {
        } else if i == 49 {
        } else if i == 50 {
        } else if i == 51 {
        } else if i == 52 {
        } else if i == 53 {
        } else if i == 54 {
        } else if i == 55 {
        } else if i == 56 {
        } else if i == 57 {
        } else if i == 58 {
        } else if i == 59 {
        } else if i == 60 {
        } else if i == 61 {
        } else if i == 62 {
        }
    }
}

} // verus!
