//! The bottom hint bar: for each command of a priority list that is directly
//! reachable in the current layer, its primary key and a short label; and the
//! help row built around it, everyday and during tidy playback.

use vstd::prelude::*;
use vstd::string::*;
use crate::keymap::{BindingView, Context, HotkeyLayout, KeyMap, lookup_spec, primary_spec, strs};
use crate::keys::{KeySpec, label_spec};
use crate::text::{decimal, first_word_or_empty, join_with, prefix_of, push_char, push_decimal, push_str, string_of};

verus! {

/// The short label of a command string: its hyphens become spaces
/// (`zoom-map in` is shown as `zoom map in`).
pub open spec fn hint_label_spec(cmd: Seq<char>) -> Seq<char> {
    cmd.map_values(|c: char| if c == '-' { ' ' } else { c })
}

/// Short hint-bar label for a command string: `zoom-map in` → `zoom map in`.
pub fn hint_label(cmd_str: &str) -> (r: String)
    ensures
        r@ == hint_label_spec(cmd_str@),
{
    let n = cmd_str.unicode_len();
    let mut out = String::new();
    let mut i: usize = 0;
    while i < n
        invariant
            n == cmd_str@.len(),
            i <= n,
            out@ == hint_label_spec(cmd_str@.take(i as int)),
        decreases n - i,
    {
        let c = cmd_str.get_char(i);
        push_char(&mut out, if c == '-' { ' ' } else { c });
        assert(hint_label_spec(cmd_str@.take(i + 1)) =~= hint_label_spec(cmd_str@.take(i as int)).push(
            if c == '-' { ' ' } else { c },
        ));
        i = i + 1;
    }
    assert(cmd_str@.take(n as int) =~= cmd_str@);
    out
}

/// The hint for `cmd` in layer `ctx`, if it gets one: the command must be
/// direct, its first word must have a primary key, and pressing that key in
/// `ctx` must run exactly `cmd`. The hint reads `<key label>: <short label>`.
pub open spec fn hint_entry(b: Seq<BindingView>, direct: Seq<Seq<char>>, ctx: Context, cmd: Seq<char>) -> Option<
    Seq<char>,
> {
    if !direct.contains(cmd) {
        None
    } else {
        match primary_spec(b, first_word_or_empty(cmd)) {
            None => None,
            Some(k) => if lookup_spec(b, k, ctx) == Some(cmd) {
                Some(label_spec(k) + ": "@ + hint_label_spec(cmd))
            } else {
                None
            },
        }
    }
}

/// The hints of the commands of `priority` that get one, in priority order.
pub open spec fn hint_entries(
    b: Seq<BindingView>,
    direct: Seq<Seq<char>>,
    ctx: Context,
    priority: Seq<Seq<char>>,
) -> Seq<Seq<char>>
    decreases priority.len(),
{
    if priority.len() == 0 {
        Seq::empty()
    } else {
        let r = hint_entries(b, direct, ctx, priority.drop_last());
        match hint_entry(b, direct, ctx, priority.last()) {
            Some(e) => r.push(e),
            None => r,
        }
    }
}

/// The hint bar: the hints joined with ` | `, cut to `width` characters with
/// a trailing `…` when longer, and empty when `width` is zero.
pub open spec fn hint_bar_spec(
    b: Seq<BindingView>,
    direct: Seq<Seq<char>>,
    ctx: Context,
    priority: Seq<Seq<char>>,
    width: nat,
) -> Seq<char> {
    let joined = join_with(hint_entries(b, direct, ctx, priority), " | "@);
    if width == 0 {
        Seq::empty()
    } else if joined.len() <= width {
        joined
    } else {
        joined.take(width - 1) + "…"@
    }
}

proof fn lemma_hint_entries_len(b: Seq<BindingView>, direct: Seq<Seq<char>>, ctx: Context, priority: Seq<Seq<char>>)
    ensures
        hint_entries(b, direct, ctx, priority).len() <= priority.len(),
    decreases priority.len(),
{
    if priority.len() > 0 {
        lemma_hint_entries_len(b, direct, ctx, priority.drop_last());
    }
}

/// The command strings the hint bar offers while the story pane has focus.
pub fn game_hints() -> (v: Vec<&'static str>)
    ensures
        v@.map_values(|s: &str| s@) == seq!["toggle-focus"@, "save-state"@, "restore-state"@],
{
    let v = vec!["toggle-focus", "save-state", "restore-state"];
    assert(v@.map_values(|s: &str| s@) =~= seq!["toggle-focus"@, "save-state"@, "restore-state"@]);
    v
}

/// The command strings the hint bar offers while the map pane has focus.
pub fn map_hints() -> (v: Vec<&'static str>)
    ensures
        v@.map_values(|s: &str| s@)
            == seq!["toggle-focus"@, "pan-map -1 0"@, "zoom-map in"@, "select-room next"@, "center-map"@],
{
    let v = vec!["toggle-focus", "pan-map -1 0", "zoom-map in", "select-room next", "center-map"];
    assert(v@.map_values(|s: &str| s@)
        =~= seq!["toggle-focus"@, "pan-map -1 0"@, "zoom-map in"@, "select-room next"@, "center-map"@]);
    v
}

/// The command strings the hint bar offers during the tidy animation.
pub fn anim_hints() -> (v: Vec<&'static str>)
    ensures
        v@.map_values(|s: &str| s@)
            == seq!["anim-step forward"@, "anim-play"@, "anim-exit"@, "pan-map -1 0"@, "zoom-map in"@],
{
    let v = vec!["anim-step forward", "anim-play", "anim-exit", "pan-map -1 0", "zoom-map in"];
    assert(v@.map_values(|s: &str| s@)
        =~= seq!["anim-step forward"@, "anim-play"@, "anim-exit"@, "pan-map -1 0"@, "zoom-map in"@]);
    v
}

/// The hint for one command, computed.
fn hint_for(keymap: &KeyMap, layout: &HotkeyLayout, ctx: Context, cmd: &str) -> (r: Option<String>)
    ensures
        match r {
            Some(s) => hint_entry(keymap@, strs(layout.direct@), ctx, cmd@) == Some(s@),
            None => hint_entry(keymap@, strs(layout.direct@), ctx, cmd@) is None,
        },
{
    if !layout.is_direct_name(cmd) {
        return None;
    }
    let name = crate::text::first_word_of(cmd);
    let k = match keymap.primary_key(name.as_str()) {
        Some(k) => k,
        None => return None,
    };
    match keymap.lookup(&k, ctx) {
        Some(found) => {
            if !crate::text::str_eq(found, cmd) {
                return None;
            }
        },
        None => return None,
    }
    let mut s = k.label();
    push_str(&mut s, ": ");
    let label = hint_label(cmd);
    push_str(&mut s, label.as_str());
    Some(s)
}

/// Build the hint bar for layer `ctx` from the live keymap and layout.
///
/// A command of `priority` is shown only when it is direct (not dialog-only),
/// its first word has a primary key, and pressing that key in `ctx` runs
/// exactly that command; it renders as `<key label>: <short label>`, and the
/// entries are joined with ` | `. A bar longer than `width` characters is cut
/// and ends in `…`.
pub fn hint_bar(keymap: &KeyMap, layout: &HotkeyLayout, ctx: Context, priority: &[&str], width: usize) -> (r: String)
    ensures
        r@ == hint_bar_spec(keymap@, strs(layout.direct@), ctx, priority@.map_values(|s: &str| s@), width as nat),
        r@.len() <= width,
{
    let ghost prio = priority@.map_values(|s: &str| s@);
    let ghost direct = strs(layout.direct@);
    let n = priority.len();
    let mut joined = String::new();
    let mut count: usize = 0;
    let mut i: usize = 0;
    assert(prio.take(0) =~= Seq::<Seq<char>>::empty());
    while i < n
        invariant
            n == priority@.len(),
            prio == priority@.map_values(|s: &str| s@),
            direct == strs(layout.direct@),
            i <= n,
            count == hint_entries(keymap@, direct, ctx, prio.take(i as int)).len(),
            joined@ == join_with(hint_entries(keymap@, direct, ctx, prio.take(i as int)), " | "@),
        decreases n - i,
    {
        let cmd: &str = priority[i];
        assert(prio.take(i + 1).drop_last() =~= prio.take(i as int));
        assert(prio.take(i + 1).last() == cmd@);
        let ghost before = hint_entries(keymap@, direct, ctx, prio.take(i as int));
        match hint_for(keymap, layout, ctx, cmd) {
            Some(e) => {
                if count > 0 {
                    push_str(&mut joined, " | ");
                } else {
                    assert(before.push(e@) =~= seq![e@]);
                    assert(joined@ =~= Seq::<char>::empty());
                }
                push_str(&mut joined, e.as_str());
                assert(before.push(e@).drop_last() =~= before);
                if count > 0 {
                    assert(joined@ =~= join_with(before, " | "@) + " | "@ + e@);
                }
                proof {
                    lemma_hint_entries_len(keymap@, direct, ctx, prio.take(i as int));
                }
                count = count + 1;
            },
            None => {},
        }
        i = i + 1;
    }
    assert(prio.take(n as int) =~= prio);
    if width == 0 {
        return String::new();
    }
    let len = joined.unicode_len();
    if len <= width {
        joined
    } else {
        let mut cut = prefix_of(joined.as_str(), width - 1);
        push_str(&mut cut, "…");
        proof {
            reveal_strlit("…");
        }
        cut
    }
}

/// The commands the story pane's hint bar offers.
pub open spec fn game_hint_cmds() -> Seq<Seq<char>> {
    seq!["toggle-focus"@, "save-state"@, "restore-state"@]
}

/// The commands the map pane's hint bar offers.
pub open spec fn map_hint_cmds() -> Seq<Seq<char>> {
    seq!["toggle-focus"@, "pan-map -1 0"@, "zoom-map in"@, "select-room next"@, "center-map"@]
}

/// The help row's everyday text: `<dialog key>: menu`, then, after ` | `, the
/// hint bar of the focused pane, narrowed so that the row keeps within
/// `row_width` characters; the separator is left out when the bar is empty.
pub open spec fn help_row_spec(
    b: Seq<BindingView>,
    direct: Seq<Seq<char>>,
    prefix: KeySpec,
    map_focus: bool,
    row_width: nat,
) -> Seq<char> {
    let leader = label_spec(prefix) + ": menu"@;
    let w: nat = if row_width >= leader.len() + 3 { (row_width - leader.len() - 3) as nat } else { 0 };
    let rest = if map_focus {
        hint_bar_spec(b, direct, Context::MapPane, map_hint_cmds(), w)
    } else {
        hint_bar_spec(b, direct, Context::Global, game_hint_cmds(), w)
    };
    if rest.len() == 0 { leader } else { leader + " | "@ + rest }
}

/// The help row shown when no dialog, prompt, playback or resize mode claims
/// it: the key that opens the command menu, then the focused pane's hints.
pub fn help_row(keymap: &KeyMap, layout: &HotkeyLayout, map_focus: bool, row_width: usize) -> (s: String)
    ensures
        s@ == help_row_spec(keymap@, strs(layout.direct@), layout.prefix, map_focus, row_width as nat),
{
    let mut leader = layout.prefix.label();
    push_str(&mut leader, ": menu");
    let used = leader.unicode_len();
    let w: usize = if row_width >= used && row_width - used >= 3 { row_width - used - 3 } else { 0 };
    let rest = if map_focus {
        let prio = map_hints();
        hint_bar(keymap, layout, Context::MapPane, prio.as_slice(), w)
    } else {
        let prio = game_hints();
        hint_bar(keymap, layout, Context::Global, prio.as_slice(), w)
    };
    if rest.unicode_len() == 0 {
        leader
    } else {
        push_str(&mut leader, " | ");
        push_str(&mut leader, rest.as_str());
        leader
    }
}

/// The commands the hint bar offers during tidy playback.
pub open spec fn anim_hint_cmds() -> Seq<Seq<char>> {
    seq!["anim-step forward"@, "anim-play"@, "anim-exit"@, "pan-map -1 0"@, "zoom-map in"@]
}

/// The status at the head of the help row during tidy playback: the stage
/// number counted from one, the number of stages, the stage's label, and a
/// play mark while it plays.
pub open spec fn playback_status_spec(idx: nat, frames: nat, label: Seq<char>, playing: bool) -> Seq<char> {
    "Tidy ["@ + decimal(idx + 1) + "/"@ + decimal(frames) + "] "@ + label + if playing {
        " ▶"@
    } else {
        Seq::empty()
    }
}

/// The help row during tidy playback: the status, ` | `, and the playback
/// hint bar narrowed so that the row keeps within `row_width` characters.
pub open spec fn playback_row_spec(
    b: Seq<BindingView>,
    direct: Seq<Seq<char>>,
    idx: nat,
    frames: nat,
    label: Seq<char>,
    playing: bool,
    row_width: nat,
) -> Seq<char> {
    let status = playback_status_spec(idx, frames, label, playing);
    let w: nat = if row_width >= status.len() + 3 { (row_width - status.len() - 3) as nat } else { 0 };
    status + " | "@ + hint_bar_spec(b, direct, Context::Anim, anim_hint_cmds(), w)
}

/// The help row while the tidy animation plays back stage `idx` of `frames`;
/// the stage on screen is always one of the stages.
pub fn playback_row(
    keymap: &KeyMap,
    layout: &HotkeyLayout,
    idx: usize,
    frames: usize,
    label: &str,
    playing: bool,
    row_width: usize,
) -> (s: String)
    requires
        idx < frames,
    ensures
        s@ == playback_row_spec(keymap@, strs(layout.direct@), idx as nat, frames as nat, label@, playing, row_width as nat),
{
    let mut status = String::from_str("Tidy [");
    push_decimal(&mut status, (idx + 1) as u64);
    push_str(&mut status, "/");
    push_decimal(&mut status, frames as u64);
    push_str(&mut status, "] ");
    push_str(&mut status, label);
    if playing {
        push_str(&mut status, " ▶");
    }
    let ghost expect = playback_status_spec(idx as nat, frames as nat, label@, playing);
    assert(status@ =~= expect);
    let used = status.unicode_len();
    let w: usize = if row_width >= used && row_width - used >= 3 { row_width - used - 3 } else { 0 };
    let prio = anim_hints();
    let hints = hint_bar(keymap, layout, Context::Anim, prio.as_slice(), w);
    push_str(&mut status, " | ");
    push_str(&mut status, hints.as_str());
    status
}

/// The open prompt, as the help row names it.
#[derive(Clone, Copy, Debug, PartialEq, Eq, Structural)]
pub enum PromptLabel {
    RenameRoom,
    EditNotes,
    RelabelEdge,
    RenameLayer,
    ConfirmDeleteSave,
    ConfigEditPath,
    CreateFile,
}

/// The name the help row gives an open prompt.
pub open spec fn prompt_label_spec(k: PromptLabel) -> Seq<char> {
    match k {
        PromptLabel::RenameRoom => "Rename"@,
        PromptLabel::EditNotes => "Notes"@,
        PromptLabel::RelabelEdge => "Direction"@,
        PromptLabel::RenameLayer => "Layer name"@,
        PromptLabel::ConfirmDeleteSave => "Delete? (y/n)"@,
        PromptLabel::ConfigEditPath => "Config path"@,
        PromptLabel::CreateFile => "Filename"@,
    }
}

fn prompt_label(k: PromptLabel) -> (s: &'static str)
    ensures
        s@ == prompt_label_spec(k),
{
    match k {
        PromptLabel::RenameRoom => "Rename",
        PromptLabel::EditNotes => "Notes",
        PromptLabel::RelabelEdge => "Direction",
        PromptLabel::RenameLayer => "Layer name",
        PromptLabel::ConfirmDeleteSave => "Delete? (y/n)",
        PromptLabel::ConfigEditPath => "Config path",
        PromptLabel::CreateFile => "Filename",
    }
}

/// The boundary that resize mode moves.
#[derive(Clone, Copy, Debug, PartialEq, Eq, Structural)]
pub enum ResizeTarget {
    StoryMap,
    InvDock,
}

/// Tidy playback as the help row shows it: the stage on screen (counted from
/// zero), the number of stages, the stage's label, and whether it plays.
#[derive(Clone, Debug)]
pub struct Playback {
    pub idx: usize,
    pub frames: usize,
    pub label: String,
    pub playing: bool,
}

/// What is open on screen, as far as the help row cares.
#[derive(Clone, Debug)]
pub struct HelpScreen {
    pub config_screen: bool,
    pub verb_menu: bool,
    pub picking_file: bool,
    pub saves: bool,
    pub gallery: bool,
    pub playback: Option<Playback>,
    pub prompt: Option<PromptLabel>,
    pub resize: Option<ResizeTarget>,
    pub map_focus: bool,
}

/// The help row's text: the first of these that is open claims it, in this
/// order: the config screen, the verb menu, the save-import file picker, the
/// saves manager, the symbol gallery (each with its fixed key guide); tidy
/// playback; an open prompt (its name and the text-entry keys); resize mode
/// (the boundary it moves and its keys). With none open, the everyday row.
pub open spec fn help_text_spec(b: Seq<BindingView>, direct: Seq<Seq<char>>, prefix: KeySpec, screen: HelpScreen, row_width: nat) -> Seq<char> {
    if screen.config_screen {
        "↑↓ move  ←→/Space change  s save  Esc cancel"@
    } else if screen.verb_menu {
        "Verb Menu | Tab/←→: pane | ↑↓: move | Enter/Space: pick | Esc: close"@
    } else if screen.picking_file {
        "Import Save | ↑↓: move | Enter: open/import | Esc: cancel"@
    } else if screen.saves {
        "Saves | ↑↓: select | Enter: load | s: save-as | d: delete | i: import | Esc: close"@
    } else if screen.gallery {
        "Symbol Gallery | ↑↓: preset | ←→: category | Esc/Enter: close"@
    } else if screen.playback is Some {
        let p = screen.playback->0;
        playback_row_spec(b, direct, p.idx as nat, p.frames as nat, p.label@, p.playing, row_width)
    } else if screen.prompt is Some {
        prompt_label_spec(screen.prompt->0) + ": type text | Enter: apply | Esc: cancel"@
    } else if screen.resize is Some {
        "Resize ["@ + match screen.resize->0 {
            ResizeTarget::StoryMap => "story/map"@,
            ResizeTarget::InvDock => "inventory"@,
        } + "] | Tab: pane | arrows: adjust | 0: reset | Esc: done"@
    } else {
        help_row_spec(b, direct, prefix, screen.map_focus, row_width)
    }
}

/// The text of the help row at the bottom of the frame, `row_width`
/// characters wide.
pub fn help_text(keymap: &KeyMap, layout: &HotkeyLayout, screen: &HelpScreen, row_width: usize) -> (s: String)
    requires
        screen.playback matches Some(p) ==> p.idx < p.frames,
    ensures
        s@ == help_text_spec(keymap@, strs(layout.direct@), layout.prefix, *screen, row_width as nat),
{
    if screen.config_screen {
        String::from_str("↑↓ move  ←→/Space change  s save  Esc cancel")
    } else if screen.verb_menu {
        String::from_str("Verb Menu | Tab/←→: pane | ↑↓: move | Enter/Space: pick | Esc: close")
    } else if screen.picking_file {
        String::from_str("Import Save | ↑↓: move | Enter: open/import | Esc: cancel")
    } else if screen.saves {
        String::from_str("Saves | ↑↓: select | Enter: load | s: save-as | d: delete | i: import | Esc: close")
    } else if screen.gallery {
        String::from_str("Symbol Gallery | ↑↓: preset | ←→: category | Esc/Enter: close")
    } else if let Some(p) = &screen.playback {
        playback_row(keymap, layout, p.idx, p.frames, p.label.as_str(), p.playing, row_width)
    } else if let Some(k) = screen.prompt {
        let mut s = String::from_str(prompt_label(k));
        push_str(&mut s, ": type text | Enter: apply | Esc: cancel");
        s
    } else if let Some(t) = screen.resize {
        let mut s = String::from_str("Resize [");
        let ghost before = s@;
        match t {
            ResizeTarget::StoryMap => push_str(&mut s, "story/map"),
            ResizeTarget::InvDock => push_str(&mut s, "inventory"),
        }
        let ghost mid = s@;
        push_str(&mut s, "] | Tab: pane | arrows: adjust | 0: reset | Esc: done");
        proof {
            let name = match t {
                ResizeTarget::StoryMap => "story/map"@,
                ResizeTarget::InvDock => "inventory"@,
            };
            assert(mid =~= before + name);
        }
        s
    } else {
        help_row(keymap, layout, screen.map_focus, row_width)
    }
}

} // verus!
