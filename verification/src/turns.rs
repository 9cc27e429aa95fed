//! Decisions of the run loop around a game turn: whether the game echoed the
//! command, whether a turn ends the app, when to offer a save on quit, when a
//! timed-input deadline fires, where to scroll for a search match, when an
//! exit or quit may snapshot the game, where the typed command is echoed, what
//! the bookkeeping after a turn records, what a turn tells the background
//! tidy, the loading line shown while a story boots, and a path shown with the
//! home directory abbreviated.

use vstd::prelude::*;
use vstd::string::*;
use crate::text::{
    char_is_alphanumeric, decimal, eq_ignore_case, first_non_space, is_space, is_space_char, lemma_first_non_space_from,
    lower_char, push_char, push_decimal, push_str, str_eq, to_lowercase, trim, trim_spec, trim_start_spec,
    unicode_alphanumeric, unicode_lowercase, all_ascii, is_alnum,
};

verus! {

/// Whether the turn output `transcript` starts with the command `cmd` itself:
/// after leading white space, the trimmed command must follow ASCII
/// case-insensitively and end at a boundary (the end of the output, or a
/// character that is not alphanumeric). An empty command never matches.
pub open spec fn echoes_spec(transcript: Seq<char>, cmd: Seq<char>) -> bool {
    let c = trim_spec(cmd);
    let h = trim_start_spec(transcript);
    &&& c.len() > 0
    &&& c.len() <= h.len()
    &&& forall|i: int| 0 <= i < c.len() ==> eq_ignore_case(#[trigger] h[i], c[i])
    &&& (h.len() == c.len() || !unicode_alphanumeric(h[c.len() as int]))
}

/// [`echoes_spec`] for an ASCII output, where a boundary is a character that
/// is not an ASCII letter or digit.
pub open spec fn echoes_ascii_spec(transcript: Seq<char>, cmd: Seq<char>) -> bool {
    let c = trim_spec(cmd);
    let h = trim_start_spec(transcript);
    &&& c.len() > 0
    &&& c.len() <= h.len()
    &&& forall|i: int| 0 <= i < c.len() ==> eq_ignore_case(#[trigger] h[i], c[i])
    &&& (h.len() == c.len() || !is_alnum(h[c.len() as int]))
}

/// Whether the game echoed the just-submitted command at the start of its
/// turn output (some games print the command back in bold), so that a second,
/// redundant echo can be left out. `go` does not match output starting with
/// `gospel`.
pub fn game_echoes_command(transcript: &str, cmd: &str) -> (b: bool)
    ensures
        b == echoes_spec(transcript@, cmd@),
        all_ascii(transcript@) ==> b == echoes_ascii_spec(transcript@, cmd@),
{
    let c = trim(cmd);
    let cs = c.as_str();
    let n = cs.unicode_len();
    if n == 0 {
        return false;
    }
    let len = transcript.unicode_len();
    let mut start: usize = 0;
    while start < len && is_space_char(transcript.get_char(start))
        invariant
            len == transcript@.len(),
            start <= len,
            forall|i: int| 0 <= i < start ==> is_space(#[trigger] transcript@[i]),
        decreases len - start,
    {
        start = start + 1;
    }
    proof {
        lemma_first_non_space_from(transcript@, start as int);
    }
    let ghost h = trim_start_spec(transcript@);
    assert(h == transcript@.skip(start as int));
    if len - start < n {
        return false;
    }
    let mut i: usize = 0;
    while i < n
        invariant
            len == transcript@.len(),
            n == cs@.len(),
            cs@ == trim_spec(cmd@),
            h == transcript@.skip(start as int),
            h == trim_start_spec(transcript@),
            start + n <= len,
            i <= n,
            forall|j: int| 0 <= j < i ==> eq_ignore_case(#[trigger] h[j], cs@[j]),
        decreases n - i,
    {
        let hc = transcript.get_char(start + i);
        let cc = cs.get_char(i);
        assert(h[i as int] == hc);
        if lower_char(hc) != lower_char(cc) {
            assert(!eq_ignore_case(h[i as int], cs@[i as int]));
            return false;
        }
        i = i + 1;
    }
    if start + n == len {
        true
    } else {
        let next = transcript.get_char(start + n);
        assert(h[n as int] == next);
        assert(all_ascii(transcript@) ==> (transcript@[(start + n) as int] as u32) < 128);
        !char_is_alphanumeric(next)
    }
}

/// Whether a turn ends the app: only a clean game exit does (the game quit,
/// with no VM fault, and the VM was not already halted by an earlier fault).
pub fn should_exit_on_turn(quit: bool, faulted: bool, vm_halted: bool) -> (b: bool)
    ensures
        b == (quit && !faulted && !vm_halted),
{
    quit && !faulted && !vm_halted
}

/// Whether a quit attempt should ask "Save state before quitting?": auto-save
/// is off, the prompt is enabled, and there is progress no Save State has
/// captured yet.
pub fn should_prompt_save_on_quit(auto_save: bool, prompt_save_on_quit: bool, unsaved_progress: bool) -> (b: bool)
    ensures
        b == (!auto_save && prompt_save_on_quit && unsaved_progress),
{
    !auto_save && prompt_save_on_quit && unsaved_progress
}

/// The deadline of a timed input (or of a periodic game timer) for this
/// iteration of the run loop, times in milliseconds on one clock: while armed,
/// an existing deadline is kept, and only a missing one is set to `now +
/// interval`; when not armed there is none.
pub fn next_input_deadline(current: Option<u64>, should_arm: bool, interval: u64, now: u64) -> (r: Option<u64>)
    requires
        should_arm ==> now + interval <= u64::MAX,
    ensures
        !should_arm ==> r is None,
        should_arm ==> r == Some(match current {
            Some(d) => d,
            None => (now + interval) as u64,
        }),
{
    if should_arm {
        let fresh = now + interval;
        match current {
            Some(d) => Some(d),
            None => Some(fresh),
        }
    } else {
        None
    }
}

/// `a - b`, or 0 when `b` is larger.
pub open spec fn sat_sub(a: int, b: int) -> int {
    if a >= b { a - b } else { 0 }
}

/// The scroll offset (rows back from the bottom of the transcript) that puts
/// the match at visible position `match_visible_pos` at the top of a pane of
/// `pane_rows` rows, or as near as the transcript allows; it is truncated to
/// 16 bits. Each visible line counts as one row.
pub fn scroll_for_match(match_visible_pos: usize, total_visible: usize, pane_rows: usize) -> (r: u16)
    ensures
        r as int == sat_sub(sat_sub(total_visible as int, match_visible_pos as int), pane_rows as int) % 65536,
{
    let s = total_visible.saturating_sub(match_visible_pos).saturating_sub(pane_rows);
    let r = (s % 65536) as u16;
    r
}

/// Whether `input` starts with the command `prefix` character.
pub fn is_slash(input: &str, prefix: char) -> (b: bool)
    ensures
        b == (input@.len() > 0 && input@[0] == prefix),
{
    input.unicode_len() > 0 && input.get_char(0) == prefix
}

/// The size of `bytes` in tenths of a MiB, rounded to the nearest tenth and,
/// on a tie, to the even one.
pub open spec fn mib_tenths(bytes: nat) -> nat {
    let q = (bytes * 10) / 1048576;
    let rem = (bytes * 10) % 1048576;
    if rem * 2 > 1048576 || (rem * 2 == 1048576 && q % 2 == 1) { q + 1 } else { q }
}

/// The loading line: `babelmap: loading <name> (<size> MB) <frame>`, the
/// size in MiB with one decimal.
pub open spec fn loading_line_spec(name: Seq<char>, bytes: nat, frame: char) -> Seq<char> {
    let t = mib_tenths(bytes);
    "babelmap: loading "@ + name + " ("@ + decimal(t / 10) + "."@ + decimal(t % 10) + " MB) "@ + seq![frame]
}

/// The one-line indicator shown while a (possibly large) story boots to its
/// first prompt; `frame` is this tick's spinner glyph.
pub fn loading_line(name: &str, bytes: usize, frame: char) -> (s: String)
    ensures
        s@ == loading_line_spec(name@, bytes as nat, frame),
{
    let num: u128 = (bytes as u128) * 10;
    let q = num / 1048576;
    let rem = num % 1048576;
    let t: u128 = if rem * 2 > 1048576 || (rem * 2 == 1048576 && q % 2 == 1) { q + 1 } else { q };
    assert(t == mib_tenths(bytes as nat));
    let mut s = String::from_str("babelmap: loading ");
    push_str(&mut s, name);
    push_str(&mut s, " (");
    push_decimal(&mut s, (t / 10) as u64);
    push_str(&mut s, ".");
    push_decimal(&mut s, (t % 10) as u64);
    push_str(&mut s, " MB) ");
    push_char(&mut s, frame);
    assert(s@ =~= loading_line_spec(name@, bytes as nat, frame));
    s
}

/// The map pane's size for layout, 80 × 24 standing in for a dimension that
/// is zero.
pub fn map_pane_dims(width: u16, height: u16) -> (r: (u16, u16))
    ensures
        r.0 == (if width == 0 { 80 } else { width }),
        r.1 == (if height == 0 { 24 } else { height }),
{
    let w = if width == 0 { 80 } else { width };
    let h = if height == 0 { 24 } else { height };
    (w, h)
}

/// Whether leaving the app snapshots the game: only with auto-save on, and
/// never while an in-game save or restore is suspended awaiting the host
/// (the snapshot would capture the unfinished call).
pub fn exit_auto_save_wanted(auto_save: bool, saveload_pending: bool) -> (b: bool)
    ensures
        b == (auto_save && !saveload_pending),
{
    auto_save && !saveload_pending
}

/// Whether the quit dialog's "Save State & quit" takes its snapshot: not while
/// an in-game save or restore is suspended. The dialog quits either way.
pub fn quit_dialog_save_wanted(saveload_pending: bool) -> (b: bool)
    ensures
        b == !saveload_pending,
{
    !saveload_pending
}

/// A path as shown to the user: with a non-empty home directory as its
/// prefix replaced by `~`.
pub open spec fn abbreviate_home_spec(path: Seq<char>, home: Option<Seq<char>>) -> Seq<char> {
    match home {
        Some(h) => if h.len() > 0 && h.len() <= path.len() && path.subrange(0, h.len() as int) == h {
            seq!['~'] + path.subrange(h.len() as int, path.len() as int)
        } else {
            path
        },
        None => path,
    }
}

/// Show `path` with the home directory `home` (if known) abbreviated to `~`.
pub fn abbreviate_home(path: &str, home: Option<&str>) -> (s: String)
    ensures
        s@ == abbreviate_home_spec(path@, match home {
            Some(h) => Some(h@),
            None => None,
        }),
{
    if let Some(h) = home {
        let n = h.unicode_len();
        let m = path.unicode_len();
        if n > 0 && crate::text::starts_with(path, h) {
            let mut s = String::new();
            push_char(&mut s, '~');
            push_str(&mut s, path.substring_char(n, m));
            assert(s@ =~= seq!['~'] + path@.subrange(n as int, m as int));
            return s;
        }
    }
    crate::text::string_of(path)
}

/// Where the typed command appears in the transcript after a turn.
#[derive(Debug, Clone, Copy, PartialEq, Eq, Structural)]
pub enum CommandEcho {
    /// The game printed the command itself; nothing is added. With `merge`,
    /// the game's echo line is folded onto the `>` prompt line before it.
    ByGame { merge: bool },
    /// On a line of its own, `> command`.
    OwnLine,
    /// Appended to the game's `>` prompt, the transcript's last line.
    AfterPrompt,
}

/// Where to echo the command: the game's own echo wins (folded onto the prompt
/// when the prompt is inline and is the last line); with the command bar, or
/// when the last line is not the game's prompt, on a line of its own; else after
/// the inline prompt.
pub open spec fn command_echo_spec(game_echoes: bool, command_bar: bool, prompt_is_last_line: bool) -> CommandEcho {
    if game_echoes {
        CommandEcho::ByGame { merge: !command_bar && prompt_is_last_line }
    } else if command_bar || !prompt_is_last_line {
        CommandEcho::OwnLine
    } else {
        CommandEcho::AfterPrompt
    }
}

/// Decide where the typed command is echoed after a turn.
pub fn command_echo(game_echoes: bool, command_bar: bool, prompt_is_last_line: bool) -> (e: CommandEcho)
    ensures
        e == command_echo_spec(game_echoes, command_bar, prompt_is_last_line),
{
    if game_echoes {
        CommandEcho::ByGame { merge: !command_bar && prompt_is_last_line }
    } else if command_bar || !prompt_is_last_line {
        CommandEcho::OwnLine
    } else {
        CommandEcho::AfterPrompt
    }
}

/// The transcript line that echoes `cmd` on its own: `> cmd`.
pub fn echo_line(cmd: &str) -> (s: String)
    ensures
        s@ == "> "@ + cmd@,
{
    let mut s = String::new();
    push_str(&mut s, "> ");
    push_str(&mut s, cmd);
    s
}

/// Whether a turn goes into the rewind history: when recording is on, and not
/// for the turn that quit (its snapshot has nothing left to replay).
pub fn history_capture_wanted(record_turn_history: bool, quit: bool) -> (b: bool)
    ensures
        b == (record_turn_history && !quit),
{
    record_turn_history && !quit
}

/// Whether a turn changed the map: its room or connection count moved.
pub fn map_changed(rooms_before: usize, rooms_after: usize, conns_before: usize, conns_after: usize) -> (b: bool)
    ensures
        b == (rooms_before != rooms_after || conns_before != conns_after),
{
    rooms_before != rooms_after || conns_before != conns_after
}

/// One connection of the map as the background tidy sees it: the layers of
/// its two ends and whether routing had to distort it.
#[derive(Clone, Copy, Debug, PartialEq, Eq, Structural)]
pub struct LayerEdge {
    pub origin_layer: i32,
    pub dest_layer: i32,
    pub distorted: bool,
}

/// What a finished turn tells the background tidy: whether it added a room,
/// whether the active layer is tangled (rooms share a cell, or a connection
/// inside it is distorted), and whether it added a room or a connection.
#[derive(Clone, Copy, Debug, PartialEq, Eq, Structural)]
pub struct TidySignals {
    pub new_room: bool,
    pub overlap: bool,
    pub changed: bool,
}

/// Whether some connection with both ends in `layer` is distorted.
pub open spec fn distorted_in_layer(edges: Seq<LayerEdge>, layer: i32) -> bool {
    exists|i: int|
        0 <= i < edges.len() && (#[trigger] edges[i]).distorted && edges[i].origin_layer == layer
            && edges[i].dest_layer == layer
}

/// The signals a turn hands the background tidy, which runs only in the
/// automatic layout mode (`None` otherwise). `occupied_cells` counts the
/// distinct cells the active layer's rooms stand on and `rooms_in_layer` its
/// rooms; the counts before and after are those of the whole map.
pub fn tidy_signals(
    auto_layout: bool,
    rooms_before: usize,
    rooms_after: usize,
    conns_before: usize,
    conns_after: usize,
    occupied_cells: usize,
    rooms_in_layer: usize,
    edges: &Vec<LayerEdge>,
    layer: i32,
) -> (r: Option<TidySignals>)
    ensures
        r is Some <==> auto_layout,
        r matches Some(t) ==> {
            &&& t.new_room == (rooms_after > rooms_before)
            &&& t.overlap == (occupied_cells < rooms_in_layer || distorted_in_layer(edges@, layer))
            &&& t.changed == (rooms_after > rooms_before || conns_after > conns_before)
        },
{
    if !auto_layout {
        return None;
    }
    let new_room = rooms_after > rooms_before;
    let mut distorted = false;
    let mut i: usize = 0;
    while i < edges.len()
        invariant
            i <= edges@.len(),
            distorted == exists|k: int|
                0 <= k < i && (#[trigger] edges@[k]).distorted && edges@[k].origin_layer == layer
                    && edges@[k].dest_layer == layer,
        decreases edges@.len() - i,
    {
        let e = edges[i];
        if e.distorted && e.origin_layer == layer && e.dest_layer == layer {
            distorted = true;
        }
        i = i + 1;
    }
    let overlap = occupied_cells < rooms_in_layer || distorted;
    let changed = new_room || conns_after > conns_before;
    Some(TidySignals { new_room, overlap, changed })
}

/// Whether `cmd`, trimmed and lower-cased (as `str::to_lowercase` does it),
/// asks for the inventory: `i`, `inv` or `inventory`.
pub open spec fn inventory_command_spec(cmd: Seq<char>) -> bool {
    let c = unicode_lowercase(trim_spec(cmd));
    c == "i"@ || c == "inv"@ || c == "inventory"@
}

/// Whether the submitted command asks for the inventory, so its output is
/// parsed as the inventory listing.
pub fn is_inventory_command(cmd: &str) -> (b: bool)
    ensures
        b == inventory_command_spec(cmd@),
{
    let t = trim(cmd);
    let c = to_lowercase(t.as_str());
    str_eq(c.as_str(), "i") || str_eq(c.as_str(), "inv") || str_eq(c.as_str(), "inventory")
}

/// Where the game's auxiliary table is kept between sessions.
#[derive(Debug, Clone, Copy, PartialEq, Eq, Structural)]
pub enum AuxStorage {
    /// In a per-game file of its own.
    Global,
    /// Inside the save archive (the per-turn auto-save embeds it).
    Archive,
    /// Not chosen yet: ask the player.
    Ask,
}

/// What to do with the auxiliary table after a turn.
#[derive(Debug, Clone, Copy, PartialEq, Eq, Structural)]
pub enum AuxStep {
    /// It did not change: nothing.
    Nothing,
    /// Write the per-game file, then mark it clean.
    WriteFile,
    /// Mark it clean: the archive auto-save already holds it.
    MarkClean,
    /// Open the first-use prompt and leave it dirty for the prompt to settle.
    AskPlayer,
}

/// The step for the auxiliary table after a turn, given whether it changed and
/// where it is kept.
pub open spec fn aux_step_spec(dirty: bool, storage: AuxStorage) -> AuxStep {
    if !dirty {
        AuxStep::Nothing
    } else {
        match storage {
            AuxStorage::Global => AuxStep::WriteFile,
            AuxStorage::Archive => AuxStep::MarkClean,
            AuxStorage::Ask => AuxStep::AskPlayer,
        }
    }
}

/// Decide what happens to the auxiliary table after a turn.
pub fn aux_step(dirty: bool, storage: AuxStorage) -> (s: AuxStep)
    ensures
        s == aux_step_spec(dirty, storage),
{
    if !dirty {
        AuxStep::Nothing
    } else {
        match storage {
            AuxStorage::Global => AuxStep::WriteFile,
            AuxStorage::Archive => AuxStep::MarkClean,
            AuxStorage::Ask => AuxStep::AskPlayer,
        }
    }
}

/// The border pulse for a turn's beeps.
#[derive(Debug, Clone, Copy, PartialEq, Eq, Structural)]
pub enum BeepKind {
    High,
    Low,
}

/// The beep of sound effect `n`, if it is one: effect 1 is the high beep, 2
/// the low one.
pub open spec fn beep_of(n: u16) -> Option<BeepKind> {
    if n == 1 {
        Some(BeepKind::High)
    } else if n == 2 {
        Some(BeepKind::Low)
    } else {
        None
    }
}

/// The beep of the last beeping effect among `effects`, if any.
pub open spec fn last_beep(effects: Seq<u16>) -> Option<BeepKind>
    decreases effects.len(),
{
    if effects.len() == 0 {
        None
    } else {
        match beep_of(effects.last()) {
            Some(b) => Some(b),
            None => last_beep(effects.drop_last()),
        }
    }
}

/// The border pulse for a turn whose sound effects were `effects`, in order:
/// the latest beep wins.
pub fn turn_beep(effects: &Vec<u16>) -> (b: Option<BeepKind>)
    ensures
        b == last_beep(effects@),
{
    let mut i: usize = effects.len();
    assert(effects@.take(i as int) =~= effects@);
    while i > 0
        invariant
            i <= effects@.len(),
            forall|j: int| i <= j < effects@.len() ==> #[trigger] beep_of(effects@[j]) is None,
            last_beep(effects@) == last_beep(effects@.take(i as int)),
        decreases i,
    {
        let n = effects[i - 1];
        assert(effects@.take(i as int).last() == n);
        assert(effects@.take(i as int).drop_last() =~= effects@.take(i - 1));
        if n == 1 {
            return Some(BeepKind::High);
        } else if n == 2 {
            return Some(BeepKind::Low);
        }
        i = i - 1;
    }
    None
}

/// The warning lines shown when the game's machine faults: its own lines,
/// then `(game halted)`.
pub fn fault_lines(lines: &Vec<String>) -> (out: Vec<String>)
    ensures
        out@.len() == lines@.len() + 1,
        forall|i: int| 0 <= i < lines@.len() ==> #[trigger] out@[i]@ == lines@[i]@,
        out@[lines@.len() as int]@ == "(game halted)"@,
{
    let mut out: Vec<String> = Vec::new();
    let mut i: usize = 0;
    while i < lines.len()
        invariant
            i <= lines@.len(),
            out@.len() == i,
            forall|j: int| 0 <= j < i ==> #[trigger] out@[j]@ == lines@[j]@,
        decreases lines@.len() - i,
    {
        out.push(crate::text::string_of(lines[i].as_str()));
        i = i + 1;
    }
    out.push(crate::text::string_of("(game halted)"));
    out
}

/// The status line after the game's machine faults.
pub fn fault_status() -> (s: &'static str)
    ensures
        s@ == "VM fault — the game has halted; you can review the map/transcript or quit."@,
{
    "VM fault — the game has halted; you can review the map/transcript or quit."
}

/// `lines`, each prefixed with `prefix` and ended by a newline.
pub open spec fn prefixed_lines(prefix: Seq<char>, lines: Seq<String>) -> Seq<char>
    decreases lines.len(),
{
    if lines.len() == 0 {
        Seq::empty()
    } else {
        prefixed_lines(prefix, lines.drop_last()) + prefix + lines.last()@ + "\n"@
    }
}

fn push_prefixed_lines(s: &mut String, prefix: &str, lines: &Vec<String>)
    ensures
        final(s)@ == old(s)@ + prefixed_lines(prefix@, lines@),
{
    let ghost start = s@;
    let mut i: usize = 0;
    assert(lines@.take(0) =~= Seq::<String>::empty());
    assert(start + prefixed_lines(prefix@, Seq::<String>::empty()) =~= start);
    while i < lines.len()
        invariant
            i <= lines@.len(),
            s@ == start + prefixed_lines(prefix@, lines@.take(i as int)),
        decreases lines@.len() - i,
    {
        push_str(s, prefix);
        push_str(s, lines[i].as_str());
        push_str(s, "\n");
        assert(lines@.take(i + 1).drop_last() =~= lines@.take(i as int));
        i = i + 1;
        assert(s@ =~= start + prefixed_lines(prefix@, lines@.take(i as int)));
    }
    assert(lines@.take(lines@.len() as int) =~= lines@);
}

/// The record appended to the crash log when the game's machine faults: a
/// heading, each diagnostic as `diag: <line>`, then the fault's own lines.
pub fn fault_log_record(fault: &Vec<String>, diagnostics: &Vec<String>) -> (r: String)
    ensures
        r@ == "\n=== gvm runtime fault (game halted) ===\n"@ + prefixed_lines("diag: "@, diagnostics@)
            + prefixed_lines(""@, fault@),
{
    let mut r = String::new();
    push_str(&mut r, "\n=== gvm runtime fault (game halted) ===\n");
    push_prefixed_lines(&mut r, "diag: ", diagnostics);
    push_prefixed_lines(&mut r, "", fault);
    r
}

} // verus!
