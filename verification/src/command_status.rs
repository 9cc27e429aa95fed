//! What the slash commands report: the status line after a save, a load, a map
//! import, a reset, a search, a transcript filter or export; which named save a
//! `load` picks.

use vstd::prelude::*;
use crate::persist::SaveInfo;
use crate::text::{decimal, push_decimal, push_str, str_eq, to_lowercase, unicode_lowercase};

verus! {

/// The status after `/save`: `saved as "<name>"` for a named slot, `saved` for
/// the default one, or why it failed.
pub open spec fn save_status_spec(name: Option<Seq<char>>, error: Option<Seq<char>>) -> Seq<char> {
    match error {
        Some(e) => "save failed: "@ + e,
        None => match name {
            Some(n) => "saved as \""@ + n + "\""@,
            None => "saved"@,
        },
    }
}

/// The status line after `/save` (named when `name` is given), which failed
/// with `error` if that is `Some`.
pub fn save_status(name: Option<&str>, error: Option<&str>) -> (s: String)
    ensures
        s@ == save_status_spec(
            match name {
                Some(n) => Some(n@),
                None => None,
            },
            match error {
                Some(e) => Some(e@),
                None => None,
            },
        ),
{
    let mut s = String::new();
    match error {
        Some(e) => {
            push_str(&mut s, "save failed: ");
            push_str(&mut s, e);
        },
        None => match name {
            Some(n) => {
                push_str(&mut s, "saved as \"");
                push_str(&mut s, n);
                push_str(&mut s, "\"");
            },
            None => push_str(&mut s, "saved"),
        },
    }
    s
}

/// Whether save `s` is a named slot called `name`, compared after
/// `str::to_lowercase` on both sides.
pub open spec fn names_match(s: SaveInfo, name: Seq<char>) -> bool {
    !s.is_default && unicode_lowercase(s.name@) == unicode_lowercase(name)
}

/// The named save that `/load <name>` restores: the first in `saves` whose
/// name matches, ignoring case; `None` if there is none.
pub fn find_named_save(saves: &Vec<SaveInfo>, name: &str) -> (r: Option<usize>)
    ensures
        match r {
            Some(i) => i < saves@.len() && names_match(saves@[i as int], name@) && forall|j: int|
                0 <= j < i ==> !names_match(#[trigger] saves@[j], name@),
            None => forall|j: int| 0 <= j < saves@.len() ==> !names_match(#[trigger] saves@[j], name@),
        },
{
    let wanted = to_lowercase(name);
    let mut i: usize = 0;
    while i < saves.len()
        invariant
            i <= saves@.len(),
            wanted@ == unicode_lowercase(name@),
            forall|j: int| 0 <= j < i ==> !names_match(#[trigger] saves@[j], name@),
        decreases saves@.len() - i,
    {
        if !saves[i].is_default {
            let have = to_lowercase(saves[i].name.as_str());
            if str_eq(have.as_str(), wanted.as_str()) {
                return Some(i);
            }
        }
        i = i + 1;
    }
    None
}

/// How a `/load` ended.
#[derive(Debug, Clone, PartialEq, Eq)]
pub enum LoadOutcome {
    /// No save has that name.
    NotFound,
    /// A game save was restored into the running game.
    Restored,
    /// A Save State was loaded, map and transcript with it.
    Loaded,
    /// Reading or applying the save failed; the text says why.
    Failed(String),
}

/// The status line after `/load`.
pub open spec fn load_status_spec(o: LoadOutcome) -> Seq<char> {
    match o {
        LoadOutcome::NotFound => "load failed: no save found with that name"@,
        LoadOutcome::Restored => "restored"@,
        LoadOutcome::Loaded => "loaded"@,
        LoadOutcome::Failed(e) => "load failed: "@ + e@,
    }
}

/// The status line that reports a `/load`.
pub fn load_status(o: &LoadOutcome) -> (s: String)
    ensures
        s@ == load_status_spec(*o),
{
    let mut s = String::new();
    match o {
        LoadOutcome::NotFound => push_str(&mut s, "load failed: no save found with that name"),
        LoadOutcome::Restored => push_str(&mut s, "restored"),
        LoadOutcome::Loaded => push_str(&mut s, "loaded"),
        LoadOutcome::Failed(e) => {
            push_str(&mut s, "load failed: ");
            push_str(&mut s, e.as_str());
        },
    }
    s
}

/// The status line after `/load-map` of the file shown as `shown`.
pub fn load_map_status(shown: &str, loaded: bool) -> (s: String)
    ensures
        s@ == if loaded {
            "loaded map: "@ + shown@
        } else {
            "load-map failed: "@ + shown@
        },
{
    let mut s = String::new();
    if loaded {
        push_str(&mut s, "loaded map: ");
    } else {
        push_str(&mut s, "load-map failed: ");
    }
    push_str(&mut s, shown);
    s
}

/// The status line after a typed `/reset-game`: `reset`, noting a cleared map
/// and deleted data.
pub fn reset_status(map_cleared: bool, data_deleted: bool) -> (s: String)
    ensures
        s@ == "reset"@ + (if map_cleared {
            " (map cleared)"@
        } else {
            Seq::empty()
        }) + (if data_deleted {
            " (data deleted)"@
        } else {
            Seq::empty()
        }),
{
    let mut s = String::new();
    push_str(&mut s, "reset");
    let ghost a = s@;
    if map_cleared {
        push_str(&mut s, " (map cleared)");
    }
    let ghost b = s@;
    if data_deleted {
        push_str(&mut s, " (data deleted)");
    }
    proof {
        let m = if map_cleared {
            " (map cleared)"@
        } else {
            Seq::<char>::empty()
        };
        assert(b =~= a + m);
    }
    assert(s@ =~= "reset"@ + (if map_cleared {
        " (map cleared)"@
    } else {
        Seq::empty()
    }) + (if data_deleted {
        " (data deleted)"@
    } else {
        Seq::empty()
    }));
    s
}

/// The status after a search: no query to run, no matches, or the count
/// (`1 match`, `n matches`).
pub open spec fn search_status_spec(had_query: bool, count: nat) -> Seq<char> {
    if !had_query {
        "search: no previous search"@
    } else if count == 0 {
        "search: no matches"@
    } else {
        "search: "@ + decimal(count) + " match"@ + if count == 1 {
            Seq::empty()
        } else {
            "es"@
        }
    }
}

/// The status line that reports a search.
pub fn search_status(had_query: bool, count: usize) -> (s: String)
    ensures
        s@ == search_status_spec(had_query, count as nat),
{
    let mut s = String::new();
    if !had_query {
        push_str(&mut s, "search: no previous search");
    } else if count == 0 {
        push_str(&mut s, "search: no matches");
    } else {
        push_str(&mut s, "search: ");
        push_decimal(&mut s, count as u64);
        push_str(&mut s, " match");
        if count != 1 {
            push_str(&mut s, "es");
        }
        assert(s@ =~= search_status_spec(had_query, count as nat));
    }
    s
}

/// The rows of the story pane that a search scrolls within: its height, or 24
/// before the pane has been laid out.
pub fn search_pane_rows(story_height: u16) -> (rows: usize)
    ensures
        rows == if story_height > 0 {
            story_height as usize
        } else {
            24
        },
{
    if story_height > 0 {
        story_height as usize
    } else {
        24
    }
}

/// Which transcript lines are shown.
#[derive(Debug, Clone, Copy, PartialEq, Eq, Structural)]
pub enum TranscriptFilter {
    Both,
    Story,
    Meta,
}

/// The name of a transcript filter in its status line.
pub open spec fn filter_name(f: TranscriptFilter) -> Seq<char> {
    match f {
        TranscriptFilter::Both => "both"@,
        TranscriptFilter::Story => "story"@,
        TranscriptFilter::Meta => "meta"@,
    }
}

/// The status line after `/filter`: `filter: <name>`.
pub fn filter_status(f: TranscriptFilter) -> (s: String)
    ensures
        s@ == "filter: "@ + filter_name(f),
{
    let mut s = String::new();
    push_str(&mut s, "filter: ");
    match f {
        TranscriptFilter::Both => push_str(&mut s, "both"),
        TranscriptFilter::Story => push_str(&mut s, "story"),
        TranscriptFilter::Meta => push_str(&mut s, "meta"),
    }
    s
}

/// The status line after `/export` of the transcript: where it went, or why
/// it failed.
pub fn transcript_export_status(outcome: Result<&str, &str>) -> (s: String)
    ensures
        s@ == match outcome {
            Ok(p) => "exported: "@ + p@,
            Err(e) => "export failed: "@ + e@,
        },
{
    let mut s = String::new();
    match outcome {
        Ok(p) => {
            push_str(&mut s, "exported: ");
            push_str(&mut s, p);
        },
        Err(e) => {
            push_str(&mut s, "export failed: ");
            push_str(&mut s, e);
        },
    }
    s
}

} // verus!
