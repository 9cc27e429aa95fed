//! Opening a hints session: the lines the hint game opens with, the label of
//! the hint file, and what the status line says when no session opens.

use vstd::prelude::*;
use crate::text::{push_char, push_str};

verus! {

/// `s` cut at every `sep`, as `str::split` cuts it: one more piece than there
/// are separators, empty pieces kept.
pub open spec fn split_on(s: Seq<char>, sep: char) -> Seq<Seq<char>>
    decreases s.len(),
{
    if s.len() == 0 {
        seq![Seq::empty()]
    } else if s.last() == sep {
        split_on(s.drop_last(), sep).push(Seq::empty())
    } else {
        let p = split_on(s.drop_last(), sep);
        p.update(p.len() - 1, p.last().push(s.last()))
    }
}

proof fn lemma_split_on_nonempty(s: Seq<char>, sep: char)
    ensures
        split_on(s, sep).len() >= 1,
    decreases s.len(),
{
    if s.len() > 0 {
        lemma_split_on_nonempty(s.drop_last(), sep);
    }
}

/// The opening text of the hint game, as transcript lines: cut at each
/// newline.
pub fn opening_lines(opening: &str) -> (lines: Vec<String>)
    ensures
        lines@.map_values(|l: String| l@) == split_on(opening@, '\n'),
{
    let n = opening.unicode_len();
    let mut lines: Vec<String> = Vec::new();
    let mut cur = String::new();
    let mut i: usize = 0;
    assert(opening@.take(0) =~= Seq::<char>::empty());
    while i < n
        invariant
            n == opening@.len(),
            i <= n,
            lines@.map_values(|l: String| l@).push(cur@) == split_on(opening@.take(i as int), '\n'),
        decreases n - i,
    {
        let c = opening.get_char(i);
        let ghost t = opening@.take(i + 1);
        proof {
            assert(t.drop_last() =~= opening@.take(i as int));
            assert(t.last() == c);
            lemma_split_on_nonempty(opening@.take(i as int), '\n');
        }
        if c == '\n' {
            let done = cur;
            lines.push(done);
            cur = String::new();
            assert(lines@.map_values(|l: String| l@).push(cur@) =~= split_on(t, '\n'));
        } else {
            push_char(&mut cur, c);
            assert(lines@.map_values(|l: String| l@).push(cur@) =~= split_on(t, '\n'));
        }
        i = i + 1;
    }
    assert(opening@.take(n as int) =~= opening@);
    lines.push(cur);
    lines
}

/// The text after the last `sep` of `s` (all of `s` if it has none), the
/// first piece that `str::rsplit` yields.
pub open spec fn after_last(s: Seq<char>, sep: char) -> Seq<char>
    decreases s.len(),
{
    if s.len() == 0 || s.last() == sep {
        Seq::empty()
    } else {
        after_last(s.drop_last(), sep).push(s.last())
    }
}

/// The label of a hint game found inside a zip archive: the entry's file name,
/// after its last `/`.
pub fn zip_entry_label(entry: &str) -> (label: String)
    ensures
        label@ == after_last(entry@, '/'),
{
    let n = entry.unicode_len();
    let mut start: usize = n;
    assert(entry@.take(n as int) =~= entry@);
    assert(entry@.subrange(n as int, n as int) =~= Seq::<char>::empty());
    assert(after_last(entry@, '/') + Seq::<char>::empty() =~= after_last(entry@, '/'));
    while start > 0 && entry.get_char(start - 1) != '/'
        invariant
            n == entry@.len(),
            start <= n,
            after_last(entry@, '/') == after_last(entry@.take(start as int), '/') + entry@.subrange(
                start as int,
                n as int,
            ),
        decreases start,
    {
        let ghost t = entry@.take(start as int);
        assert(t.last() == entry@[start - 1]);
        assert(t.drop_last() =~= entry@.take(start - 1));
        assert(entry@.subrange(start - 1, n as int) =~= seq![entry@[start - 1]] + entry@.subrange(
            start as int,
            n as int,
        ));
        assert(after_last(t, '/') == after_last(t.drop_last(), '/').push(t.last()));
        assert(after_last(t.drop_last(), '/').push(t.last()) + entry@.subrange(start as int, n as int)
            =~= after_last(t.drop_last(), '/') + entry@.subrange(start - 1, n as int));
        start = start - 1;
    }
    proof {
        let t = entry@.take(start as int);
        if start > 0 {
            assert(t.last() == entry@[start - 1]);
        }
        assert(after_last(t, '/') =~= Seq::<char>::empty());
        assert(entry@.take(n as int) =~= entry@);
    }
    let mut label = String::new();
    push_str(&mut label, entry.substring_char(start, n));
    label
}

/// Why opening a hints session failed, or that no hint game was found.
#[derive(Debug, Clone, PartialEq, Eq)]
pub enum HintsUnavailable {
    /// The hint game's machine would not start; the text says why.
    VmFailed(String),
    /// The hint file could not be read.
    FileUnreadable(String),
    /// The zip archive holds no such entry.
    EntryMissing,
    /// The zip entry could not be read.
    EntryUnreadable(String),
    /// No hint game is known for the story: tell the player how to add one.
    AskUser,
    /// No hints at all.
    NoHints,
}

/// The status line for a hints session that did not open.
pub open spec fn hints_status_spec(why: HintsUnavailable) -> Seq<char> {
    match why {
        HintsUnavailable::VmFailed(e) => "hints: failed to load hint VM: "@ + e@,
        HintsUnavailable::FileUnreadable(e) => "hints: cannot read hint file: "@ + e@,
        HintsUnavailable::EntryMissing => "hints: hint entry not found in zip"@,
        HintsUnavailable::EntryUnreadable(e) => "hints: cannot read zip entry: "@ + e@,
        HintsUnavailable::AskUser => "no hint file found — place <story>.hints.z5 next to the story, or use /hints <path>"@,
        HintsUnavailable::NoHints => "no hints found"@,
    }
}

/// The status line that explains why no hints session opened.
pub fn hints_status(why: &HintsUnavailable) -> (s: String)
    ensures
        s@ == hints_status_spec(*why),
{
    let mut s = String::new();
    match why {
        HintsUnavailable::VmFailed(e) => {
            push_str(&mut s, "hints: failed to load hint VM: ");
            push_str(&mut s, e.as_str());
        },
        HintsUnavailable::FileUnreadable(e) => {
            push_str(&mut s, "hints: cannot read hint file: ");
            push_str(&mut s, e.as_str());
        },
        HintsUnavailable::EntryMissing => push_str(&mut s, "hints: hint entry not found in zip"),
        HintsUnavailable::EntryUnreadable(e) => {
            push_str(&mut s, "hints: cannot read zip entry: ");
            push_str(&mut s, e.as_str());
        },
        HintsUnavailable::AskUser => push_str(
            &mut s,
            "no hint file found — place <story>.hints.z5 next to the story, or use /hints <path>",
        ),
        HintsUnavailable::NoHints => push_str(&mut s, "no hints found"),
    }
    s
}

} // verus!
