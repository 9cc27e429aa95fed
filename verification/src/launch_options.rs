//! Launch options: the boot-time choices a story can only be started with
//! (a native picture archive and the interpreter number), the dialog that
//! edits them, and the name filter that decides which archives beside a
//! story are offered at all.
//!
//! Listing archives is for display only: the list ends at a person, who picks.
//! Nothing here pairs an archive with a story automatically.

use vstd::prelude::*;
use vstd::string::*;
use crate::dialogs::cycle_focus;
use crate::keys::{Key, KeyPress};
use crate::text::{
    ascii_lower, decimal, ends_with, eq_ignore_case_seq, has_suffix, is_alnum, lower, lower_char, lower_seq,
    push_char, push_decimal, push_str, str_eq, str_eq_ignore_case, string_of, to_lowercase, unicode_lowercase,
};
use crate::text::{all_ascii, is_digit, is_lower};
use crate::persist::{lemma_text_le_transitive, lemma_text_lt_irreflexive, lemma_text_lt_transitive, str_lt, text_lt};

verus! {

// ── LaunchOverrides ──────────────────────────────────────────────────────────

/// The boot-time overrides one launch carries, ahead of anything on disk.
/// Every field `None` means "inherit", as an absent key in the per-game
/// sidecar does; a field is `Some` only when `--pictures` or the dialog
/// changed it from what the story already inherits.
#[derive(Debug, Clone, PartialEq, Eq)]
pub struct LaunchOverrides {
    /// A native picture archive named for this launch.
    pub pictures: Option<String>,
    /// An interpreter number for this launch (ZMSD §11.1.3).
    pub interpreter_number: Option<u8>,
}

impl Default for LaunchOverrides {
    /// Nothing overridden.
    fn default() -> (o: LaunchOverrides)
        ensures
            o.pictures is None,
            o.interpreter_number is None,
    {
        LaunchOverrides { pictures: None, interpreter_number: None }
    }
}

impl LaunchOverrides {
    /// Nothing overridden: the launch behaves as an ordinary one.
    pub fn is_empty(&self) -> (b: bool)
        ensures
            b == (self.pictures is None && self.interpreter_number is None),
    {
        self.pictures.is_none() && self.interpreter_number.is_none()
    }
}

// ── Art candidates ───────────────────────────────────────────────────────────

/// Which platform's codec wrote a native picture archive.
#[derive(Debug, Clone, Copy, PartialEq, Eq, Structural, Hash)]
pub enum Flavour {
    /// The Amiga (and Macintosh) codec.
    AmigaMac,
    /// The IBM PC codec (MCGA, EGA, CGA).
    Pc,
}

/// The interpreter number of the Amiga (ZMSD §11.1.3).
pub const AMIGA_INTERPRETER_NUMBER: u8 = 4;

/// The machine an archive's codec asks babelmap to present itself as.
#[derive(Debug, Clone, Copy, PartialEq, Eq, Structural, Hash)]
pub enum ArtMachine {
    Amiga,
    IbmPc,
}

impl ArtMachine {
    /// The machine for an archive's codec.
    pub fn for_art_flavour(f: Flavour) -> (m: ArtMachine)
        ensures
            m == (if f == Flavour::AmigaMac { ArtMachine::Amiga } else { ArtMachine::IbmPc }),
    {
        match f {
            Flavour::AmigaMac => ArtMachine::Amiga,
            Flavour::Pc => ArtMachine::IbmPc,
        }
    }

    /// The number the machine pins, if any: the Amiga's; the IBM PC defers to
    /// the story's own default rule.
    pub fn interpreter_number(self) -> (r: Option<u8>)
        ensures
            r == art_interpreter_number(self),
    {
        match self {
            ArtMachine::Amiga => Some(AMIGA_INTERPRETER_NUMBER),
            ArtMachine::IbmPc => None,
        }
    }
}

/// The number a machine pins.
pub open spec fn art_interpreter_number(m: ArtMachine) -> Option<u8> {
    match m {
        ArtMachine::Amiga => Some(AMIGA_INTERPRETER_NUMBER),
        ArtMachine::IbmPc => None,
    }
}

/// One native picture archive found beside a story, described well enough to
/// choose by.
#[derive(Debug, Clone, PartialEq, Eq)]
pub struct ArtCandidate {
    /// Full path on disk.
    pub path: std::path::PathBuf,
    /// Bare filename, what goes into `pictures = "…"`.
    pub filename: String,
    /// Which platform's codec read it.
    pub flavour: Flavour,
    /// The rendition label a person recognises: `Amiga`, `MCGA`, `EGA`, `CGA`.
    pub rendition: &'static str,
    /// Directory entries across the whole set, continuation parts included.
    pub pictures: usize,
    /// Part number of the file named.
    pub part: u8,
    /// How many files this candidate is.
    pub parts: u8,
    /// The width of the picture space its coordinates use: 320 or 640.
    pub space_width: u16,
}

impl ArtCandidate {
    /// The machine this rendition asks babelmap to present itself as.
    pub fn profile(&self) -> (m: ArtMachine)
        ensures
            m == (if self.flavour == Flavour::AmigaMac { ArtMachine::Amiga } else { ArtMachine::IbmPc }),
    {
        ArtMachine::for_art_flavour(self.flavour)
    }

    /// A one-line caveat about how the rendition draws; every rendition draws
    /// correctly, so there is none.
    pub fn caveat(&self) -> (r: Option<&'static str>)
        ensures
            r is None,
    {
        None
    }
}

/// The shortest normalised stem the name filter matches on.
pub const MIN_STEM: usize = 4;

/// A name reduced to compare game names by: lowercased, ASCII alphanumerics
/// only.
pub open spec fn normalize_ident_spec(s: Seq<char>) -> Seq<char>
    decreases s.len(),
{
    if s.len() == 0 {
        Seq::empty()
    } else {
        let r = normalize_ident_spec(s.drop_last());
        if is_alnum(s.last()) { r.push(lower(s.last())) } else { r }
    }
}

proof fn lemma_normalize_is_alnum_lowered(s: Seq<char>)
    ensures
        normalize_ident_spec(s) == crate::persist::alnum_lowered(s),
    decreases s.len(),
{
    if s.len() > 0 {
        lemma_normalize_is_alnum_lowered(s.drop_last());
    }
}

proof fn lemma_normalize_shape(s: Seq<char>)
    ensures
        forall|i: int| 0 <= i < normalize_ident_spec(s).len() ==> is_digit(#[trigger] normalize_ident_spec(s)[i])
            || is_lower(normalize_ident_spec(s)[i]),
        normalize_ident_spec(s).len() <= s.len(),
    decreases s.len(),
{
    if s.len() > 0 {
        lemma_normalize_shape(s.drop_last());
        let r = normalize_ident_spec(s.drop_last());
        if is_alnum(s.last()) {
            assert forall|i: int| 0 <= i < r.push(lower(s.last())).len() implies is_digit(
                #[trigger] r.push(lower(s.last()))[i],
            ) || is_lower(r.push(lower(s.last()))[i]) by {
                if i < r.len() {
                    assert(r.push(lower(s.last()))[i] == r[i]);
                }
            }
        }
    }
}

proof fn lemma_normalize_fixed(s: Seq<char>)
    requires
        forall|i: int| 0 <= i < s.len() ==> is_digit(#[trigger] s[i]) || is_lower(s[i]),
    ensures
        normalize_ident_spec(s) == s,
    decreases s.len(),
{
    if s.len() > 0 {
        lemma_normalize_fixed(s.drop_last());
        assert(s.drop_last().push(s.last()) =~= s);
    }
}

/// What normalising a name keeps: exactly what a slug of it keeps once its
/// hyphens are taken out, which is the name's ASCII letters and digits in
/// order, lowercased; so the result holds only lowercase letters and digits,
/// is no longer than the name, and normalising it again changes nothing.
pub proof fn lemma_normalize_law(s: Seq<char>)
    ensures
        normalize_ident_spec(s) == crate::persist::without_hyphens(crate::persist::slug_of(s)),
        forall|i: int| 0 <= i < normalize_ident_spec(s).len() ==> is_digit(#[trigger] normalize_ident_spec(s)[i])
            || is_lower(normalize_ident_spec(s)[i]),
        normalize_ident_spec(s).len() <= s.len(),
        normalize_ident_spec(normalize_ident_spec(s)) == normalize_ident_spec(s),
{
    lemma_normalize_is_alnum_lowered(s);
    crate::persist::lemma_slug_keeps_alnum(s);
    lemma_normalize_shape(s);
    lemma_normalize_fixed(normalize_ident_spec(s));
}

/// Reduce a name to lowercased ASCII alphanumerics.
pub fn normalize_ident(s: &str) -> (r: String)
    ensures
        r@ == normalize_ident_spec(s@),
{
    let n = s.unicode_len();
    let mut out = String::new();
    let mut i: usize = 0;
    while i < n
        invariant
            n == s@.len(),
            i <= n,
            out@ == normalize_ident_spec(s@.take(i as int)),
        decreases n - i,
    {
        let c = s.get_char(i);
        assert(s@.take(i + 1).drop_last() =~= s@.take(i as int));
        assert(s@.take(i + 1).last() == c);
        if crate::text::is_alnum_char(c) {
            push_char(&mut out, lower_char(c));
        }
        i = i + 1;
    }
    assert(s@.take(n as int) =~= s@);
    out
}

/// `needle` occurs in `hay` as a run of consecutive characters.
pub open spec fn occurs_in(hay: Seq<char>, needle: Seq<char>) -> bool {
    exists|i: int| 0 <= i && i + needle.len() <= hay.len() && #[trigger] hay.subrange(i, i + needle.len()) == needle
}

/// Substring search.
fn contains_text(hay: &str, needle: &str) -> (b: bool)
    ensures
        b == occurs_in(hay@, needle@),
{
    let h = hay.unicode_len();
    let m = needle.unicode_len();
    if m > h {
        return false;
    }
    let mut i: usize = 0;
    loop
        invariant
            h == hay@.len(),
            m == needle@.len(),
            m <= h,
            i <= h - m,
            forall|k: int| 0 <= k < i ==> #[trigger] hay@.subrange(k, k + needle@.len()) != needle@,
        ensures
            forall|k: int| 0 <= k <= h - m ==> #[trigger] hay@.subrange(k, k + needle@.len()) != needle@,
        decreases h - m - i,
    {
        if str_eq(hay.substring_char(i, i + m), needle) {
            return true;
        }
        if i == h - m {
            break;
        }
        i = i + 1;
    }
    assert forall|k: int| 0 <= k && k + needle@.len() <= hay@.len() implies #[trigger] hay@.subrange(
        k,
        k + needle@.len(),
    ) != needle@ by {}
    false
}

/// The two extension-less names every Infocom Amiga release ships its archive
/// under, in any ASCII case.
pub open spec fn is_generic_archive_spec(filename: Seq<char>) -> bool {
    lower_seq(filename) == "pic.data"@ || lower_seq(filename) == "cpic.data"@
}

/// Whether `filename` is `Pic.data` or `CPIC.DATA`, in any case: names that
/// say nothing about which release they belong to.
pub fn is_generic_archive_name(filename: &str) -> (b: bool)
    ensures
        b == is_generic_archive_spec(filename@),
{
    let lower = ascii_lower(filename);
    str_eq(lower.as_str(), "pic.data") || str_eq(lower.as_str(), "cpic.data")
}

/// Whether the archive `art_filename` (stem `art_stem`) carries the same
/// game's name as the story `story_stem`: the generic Amiga names always do;
/// otherwise both stems are normalised, each must have at least
/// [`MIN_STEM`] characters, and either must occur in the other.
pub open spec fn belongs_spec(story_stem: Seq<char>, art_stem: Seq<char>, art_filename: Seq<char>) -> bool {
    let story = normalize_ident_spec(story_stem);
    let art = normalize_ident_spec(art_stem);
    is_generic_archive_spec(art_filename) || (story.len() >= MIN_STEM && art.len() >= MIN_STEM && (
    occurs_in(story, art) || occurs_in(art, story)))
}

/// The name test runs both ways: which stem is the story's and which the
/// archive's does not matter; an archive carries the story's name whenever
/// either normalised stem, both of four characters or more, appears as a run
/// of consecutive characters in the other; it carries it otherwise only under
/// one of the two generic Amiga archive names, which always do.
pub proof fn lemma_belongs_law(story_stem: Seq<char>, art_stem: Seq<char>, art_filename: Seq<char>)
    ensures
        belongs_spec(story_stem, art_stem, art_filename) == belongs_spec(art_stem, story_stem, art_filename),
        ({
            let story = normalize_ident_spec(story_stem);
            let art = normalize_ident_spec(art_stem);
            &&& (story.len() >= 4 && art.len() >= 4 && exists|i: int|
                0 <= i && i + story.len() <= art.len() && #[trigger] art.subrange(i, i + story.len()) == story)
                ==> belongs_spec(story_stem, art_stem, art_filename)
            &&& (story.len() >= 4 && art.len() >= 4 && exists|i: int|
                0 <= i && i + art.len() <= story.len() && #[trigger] story.subrange(i, i + art.len()) == art)
                ==> belongs_spec(story_stem, art_stem, art_filename)
            &&& lower_seq(art_filename) == "pic.data"@ ==> belongs_spec(story_stem, art_stem, art_filename)
            &&& lower_seq(art_filename) == "cpic.data"@ ==> belongs_spec(story_stem, art_stem, art_filename)
            &&& belongs_spec(story_stem, art_stem, art_filename) ==> (lower_seq(art_filename) == "pic.data"@
                || lower_seq(art_filename) == "cpic.data"@ || (story.len() >= 4 && art.len() >= 4 && ((exists|i: int|
                0 <= i && i + story.len() <= art.len() && #[trigger] art.subrange(i, i + story.len()) == story)
                || (exists|i: int|
                0 <= i && i + art.len() <= story.len() && #[trigger] story.subrange(i, i + art.len()) == art))))
        }),
{
}

/// Does the archive carry the story's name (see [`belongs_spec`])? The test
/// runs both ways because either name can be the longer one.
pub fn belongs_to_story(story_stem: &str, art_stem: &str, art_filename: &str) -> (b: bool)
    ensures
        b == belongs_spec(story_stem@, art_stem@, art_filename@),
{
    if is_generic_archive_name(art_filename) {
        return true;
    }
    let story = normalize_ident(story_stem);
    let art = normalize_ident(art_stem);
    if story.as_str().unicode_len() < MIN_STEM || art.as_str().unicode_len() < MIN_STEM {
        return false;
    }
    contains_text(story.as_str(), art.as_str()) || contains_text(art.as_str(), story.as_str())
}

/// The text after the last `.` of `s`, if it has one (`str::rsplit_once('.')`).
pub open spec fn ext_after_last_dot(s: Seq<char>) -> Option<Seq<char>>
    decreases s.len(),
{
    if s.len() == 0 {
        None
    } else if s.last() == '.' {
        Some(Seq::empty())
    } else {
        match ext_after_last_dot(s.drop_last()) {
            Some(e) => Some(e.push(s.last())),
            None => None,
        }
    }
}

/// The extensions of native Infocom picture archives (`data` only under the
/// two generic names).
pub open spec fn is_art_ext(e: Seq<char>) -> bool {
    e == "pic"@ || e == "mg1"@ || e == "mg2"@ || e == "eg1"@ || e == "eg2"@ || e == "cg1"@ || e == "cg2"@
}

/// Whether a filename is worth opening as a picture archive: after Unicode
/// lowercasing, one of the two generic Amiga names, or a name whose last
/// extension is an archive extension. `.data` alone is far too common to
/// admit.
pub open spec fn looks_like_art_spec(filename: Seq<char>) -> bool {
    looks_like_art_lowered(unicode_lowercase(filename))
}

/// [`looks_like_art_spec`] on the already lowercased name.
pub open spec fn looks_like_art_lowered(lower: Seq<char>) -> bool {
    is_generic_archive_spec(lower) || match ext_after_last_dot(lower) {
        Some(e) => is_art_ext(e),
        None => false,
    }
}

/// The extension after the last dot, computed.
fn extension_after_last_dot(s: &str) -> (r: Option<String>)
    ensures
        match r {
            Some(e) => ext_after_last_dot(s@) == Some(e@),
            None => ext_after_last_dot(s@) is None,
        },
{
    let n = s.unicode_len();
    let mut i: usize = n;
    while i > 0 && s.get_char(i - 1) != '.'
        invariant
            n == s@.len(),
            i <= n,
            forall|k: int| i <= k < n ==> s@[k] != '.',
        decreases i,
    {
        i = i - 1;
    }
    proof {
        lemma_ext_after_last_dot(s@, i as int);
    }
    if i == 0 {
        None
    } else {
        Some(String::from_str(s.substring_char(i, n)))
    }
}

proof fn lemma_ext_after_last_dot(s: Seq<char>, i: int)
    requires
        0 <= i <= s.len(),
        forall|k: int| i <= k < s.len() ==> s[k] != '.',
        i > 0 ==> s[i - 1] == '.',
    ensures
        i == 0 ==> ext_after_last_dot(s) is None,
        i > 0 ==> ext_after_last_dot(s) == Some(s.subrange(i, s.len() as int)),
    decreases s.len(),
{
    if s.len() > 0 {
        if i == s.len() {
            assert(s.last() == '.');
            assert(s.subrange(i, s.len() as int) =~= Seq::<char>::empty());
        } else {
            let t = s.drop_last();
            assert forall|k: int| i <= k < t.len() implies t[k] != '.' by {
                assert(t[k] == s[k]);
            }
            if i > 0 {
                assert(t[i - 1] == s[i - 1]);
            }
            lemma_ext_after_last_dot(t, i);
            if i > 0 {
                assert(t.subrange(i, t.len() as int).push(s.last()) =~= s.subrange(i, s.len() as int));
            }
        }
    }
}

/// Is this filename worth opening as a picture archive?
pub fn looks_like_art_name(filename: &str) -> (b: bool)
    ensures
        b == looks_like_art_spec(filename@),
        all_ascii(filename@) ==> b == looks_like_art_lowered(lower_seq(filename@)),
{
    let lower = to_lowercase(filename);
    if is_generic_archive_name(lower.as_str()) {
        return true;
    }
    match extension_after_last_dot(lower.as_str()) {
        Some(e) => {
            let es = e.as_str();
            str_eq(es, "pic") || str_eq(es, "mg1") || str_eq(es, "mg2") || str_eq(es, "eg1") || str_eq(es, "eg2")
                || str_eq(es, "cg1") || str_eq(es, "cg2")
        },
        None => false,
    }
}

/// Whether a file beside the story (stem `stem`, name `filename`) is offered
/// as one of its picture archives, on its name alone.
pub open spec fn offered_by_name(story_stem: Seq<char>, stem: Seq<char>, filename: Seq<char>) -> bool {
    looks_like_art_spec(filename) && belongs_spec(story_stem, stem, filename)
}

/// `names` with `n` placed after the last name that does not sort after it,
/// names compared lower-cased (as `str::to_lowercase` does it).
pub open spec fn insert_by_lower_name(names: Seq<Seq<char>>, n: Seq<char>) -> Seq<Seq<char>>
    decreases names.len(),
{
    if names.len() == 0 || !text_lt(unicode_lowercase(n), unicode_lowercase(names.last())) {
        names.push(n)
    } else {
        insert_by_lower_name(names.drop_last(), n).push(names.last())
    }
}

/// The names of the files (`(stem, name)` pairs, in directory order) that are
/// offered for the story on their names, ordered by lower-cased name; files
/// whose lower-cased names are equal keep their directory order.
pub open spec fn offered_art_files_spec(story_stem: Seq<char>, files: Seq<(Seq<char>, Seq<char>)>) -> Seq<Seq<char>>
    decreases files.len(),
{
    if files.len() == 0 {
        Seq::empty()
    } else {
        let rest = offered_art_files_spec(story_stem, files.drop_last());
        let f = files.last();
        if offered_by_name(story_stem, f.0, f.1) {
            insert_by_lower_name(rest, f.1)
        } else {
            rest
        }
    }
}

proof fn lemma_insert_by_lower_name_at(names: Seq<Seq<char>>, n: Seq<char>, p: int)
    requires
        0 <= p <= names.len(),
        p > 0 ==> !text_lt(unicode_lowercase(n), unicode_lowercase(names[p - 1])),
        forall|k: int| p <= k < names.len() ==> text_lt(unicode_lowercase(n), #[trigger] unicode_lowercase(names[k])),
    ensures
        insert_by_lower_name(names, n) == names.insert(p, n),
    decreases names.len(),
{
    if names.len() == p {
        assert(names.insert(p, n) =~= names.push(n));
    } else {
        lemma_insert_by_lower_name_at(names.drop_last(), n, p);
        assert(names.drop_last().insert(p, n).push(names.last()) =~= names.insert(p, n));
    }
}

/// No name of `names` sorts, lower-cased, before one ahead of it.
pub open spec fn lower_names_ascend(names: Seq<Seq<char>>) -> bool {
    forall|i: int, j: int|
        0 <= i < j < names.len() ==> !text_lt(
            #[trigger] unicode_lowercase(names[j]),
            #[trigger] unicode_lowercase(names[i]),
        )
}

proof fn lemma_insert_by_lower_name_bounded(names: Seq<Seq<char>>, n: Seq<char>, b: Seq<char>)
    requires
        forall|i: int| 0 <= i < names.len() ==> !text_lt(b, #[trigger] unicode_lowercase(names[i])),
        !text_lt(b, unicode_lowercase(n)),
    ensures
        forall|i: int|
            0 <= i < insert_by_lower_name(names, n).len() ==> !text_lt(
                b,
                #[trigger] unicode_lowercase(insert_by_lower_name(names, n)[i]),
            ),
    decreases names.len(),
{
    if names.len() > 0 && text_lt(unicode_lowercase(n), unicode_lowercase(names.last())) {
        let d = names.drop_last();
        assert forall|i: int| 0 <= i < d.len() implies !text_lt(b, #[trigger] unicode_lowercase(d[i])) by {
            assert(d[i] == names[i]);
        }
        lemma_insert_by_lower_name_bounded(d, n, b);
        let t = insert_by_lower_name(d, n);
        let r = t.push(names.last());
        assert forall|i: int| 0 <= i < r.len() implies !text_lt(b, #[trigger] unicode_lowercase(r[i])) by {
            if i < t.len() {
                assert(r[i] == t[i]);
            }
        }
    } else {
        let r = names.push(n);
        assert forall|i: int| 0 <= i < r.len() implies !text_lt(b, #[trigger] unicode_lowercase(r[i])) by {
            if i < names.len() {
                assert(r[i] == names[i]);
            }
        }
    }
}

proof fn lemma_insert_by_lower_name_ascends(names: Seq<Seq<char>>, n: Seq<char>)
    requires
        lower_names_ascend(names),
    ensures
        lower_names_ascend(insert_by_lower_name(names, n)),
    decreases names.len(),
{
    let ln = unicode_lowercase(n);
    if names.len() == 0 || !text_lt(ln, unicode_lowercase(names.last())) {
        let r = names.push(n);
        assert forall|i: int, j: int| 0 <= i < j < r.len() implies !text_lt(
            #[trigger] unicode_lowercase(r[j]),
            #[trigger] unicode_lowercase(r[i]),
        ) by {
            if j == names.len() && i < names.len() - 1 {
                lemma_text_le_transitive(
                    unicode_lowercase(names[i]),
                    unicode_lowercase(names.last()),
                    ln,
                );
            }
        }
    } else {
        let last = names.last();
        let ll = unicode_lowercase(last);
        let t = insert_by_lower_name(names.drop_last(), n);
        lemma_insert_by_lower_name_ascends(names.drop_last(), n);
        assert forall|i: int| 0 <= i < names.drop_last().len() implies !text_lt(
            ll,
            #[trigger] unicode_lowercase(names.drop_last()[i]),
        ) by {
            assert(names.drop_last()[i] == names[i]);
        }
        if text_lt(ll, ln) {
            lemma_text_lt_transitive(ln, ll, ln);
            lemma_text_lt_irreflexive(ln);
        }
        lemma_insert_by_lower_name_bounded(names.drop_last(), n, ll);
        let r = t.push(last);
        assert forall|i: int, j: int| 0 <= i < j < r.len() implies !text_lt(
            #[trigger] unicode_lowercase(r[j]),
            #[trigger] unicode_lowercase(r[i]),
        ) by {
            if j == t.len() {
                assert(r[i] == t[i]);
            } else {
                assert(r[i] == t[i] && r[j] == t[j]);
            }
        }
    }
}

/// The files offered beside a story come in order of their lower-cased names.
pub proof fn lemma_offered_art_files_ascend(story_stem: Seq<char>, files: Seq<(Seq<char>, Seq<char>)>)
    ensures
        lower_names_ascend(offered_art_files_spec(story_stem, files)),
    decreases files.len(),
{
    if files.len() > 0 {
        lemma_offered_art_files_ascend(story_stem, files.drop_last());
        let f = files.last();
        if offered_by_name(story_stem, f.0, f.1) {
            lemma_insert_by_lower_name_ascends(offered_art_files_spec(story_stem, files.drop_last()), f.1);
        }
    }
}

proof fn lemma_insert_by_lower_name_members(names: Seq<Seq<char>>, n: Seq<char>, i: int)
    requires
        0 <= i < insert_by_lower_name(names, n).len(),
    ensures
        insert_by_lower_name(names, n)[i] == n || names.contains(insert_by_lower_name(names, n)[i]),
    decreases names.len(),
{
    if names.len() == 0 || !text_lt(unicode_lowercase(n), unicode_lowercase(names.last())) {
        if i < names.len() {
            assert(names.push(n)[i] == names[i]);
        }
    } else {
        let t = insert_by_lower_name(names.drop_last(), n);
        lemma_insert_bounded_len(names.drop_last(), n);
        if i < t.len() {
            assert(t.push(names.last())[i] == t[i]);
            lemma_insert_by_lower_name_members(names.drop_last(), n, i);
            if t[i] != n {
                let k = choose|k: int| 0 <= k < names.drop_last().len() && names.drop_last()[k] == t[i];
                assert(names[k] == t[i]);
            }
        } else {
            assert(names.contains(names.last()));
        }
    }
}

proof fn lemma_insert_bounded_len(names: Seq<Seq<char>>, n: Seq<char>)
    ensures
        insert_by_lower_name(names, n).len() == names.len() + 1,
    decreases names.len(),
{
    if names.len() > 0 && text_lt(unicode_lowercase(n), unicode_lowercase(names.last())) {
        lemma_insert_bounded_len(names.drop_last(), n);
    }
}

/// Every file offered beside a story passed the name filter: it is one of the
/// given files, and its name looks like a picture archive of the story.
pub proof fn lemma_offered_art_files_pass_the_filter(
    story_stem: Seq<char>,
    files: Seq<(Seq<char>, Seq<char>)>,
    i: int,
)
    requires
        0 <= i < offered_art_files_spec(story_stem, files).len(),
    ensures
        exists|k: int|
            0 <= k < files.len() && #[trigger] files[k].1 == offered_art_files_spec(story_stem, files)[i]
                && offered_by_name(story_stem, files[k].0, files[k].1),
    decreases files.len(),
{
    let rest = offered_art_files_spec(story_stem, files.drop_last());
    let f = files.last();
    let out = offered_art_files_spec(story_stem, files);
    if offered_by_name(story_stem, f.0, f.1) {
        lemma_insert_by_lower_name_members(rest, f.1, i);
        if out[i] == f.1 {
            assert(files[files.len() - 1].1 == out[i]);
        } else {
            let j = choose|j: int| 0 <= j < rest.len() && rest[j] == out[i];
            lemma_offered_art_files_pass_the_filter(story_stem, files.drop_last(), j);
            let k = choose|k: int|
                0 <= k < files.drop_last().len() && #[trigger] files.drop_last()[k].1 == rest[j]
                    && offered_by_name(story_stem, files.drop_last()[k].0, files.drop_last()[k].1);
            assert(files[k] == files.drop_last()[k]);
        }
    } else {
        lemma_offered_art_files_pass_the_filter(story_stem, files.drop_last(), i);
        let k = choose|k: int|
            0 <= k < files.drop_last().len() && #[trigger] files.drop_last()[k].1 == rest[i]
                && offered_by_name(story_stem, files.drop_last()[k].0, files.drop_last()[k].1);
        assert(files[k] == files.drop_last()[k]);
    }
}

/// The files beside a story that are offered as its picture archives, by name
/// alone: `files` are the `(stem, name)` pairs of the regular files in the
/// story's directory. The list is ordered by lower-cased name.
pub fn offered_art_files(story_stem: &str, files: &Vec<(String, String)>) -> (names: Vec<String>)
    ensures
        names@.map_values(|n: String| n@) == offered_art_files_spec(
            story_stem@,
            files@.map_values(|f: (String, String)| (f.0@, f.1@)),
        ),
{
    let ghost fv = files@.map_values(|f: (String, String)| (f.0@, f.1@));
    let mut names: Vec<String> = Vec::new();
    let mut keys: Vec<String> = Vec::new();
    let mut i: usize = 0;
    assert(fv.take(0) =~= Seq::<(Seq<char>, Seq<char>)>::empty());
    assert(names@.map_values(|n: String| n@) =~= Seq::<Seq<char>>::empty());
    while i < files.len()
        invariant
            i <= files@.len(),
            fv == files@.map_values(|f: (String, String)| (f.0@, f.1@)),
            keys@.len() == names@.len(),
            forall|j: int| 0 <= j < keys@.len() ==> #[trigger] keys@[j]@ == unicode_lowercase(names@[j]@),
            names@.map_values(|n: String| n@) == offered_art_files_spec(story_stem@, fv.take(i as int)),
        decreases files@.len() - i,
    {
        let stem = files[i].0.as_str();
        let filename = files[i].1.as_str();
        let ghost before = names@.map_values(|n: String| n@);
        proof {
            assert(fv.take(i + 1).drop_last() =~= fv.take(i as int));
            assert(fv.take(i + 1).last() == (stem@, filename@));
        }
        if looks_like_art_name(filename) && belongs_to_story(story_stem, stem, filename) {
            let key = to_lowercase(filename);
            let mut p: usize = names.len();
            while p > 0 && str_lt(key.as_str(), keys[p - 1].as_str())
                invariant
                    p <= keys@.len(),
                    keys@.len() == names@.len(),
                    key@ == unicode_lowercase(filename@),
                    before == names@.map_values(|n: String| n@),
                    forall|j: int| 0 <= j < keys@.len() ==> #[trigger] keys@[j]@ == unicode_lowercase(names@[j]@),
                    forall|k: int| p <= k < names@.len() ==> text_lt(
                        unicode_lowercase(filename@),
                        #[trigger] unicode_lowercase(before[k]),
                    ),
                decreases p,
            {
                assert(before[p - 1] == names@[p - 1]@);
                assert(text_lt(unicode_lowercase(filename@), unicode_lowercase(before[p - 1])));
                p = p - 1;
            }
            proof {
                if p > 0 {
                    assert(before[p - 1] == names@[p - 1]@);
                }
                lemma_insert_by_lower_name_at(before, filename@, p as int);
            }
            let ghost old_names = names@;
            let ghost old_keys = keys@;
            names.insert(p, string_of(filename));
            keys.insert(p, key);
            proof {
                assert(names@.map_values(|n: String| n@) =~= before.insert(p as int, filename@));
                assert forall|j: int| 0 <= j < keys@.len() implies #[trigger] keys@[j]@ == unicode_lowercase(
                    names@[j]@,
                ) by {
                    if j < p {
                        assert(keys@[j] == old_keys[j] && names@[j] == old_names[j]);
                    } else if j > p {
                        assert(keys@[j] == old_keys[j - 1] && names@[j] == old_names[j - 1]);
                    }
                }
            }
        }
        i = i + 1;
    }
    assert(fv.take(files@.len() as int) =~= fv);
    names
}

/// The trailing note of a candidate row: `  <n> disks` for a multi-part set
/// shown as one row, `  part <n>` for a lone continuation, and nothing for an
/// ordinary single-file archive.
pub open spec fn parts_note_spec(part: u8, parts: u8) -> Seq<char> {
    if parts > 1 {
        "  "@ + decimal(parts as nat) + " disks"@
    } else if part != 1 {
        "  part "@ + decimal(part as nat)
    } else {
        Seq::empty()
    }
}

/// The "…and it is more than one file" phrase of a candidate row.
pub fn parts_note(c: &ArtCandidate) -> (s: String)
    ensures
        s@ == parts_note_spec(c.part, c.parts),
{
    let mut s = String::new();
    if c.parts > 1 {
        push_str(&mut s, "  ");
        push_decimal(&mut s, c.parts as u64);
        push_str(&mut s, " disks");
    } else if c.part != 1 {
        push_str(&mut s, "  part ");
        push_decimal(&mut s, c.part as u64);
    }
    s
}

/// The rendition a person recognises: the codec and picture-space width are
/// read from the file; a 640-wide PC archive is told EGA from CGA only by its
/// DOS extension, and is `EGA/CGA` under any other name.
pub open spec fn rendition_spec(flavour: Flavour, space_width: u16, filename: Seq<char>) -> Seq<char> {
    let lower = unicode_lowercase(filename);
    match flavour {
        Flavour::AmigaMac => "Amiga"@,
        Flavour::Pc => if space_width == 320 {
            "MCGA"@
        } else if has_suffix(lower, ".cg1"@) || has_suffix(lower, ".cg2"@) {
            "CGA"@
        } else if has_suffix(lower, ".eg1"@) || has_suffix(lower, ".eg2"@) {
            "EGA"@
        } else {
            "EGA/CGA"@
        },
    }
}

/// The rendition label of an archive.
pub fn rendition_label(flavour: Flavour, space_width: u16, filename: &str) -> (r: &'static str)
    ensures
        r@ == rendition_spec(flavour, space_width, filename@),
{
    match flavour {
        Flavour::AmigaMac => "Amiga",
        Flavour::Pc => {
            if space_width == 320 {
                return "MCGA";
            }
            let lower = to_lowercase(filename);
            let l = lower.as_str();
            if ends_with(l, ".cg1") || ends_with(l, ".cg2") {
                "CGA"
            } else if ends_with(l, ".eg1") || ends_with(l, ".eg2") {
                "EGA"
            } else {
                "EGA/CGA"
            }
        },
    }
}

// ── The derived interpreter number ───────────────────────────────────────────

/// Why the launch advertises the interpreter number it does.
#[derive(Debug, Clone, Copy, PartialEq, Eq, Structural, Hash)]
pub enum InterpreterSource {
    /// Set outright, in the dialog, on the command line or in a config file.
    Explicit,
    /// Inferred from the flavour of the chosen picture archive.
    Artwork,
    /// Inferred from the medium: a story mounted out of an Amiga floppy.
    DiskImage,
    /// Nobody said anything: 6 for Version 6 and 1 otherwise.
    Default,
}

impl InterpreterSource {
    /// The provenance phrase shown after the number.
    pub fn label(self) -> (s: &'static str)
        ensures
            s@ == (match self {
                InterpreterSource::Explicit => "set here"@,
                InterpreterSource::Artwork => "from the artwork"@,
                InterpreterSource::DiskImage => "from the disk image"@,
                InterpreterSource::Default => "default for this story"@,
            }),
    {
        match self {
            InterpreterSource::Explicit => "set here",
            InterpreterSource::Artwork => "from the artwork",
            InterpreterSource::DiskImage => "from the disk image",
            InterpreterSource::Default => "default for this story",
        }
    }
}

/// The ZMSD §11.1.3 machine name of an interpreter number, or `?`.
pub open spec fn interpreter_name_spec(n: u8) -> Seq<char> {
    if n == 1 {
        "DECSystem-20"@
    } else if n == 2 {
        "Apple IIe"@
    } else if n == 3 {
        "Macintosh"@
    } else if n == 4 {
        "Amiga"@
    } else if n == 5 {
        "Atari ST"@
    } else if n == 6 {
        "IBM PC"@
    } else if n == 7 {
        "Commodore 128"@
    } else if n == 8 {
        "Commodore 64"@
    } else if n == 9 {
        "Apple IIc"@
    } else if n == 10 {
        "Apple IIgs"@
    } else if n == 11 {
        "Tandy Color"@
    } else {
        "?"@
    }
}

/// The length, first and last character of an interpreter's name: enough to
/// tell any two of them apart.
spec fn name_signature(n: u8) -> (nat, char, char) {
    let s = interpreter_name_spec(n);
    (s.len(), s[0], s[s.len() - 1])
}

proof fn lemma_name_signature(n: u8)
    ensures
        name_signature(n) == if n == 1 {
            (12nat, 'D', '0')
        } else if n == 2 {
            (9nat, 'A', 'e')
        } else if n == 3 {
            (9nat, 'M', 'h')
        } else if n == 4 {
            (5nat, 'A', 'a')
        } else if n == 5 {
            (8nat, 'A', 'T')
        } else if n == 6 {
            (6nat, 'I', 'C')
        } else if n == 7 {
            (13nat, 'C', '8')
        } else if n == 8 {
            (12nat, 'C', '4')
        } else if n == 9 {
            (9nat, 'A', 'c')
        } else if n == 10 {
            (10nat, 'A', 's')
        } else if n == 11 {
            (11nat, 'T', 'r')
        } else {
            (1nat, '?', '?')
        },
{
    if n == 1 {
        reveal_strlit("DECSystem-20");
    } else if n == 2 {
        reveal_strlit("Apple IIe");
    } else if n == 3 {
        reveal_strlit("Macintosh");
    } else if n == 4 {
        reveal_strlit("Amiga");
    } else if n == 5 {
        reveal_strlit("Atari ST");
    } else if n == 6 {
        reveal_strlit("IBM PC");
    } else if n == 7 {
        reveal_strlit("Commodore 128");
    } else if n == 8 {
        reveal_strlit("Commodore 64");
    } else if n == 9 {
        reveal_strlit("Apple IIc");
    } else if n == 10 {
        reveal_strlit("Apple IIgs");
    } else if n == 11 {
        reveal_strlit("Tandy Color");
    } else {
        reveal_strlit("?");
    }
}

/// Interpreter numbers 1 through 11 have names of their own, no two alike;
/// every other number is shown as `?`.
pub proof fn lemma_interpreter_names_distinct(a: u8, b: u8)
    ensures
        (interpreter_name_spec(a) == "?"@) <==> (a == 0 || a >= 12),
        1 <= a <= 11 && 1 <= b <= 11 && a != b ==> interpreter_name_spec(a) != interpreter_name_spec(b),
{
    lemma_name_signature(a);
    lemma_name_signature(b);
    lemma_name_signature(0);
    reveal_strlit("?");
    if interpreter_name_spec(a) == interpreter_name_spec(b) {
        assert(name_signature(a) == name_signature(b));
    }
    if interpreter_name_spec(a) == "?"@ {
        assert(name_signature(a) == name_signature(0));
    }
}

/// The machine name for an interpreter number; `?` for a number that names
/// none.
pub fn interpreter_name(n: u8) -> (s: &'static str)
    ensures
        s@ == interpreter_name_spec(n),
        (s@ == "?"@) <==> (n == 0 || n >= 12),
{
    proof {
        lemma_interpreter_names_distinct(n, n);
    }
    match n {
        1 => "DECSystem-20",
        2 => "Apple IIe",
        3 => "Macintosh",
        4 => "Amiga",
        5 => "Atari ST",
        6 => "IBM PC",
        7 => "Commodore 128",
        8 => "Commodore 64",
        9 => "Apple IIc",
        10 => "Apple IIgs",
        11 => "Tandy Color",
        _ => "?",
    }
}

/// How many interpreter choices the dialog cycles through.
pub const INTERPRETER_CHOICE_COUNT: usize = 12;

/// The `i`-th interpreter choice in cycling order: auto, then 1 through 11.
pub open spec fn interpreter_choice(i: int) -> Option<u8> {
    if i == 0 { None } else { Some(i as u8) }
}

/// The interpreter numbers the dialog offers, in cycling order: `None`
/// (auto) followed by the whole ZMSD table.
pub fn interpreter_choices() -> (v: Vec<Option<u8>>)
    ensures
        v@.len() == INTERPRETER_CHOICE_COUNT,
        forall|i: int| 0 <= i < INTERPRETER_CHOICE_COUNT ==> v@[i] == interpreter_choice(i),
{
    let mut v: Vec<Option<u8>> = Vec::new();
    v.push(None);
    let mut k: u8 = 1;
    while k < 12
        invariant
            1 <= k <= 12,
            v@.len() == k,
            forall|i: int| 0 <= i < k ==> v@[i] == interpreter_choice(i),
        decreases 12 - k,
    {
        v.push(Some(k));
        k = k + 1;
    }
    v
}

/// The default rule: 6 for a Version 6 story, 1 otherwise.
pub open spec fn default_interpreter(version: u8) -> u8 {
    if version == 6 { 6 } else { 1 }
}

/// The number a launch would advertise and why: an explicit number wins; a
/// story with no Z-machine version (Glulx, Scott Adams) has none to report;
/// then the chosen archive's machine (the IBM PC deferring to the default
/// rule), then an Amiga disk image, then the default rule.
pub open spec fn derived_spec(explicit: Option<u8>, art: Option<Flavour>, disk_image: bool, z_version: Option<u8>) -> Option<
    (u8, InterpreterSource),
> {
    match explicit {
        Some(n) => Some((n, InterpreterSource::Explicit)),
        None => match z_version {
            None => None,
            Some(v) => match art {
                Some(f) => Some(
                    (
                        if f == Flavour::AmigaMac { AMIGA_INTERPRETER_NUMBER } else { default_interpreter(v) },
                        InterpreterSource::Artwork,
                    ),
                ),
                None => if disk_image {
                    Some((AMIGA_INTERPRETER_NUMBER, InterpreterSource::DiskImage))
                } else {
                    Some((default_interpreter(v), InterpreterSource::Default))
                },
            },
        },
    }
}

/// The flavour of an optional candidate.
pub open spec fn art_flavour(art: Option<&ArtCandidate>) -> Option<Flavour> {
    match art {
        Some(c) => Some(c.flavour),
        None => None,
    }
}

/// Resolve the interpreter number a launch would advertise, and say where it
/// came from (see [`derived_spec`]).
pub fn derived_interpreter(
    explicit: Option<u8>,
    art: Option<&ArtCandidate>,
    disk_image: bool,
    z_version: Option<u8>,
) -> (r: Option<(u8, InterpreterSource)>)
    ensures
        r == derived_spec(explicit, art_flavour(art), disk_image, z_version),
{
    if let Some(n) = explicit {
        return Some((n, InterpreterSource::Explicit));
    }
    let version = match z_version {
        Some(v) => v,
        None => return None,
    };
    if let Some(c) = art {
        let n = match c.profile().interpreter_number() {
            Some(n) => n,
            None => if version == 6 { 6 } else { 1 },
        };
        return Some((n, InterpreterSource::Artwork));
    }
    if disk_image {
        return Some((AMIGA_INTERPRETER_NUMBER, InterpreterSource::DiskImage));
    }
    Some((if version == 6 { 6 } else { 1 }, InterpreterSource::Default))
}

// ── The dialog ───────────────────────────────────────────────────────────────

/// Which row of the dialog the cursor is on: the art rows first (0 is "no
/// override", `i` the `i`-th candidate), then the interpreter row, then the
/// persist checkbox.
#[derive(Debug, Clone, Copy, PartialEq, Eq, Structural)]
pub enum Row {
    Art(usize),
    Interpreter,
    Persist,
}

/// What a key did to the dialog.
#[derive(Debug, Clone, Copy, PartialEq, Eq, Structural)]
pub enum LaunchOptionsAction {
    /// Nothing the caller must act on.
    Nothing,
    /// Start the story with these options.
    Play,
    /// Back out; launch nothing.
    Cancel,
}

/// Everything the launch-options dialog holds while it is open.
///
/// The two `baseline_*` fields are what the story already inherits with no
/// dialog involved; what the launch applies and what the checkbox writes are
/// both differences from them, so a key is never written at the value it
/// already inherits.
#[derive(Debug, Clone)]
pub struct LaunchOptionsState {
    pub title: String,
    pub story_path: std::path::PathBuf,
    pub candidates: Vec<ArtCandidate>,
    /// `0` = inherit; `i >= 1` selects `candidates[i - 1]`.
    pub art: usize,
    pub interpreter: Option<u8>,
    pub persist: bool,
    pub cursor: Row,
    /// Button focus ring: `0` = Play, `1` = Cancel.
    pub focus: usize,
    pub baseline_art: usize,
    pub baseline_interpreter: Option<u8>,
    /// The story's Z-machine version; `None` for a non-Z story.
    pub z_version: Option<u8>,
    /// The story was mounted out of an Amiga release floppy.
    pub disk_image: bool,
}

/// The index of the first candidate name equal to `name` but for ASCII case,
/// plus one; 0 when there is none.
pub open spec fn seed_art(names: Seq<Seq<char>>, name: Seq<char>) -> nat
    decreases names.len(),
{
    if names.len() == 0 {
        0
    } else {
        let r = seed_art(names.drop_last(), name);
        if r == 0 && eq_ignore_case_seq(names.last(), name) { names.len() } else { r }
    }
}

/// The candidates' filenames.
pub open spec fn candidate_names(c: Seq<ArtCandidate>) -> Seq<Seq<char>> {
    c.map_values(|a: ArtCandidate| a.filename@)
}

/// The flat index of a cursor row among `n` candidates.
pub open spec fn cursor_index_spec(cursor: Row, n: nat) -> nat {
    match cursor {
        Row::Art(i) => i as nat,
        Row::Interpreter => n + 1,
        Row::Persist => n + 2,
    }
}

/// The row at flat index `idx` among `n` candidates, clamped to the last row.
pub open spec fn row_at(idx: nat, n: nat) -> Row {
    if idx <= n {
        Row::Art(idx as usize)
    } else if idx == n + 1 {
        Row::Interpreter
    } else {
        Row::Persist
    }
}

/// The position of an interpreter setting among the choices; a number outside
/// them counts as auto.
pub open spec fn choice_position(x: Option<u8>) -> int {
    match x {
        None => 0,
        Some(k) => if 1 <= k <= 11 { k as int } else { 0 },
    }
}

/// The interpreter setting `dir` steps round the choices from `x`.
pub open spec fn cycle_interpreter(x: Option<u8>, dir: int) -> Option<u8> {
    interpreter_choice((choice_position(x) + dir) % (INTERPRETER_CHOICE_COUNT as int))
}

/// The overrides a dialog state yields: each field only where it differs from
/// the baseline.
pub open spec fn overrides_spec(st: LaunchOptionsState) -> (Option<Seq<char>>, Option<u8>) {
    let n = st.candidates@.len();
    (
        if st.art != st.baseline_art && st.art >= 1 && st.art - 1 < n {
            Some(st.candidates@[st.art - 1].filename@)
        } else {
            None
        },
        if st.interpreter != st.baseline_interpreter { st.interpreter } else { None },
    )
}

/// The keys written to the per-game config: `Some(v)` writes `v` (an absent
/// value clears the key), `None` leaves the key alone.
#[derive(Debug, Clone, PartialEq, Eq)]
pub struct SidecarWrites {
    pub pictures: Option<Option<String>>,
    pub interpreter_number: Option<Option<u8>>,
}

/// What the checkbox writes: the chosen archive's name (or a cleared key for
/// "inherit") when the archive choice moved from its baseline, and the chosen
/// interpreter number when that moved.
pub open spec fn sidecar_writes_spec(st: LaunchOptionsState) -> (Option<Option<Seq<char>>>, Option<Option<u8>>) {
    let n = st.candidates@.len();
    (
        if st.art != st.baseline_art {
            if st.art >= 1 && st.art - 1 < n {
                Some(Some(st.candidates@[st.art - 1].filename@))
            } else {
                Some(None)
            }
        } else {
            None
        },
        if st.interpreter != st.baseline_interpreter { Some(st.interpreter) } else { None },
    )
}

/// The chosen archive's flavour, if an archive is chosen.
pub open spec fn chosen_flavour(st: LaunchOptionsState) -> Option<Flavour> {
    if st.art >= 1 && st.art - 1 < st.candidates@.len() {
        Some(st.candidates@[st.art - 1].flavour)
    } else {
        None
    }
}

/// What one key does to the dialog: the new art choice, interpreter, checkbox,
/// cursor and focus, and the action. Up/Down/Home/End move the row cursor
/// (without running off either end); Tab and BackTab move the button focus;
/// Left/Right cycle the interpreter row or flip the checkbox; an unmodified
/// Space acts on the row under the cursor (select the archive, advance the
/// interpreter, flip the checkbox); Enter activates the focused button; Esc
/// cancels.
pub open spec fn key_effect(st: LaunchOptionsState, key: KeyPress) -> (
    usize,
    Option<u8>,
    bool,
    Row,
    usize,
    LaunchOptionsAction,
) {
    let n = st.candidates@.len();
    let idx = cursor_index_spec(st.cursor, n);
    let same = (st.art, st.interpreter, st.persist, st.cursor, st.focus, LaunchOptionsAction::Nothing);
    let cycled = |dir: int|
        match st.cursor {
            Row::Interpreter => (st.art, cycle_interpreter(st.interpreter, dir), st.persist),
            Row::Persist => (st.art, st.interpreter, !st.persist),
            Row::Art(_) => (st.art, st.interpreter, st.persist),
        };
    match key.code {
        Key::Up => (st.art, st.interpreter, st.persist, row_at(if idx > 0 { (idx - 1) as nat } else { 0 }, n), st.focus,
            LaunchOptionsAction::Nothing),
        Key::Down => (st.art, st.interpreter, st.persist, row_at(if idx + 1 < n + 2 { idx + 1 } else { n + 2 }, n),
            st.focus, LaunchOptionsAction::Nothing),
        Key::Home => (st.art, st.interpreter, st.persist, row_at(0, n), st.focus, LaunchOptionsAction::Nothing),
        Key::End => (st.art, st.interpreter, st.persist, row_at(n + 2, n), st.focus, LaunchOptionsAction::Nothing),
        Key::Tab => (st.art, st.interpreter, st.persist, st.cursor, ((st.focus + 1) % 2) as usize,
            LaunchOptionsAction::Nothing),
        Key::BackTab => (st.art, st.interpreter, st.persist, st.cursor, ((st.focus - 1) % 2) as usize,
            LaunchOptionsAction::Nothing),
        Key::Left => {
            let c = cycled(-1);
            (c.0, c.1, c.2, st.cursor, st.focus, LaunchOptionsAction::Nothing)
        },
        Key::Right => {
            let c = cycled(1);
            (c.0, c.1, c.2, st.cursor, st.focus, LaunchOptionsAction::Nothing)
        },
        Key::Char(c) => if c == ' ' && key.modifiers == 0 {
            match st.cursor {
                Row::Art(i) => (i, st.interpreter, st.persist, st.cursor, st.focus, LaunchOptionsAction::Nothing),
                Row::Interpreter => (st.art, cycle_interpreter(st.interpreter, 1), st.persist, st.cursor, st.focus,
                    LaunchOptionsAction::Nothing),
                Row::Persist => (st.art, st.interpreter, !st.persist, st.cursor, st.focus,
                    LaunchOptionsAction::Nothing),
            }
        } else {
            same
        },
        Key::Enter => (st.art, st.interpreter, st.persist, st.cursor, st.focus, if st.focus == 1 {
            LaunchOptionsAction::Cancel
        } else {
            LaunchOptionsAction::Play
        }),
        Key::Esc => (st.art, st.interpreter, st.persist, st.cursor, st.focus, LaunchOptionsAction::Cancel),
        _ => same,
    }
}

impl LaunchOptionsState {
    /// The dialog's indices lie within its rows: the art choice, its baseline
    /// and an art cursor name "inherit" or a candidate, and the row count fits
    /// in a `usize`.
    pub open spec fn wf(&self) -> bool {
        let n = self.candidates@.len();
        &&& n + 3 <= usize::MAX
        &&& self.art <= n
        &&& self.baseline_art <= n
        &&& (match self.cursor {
            Row::Art(i) => i <= n,
            _ => true,
        })
    }

    /// Open the dialog for a story, seeded with what it already inherits:
    /// `candidates` are the archives found beside it, `inherited_pictures` the
    /// per-game sidecar's `pictures` key, `inherited_interpreter` the number in
    /// force before the dialog. The inherited archive is matched by name,
    /// ignoring ASCII case; one that is not among the candidates leaves the
    /// art choice at "inherit".
    pub fn new(
        title: &str,
        story_path: std::path::PathBuf,
        candidates: Vec<ArtCandidate>,
        inherited_pictures: Option<&str>,
        inherited_interpreter: Option<u8>,
        z_version: Option<u8>,
        disk_image: bool,
    ) -> (st: LaunchOptionsState)
        requires
            candidates@.len() + 3 <= usize::MAX,
        ensures
            st.wf(),
            st.title@ == title@,
            st.candidates@ == candidates@,
            st.art == (match inherited_pictures {
                Some(name) => seed_art(candidate_names(candidates@), name@),
                None => 0,
            }),
            st.baseline_art == st.art,
            st.interpreter == inherited_interpreter,
            st.baseline_interpreter == inherited_interpreter,
            !st.persist,
            st.cursor == Row::Art(st.art),
            st.focus == 0,
            st.z_version == z_version,
            st.disk_image == disk_image,
    {
        let mut art: usize = 0;
        if let Some(name) = inherited_pictures {
            let ghost names = candidate_names(candidates@);
            let n = candidates.len();
            let mut i: usize = 0;
            assert(names.take(0) =~= Seq::<Seq<char>>::empty());
            while i < n
                invariant
                    n == candidates@.len(),
                    names == candidate_names(candidates@),
                    i <= n,
                    art <= i,
                    art == seed_art(names.take(i as int), name@),
                decreases n - i,
            {
                assert(names.take(i + 1).drop_last() =~= names.take(i as int));
                assert(names.take(i + 1).last() == candidates@[i as int].filename@);
                if art == 0 && str_eq_ignore_case(candidates[i].filename.as_str(), name) {
                    art = i + 1;
                }
                i = i + 1;
            }
            assert(names.take(n as int) =~= names);
        }
        LaunchOptionsState {
            title: crate::text::string_of(title),
            story_path,
            candidates,
            art,
            interpreter: inherited_interpreter,
            persist: false,
            cursor: Row::Art(art),
            focus: 0,
            baseline_art: art,
            baseline_interpreter: inherited_interpreter,
            z_version,
            disk_image,
        }
    }

    /// The chosen archive, or `None` for "inherit".
    pub fn chosen_art(&self) -> (r: Option<&ArtCandidate>)
        ensures
            match r {
                Some(c) => self.art >= 1 && self.art - 1 < self.candidates@.len() && *c == self.candidates@[self.art
                    - 1],
                None => !(self.art >= 1 && self.art - 1 < self.candidates@.len()),
            },
    {
        if self.art >= 1 && self.art - 1 < self.candidates.len() {
            Some(&self.candidates[self.art - 1])
        } else {
            None
        }
    }

    /// The number this launch would advertise, and where it came from.
    pub fn derived(&self) -> (r: Option<(u8, InterpreterSource)>)
        ensures
            r == derived_spec(self.interpreter, chosen_flavour(*self), self.disk_image, self.z_version),
    {
        derived_interpreter(self.interpreter, self.chosen_art(), self.disk_image, self.z_version)
    }

    /// Total selectable rows: one per art choice (plus "inherit"), the
    /// interpreter row and the persist checkbox.
    pub fn row_count(&self) -> (n: usize)
        requires
            self.wf(),
        ensures
            n == self.candidates@.len() + 3,
    {
        self.candidates.len() + 3
    }

    /// The cursor as a flat row index.
    pub fn cursor_index(&self) -> (i: usize)
        requires
            self.wf(),
        ensures
            i == cursor_index_spec(self.cursor, self.candidates@.len()),
    {
        match self.cursor {
            Row::Art(i) => i,
            Row::Interpreter => self.candidates.len() + 1,
            Row::Persist => self.candidates.len() + 2,
        }
    }

    /// Move the cursor to a flat row index, clamped to the last row.
    pub fn set_cursor_index(&mut self, idx: usize)
        requires
            old(self).wf(),
        ensures
            final(self).wf(),
            final(self).cursor == row_at(idx as nat, old(self).candidates@.len()),
            *final(self) == (LaunchOptionsState { cursor: final(self).cursor, ..*old(self) }),
    {
        let n = self.candidates.len();
        self.cursor = if idx <= n {
            Row::Art(idx)
        } else if idx == n + 1 {
            Row::Interpreter
        } else {
            Row::Persist
        };
    }

    /// The overrides this launch should carry: only what differs from what the
    /// story already inherits. An untouched dialog yields none.
    pub fn overrides(&self) -> (o: LaunchOverrides)
        ensures
            (match o.pictures {
                Some(p) => Some(p@),
                None => None,
            }, o.interpreter_number) == overrides_spec(*self),
    {
        let pictures = if self.art != self.baseline_art {
            match self.chosen_art() {
                Some(c) => Some(c.filename.clone()),
                None => None,
            }
        } else {
            None
        };
        let interpreter_number = if self.interpreter != self.baseline_interpreter {
            self.interpreter
        } else {
            None
        };
        LaunchOverrides { pictures, interpreter_number }
    }

    /// Did the user clear an inherited archive? ("Inherit" over a sidecar that
    /// names one cannot be an override; only the checkbox carries it.)
    pub fn clears_inherited_art(&self) -> (b: bool)
        ensures
            b == (self.art == 0 && self.baseline_art != 0),
    {
        self.art == 0 && self.baseline_art != 0
    }

    /// Same, for the interpreter number.
    pub fn clears_inherited_interpreter(&self) -> (b: bool)
        ensures
            b == (self.interpreter is None && self.baseline_interpreter is Some),
    {
        self.interpreter.is_none() && self.baseline_interpreter.is_some()
    }

    /// The per-game config keys the checkbox writes: each key whose choice
    /// differs from what the story inherits, and only those. A key the dialog
    /// merely displayed is never written, since writing the inherited value
    /// would turn an inheritance into a pin.
    pub fn sidecar_writes(&self) -> (w: SidecarWrites)
        ensures
            (match w.pictures {
                Some(Some(p)) => Some(Some(p@)),
                Some(None) => Some(None),
                None => None,
            }, w.interpreter_number) == sidecar_writes_spec(*self),
    {
        let pictures = if self.art != self.baseline_art {
            match self.chosen_art() {
                Some(c) => Some(Some(c.filename.clone())),
                None => Some(None),
            }
        } else {
            None
        };
        let interpreter_number = if self.interpreter != self.baseline_interpreter {
            Some(self.interpreter)
        } else {
            None
        };
        SidecarWrites { pictures, interpreter_number }
    }

    /// Handle one keystroke, the settings screen's way (see [`key_effect`]).
    pub fn on_key(&mut self, key: KeyPress) -> (r: LaunchOptionsAction)
        requires
            old(self).wf(),
        ensures
            final(self).wf(),
            (final(self).art, final(self).interpreter, final(self).persist, final(self).cursor, final(self).focus, r)
                == key_effect(*old(self), key),
            *final(self) == (LaunchOptionsState {
                art: final(self).art,
                interpreter: final(self).interpreter,
                persist: final(self).persist,
                cursor: final(self).cursor,
                focus: final(self).focus,
                ..*old(self)
            }),
    {
        let n = self.row_count();
        match key.code {
            Key::Up => {
                let i = self.cursor_index();
                self.set_cursor_index(if i > 0 { i - 1 } else { 0 });
                LaunchOptionsAction::Nothing
            },
            Key::Down => {
                let i = self.cursor_index();
                self.set_cursor_index(if i + 1 < n - 1 { i + 1 } else { n - 1 });
                LaunchOptionsAction::Nothing
            },
            Key::Home => {
                self.set_cursor_index(0);
                LaunchOptionsAction::Nothing
            },
            Key::End => {
                self.set_cursor_index(n - 1);
                LaunchOptionsAction::Nothing
            },
            Key::Tab => {
                self.focus = cycle_focus(self.focus, 2, 1);
                LaunchOptionsAction::Nothing
            },
            Key::BackTab => {
                self.focus = cycle_focus(self.focus, 2, -1);
                LaunchOptionsAction::Nothing
            },
            Key::Left => {
                self.cycle(-1);
                LaunchOptionsAction::Nothing
            },
            Key::Right => {
                self.cycle(1);
                LaunchOptionsAction::Nothing
            },
            Key::Char(c) => {
                if c == ' ' && key.modifiers == 0 {
                    self.activate_row();
                }
                LaunchOptionsAction::Nothing
            },
            Key::Enter => {
                if self.focus == 1 {
                    LaunchOptionsAction::Cancel
                } else {
                    LaunchOptionsAction::Play
                }
            },
            Key::Esc => LaunchOptionsAction::Cancel,
            _ => LaunchOptionsAction::Nothing,
        }
    }

    /// Space on the cursor row: select this archive, advance the interpreter
    /// by one, or flip the checkbox.
    fn activate_row(&mut self)
        requires
            old(self).wf(),
        ensures
            final(self).wf(),
            *final(self) == (match old(self).cursor {
                Row::Art(i) => LaunchOptionsState { art: i, ..*old(self) },
                Row::Interpreter => LaunchOptionsState {
                    interpreter: cycle_interpreter(old(self).interpreter, 1),
                    ..*old(self)
                },
                Row::Persist => LaunchOptionsState { persist: !old(self).persist, ..*old(self) },
            }),
    {
        match self.cursor {
            Row::Art(i) => self.art = i,
            Row::Interpreter => self.cycle(1),
            Row::Persist => self.persist = !self.persist,
        }
    }

    /// Left/Right on the cursor row: the interpreter row steps round its
    /// choices, the checkbox flips, and an art row (a radio button) stays.
    fn cycle(&mut self, dir: i64)
        requires
            old(self).wf(),
            dir == 1 || dir == -1,
        ensures
            final(self).wf(),
            *final(self) == (match old(self).cursor {
                Row::Interpreter => LaunchOptionsState {
                    interpreter: cycle_interpreter(old(self).interpreter, dir as int),
                    ..*old(self)
                },
                Row::Persist => LaunchOptionsState { persist: !old(self).persist, ..*old(self) },
                Row::Art(_) => *old(self),
            }),
    {
        match self.cursor {
            Row::Interpreter => {
                let cur: usize = match self.interpreter {
                    None => 0,
                    Some(k) => if 1 <= k && k <= 11 { k as usize } else { 0 },
                };
                let next = cycle_focus(cur, INTERPRETER_CHOICE_COUNT, dir);
                self.interpreter = if next == 0 { None } else { Some(next as u8) };
            },
            Row::Persist => self.persist = !self.persist,
            Row::Art(_) => {},
        }
    }
}

// ── Laws ─────────────────────────────────────────────────────────────────────

/// A dialog whose choices still equal what the story inherits overrides
/// nothing: opening it and pressing Play is an ordinary launch.
pub proof fn lemma_untouched_overrides_nothing(st: LaunchOptionsState)
    requires
        st.art == st.baseline_art,
        st.interpreter == st.baseline_interpreter,
    ensures
        overrides_spec(st) == (None::<Seq<char>>, None::<u8>),
{
}

/// An override is only ever what changed: a picture override means the art
/// choice moved off its baseline to a candidate, and an interpreter override
/// is the chosen number, moved off its baseline.
pub proof fn lemma_overrides_only_what_changed(st: LaunchOptionsState)
    ensures
        overrides_spec(st).0 is Some ==> st.art != st.baseline_art && st.art >= 1,
        overrides_spec(st).1 is Some ==> st.interpreter != st.baseline_interpreter && overrides_spec(st).1
            == st.interpreter,
{
}

/// Stepping the interpreter row right and then left comes back to where it
/// was, for every value the row offers.
pub proof fn lemma_cycle_interpreter_round_trip(x: Option<u8>)
    requires
        x matches Some(k) ==> 1 <= k <= 11,
    ensures
        cycle_interpreter(cycle_interpreter(x, 1), -1) == x,
        cycle_interpreter(cycle_interpreter(x, -1), 1) == x,
{
}

} // verus!
