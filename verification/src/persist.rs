//! Save-slot naming, timestamps and ordering.
//!
//! A named save is stored under a filesystem-safe *slug* of the name the player
//! typed; its time is an RFC3339 UTC string, which sorts chronologically as
//! text; and the saves manager lists the default slot first and the rest newest
//! first.

use vstd::prelude::*;
use vstd::string::*;
use crate::calendar::{is_rfc3339_of, rfc3339_from_secs};
use crate::text::{ends_with, has_suffix, prefix_of, str_eq, decimal, is_alnum, is_alnum_char, is_digit, is_lower, lower, lower_char, push_char, push_zero_padded, zero_padded};

verus! {

// ── Slugs ────────────────────────────────────────────────────────────────────

/// One left-to-right pass of the slug rule over `s`: the slug built so far and
/// whether the last thing emitted was a separator (true at the start, so that
/// leading separators are suppressed).
pub open spec fn slug_scan(s: Seq<char>) -> (Seq<char>, bool)
    decreases s.len(),
{
    if s.len() == 0 {
        (Seq::empty(), true)
    } else {
        let (acc, sep) = slug_scan(s.drop_last());
        let c = s.last();
        if is_alnum(c) {
            (acc.push(lower(c)), false)
        } else if !sep {
            (acc.push('-'), true)
        } else {
            (acc, sep)
        }
    }
}

/// The slug of `name`: ASCII letters and digits lowercased, every run of other
/// characters collapsed to one hyphen, and no hyphen at either end.
pub open spec fn slug_of(name: Seq<char>) -> Seq<char> {
    let acc = slug_scan(name).0;
    if acc.len() > 0 && acc.last() == '-' { acc.drop_last() } else { acc }
}

/// A slug's shape: lowercase ASCII letters, digits and single inner hyphens.
pub open spec fn is_slug(s: Seq<char>) -> bool {
    &&& forall|i: int| 0 <= i < s.len() ==> (is_digit(#[trigger] s[i]) || is_lower(s[i]) || s[i] == '-')
    &&& (s.len() > 0 ==> s[0] != '-' && s.last() != '-')
    &&& forall|i: int| 0 <= i < s.len() - 1 ==> !(#[trigger] s[i] == '-' && s[i + 1] == '-')
}

proof fn lemma_slug_scan_shape(s: Seq<char>)
    ensures
        ({
            let (acc, sep) = slug_scan(s);
            &&& forall|i: int| 0 <= i < acc.len() ==> (is_digit(#[trigger] acc[i]) || is_lower(acc[i]) || acc[i] == '-')
            &&& (acc.len() > 0 ==> acc[0] != '-')
            &&& forall|i: int| 0 <= i < acc.len() - 1 ==> !(#[trigger] acc[i] == '-' && acc[i + 1] == '-')
            &&& (acc.len() > 0 ==> (sep <==> acc.last() == '-'))
            &&& (acc.len() == 0 ==> sep)
        }),
    decreases s.len(),
{
    if s.len() > 0 {
        lemma_slug_scan_shape(s.drop_last());
        let (acc0, sep0) = slug_scan(s.drop_last());
        let (acc, sep) = slug_scan(s);
        let c = s.last();
        if is_alnum(c) {
            assert(acc == acc0.push(lower(c)));
            assert forall|i: int| 0 <= i < acc.len() implies (is_digit(#[trigger] acc[i]) || is_lower(acc[i]) || acc[i] == '-') by {
                if i < acc0.len() {
                    assert(acc[i] == acc0[i]);
                }
            }
            assert forall|i: int| 0 <= i < acc.len() - 1 implies !(#[trigger] acc[i] == '-' && acc[i + 1] == '-') by {
                if i < acc0.len() - 1 {
                    assert(acc[i] == acc0[i] && acc[i + 1] == acc0[i + 1]);
                }
            }
        } else if !sep0 {
            assert(acc == acc0.push('-'));
            assert forall|i: int| 0 <= i < acc.len() implies (is_digit(#[trigger] acc[i]) || is_lower(acc[i]) || acc[i] == '-') by {
                if i < acc0.len() {
                    assert(acc[i] == acc0[i]);
                }
            }
            assert forall|i: int| 0 <= i < acc.len() - 1 implies !(#[trigger] acc[i] == '-' && acc[i + 1] == '-') by {
                if i < acc0.len() - 1 {
                    assert(acc[i] == acc0[i] && acc[i + 1] == acc0[i + 1]);
                } else {
                    assert(acc[i] == acc0.last());
                }
            }
        }
    }
}

/// Every slug has the slug shape.
pub proof fn lemma_slug_is_slug(name: Seq<char>)
    ensures
        is_slug(slug_of(name)),
{
    lemma_slug_scan_shape(name);
    let acc = slug_scan(name).0;
    let r = slug_of(name);
    if acc.len() > 0 && acc.last() == '-' {
        assert forall|i: int| 0 <= i < r.len() implies (is_digit(#[trigger] r[i]) || is_lower(r[i]) || r[i] == '-') by {
            assert(r[i] == acc[i]);
        }
        assert forall|i: int| 0 <= i < r.len() - 1 implies !(#[trigger] r[i] == '-' && r[i + 1] == '-') by {
            assert(r[i] == acc[i] && r[i + 1] == acc[i + 1]);
        }
        if r.len() > 0 {
            assert(r[0] == acc[0]);
            assert(r.last() == acc[acc.len() - 2]);
            assert(!(acc[acc.len() - 2] == '-' && acc[acc.len() - 1] == '-'));
        }
    }
}

proof fn lemma_slug_scan_of_slug(s: Seq<char>, k: int)
    requires
        is_slug(s),
        0 <= k <= s.len(),
    ensures
        slug_scan(s.take(k)) == (s.take(k), k == 0 || s[k - 1] == '-'),
    decreases k,
{
    if k > 0 {
        lemma_slug_scan_of_slug(s, k - 1);
        let t = s.take(k);
        assert(t.drop_last() =~= s.take(k - 1));
        assert(t.last() == s[k - 1]);
        let c = s[k - 1];
        if c == '-' {
            assert(k - 1 > 0) by {
                if k - 1 == 0 {
                    assert(s[0] != '-');
                }
            }
            assert(!(s[k - 2] == '-' && s[k - 1] == '-'));
        }
        assert(s.take(k - 1).push(c) =~= t);
    }
}

/// A slug is its own slug, so slugging twice changes nothing.
pub proof fn lemma_slug_idempotent(name: Seq<char>)
    ensures
        slug_of(slug_of(name)) == slug_of(name),
{
    let s = slug_of(name);
    lemma_slug_is_slug(name);
    lemma_slug_scan_of_slug(s, s.len() as int);
    assert(s.take(s.len() as int) =~= s);
}

/// `s` with its hyphens removed.
pub open spec fn without_hyphens(s: Seq<char>) -> Seq<char>
    decreases s.len(),
{
    if s.len() == 0 {
        Seq::empty()
    } else if s.last() == '-' {
        without_hyphens(s.drop_last())
    } else {
        without_hyphens(s.drop_last()).push(s.last())
    }
}

/// The ASCII letters and digits of `name`, in order, lowercased.
pub open spec fn alnum_lowered(name: Seq<char>) -> Seq<char>
    decreases name.len(),
{
    if name.len() == 0 {
        Seq::empty()
    } else if is_alnum(name.last()) {
        alnum_lowered(name.drop_last()).push(lower(name.last()))
    } else {
        alnum_lowered(name.drop_last())
    }
}

proof fn lemma_scan_without_hyphens(s: Seq<char>)
    ensures
        without_hyphens(slug_scan(s).0) == alnum_lowered(s),
    decreases s.len(),
{
    if s.len() > 0 {
        lemma_scan_without_hyphens(s.drop_last());
        let (acc, sep) = slug_scan(s.drop_last());
        let c = s.last();
        if is_alnum(c) {
            assert(lower(c) != '-');
            assert(acc.push(lower(c)).drop_last() =~= acc);
        } else if !sep {
            assert(acc.push('-').drop_last() =~= acc);
        }
    }
}

/// Taking the hyphens out of a slug leaves exactly the name's ASCII letters
/// and digits, lowercased: slugging drops and folds characters but never
/// reorders or loses a letter or digit.
pub proof fn lemma_slug_keeps_alnum(name: Seq<char>)
    ensures
        without_hyphens(slug_of(name)) == alnum_lowered(name),
{
    lemma_scan_without_hyphens(name);
}

/// Convert a human-readable name to a filesystem-safe slug: lowercases, replaces
/// runs of non-alphanumeric characters with a single hyphen, and trims leading
/// and trailing hyphens.
pub fn slugify(name: &str) -> (slug: String)
    ensures
        slug@ == slug_of(name@),
        is_slug(slug@),
        without_hyphens(slug@) == alnum_lowered(name@),
        slug_of(slug@) == slug@,
{
    proof {
        lemma_slug_keeps_alnum(name@);
        lemma_slug_idempotent(name@);
    }
    let n = name.unicode_len();
    let mut slug = String::new();
    let mut last_was_sep = true;
    let mut i: usize = 0;
    while i < n
        invariant
            n == name@.len(),
            i <= n,
            slug_scan(name@.take(i as int)) == (slug@, last_was_sep),
        decreases n - i,
    {
        let c = name.get_char(i);
        assert(name@.take(i + 1).drop_last() =~= name@.take(i as int));
        assert(name@.take(i + 1).last() == c);
        if is_alnum_char(c) {
            push_char(&mut slug, lower_char(c));
            last_was_sep = false;
        } else if !last_was_sep {
            push_char(&mut slug, '-');
            last_was_sep = true;
        }
        i = i + 1;
    }
    assert(name@.take(n as int) =~= name@);
    let len = slug.as_str().unicode_len();
    if len > 0 && slug.as_str().get_char(len - 1) == '-' {
        let trimmed = String::from_str(slug.as_str().substring_char(0, len - 1));
        assert(trimmed@ =~= slug@.drop_last());
        proof { lemma_slug_is_slug(name@); }
        return trimmed;
    }
    proof { lemma_slug_is_slug(name@); }
    slug
}

/// The slug reserved for the automatic quick-save slot.
pub open spec fn is_reserved_slug_spec(slug: Seq<char>) -> bool {
    slug == "default"@
}

/// Whether `slug` names the reserved quick-save slot, which a named save must
/// never clobber.
pub fn is_reserved_slug(slug: &str) -> (b: bool)
    ensures
        b == is_reserved_slug_spec(slug@),
{
    proof { reveal_strlit("default"); }
    let n = slug.unicode_len();
    if n != 7 {
        return false;
    }
    let want = "default";
    let mut i: usize = 0;
    while i < 7
        invariant
            n == 7,
            n == slug@.len(),
            want@ == "default"@,
            want@.len() == 7,
            i <= 7,
            forall|j: int| 0 <= j < i ==> slug@[j] == want@[j],
        decreases 7 - i,
    {
        if slug.get_char(i) != want.get_char(i) {
            return false;
        }
        i = i + 1;
    }
    assert(slug@ =~= want@);
    true
}

/// Why a save name cannot be used.
#[derive(Debug, Clone, Copy, PartialEq, Eq)]
pub enum SaveNameError {
    /// Nothing of the name survives sanitisation.
    Empty,
    /// The name sanitises to the reserved `default` slug.
    Reserved,
}

impl SaveNameError {
    /// The message shown for the error, as the save file's I/O error carries it.
    pub fn message(&self) -> (s: &'static str)
        ensures
            *self == SaveNameError::Empty ==> s@ == "save name is empty after sanitization"@,
            *self == SaveNameError::Reserved ==> s@ == "\"default\" is a reserved save name"@,
    {
        match self {
            SaveNameError::Empty => "save name is empty after sanitization",
            SaveNameError::Reserved => "\"default\" is a reserved save name",
        }
    }
}

/// The file name `<slug><ext>` a named save is written under, or why `name`
/// cannot be used: an empty slug, or the reserved `default` one.
pub open spec fn named_save_file_spec(name: Seq<char>, ext: Seq<char>) -> Result<Seq<char>, SaveNameError> {
    let slug = slug_of(name);
    if slug.len() == 0 {
        Err(SaveNameError::Empty)
    } else if is_reserved_slug_spec(slug) {
        Err(SaveNameError::Reserved)
    } else {
        Ok(slug + ext)
    }
}

/// The file name a named save of `name` is written under, with extension `ext`
/// (`.babelmap` for a Save State, `.qzl` for a game save).
pub fn named_save_file(name: &str, ext: &str) -> (r: Result<String, SaveNameError>)
    ensures
        match r {
            Ok(f) => named_save_file_spec(name@, ext@) == Ok::<Seq<char>, SaveNameError>(f@),
            Err(e) => named_save_file_spec(name@, ext@) == Err::<Seq<char>, SaveNameError>(e),
        },
{
    let mut slug = slugify(name);
    if slug.as_str().unicode_len() == 0 {
        return Err(SaveNameError::Empty);
    }
    if is_reserved_slug(slug.as_str()) {
        return Err(SaveNameError::Reserved);
    }
    slug.append(ext);
    Ok(slug)
}

// ── Timestamps ──────────────────────────────────────────────────────────────

#[verifier::external_type_specification]
#[verifier::external_body]
pub struct ExSystemTime(std::time::SystemTime);

/// Calls `SystemTime::now`: the system clock's reading, which depends on when
/// it is taken, so nothing is stated of it.
#[verifier::external_body]
fn system_now() -> std::time::SystemTime {
    std::time::SystemTime::now()
}

/// Calls `SystemTime::duration_since` with `UNIX_EPOCH`: the time from the
/// epoch to `t`, or `None` when `t` is earlier. A clock reading has no view
/// here, so nothing is stated of the result.
#[verifier::external_body]
fn since_unix_epoch(t: &std::time::SystemTime) -> Option<std::time::Duration> {
    t.duration_since(std::time::UNIX_EPOCH).ok()
}

/// Calls `Duration::as_secs`: the whole seconds of `d`. A duration has no view
/// here, so nothing is stated of the result.
#[verifier::external_body]
fn whole_secs(d: &std::time::Duration) -> u64 {
    d.as_secs()
}

/// Seconds since the Unix epoch on the system clock, 0 if the clock reads
/// earlier than the epoch.
fn unix_now_secs() -> u64 {
    match since_unix_epoch(&system_now()) {
        Some(d) => whole_secs(&d),
        None => 0,
    }
}

/// The current time as an RFC3339 string (UTC, second precision).
pub fn rfc3339_now() -> (r: String)
    ensures
        exists|secs: u64| is_rfc3339_of(r@, secs),
{
    let secs = unix_now_secs();
    let r = rfc3339_from_secs(secs);
    assert(is_rfc3339_of(r@, secs));
    r
}

// ── Game saves ──────────────────────────────────────────────────────────────

/// The extension `std::path::Path::extension` reports for the path written
/// `path`, when it is valid UTF-8.
pub uninterp spec fn path_extension(path: Seq<char>) -> Option<Seq<char>>;

/// The text of `p` after its last `/` (all of it if it has none).
pub open spec fn last_segment(p: Seq<char>) -> Seq<char>
    decreases p.len(),
{
    if p.len() == 0 || p.last() == '/' {
        Seq::empty()
    } else {
        last_segment(p.drop_last()).push(p.last())
    }
}

/// The index of the last `.` in `s`, or -1.
pub open spec fn last_dot(s: Seq<char>) -> int
    decreases s.len(),
{
    if s.len() == 0 {
        -1
    } else if s.last() == '.' {
        s.len() - 1
    } else {
        last_dot(s.drop_last())
    }
}

/// Whether a last path segment is a plain file name: not empty, not `.` or
/// `..`, and free of the characters another platform reads as separators or
/// prefixes (`\`, `:`).
pub open spec fn plain_file_name(name: Seq<char>) -> bool {
    &&& name.len() > 0
    &&& name != seq!['.']
    &&& name != seq!['.', '.']
    &&& forall|i: int| 0 <= i < name.len() ==> #[trigger] name[i] != '\\' && name[i] != ':'
}

/// The extension of a plain file name: the text after its last dot, none when
/// it has no dot or its only leading dot starts the name.
pub open spec fn dot_extension(name: Seq<char>) -> Option<Seq<char>> {
    let d = last_dot(name);
    if d <= 0 {
        None
    } else {
        Some(name.subrange(d + 1, name.len() as int))
    }
}

/// Calls `Path::extension` on `path` and converts the `OsStr` it returns to a
/// `String`. The result is named by [`path_extension`]; where the path ends in
/// a plain file name, std's documented rule is stated: the file name's text
/// after its last dot, none for a name without a dot or with only a leading
/// one. Trailing separators, `.` and `..` endings are left to the name.
#[verifier::external_body]
fn extension_of(path: &str) -> (r: Option<String>)
    ensures
        match r {
            Some(e) => path_extension(path@) == Some(e@),
            None => path_extension(path@) is None,
        },
        plain_file_name(last_segment(path@)) ==> match r {
            Some(e) => dot_extension(last_segment(path@)) == Some(e@),
            None => dot_extension(last_segment(path@)) is None,
        },
{
    std::path::Path::new(path).extension().and_then(|e| e.to_str()).map(|e| e.to_string())
}

/// A `.qzl` file is a game save (bare standard Quetzal); anything else (in
/// practice `.babelmap`) is a Save State. Restore and load sites dispatch on this.
pub fn is_game_save(path: &str) -> (b: bool)
    ensures
        b == (path_extension(path@) == Some("qzl"@)),
        plain_file_name(last_segment(path@)) ==> b == (dot_extension(last_segment(path@)) == Some("qzl"@)),
{
    proof { reveal_strlit("qzl"); }
    match extension_of(path) {
        Some(e) => {
            let s = e.as_str();
            let n = s.unicode_len();
            if n != 3 {
                assert(e@ != "qzl"@);
                return false;
            }
            let r = s.get_char(0) == 'q' && s.get_char(1) == 'z' && s.get_char(2) == 'l';
            if r {
                assert(e@ =~= "qzl"@);
            } else {
                assert(e@ != "qzl"@);
            }
            r
        },
        None => false,
    }
}

// ── Save listings ───────────────────────────────────────────────────────────

#[verifier::external_type_specification]
#[verifier::external_body]
pub struct ExPathBuf(std::path::PathBuf);

/// `PathBuf::clone`, which the derived `Clone` of [`SaveInfo`] calls. Nothing
/// is stated of the copy: a path has no view here.
pub assume_specification[ <std::path::PathBuf as Clone>::clone ](p: &std::path::PathBuf) -> std::path::PathBuf;

/// Metadata for one discovered save file.
#[derive(Debug, Clone)]
pub struct SaveInfo {
    /// Path to the save file.
    pub path: std::path::PathBuf,
    /// Human-readable name (slug-form for named saves, "(default)" for the
    /// quick-save slot).
    pub name: String,
    /// Turn counter at save time.
    pub turns: u32,
    /// RFC3339 timestamp string (may be empty for legacy saves).
    pub saved_at: String,
    /// True for the default (IFID-only) quick-save slot.
    pub is_default: bool,
}

/// Strict lexicographic order on character sequences. On Rust strings this is
/// the order `String::cmp` uses: UTF-8 preserves code-point order byte by byte.
pub open spec fn text_lt(a: Seq<char>, b: Seq<char>) -> bool
    decreases a.len(),
{
    if a.len() == 0 {
        b.len() > 0
    } else if b.len() == 0 {
        false
    } else if a[0] != b[0] {
        a[0] < b[0]
    } else {
        text_lt(a.drop_first(), b.drop_first())
    }
}

pub(crate) proof fn lemma_text_lt_irreflexive(a: Seq<char>)
    ensures
        !text_lt(a, a),
    decreases a.len(),
{
    if a.len() > 0 {
        lemma_text_lt_irreflexive(a.drop_first());
    }
}

pub(crate) proof fn lemma_text_lt_transitive(a: Seq<char>, b: Seq<char>, c: Seq<char>)
    requires
        text_lt(a, b),
        text_lt(b, c),
    ensures
        text_lt(a, c),
    decreases a.len(),
{
    if a.len() > 0 && b.len() > 0 && c.len() > 0 && a[0] == b[0] && b[0] == c[0] {
        lemma_text_lt_transitive(a.drop_first(), b.drop_first(), c.drop_first());
    }
}

proof fn lemma_text_lt_total(a: Seq<char>, b: Seq<char>)
    ensures
        text_lt(a, b) || text_lt(b, a) || a == b,
    decreases a.len(),
{
    if a.len() > 0 && b.len() > 0 && a[0] == b[0] {
        lemma_text_lt_total(a.drop_first(), b.drop_first());
        if a.drop_first() == b.drop_first() {
            assert(a =~= seq![a[0]] + a.drop_first());
            assert(b =~= seq![b[0]] + b.drop_first());
        }
    } else if a.len() == 0 && b.len() == 0 {
        assert(a =~= b);
    }
}

pub(crate) proof fn lemma_text_le_transitive(a: Seq<char>, b: Seq<char>, c: Seq<char>)
    requires
        !text_lt(b, a),
        !text_lt(c, b),
    ensures
        !text_lt(c, a),
{
    lemma_text_lt_total(a, b);
    lemma_text_lt_total(b, c);
    if text_lt(c, a) {
        if a == b {
            if b == c {
                lemma_text_lt_irreflexive(a);
            }
        } else if b == c {
        } else {
            lemma_text_lt_transitive(a, b, c);
            lemma_text_lt_transitive(c, a, c);
            lemma_text_lt_irreflexive(c);
        }
    }
}

/// `a < b` in `String` order.
pub fn str_lt(a: &str, b: &str) -> (r: bool)
    ensures
        r == text_lt(a@, b@),
{
    let na = a.unicode_len();
    let nb = b.unicode_len();
    let mut i: usize = 0;
    assert(a@.skip(0) =~= a@ && b@.skip(0) =~= b@);
    while i < na && i < nb
        invariant
            na == a@.len(),
            nb == b@.len(),
            i <= na && i <= nb,
            a@.subrange(0, i as int) == b@.subrange(0, i as int),
            text_lt(a@, b@) == text_lt(a@.skip(i as int), b@.skip(i as int)),
        decreases na - i,
    {
        let ca = a.get_char(i);
        let cb = b.get_char(i);
        assert(a@.skip(i as int)[0] == ca && b@.skip(i as int)[0] == cb);
        if ca != cb {
            return ca < cb;
        }
        assert(a@.skip(i as int).drop_first() =~= a@.skip(i + 1));
        assert(b@.skip(i as int).drop_first() =~= b@.skip(i + 1));
        assert(a@.subrange(0, i + 1) =~= a@.subrange(0, i as int).push(ca));
        assert(b@.subrange(0, i + 1) =~= b@.subrange(0, i as int).push(cb));
        i = i + 1;
    }
    i < nb && i == na
}

/// Whether save `a` is listed strictly before save `b`: newest first by
/// `saved_at` (RFC3339 text sorts chronologically, and an empty, untimestamped
/// legacy save sorts last), with the default slot ahead of everything when
/// `default_first`.
pub open spec fn save_before(a: SaveInfo, b: SaveInfo, default_first: bool) -> bool {
    if default_first && a.is_default != b.is_default {
        a.is_default
    } else {
        text_lt(b.saved_at@, a.saved_at@)
    }
}

/// `v` is in listing order: no save is listed after one it should precede.
pub open spec fn saves_ordered(v: Seq<SaveInfo>, default_first: bool) -> bool {
    forall|i: int, j: int| 0 <= i < j < v.len() ==> !save_before(#[trigger] v[j], #[trigger] v[i], default_first)
}

proof fn lemma_save_before_order(a: SaveInfo, b: SaveInfo, c: SaveInfo, default_first: bool)
    ensures
        !save_before(a, a, default_first),
        save_before(a, b, default_first) && save_before(b, c, default_first) ==> save_before(a, c, default_first),
        save_before(a, b, default_first) ==> !save_before(b, a, default_first),
        !save_before(a, b, default_first) && !save_before(b, c, default_first) ==> !save_before(a, c, default_first),
{
    lemma_text_lt_irreflexive(a.saved_at@);
    if save_before(a, b, default_first) && save_before(b, a, default_first) {
        if !(default_first && a.is_default != b.is_default) {
            lemma_text_lt_transitive(a.saved_at@, b.saved_at@, a.saved_at@);
        }
    }
    if save_before(a, b, default_first) && save_before(b, c, default_first) {
        if !(default_first && (a.is_default != b.is_default || b.is_default != c.is_default)) {
            lemma_text_lt_transitive(c.saved_at@, b.saved_at@, a.saved_at@);
        }
    }
    if !save_before(a, b, default_first) && !save_before(b, c, default_first) {
        if !(default_first && (a.is_default != b.is_default || b.is_default != c.is_default)) {
            lemma_text_le_transitive(a.saved_at@, b.saved_at@, c.saved_at@);
        }
    }
}

fn save_before_exec(a: &SaveInfo, b: &SaveInfo, default_first: bool) -> (r: bool)
    ensures
        r == save_before(*a, *b, default_first),
{
    if default_first && a.is_default != b.is_default {
        a.is_default
    } else {
        str_lt(b.saved_at.as_str(), a.saved_at.as_str())
    }
}

/// `v` with `x` placed ahead of the first save that it is not listed after.
pub open spec fn insert_save(v: Seq<SaveInfo>, x: SaveInfo, default_first: bool) -> Seq<SaveInfo>
    decreases v.len(),
{
    if v.len() == 0 || !save_before(v[0], x, default_first) {
        seq![x] + v
    } else {
        seq![v[0]] + insert_save(v.drop_first(), x, default_first)
    }
}

/// `v` in listing order, saves that tie keeping the order they came in: each
/// save is placed ahead of those after it that it does not follow (a stable
/// sort).
pub open spec fn listing_order(v: Seq<SaveInfo>, default_first: bool) -> Seq<SaveInfo>
    decreases v.len(),
{
    if v.len() == 0 {
        v
    } else {
        insert_save(listing_order(v.drop_first(), default_first), v[0], default_first)
    }
}

proof fn lemma_insert_save_at(v: Seq<SaveInfo>, x: SaveInfo, default_first: bool, p: int)
    requires
        0 <= p <= v.len(),
        forall|j: int| 0 <= j < p ==> save_before(#[trigger] v[j], x, default_first),
        p < v.len() ==> !save_before(v[p], x, default_first),
    ensures
        insert_save(v, x, default_first) == v.insert(p, x),
    decreases v.len(),
{
    if p == 0 {
        assert(v.insert(0, x) =~= seq![x] + v);
    } else {
        let t = v.drop_first();
        assert forall|j: int| 0 <= j < p - 1 implies save_before(#[trigger] t[j], x, default_first) by {
            assert(t[j] == v[j + 1]);
        }
        if p - 1 < t.len() {
            assert(t[p - 1] == v[p]);
        }
        lemma_insert_save_at(t, x, default_first, p - 1);
        assert(seq![v[0]] + t.insert(p - 1, x) =~= v.insert(p, x));
    }
}

/// Put saves in listing order: newest first by `saved_at`, and, when
/// `default_first`, the default slot ahead of all named ones. Saves that tie keep
/// the order they came in (the sort is stable, as `slice::sort_by` is).
pub fn order_saves(saves: Vec<SaveInfo>, default_first: bool) -> (out: Vec<SaveInfo>)
    ensures
        out@ == listing_order(saves@, default_first),
        out@.to_multiset() == saves@.to_multiset(),
        saves_ordered(out@, default_first),
{
    let mut out: Vec<SaveInfo> = Vec::new();
    let mut rest = saves;
    let ghost orig = rest@;
    let n = rest.len();
    assert(orig.skip(n as int) =~= Seq::<SaveInfo>::empty());
    // Consume from the back so each removal is O(1); the taken prefix is the
    // input's suffix, inserted in reverse, which stability must undo.
    while rest.len() > 0
        invariant
            rest@.len() + out@.len() == n,
            orig.len() == n,
            rest@ == orig.take(rest@.len() as int),
            out@.to_multiset() == orig.skip(rest@.len() as int).to_multiset(),
            out@ == listing_order(orig.skip(rest@.len() as int), default_first),
            saves_ordered(out@, default_first),
        decreases rest.len(),
    {
        let x = rest.pop().unwrap();
        let ghost k = rest@.len();
        let mut pos: usize = 0;
        // `x` came earlier than everything already placed, so it goes ahead of
        // the first save it is not listed after: ties keep the order they came in.
        let len = out.len();
        while pos < len && save_before_exec(&out[pos], &x, default_first)
            invariant
                len == out@.len(),
                pos <= len,
                forall|j: int| 0 <= j < pos ==> save_before(#[trigger] out@[j], x, default_first),
            decreases len - pos,
        {
            pos = pos + 1;
        }
        let ghost before = out@;
        proof {
            broadcast use vstd::seq_lib::to_multiset_insert;
            assert(orig.skip(k as int) =~= orig.skip((k + 1) as int).insert(0, x));
            lemma_insert_save_at(before, x, default_first, pos as int);
            assert(orig.skip(k as int).drop_first() =~= orig.skip((k + 1) as int));
            assert(orig.skip(k as int)[0] == x);
            assert forall|i: int, j: int| 0 <= i < j < before.len() + 1 implies
                !save_before(#[trigger] before.insert(pos as int, x)[j], #[trigger] before.insert(pos as int, x)[i], default_first) by {
                let w = before.insert(pos as int, x);
                if j < pos {
                    assert(w[i] == before[i] && w[j] == before[j]);
                } else if j == pos {
                    assert(w[i] == before[i] && w[j] == x);
                    lemma_save_before_order(before[i], x, before[i], default_first);
                } else if i == pos {
                    assert(w[i] == x && w[j] == before[j - 1]);
                    if j - 1 > pos {
                        assert(!save_before(before[j - 1], before[pos as int], default_first));
                    }
                    lemma_save_before_order(before[j - 1], before[pos as int], x, default_first);
                } else if i < pos {
                    assert(w[i] == before[i] && w[j] == before[j - 1]);
                } else {
                    assert(w[i] == before[i - 1] && w[j] == before[j - 1]);
                }
            }
        }
        out.insert(pos, x);
        proof {
            assert(rest@ =~= orig.take(k as int));
        }
    }
    proof {
        assert(orig.skip(0) =~= orig);
    }
    out
}

/// The save-state row for a directory entry named `fname`, given what its
/// archive metadata says: `None` unless the file is a `.babelmap` Save State.
/// `default.babelmap` is the quick-save slot, shown as `(default)`; a named slot
/// shows the name stored in its metadata, or else its slug (the file stem).
pub open spec fn save_state_row(fname: Seq<char>, meta_name: Option<Seq<char>>) -> Option<(Seq<char>, bool)> {
    if !has_suffix(fname, ".babelmap"@) {
        None
    } else if fname == "default.babelmap"@ {
        Some(("(default)"@, true))
    } else {
        match meta_name {
            Some(n) => Some((n, false)),
            None => Some((fname.subrange(0, fname.len() - 9), false)),
        }
    }
}

/// Build the listing row of one `.babelmap` file from its name and metadata.
pub fn save_state_info(
    path: std::path::PathBuf,
    fname: &str,
    meta_name: Option<String>,
    turns: u32,
    saved_at: String,
) -> (r: Option<SaveInfo>)
    ensures
        match save_state_row(fname@, match meta_name { Some(n) => Some(n@), None => None }) {
            None => r is None,
            Some((name, is_default)) => r matches Some(info) && info.name@ == name
                && info.is_default == is_default && info.turns == turns && info.saved_at == saved_at
                && info.path == path,
        },
{
    proof {
        reveal_strlit(".babelmap");
        reveal_strlit("default.babelmap");
        reveal_strlit("(default)");
    }
    if !ends_with(fname, ".babelmap") {
        return None;
    }
    let is_default = str_eq(fname, "default.babelmap");
    let name = if is_default {
        String::from_str("(default)")
    } else {
        match meta_name {
            Some(n) => n,
            None => prefix_of(fname, fname.unicode_len() - 9),
        }
    };
    Some(SaveInfo { path, name, turns, saved_at, is_default })
}

/// The listing row of one directory entry named `fname` if it is a `.qzl` game
/// save: named by its stem, stamped `saved_at` (the file's modification time),
/// turn count 0, never the default slot.
pub fn game_save_info(path: std::path::PathBuf, fname: &str, saved_at: String) -> (r: Option<SaveInfo>)
    ensures
        has_suffix(fname@, ".qzl"@) <==> r is Some,
        r matches Some(info) ==> info.name@ == fname@.subrange(0, fname@.len() - 4) && info.turns == 0
            && !info.is_default && info.saved_at == saved_at && info.path == path,
{
    proof { reveal_strlit(".qzl"); }
    if !ends_with(fname, ".qzl") {
        return None;
    }
    let name = prefix_of(fname, fname.unicode_len() - 4);
    Some(SaveInfo { path, name, turns: 0, saved_at, is_default: false })
}

/// The saves manager's list for one story: its Save States and its game saves
/// merged, newest first, with untimestamped legacy saves last; saves stamped
/// alike keep their order, the Save States ahead of the game saves (a stable
/// sort of the two lists one after the other).
pub fn combined_saves(states: Vec<SaveInfo>, games: Vec<SaveInfo>) -> (out: Vec<SaveInfo>)
    ensures
        out@ == listing_order(states@ + games@, false),
        out@.to_multiset() == (states@ + games@).to_multiset(),
        saves_ordered(out@, false),
{
    let mut all = states;
    let mut games = games;
    let ghost s0 = all@;
    let ghost g0 = games@;
    all.append(&mut games);
    assert(all@ =~= s0 + g0);
    order_saves(all, false)
}

} // verus!
