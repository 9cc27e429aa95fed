//! The typeface a release shipped on its own medium, which of the faces on
//! offer a machine draws with (its body face and its fixed-pitch alternate),
//! and the text face that pairs them with the machine: the face each run is
//! drawn with and what a proportional pen is given.
//!
//! A face that is exactly the machine's character cell, with one advance across
//! printable ASCII, blits 1:1 ([`FaceFit::Cell`]); a proportional face brings
//! its own metrics and the cell's height follows it ([`FaceFit::Metric`]); a
//! fixed face of any other size is declined rather than resampled.

use vstd::prelude::*;

verus! {

/// A Version 6 character cell, in native pixels.
#[derive(Debug, Clone, Copy, PartialEq, Eq, Structural, Hash)]
pub struct V6Cell {
    pub w: u16,
    pub h: u16,
}

/// A bitmap typeface as the face cascade reads it: its cell, bold smear,
/// whether its advance varies anywhere, each byte's glyph advance where it
/// has a glyph, and its glyph pixels.
#[derive(Debug, Clone)]
pub struct FontFace {
    pub width: u8,
    pub height: u8,
    pub bold_smear: u8,
    pub proportional: bool,
    pub glyph_widths: Vec<Option<u8>>,
    pub bitmap: Vec<u8>,
}

/// A face as the contracts see it.
pub type FaceView = (u8, u8, u8, bool, Seq<Option<u8>>, Seq<u8>);

impl FontFace {
    pub open spec fn view_face(&self) -> FaceView {
        (self.width, self.height, self.bold_smear, self.proportional, self.glyph_widths@, self.bitmap@)
    }
}

/// The advance of byte `b`'s glyph, if the face has one.
pub open spec fn glyph_width(f: FaceView, b: int) -> Option<u8> {
    if 0 <= b < f.4.len() { f.4[b] } else { None }
}

/// Every printable ASCII character (`!` to `~`) the face covers advances by
/// exactly `w`.
pub open spec fn uniform_over_printable(f: FaceView, w: u16) -> bool {
    forall|b: int| 33 <= b <= 126 ==> (#[trigger] glyph_width(f, b) matches Some(gw) ==> gw as u16 == w)
}

/// How a face may be drawn on a machine, where it may be drawn at all.
#[derive(Debug, Clone, Copy, PartialEq, Eq, Structural, Hash)]
pub enum FaceFit {
    /// Same width, same height, one advance across printable ASCII: blit 1:1.
    Cell,
    /// A proportional typeface: the pen advances per glyph and the line is the
    /// face's own height.
    Metric,
}

/// Which way, if either, a face may be drawn in `cell`: `Cell` when it is the
/// cell exactly and uniform over printable ASCII; `Metric` when it is not
/// uniform there (a real typeface brings its own metrics); otherwise not at
/// all.
pub open spec fn fit_spec(f: FaceView, cell: V6Cell) -> Option<FaceFit> {
    let uniform = uniform_over_printable(f, cell.w);
    if f.0 as u16 == cell.w && f.1 as u16 == cell.h && uniform {
        Some(FaceFit::Cell)
    } else if !uniform {
        Some(FaceFit::Metric)
    } else {
        None
    }
}

/// How the three answers of [`fit`] divide the faces: a face blitted 1:1 is
/// exactly the machine's cell, and every printable character it covers
/// advances by the cell's width; a face goes by its own metrics exactly when
/// some printable character advances otherwise; and a face is declined exactly
/// when every printable character advances one cell but the face is another
/// size.
pub proof fn lemma_fit_law(f: FaceView, cell: V6Cell)
    ensures
        fit_spec(f, cell) == Some(FaceFit::Cell) ==> f.0 as u16 == cell.w && f.1 as u16 == cell.h && forall|b: int|
            33 <= b <= 126 && 0 <= b < f.4.len() && #[trigger] f.4[b] is Some ==> f.4[b]->0 as u16 == cell.w,
        fit_spec(f, cell) == Some(FaceFit::Metric) <==> exists|b: int|
            33 <= b <= 126 && 0 <= b < f.4.len() && #[trigger] f.4[b] is Some && f.4[b]->0 as u16 != cell.w,
        fit_spec(f, cell) is None <==> (!(f.0 as u16 == cell.w && f.1 as u16 == cell.h) && forall|b: int|
            33 <= b <= 126 && 0 <= b < f.4.len() && #[trigger] f.4[b] is Some ==> f.4[b]->0 as u16 == cell.w),
{
    let uniform = uniform_over_printable(f, cell.w);
    if uniform {
        assert forall|b: int| 33 <= b <= 126 && 0 <= b < f.4.len() && #[trigger] f.4[b] is Some implies f.4[b]->0
            as u16 == cell.w by {
            assert(glyph_width(f, b) == f.4[b]);
        }
    } else {
        let b = choose|b: int| 33 <= b <= 126 && !(#[trigger] glyph_width(f, b) matches Some(gw) ==> gw as u16 == cell.w);
        assert(0 <= b < f.4.len() && f.4[b] is Some && f.4[b]->0 as u16 != cell.w);
    }
}

/// Which of the two ways, if either, `face` may be drawn in `cell`. The test
/// is over the printable range because that is all a story prints; a face's
/// overall `proportional` flag also counts accented glyphs no game uses.
pub fn fit(face: &FontFace, cell: V6Cell) -> (r: Option<FaceFit>)
    ensures
        r == fit_spec(face.view_face(), cell),
        r == Some(FaceFit::Cell) ==> face.width as u16 == cell.w && face.height as u16 == cell.h,
{
    proof {
        lemma_fit_law(face.view_face(), cell);
    }
    let n = face.glyph_widths.len();
    let mut uniform = true;
    let mut b: usize = 33;
    while b <= 126
        invariant
            33 <= b <= 127,
            n == face.glyph_widths@.len(),
            uniform <==> (forall|k: int| 33 <= k < b ==> (#[trigger] glyph_width(face.view_face(), k) matches Some(gw)
                ==> gw as u16 == cell.w)),
        decreases 127 - b,
    {
        let g = if b < n { face.glyph_widths[b] } else { None };
        assert(g == glyph_width(face.view_face(), b as int));
        match g {
            Some(gw) => {
                if gw as u16 != cell.w {
                    uniform = false;
                }
            },
            None => {},
        }
        b = b + 1;
    }
    if face.width as u16 == cell.w && face.height as u16 == cell.h && uniform {
        Some(FaceFit::Cell)
    } else if !uniform {
        Some(FaceFit::Metric)
    } else {
        None
    }
}

/// The Version 6 cell a machine declares once a face has been admitted: a
/// `Metric` face's height times the vertical text scale (saturating, the
/// scale taken to 16 bits as a cast would), with the machine's width; any
/// other face, or none, leaves the machine's cell as it is.
pub open spec fn declared_cell_spec(cell: V6Cell, face: Option<FaceView>, text_scale: (u32, u32)) -> V6Cell {
    match face {
        Some(f) => if fit_spec(f, cell) == Some(FaceFit::Metric) {
            let h = (f.1 as int) * ((text_scale.1 as int) % 65536);
            V6Cell { w: cell.w, h: if h > u16::MAX { u16::MAX } else { h as u16 } }
        } else {
            cell
        },
        None => cell,
    }
}

/// The view of an optional owned face.
pub open spec fn owned_face(f: Option<FontFace>) -> Option<FaceView> {
    match f {
        Some(x) => Some(x.view_face()),
        None => None,
    }
}

/// The view of an optional face.
pub open spec fn opt_face(f: Option<&FontFace>) -> Option<FaceView> {
    match f {
        Some(x) => Some(x.view_face()),
        None => None,
    }
}

/// The Version 6 cell the machine declares with `face` admitted; the width is
/// never moved, because a proportional face has no single advance to measure.
pub fn declared_cell(cell: V6Cell, face: Option<&FontFace>, text_scale: (u32, u32)) -> (r: V6Cell)
    ensures
        r == declared_cell_spec(cell, opt_face(face), text_scale),
{
    match face {
        Some(f) => match fit(f, cell) {
            Some(FaceFit::Metric) => {
                let scale = (text_scale.1 % 65536) as u32;
                assert((f.height as u32) * scale <= 255 * 65535) by (nonlinear_arith)
                    requires
                        f.height <= 255,
                        scale <= 65535,
                ;
                let h = (f.height as u32) * scale;
                V6Cell { w: cell.w, h: if h > 65535 { 65535 } else { h as u16 } }
            },
            _ => cell,
        },
        None => cell,
    }
}

/// Where an admitted face came from.
#[derive(Debug, Clone, PartialEq, Eq)]
pub enum FaceOrigin {
    /// The story's own medium: the release shipped it.
    Release,
    /// A boot disk the player supplied.
    SystemDisk {
        /// The disk image's filename.
        disk: String,
        /// How that disk names the face, such as `FONT 396`.
        name: String,
    },
}

fn copy_origin(o: &FaceOrigin) -> (r: FaceOrigin)
    ensures
        r == *o,
{
    match o {
        FaceOrigin::Release => FaceOrigin::Release,
        FaceOrigin::SystemDisk { disk, name } => FaceOrigin::SystemDisk { disk: disk.clone(), name: name.clone() },
    }
}

fn copy_face(f: &FontFace) -> (r: FontFace)
    ensures
        r.view_face() == f.view_face(),
{
    let mut glyph_widths: Vec<Option<u8>> = Vec::new();
    let mut i: usize = 0;
    while i < f.glyph_widths.len()
        invariant
            i <= f.glyph_widths@.len(),
            glyph_widths@ == f.glyph_widths@.take(i as int),
        decreases f.glyph_widths@.len() - i,
    {
        glyph_widths.push(f.glyph_widths[i]);
        assert(glyph_widths@ =~= f.glyph_widths@.take(i + 1));
        i = i + 1;
    }
    let mut bitmap: Vec<u8> = Vec::new();
    let mut j: usize = 0;
    while j < f.bitmap.len()
        invariant
            j <= f.bitmap@.len(),
            bitmap@ == f.bitmap@.take(j as int),
        decreases f.bitmap@.len() - j,
    {
        bitmap.push(f.bitmap[j]);
        assert(bitmap@ =~= f.bitmap@.take(j + 1));
        j = j + 1;
    }
    assert(glyph_widths@ =~= f.glyph_widths@);
    assert(bitmap@ =~= f.bitmap@);
    FontFace {
        width: f.width,
        height: f.height,
        bold_smear: f.bold_smear,
        proportional: f.proportional,
        glyph_widths,
        bitmap,
    }
}

/// Whether two faces are the same face.
pub fn same_face(a: &FontFace, b: &FontFace) -> (r: bool)
    ensures
        r == (a.view_face() == b.view_face()),
{
    if a.width != b.width || a.height != b.height || a.bold_smear != b.bold_smear || a.proportional != b.proportional {
        return false;
    }
    let n = a.glyph_widths.len();
    if n != b.glyph_widths.len() {
        return false;
    }
    let mut i: usize = 0;
    while i < n
        invariant
            n == a.glyph_widths@.len(),
            n == b.glyph_widths@.len(),
            i <= n,
            forall|k: int| 0 <= k < i ==> a.glyph_widths@[k] == b.glyph_widths@[k],
        decreases n - i,
    {
        let x = a.glyph_widths[i];
        let y = b.glyph_widths[i];
        let same = match (x, y) {
            (Some(p), Some(q)) => p == q,
            (None, None) => true,
            _ => false,
        };
        if !same {
            return false;
        }
        i = i + 1;
    }
    assert(a.glyph_widths@ =~= b.glyph_widths@);
    let m = a.bitmap.len();
    if m != b.bitmap.len() {
        return false;
    }
    let mut j: usize = 0;
    while j < m
        invariant
            m == a.bitmap@.len(),
            m == b.bitmap@.len(),
            j <= m,
            forall|k: int| 0 <= k < j ==> a.bitmap@[k] == b.bitmap@[k],
        decreases m - j,
    {
        if a.bitmap[j] != b.bitmap[j] {
            return false;
        }
        j = j + 1;
    }
    assert(a.bitmap@ =~= b.bitmap@);
    true
}

/// What a face set holds, as the contracts see it: body face, fixed-pitch
/// alternate, and where each came from.
pub type FaceSetView = (Option<FaceView>, Option<FaceView>, Option<FaceOrigin>, Option<FaceOrigin>);

/// A face set after a face is offered in cascade order: it lands in the slot
/// its fit names, and the first offer for a slot keeps it. A `Cell` face also
/// becomes the body while there is none; a `Metric` face displaces a body
/// that is only the borrowed alternate.
pub open spec fn offer_spec(st: FaceSetView, face: FaceView, fit: Option<FaceFit>, origin: FaceOrigin) -> FaceSetView {
    match fit {
        Some(FaceFit::Metric) => if st.0 is None || (st.0 is Some && st.0 == st.1) {
            (Some(face), st.1, Some(origin), st.3)
        } else {
            st
        },
        Some(FaceFit::Cell) => if st.1 is None {
            if st.0 is None {
                (Some(face), Some(face), Some(origin), Some(origin))
            } else {
                (st.0, Some(face), st.2, Some(origin))
            }
        } else {
            st
        },
        None => st,
    }
}

/// The faces a machine draws with: its body face and its fixed-pitch
/// alternate, each with where it came from.
#[derive(Debug, Clone)]
pub struct FaceSet {
    body: Option<FontFace>,
    fixed: Option<FontFace>,
    body_origin: Option<FaceOrigin>,
    fixed_origin: Option<FaceOrigin>,
}

impl FaceSet {
    /// What the set holds.
    pub closed spec fn view_set(&self) -> FaceSetView {
        (owned_face(self.body), owned_face(self.fixed), self.body_origin, self.fixed_origin)
    }

    /// No face at all: a bare story, or a machine whose media carry none.
    pub fn none() -> (s: FaceSet)
        ensures
            s.view_set() == (None::<FaceView>, None::<FaceView>, None::<FaceOrigin>, None::<FaceOrigin>),
    {
        FaceSet { body: None, fixed: None, body_origin: None, fixed_origin: None }
    }

    /// One face off a release's own medium, sorted into whichever role [`fit`]
    /// gives it in `cell`.
    pub fn release(face: FontFace, cell: V6Cell) -> (s: FaceSet)
        ensures
            s.view_set() == offer_spec(
                (None, None, None, None),
                face.view_face(),
                fit_spec(face.view_face(), cell),
                FaceOrigin::Release,
            ),
    {
        let mut set = FaceSet::none();
        set.offer(face, cell, FaceOrigin::Release);
        set
    }

    /// The face body text is drawn with.
    pub fn body(&self) -> (r: Option<&FontFace>)
        ensures
            opt_face(r) == self.view_set().0,
    {
        self.body.as_ref()
    }

    /// The face a fixed-pitch run is drawn with, where the machine has one.
    pub fn fixed(&self) -> (r: Option<&FontFace>)
        ensures
            opt_face(r) == self.view_set().1,
    {
        self.fixed.as_ref()
    }

    /// Where the body face came from.
    pub fn body_origin(&self) -> (r: Option<&FaceOrigin>)
        ensures
            match r {
                Some(o) => self.view_set().2 == Some(*o),
                None => self.view_set().2 is None,
            },
    {
        self.body_origin.as_ref()
    }

    /// Whether `face` is one of the two this set draws with.
    pub fn draws(&self, face: &FontFace) -> (b: bool)
        ensures
            b == (self.view_set().0 == Some(face.view_face()) || self.view_set().1 == Some(face.view_face())),
    {
        let in_body = match &self.body {
            Some(f) => same_face(f, face),
            None => false,
        };
        let in_fixed = match &self.fixed {
            Some(f) => same_face(f, face),
            None => false,
        };
        in_body || in_fixed
    }

    /// Whether the body slot only holds the fixed alternate for want of
    /// anything better.
    fn body_is_borrowed_alternate(&self) -> (b: bool)
        ensures
            b == (self.view_set().0 is Some && self.view_set().0 == self.view_set().1),
    {
        match (&self.body, &self.fixed) {
            (Some(b), Some(f)) => same_face(b, f),
            _ => false,
        }
    }

    /// Offer a face to the set, in cascade order (see [`offer_spec`]).
    pub fn offer(&mut self, face: FontFace, cell: V6Cell, origin: FaceOrigin)
        ensures
            final(self).view_set() == offer_spec(
                old(self).view_set(),
                face.view_face(),
                fit_spec(face.view_face(), cell),
                origin,
            ),
    {
        match fit(&face, cell) {
            Some(FaceFit::Metric) => {
                if self.body.is_none() || self.body_is_borrowed_alternate() {
                    self.body_origin = Some(origin);
                    self.body = Some(face);
                }
            },
            Some(FaceFit::Cell) => {
                if self.fixed.is_none() {
                    if self.body.is_none() {
                        self.body = Some(copy_face(&face));
                        self.body_origin = Some(copy_origin(&origin));
                    }
                    self.fixed_origin = Some(origin);
                    self.fixed = Some(face);
                }
            },
            None => {},
        }
    }
}

/// Faces off a player's boot disk: a face, the disk's filename, and how the
/// disk names the face.
pub type SystemFace = (FontFace, String, String);

/// The set after the first rung: the release's own face, offered only when the
/// medium itself named the machine.
pub open spec fn release_rung(release_face: Option<FontFace>, named_by_medium: bool, cell: V6Cell) -> FaceSetView {
    match release_face {
        Some(f) => if named_by_medium {
            offer_spec((None, None, None, None), f.view_face(), fit_spec(f.view_face(), cell), FaceOrigin::Release)
        } else {
            (None, None, None, None)
        },
        None => (None, None, None, None),
    }
}

/// The set after the second rung: each system face whose height, times the
/// vertical text scale, is the cell's height is offered in turn.
pub open spec fn system_rung(
    st: FaceSetView,
    offers: Seq<(FaceView, String, String)>,
    cell: V6Cell,
    text_scale: (u32, u32),
) -> FaceSetView
    decreases offers.len(),
{
    if offers.len() == 0 {
        st
    } else {
        let s = system_rung(st, offers.drop_last(), cell, text_scale);
        let o = offers.last();
        if (o.0.1 as int) * (text_scale.1 as int) != cell.h as int {
            s
        } else {
            offer_spec(s, o.0, fit_spec(o.0, cell), FaceOrigin::SystemDisk { disk: o.1, name: o.2 })
        }
    }
}

/// The view of the offered system faces.
pub open spec fn offers_view(v: Seq<SystemFace>) -> Seq<(FaceView, String, String)> {
    v.map_values(|e: SystemFace| (e.0.view_face(), e.1, e.2))
}

/// The faces a launch resolves to, in cascade order: the release's own face,
/// then the machine's system faces off the player's boot disks, keeping only
/// the size the machine drew with. With neither, the set is empty and the
/// built-in face draws.
pub fn resolve_faces(
    release_face: Option<FontFace>,
    named_by_medium: bool,
    system_faces: &Vec<SystemFace>,
    cell: V6Cell,
    text_scale: (u32, u32),
) -> (s: FaceSet)
    requires
        forall|k: int| 0 <= k < system_faces@.len() ==> (#[trigger] system_faces@[k]).0.height * text_scale.1 <= u32::MAX,
    ensures
        s.view_set() == system_rung(
            release_rung(release_face, named_by_medium, cell),
            offers_view(system_faces@),
            cell,
            text_scale,
        ),
{
    let mut set = FaceSet::none();
    if named_by_medium {
        match release_face {
            Some(face) => set.offer(face, cell, FaceOrigin::Release),
            None => {},
        }
    }
    let ghost offers = offers_view(system_faces@);
    let ghost start = set.view_set();
    assert(start == release_rung(release_face, named_by_medium, cell));
    let n = system_faces.len();
    let mut i: usize = 0;
    assert(offers.take(0) =~= Seq::<(FaceView, String, String)>::empty());
    while i < n
        invariant
            n == system_faces@.len(),
            offers == offers_view(system_faces@),
            forall|k: int| 0 <= k < system_faces@.len() ==> (#[trigger] system_faces@[k]).0.height * text_scale.1 <= u32::MAX,
            i <= n,
            set.view_set() == system_rung(start, offers.take(i as int), cell, text_scale),
        decreases n - i,
    {
        let found = &system_faces[i];
        assert(offers.take(i + 1).drop_last() =~= offers.take(i as int));
        assert(offers.take(i + 1).last() == (found.0.view_face(), found.1, found.2));
        let h = found.0.height as u32;
        assert(found.0.height * text_scale.1 <= u32::MAX);
        if h * text_scale.1 == cell.h as u32 {
            let face = copy_face(&found.0);
            set.offer(face, cell, FaceOrigin::SystemDisk { disk: found.1.clone(), name: found.2.clone() });
        }
        i = i + 1;
    }
    assert(offers.take(n as int) =~= offers);
    set
}

/// One typeface a story's own medium carries, for the browser's info panel.
#[derive(Debug, Clone, PartialEq, Eq)]
pub struct DiskFace {
    /// How the medium names it: `FONT 524` on a Macintosh, the filename on an
    /// Amiga volume.
    pub name: String,
    /// The cell it is drawn for.
    pub width: u8,
    pub height: u8,
    /// Whether its advance varies anywhere.
    pub proportional: bool,
    /// Whether the resolved face set draws with this one.
    pub used: bool,
}

/// The info-panel rows for the faces a medium carries (named as the medium
/// names them), each marked used when the set the cascade resolved — body or
/// alternate — draws with it. The panel reports the cascade's answer rather
/// than deciding again.
pub fn detected_faces(chosen: &FaceSet, faces: &Vec<(String, FontFace)>) -> (v: Vec<DiskFace>)
    ensures
        v@.len() == faces@.len(),
        forall|i: int|
            0 <= i < faces@.len() ==> {
                let d = #[trigger] v@[i];
                let f = faces@[i].1;
                &&& d.name == faces@[i].0
                &&& d.width == f.width
                &&& d.height == f.height
                &&& d.proportional == f.proportional
                &&& d.used == (chosen.view_set().0 == Some(f.view_face()) || chosen.view_set().1 == Some(
                    f.view_face(),
                ))
            },
{
    let mut out: Vec<DiskFace> = Vec::new();
    let n = faces.len();
    let mut i: usize = 0;
    while i < n
        invariant
            n == faces@.len(),
            i <= n,
            out@.len() == i,
            forall|k: int|
                0 <= k < i ==> {
                    let d = #[trigger] out@[k];
                    let f = faces@[k].1;
                    &&& d.name == faces@[k].0
                    &&& d.width == f.width
                    &&& d.height == f.height
                    &&& d.proportional == f.proportional
                    &&& d.used == (chosen.view_set().0 == Some(f.view_face()) || chosen.view_set().1 == Some(
                        f.view_face(),
                    ))
                },
        decreases n - i,
    {
        let (name, f) = (&faces[i].0, &faces[i].1);
        out.push(
            DiskFace {
                name: name.clone(),
                width: f.width,
                height: f.height,
                proportional: f.proportional,
                used: chosen.draws(f),
            },
        );
        i = i + 1;
    }
    out
}

// ── The text face ────────────────────────────────────────────────────────────

/// The bold bit of a Z-machine text style (§8.7.1).
pub const STYLE_BOLD: u8 = 2;

/// The fixed-pitch bit of a Z-machine text style (§8.7.1).
pub const STYLE_FIXED_PITCH: u8 = 8;

/// The advance of byte `b` for a proportional pen: the glyph's width times the
/// horizontal scale, capped at 16 bits; a byte the face has no glyph for falls
/// back to the cell width.
pub open spec fn pen_advance(f: FaceView, b: int, cell_w: u16, scale_x: u32) -> u16 {
    match glyph_width(f, b) {
        Some(g) => if g * scale_x > u16::MAX {
            u16::MAX
        } else {
            (g * scale_x) as u16
        },
        None => cell_w,
    }
}

/// Whether the face's widths and bold smear, times the horizontal scale, are
/// 32-bit numbers (the pen's advances are computed in 32 bits).
pub open spec fn pen_in_range(f: FaceView, scale_x: u32) -> bool {
    &&& f.2 * scale_x <= u32::MAX
    &&& forall|b: int| 0 <= b < 256 ==> (#[trigger] glyph_width(f, b) matches Some(g) ==> g * scale_x <= u32::MAX)
}

/// What a proportional pen is given: each byte's advance, how far bold widens a
/// glyph (the face's smear times the scale, capped at 16 bits), and whether a
/// fixed-pitch run steps by the cell instead because the machine has a
/// fixed-pitch alternate.
#[derive(Debug, Clone)]
pub struct ProportionalPen {
    pub advances: Vec<u16>,
    pub bold_advance: u16,
    pub fixed_alternate: bool,
}

/// A pen as the contracts see it.
pub type PenView = (Seq<u16>, u16, bool);

/// The pen for a face set with body `body` (fitted as `fit`), declared cell
/// `cell` and horizontal scale `scale_x`: a proportional pen for a `Metric`
/// body, with fixed-pitch runs on the cell when there is an alternate; no
/// proportional pen (every glyph steps by the cell) otherwise.
pub open spec fn pen_spec(
    body: Option<FaceView>,
    fit: Option<FaceFit>,
    has_alternate: bool,
    cell: V6Cell,
    scale_x: u32,
) -> Option<PenView> {
    match (body, fit) {
        (Some(f), Some(FaceFit::Metric)) => Some(
            (
                Seq::new(256, |b: int| pen_advance(f, b, cell.w, scale_x)),
                if f.2 * scale_x > u16::MAX {
                    u16::MAX
                } else {
                    (f.2 * scale_x) as u16
                },
                has_alternate,
            ),
        ),
        _ => None,
    }
}

/// The body face paired with the machine that draws it: the faces, how the
/// body fits, the text scale, the declared cell, the pen, and whether the
/// machine rules under emphasised runs rather than sloping them.
#[derive(Debug, Clone)]
pub struct TextFace {
    faces: FaceSet,
    fit: Option<FaceFit>,
    scale_x: u32,
    scale_y: u32,
    cell: V6Cell,
    pen: Option<ProportionalPen>,
    underline_emphasis: bool,
}

/// A text face as the contracts see it.
pub type TextFaceView = (FaceSetView, Option<FaceFit>, (u32, u32), V6Cell, Option<PenView>, bool);

/// The face a run in `style` is drawn with: the fixed-pitch alternate for a
/// fixed-pitch run where the machine has one, else the body face.
pub open spec fn face_for_spec(faces: FaceSetView, style: u8) -> Option<FaceView> {
    if style & STYLE_FIXED_PITCH != 0 && faces.1 is Some {
        faces.1
    } else {
        faces.0
    }
}

impl TextFace {
    /// What the text face holds.
    pub closed spec fn view_tf(&self) -> TextFaceView {
        (
            self.faces.view_set(),
            self.fit,
            (self.scale_x, self.scale_y),
            self.cell,
            match self.pen {
                Some(p) => Some((p.advances@, p.bold_advance, p.fixed_alternate)),
                None => None,
            },
            self.underline_emphasis,
        )
    }

    /// Pair resolved faces with the machine that draws them, whose own cell is
    /// `machine_cell`, at `text_scale`. The body's fit and the declared cell are
    /// settled here, by [`fit`] and [`declared_cell`], so every place that
    /// builds a text face agrees on them.
    pub fn new(faces: FaceSet, machine_cell: V6Cell, text_scale: (u32, u32), underline_emphasis: bool) -> (tf: TextFace)
        requires
            match faces.view_set().0 {
                Some(f) => fit_spec(f, machine_cell) == Some(FaceFit::Metric) ==> pen_in_range(f, text_scale.0),
                None => true,
            },
        ensures
            ({
                let b = faces.view_set().0;
                let fit = match b {
                    Some(f) => fit_spec(f, machine_cell),
                    None => None,
                };
                let cell = declared_cell_spec(machine_cell, b, text_scale);
                tf.view_tf() == (
                    faces.view_set(),
                    fit,
                    text_scale,
                    cell,
                    pen_spec(b, fit, faces.view_set().1 is Some, cell, text_scale.0),
                    underline_emphasis,
                )
            }),
    {
        let fitted = match faces.body() {
            Some(f) => fit(f, machine_cell),
            None => None,
        };
        let cell = declared_cell(machine_cell, faces.body(), text_scale);
        let pen = match (faces.body(), fitted) {
            (Some(f), Some(FaceFit::Metric)) => {
                let sx = text_scale.0;
                let mut advances: Vec<u16> = Vec::new();
                let mut b: usize = 0;
                while b < 256
                    invariant
                        b <= 256,
                        advances@.len() == b,
                        pen_in_range(f.view_face(), sx),
                        forall|k: int| 0 <= k < b ==> #[trigger] advances@[k] == pen_advance(f.view_face(), k, cell.w, sx),
                    decreases 256 - b,
                {
                    let g = if b < f.glyph_widths.len() { f.glyph_widths[b] } else { None };
                    assert(g == glyph_width(f.view_face(), b as int));
                    let a: u16 = match g {
                        Some(w) => {
                            let x: u32 = (w as u32) * sx;
                            if x > 65535 { 65535 } else { x as u16 }
                        },
                        None => cell.w,
                    };
                    advances.push(a);
                    b = b + 1;
                }
                let smear: u32 = (f.bold_smear as u32) * sx;
                let bold: u16 = if smear > 65535 { 65535 } else { smear as u16 };
                assert(advances@ =~= Seq::new(256, |k: int| pen_advance(f.view_face(), k, cell.w, sx)));
                Some(ProportionalPen { advances, bold_advance: bold, fixed_alternate: faces.fixed().is_some() })
            },
            _ => None,
        };
        TextFace { faces, fit: fitted, scale_x: text_scale.0, scale_y: text_scale.1, cell, pen, underline_emphasis }
    }

    /// A cell with no release face behind it: a bare story, or a host default.
    pub fn cell_only(cell: V6Cell) -> (tf: TextFace)
        ensures
            tf.view_tf() == (
                (None::<FaceView>, None::<FaceView>, None::<FaceOrigin>, None::<FaceOrigin>),
                None::<FaceFit>,
                (1u32, 1u32),
                cell,
                None::<PenView>,
                false,
            ),
    {
        TextFace { faces: FaceSet::none(), fit: None, scale_x: 1, scale_y: 1, cell, pen: None, underline_emphasis: false }
    }

    /// The cell the story was told: its declared metrics.
    pub fn cell(&self) -> (c: V6Cell)
        ensures
            c == self.view_tf().3,
    {
        self.cell
    }

    /// What the pen is given, when the body face is proportional.
    pub fn pen(&self) -> (p: Option<&ProportionalPen>)
        ensures
            match p {
                Some(q) => self.view_tf().4 == Some((q.advances@, q.bold_advance, q.fixed_alternate)),
                None => self.view_tf().4 is None,
            },
    {
        self.pen.as_ref()
    }

    /// The face body text is drawn with, if a usable one was admitted.
    pub fn face(&self) -> (r: Option<&FontFace>)
        ensures
            opt_face(r) == self.view_tf().0.0,
    {
        self.faces.body()
    }

    /// The faces this was paired from, so it can be paired again against a
    /// changed machine without going back to the medium.
    pub fn faces(&self) -> (r: &FaceSet)
        ensures
            r.view_set() == self.view_tf().0,
    {
        &self.faces
    }

    /// The face a run carrying `style` is drawn with (see [`face_for_spec`]).
    pub fn face_for(&self, style: u8) -> (r: Option<&FontFace>)
        ensures
            opt_face(r) == face_for_spec(self.view_tf().0, style),
    {
        if style & STYLE_FIXED_PITCH != 0 {
            if let Some(alt) = self.faces.fixed() {
                return Some(alt);
            }
        }
        self.faces.body()
    }

    /// Whether the pen advances per glyph rather than by a fixed cell.
    pub fn proportional(&self) -> (b: bool)
        ensures
            b == (self.view_tf().1 == Some(FaceFit::Metric)),
    {
        match self.fit {
            Some(FaceFit::Metric) => true,
            _ => false,
        }
    }

    /// Whether a run in `style` is drawn with a proportional pen: a
    /// fixed-pitch run on a machine with an alternate is stamped into the cell.
    pub fn draws_proportionally(&self, style: u8) -> (b: bool)
        ensures
            b == (self.view_tf().1 == Some(FaceFit::Metric) && !(style & STYLE_FIXED_PITCH != 0
                && self.view_tf().0.1 is Some)),
    {
        self.proportional() && !(style & STYLE_FIXED_PITCH != 0 && self.faces.fixed().is_some())
    }

    /// How far a run in `style` smears, in face pixels: the smear of the face
    /// it is drawn with when it is bold, else 0.
    pub fn bold_smear(&self, style: u8) -> (n: u8)
        ensures
            n == match face_for_spec(self.view_tf().0, style) {
                Some(f) => if style & STYLE_BOLD != 0 {
                    f.2
                } else {
                    0
                },
                None => 0,
            },
    {
        match self.face_for(style) {
            Some(f) => if style & STYLE_BOLD != 0 {
                f.bold_smear
            } else {
                0
            },
            None => 0,
        }
    }

    /// How the body face may be drawn.
    pub fn fit(&self) -> (r: Option<FaceFit>)
        ensures
            r == self.view_tf().1,
    {
        self.fit
    }

    /// Native pixels per face pixel, on each axis.
    pub fn scale(&self) -> (r: (u32, u32))
        ensures
            r == self.view_tf().2,
    {
        (self.scale_x, self.scale_y)
    }

    /// Whether an emphasised run is ruled rather than sloped.
    pub fn underlines_emphasis(&self) -> (b: bool)
        ensures
            b == self.view_tf().5,
    {
        self.underline_emphasis
    }

    /// Native pixels from one text baseline to the next: the cell's height.
    pub fn line_px(&self) -> (n: u32)
        ensures
            n == self.view_tf().3.h,
    {
        self.cell.h as u32
    }
}

// ── Laws ─────────────────────────────────────────────────────────────────────

/// The first face offered for the fixed-pitch slot keeps it, and a body face
/// that is not the borrowed alternate is never displaced.
pub proof fn lemma_first_offer_keeps_its_slot(st: FaceSetView, face: FaceView, fit: Option<FaceFit>, origin: FaceOrigin)
    ensures
        st.1 is Some ==> offer_spec(st, face, fit, origin).1 == st.1,
        st.0 is Some && st.0 != st.1 ==> offer_spec(st, face, fit, origin).0 == st.0,
{
}

/// A cell-exact face offered to an empty set draws both the body and the
/// fixed-pitch runs, as every configuration with one face always did.
pub proof fn lemma_lone_cell_face_is_body_and_alternate(face: FaceView, origin: FaceOrigin)
    ensures
        offer_spec((None, None, None, None), face, Some(FaceFit::Cell), origin) == (Some(face), Some(face), Some(
            origin,
        ), Some(origin)),
{
}

/// The cell's width never moves, whatever face is admitted.
pub proof fn lemma_declared_width_is_the_machines(cell: V6Cell, face: Option<FaceView>, text_scale: (u32, u32))
    ensures
        declared_cell_spec(cell, face, text_scale).w == cell.w,
{
}

} // verus!
