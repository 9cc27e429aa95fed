use babelmap::native_font::{
    declared_cell, detected_faces, fit, resolve_faces, FaceFit, FaceOrigin, FaceSet, FontFace, TextFace, V6Cell,
    STYLE_BOLD, STYLE_FIXED_PITCH,
};

/// A face `w` x `h` whose printable glyphs all advance by `adv`, with one
/// narrower glyph when `narrow` is set.
fn face(w: u8, h: u8, adv: u8, narrow: bool) -> FontFace {
    let mut glyph_widths = vec![None; 256];
    for b in 33..=126 {
        glyph_widths[b] = Some(adv);
    }
    if narrow {
        glyph_widths[b'i' as usize] = Some(adv - 4);
    }
    FontFace { width: w, height: h, bold_smear: 1, proportional: narrow, glyph_widths, bitmap: vec![w, h, adv] }
}

const MAC_CELL: V6Cell = V6Cell { w: 7, h: 15 };

#[test]
fn a_cell_exact_face_blits_and_a_proportional_one_brings_metrics() {
    assert_eq!(fit(&face(7, 15, 7, false), MAC_CELL), Some(FaceFit::Cell));
    assert_eq!(fit(&face(8, 10, 8, true), MAC_CELL), Some(FaceFit::Metric));
    assert_eq!(fit(&face(8, 8, 7, false), MAC_CELL), None, "a fixed face of another size is declined");
    // Only printable ASCII counts: a varying accented range does not make it proportional.
    let mut f = face(7, 15, 7, false);
    f.glyph_widths[200] = Some(3);
    assert_eq!(fit(&f, MAC_CELL), Some(FaceFit::Cell));
}

#[test]
fn the_cell_height_follows_a_metric_face() {
    let amiga = face(8, 10, 8, true);
    assert_eq!(declared_cell(V6Cell { w: 8, h: 16 }, Some(&amiga), (2, 2)), V6Cell { w: 8, h: 20 });
    assert_eq!(declared_cell(MAC_CELL, Some(&face(7, 15, 7, false)), (1, 1)), MAC_CELL);
    assert_eq!(declared_cell(MAC_CELL, None, (3, 3)), MAC_CELL);
}

#[test]
fn a_release_cell_face_draws_body_and_alternate() {
    let monaco = face(7, 15, 7, false);
    let set = FaceSet::release(monaco.clone(), MAC_CELL);
    assert!(set.draws(&monaco));
    assert_eq!(set.body_origin(), Some(&FaceOrigin::Release));
    assert!(set.fixed().is_some());
    assert!(!FaceSet::none().draws(&monaco));
}

#[test]
fn a_system_body_face_displaces_the_borrowed_alternate() {
    let monaco = face(7, 15, 7, false);
    let geneva12 = face(15, 15, 9, true);
    let geneva9 = face(12, 12, 9, true);
    let system = vec![
        (geneva9.clone(), "System.img".to_string(), "FONT 393".to_string()),
        (geneva12.clone(), "System.img".to_string(), "FONT 396".to_string()),
    ];
    let set = resolve_faces(Some(monaco.clone()), true, &system, MAC_CELL, (1, 1));
    assert!(set.draws(&monaco), "the release face stays the fixed-pitch alternate");
    assert!(set.draws(&geneva12), "the size the machine drew with is the body");
    assert!(!set.draws(&geneva9), "another size of the family is skipped");
    assert_eq!(
        set.body_origin(),
        Some(&FaceOrigin::SystemDisk { disk: "System.img".to_string(), name: "FONT 396".to_string() })
    );
    let rows = detected_faces(&set, &vec![("FONT 524".to_string(), monaco), ("FONT 393".to_string(), geneva9)]);
    assert_eq!(rows.len(), 2);
    assert!(rows[0].used);
    assert!(!rows[1].used);
    assert_eq!((rows[0].width, rows[0].height), (7, 15));
}

#[test]
fn a_release_face_needs_the_medium_to_have_named_the_machine() {
    let monaco = face(7, 15, 7, false);
    let set = resolve_faces(Some(monaco.clone()), false, &Vec::new(), MAC_CELL, (1, 1));
    assert!(!set.draws(&monaco));
    assert!(set.body().is_none());
}

#[test]
fn a_metric_body_gets_a_proportional_pen() {
    // An Amiga-style proportional face 8x10, 'i' four pixels narrower, smear 1.
    let amiga = face(8, 10, 8, true);
    let cell = V6Cell { w: 8, h: 16 };
    let tf = TextFace::new(FaceSet::release(amiga.clone(), cell), cell, (2, 2), true);
    assert_eq!(tf.fit(), Some(FaceFit::Metric));
    assert!(tf.proportional());
    assert_eq!(tf.cell(), V6Cell { w: 8, h: 20 }, "the line follows the face, scaled");
    assert_eq!(tf.line_px(), 20);
    assert_eq!(tf.scale(), (2, 2));
    assert!(tf.underlines_emphasis());
    let pen = tf.pen().expect("a proportional pen");
    assert_eq!(pen.advances.len(), 256);
    assert_eq!(pen.advances[b'a' as usize], 16, "8 face pixels at scale 2");
    assert_eq!(pen.advances[b'i' as usize], 8, "the narrow glyph keeps its own advance");
    assert_eq!(pen.advances[0], 8, "a byte with no glyph steps by the cell");
    assert_eq!(pen.bold_advance, 2);
    assert!(!pen.fixed_alternate, "a metric face alone leaves no alternate");
    assert_eq!(tf.bold_smear(STYLE_BOLD), 1);
    assert_eq!(tf.bold_smear(0), 0);
    assert!(tf.draws_proportionally(STYLE_FIXED_PITCH), "no alternate: fixed pitch stays on the body face");
}

#[test]
fn a_fixed_pitch_run_takes_the_alternate() {
    let monaco = face(7, 15, 7, false);
    let geneva12 = face(15, 15, 9, true);
    let system = vec![(geneva12.clone(), "System.img".to_string(), "FONT 396".to_string())];
    let set = resolve_faces(Some(monaco.clone()), true, &system, MAC_CELL, (1, 1));
    let tf = TextFace::new(set, MAC_CELL, (1, 1), false);
    assert!(tf.proportional());
    assert!(tf.pen().unwrap().fixed_alternate);
    let body = tf.face_for(0).unwrap();
    assert_eq!(body.width, 15, "roman runs use the body face");
    let alt = tf.face_for(STYLE_FIXED_PITCH).unwrap();
    assert_eq!(alt.width, 7, "fixed-pitch runs use the alternate");
    assert!(tf.draws_proportionally(0));
    assert!(!tf.draws_proportionally(STYLE_FIXED_PITCH));
    assert_eq!(tf.face().unwrap().width, 15);
}

#[test]
fn a_cell_face_or_none_steps_by_the_cell() {
    let monaco = face(7, 15, 7, false);
    let tf = TextFace::new(FaceSet::release(monaco, MAC_CELL), MAC_CELL, (1, 1), false);
    assert_eq!(tf.fit(), Some(FaceFit::Cell));
    assert!(!tf.proportional());
    assert!(tf.pen().is_none());
    assert_eq!(tf.cell(), MAC_CELL);

    let bare = TextFace::cell_only(MAC_CELL);
    assert_eq!(bare.fit(), None);
    assert!(bare.face().is_none());
    assert!(bare.pen().is_none());
    assert_eq!(bare.scale(), (1, 1));
    assert!(!bare.underlines_emphasis());
    assert_eq!(bare.bold_smear(STYLE_BOLD), 0);
    assert_eq!(bare.line_px(), 15);
}
