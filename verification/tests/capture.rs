use poker_pro_track::capture::{capture_window_region, region_or_default};
use poker_pro_track::settings::OcrCoords;

#[test]
fn missing_members_of_a_region() {
    assert_eq!(region_or_default(None, None, None, None), OcrCoords { x: 0, y: 0, w: 100, h: 100 });
    assert_eq!(
        region_or_default(Some(5), Some(-6), Some(7), Some(8)),
        OcrCoords { x: 5, y: -6, w: 7, h: 8 }
    );
    assert_eq!(
        region_or_default(None, Some(1), None, Some(0)),
        OcrCoords { x: 0, y: 1, w: 100, h: 0 }
    );
}

#[test]
fn too_few_pixels_make_no_picture() {
    assert_eq!(capture_window_region(2, 2, vec![0; 15]), Err("Error al crear imagen RGBA".to_string()));
    assert_eq!(
        capture_window_region(u32::MAX, u32::MAX, vec![0; 16]),
        Err("Error al crear imagen RGBA".to_string())
    );
}

#[test]
fn pixels_become_base64_of_a_png() {
    let text = capture_window_region(2, 1, vec![255, 0, 0, 255, 0, 0, 255, 255]).unwrap();
    assert!(text.starts_with("iVBORw0KGgoAAAANSUhEUgAAAAIAAAABCAYAAA"));
    assert_eq!(text.len() % 4, 0);
    assert!(text.bytes().all(|b| b.is_ascii_alphanumeric() || b == b'+' || b == b'/' || b == b'='));
    let other = capture_window_region(2, 1, vec![0, 255, 0, 255, 0, 0, 255, 255]).unwrap();
    assert_ne!(text, other);
}

#[test]
fn empty_picture_does_not_panic() {
    let outcome = capture_window_region(0, 0, Vec::new());
    assert!(outcome.is_err());
    assert_ne!(outcome, Err("Error al crear imagen RGBA".to_string()));
    let outcome = capture_window_region(1, 1, vec![1, 2, 3, 4, 5, 6, 7, 8]);
    assert!(outcome.is_ok());
}

#[test]
fn base64_text_is_padded_to_groups_of_four() {
    for side in 1..6u32 {
        let pixels = vec![7u8; (4 * side * side) as usize];
        let text = capture_window_region(side, side, pixels).unwrap();
        assert_eq!(text.len() % 4, 0);
        assert!(text.starts_with("iVBORw0KGgo"));
        assert!(!text.trim_end_matches('=').contains('='));
    }
}
