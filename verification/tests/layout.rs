use windows_app::control::{
    ControlRect, ControlRegistry, ID_BTN_PATH, ID_BTN_RUN, ID_PROGRESS_BAR, ID_PROGRESS_TXT,
    ID_TEXTBOX_PATH, ID_TEXTBOX_RESULT,
};
use windows_app::layout::{
    font_height, layout, place_control, relayout, scale_length, to_pixels, Metrics,
};

fn rect(x: i32, y: i32, width: i32, height: i32) -> ControlRect {
    ControlRect { x, y, width, height }
}

#[test]
fn pixels_round_toward_zero() {
    assert_eq!(to_pixels(0), 0);
    assert_eq!(to_pixels(95), 0);
    assert_eq!(to_pixels(96), 1);
    assert_eq!(to_pixels(191), 1);
    assert_eq!(to_pixels(-95), 0);
    assert_eq!(to_pixels(-96), -1);
    assert_eq!(to_pixels(-191), -1);
    assert_eq!(to_pixels(i64::MAX), i32::MAX);
    assert_eq!(to_pixels(i64::MIN), i32::MIN);
}

#[test]
fn lengths_scale_with_density() {
    assert_eq!(scale_length(800, 96), 800);
    assert_eq!(scale_length(800, 120), 1000);
    assert_eq!(scale_length(600, 144), 900);
    assert_eq!(scale_length(5, 100), 5);
    assert_eq!(scale_length(u32::MAX, u32::MAX), u32::MAX);
    assert_eq!(scale_length(0, 96), 0);
}

#[test]
fn font_height_is_negative_and_scaled() {
    assert_eq!(font_height(96), -14);
    assert_eq!(font_height(120), -17);
    assert_eq!(font_height(144), -21);
    assert_eq!(font_height(0), 0);
}

#[test]
fn metrics_at_reference_density() {
    let m = Metrics::reference();
    assert_eq!(m.btn_width, 80 * 96);
    assert_eq!(m.progress_txt_width, 80 * 96);
    assert_eq!(m.oneline_height, 24 * 96);
    assert_eq!(m.padding, 5 * 96);
    assert_eq!(m.minimum_width(), 180);
    assert_eq!(m.minimum_height(), 68);
    assert!(m.is_usable(180, 68));
    assert!(!m.is_usable(179, 68));
    assert!(!m.is_usable(180, 67));
}

#[test]
fn layout_of_800_by_600_at_reference_density() {
    let m = Metrics::reference();
    let r = layout(800, 600, &m);
    assert_eq!(r.len(), 6);
    assert_eq!(r.get(ID_TEXTBOX_PATH), Some(rect(5, 5, 620, 24)));
    assert_eq!(r.get(ID_PROGRESS_BAR), Some(rect(5, 34, 710, 24)));
    assert_eq!(r.get(ID_PROGRESS_TXT), Some(rect(715, 34, 80, 24)));
    assert_eq!(r.get(ID_TEXTBOX_RESULT), Some(rect(5, 63, 790, 532)));
    assert_eq!(r.get(ID_BTN_PATH), Some(rect(630, 5, 80, 24)));
    assert_eq!(r.get(ID_BTN_RUN), Some(rect(715, 5, 80, 24)));
    assert_eq!(r.get(7), None);
    assert_eq!(r.get(0), None);
}

#[test]
fn layout_keeps_fractions_until_the_end() {
    // At 125 % the padding is 6.25 pixels: four of them are 25, not 24.
    let m = Metrics::scaled(120);
    assert_eq!(place_control(ID_TEXTBOX_PATH, 1000, 750, &m), rect(6, 6, 775, 30));
    assert_eq!(place_control(ID_PROGRESS_BAR, 1000, 750, &m), rect(6, 42, 887, 30));
    assert_eq!(place_control(ID_PROGRESS_TXT, 1000, 750, &m), rect(893, 42, 100, 30));
    assert_eq!(place_control(ID_TEXTBOX_RESULT, 1000, 750, &m), rect(6, 78, 987, 665));
    assert_eq!(place_control(ID_BTN_PATH, 1000, 750, &m), rect(787, 6, 100, 30));
    assert_eq!(place_control(ID_BTN_RUN, 1000, 750, &m), rect(893, 6, 100, 30));
}

#[test]
fn narrow_window_is_not_clamped() {
    let m = Metrics::reference();
    let path = place_control(ID_TEXTBOX_PATH, 100, 10, &m);
    assert_eq!(path.width, -80);
    let log = place_control(ID_TEXTBOX_RESULT, 100, 10, &m);
    assert_eq!(log.width, 90);
    assert_eq!(log.height, -58);
}

#[test]
fn usable_window_has_no_negative_size() {
    let m = Metrics::scaled(120);
    let w = m.minimum_width() as u32;
    let h = m.minimum_height() as u32;
    for id in 1..=6usize {
        let r = place_control(id, w, h, &m);
        assert!(r.width >= 0 && r.height >= 0);
    }
}

#[test]
fn relayout_is_idempotent_and_equals_a_fresh_layout() {
    let m = Metrics::reference();
    let mut r = layout(800, 600, &m);
    relayout(&mut r, 1024, 768, &m);
    let once: Vec<Option<ControlRect>> = (1..=6usize).map(|id| r.get(id)).collect();
    relayout(&mut r, 1024, 768, &m);
    let twice: Vec<Option<ControlRect>> = (1..=6usize).map(|id| r.get(id)).collect();
    assert_eq!(once, twice);
    let fresh = layout(1024, 768, &m);
    let expected: Vec<Option<ControlRect>> = (1..=6usize).map(|id| fresh.get(id)).collect();
    assert_eq!(once, expected);
    assert_eq!(r.get(ID_TEXTBOX_RESULT), Some(rect(5, 63, 1014, 700)));
    assert_eq!(r.len(), 6);
    assert_eq!(r.entry(0).unwrap().id, ID_TEXTBOX_PATH);
    assert_eq!(r.entry(5).unwrap().id, ID_BTN_RUN);
}

#[test]
fn relayout_fills_in_the_six_and_leaves_the_rest() {
    let m = Metrics::reference();
    let mut r = ControlRegistry::new();
    r.insert(9, rect(1, 2, 3, 4));
    r.insert(ID_BTN_RUN, rect(0, 0, 0, 0));
    relayout(&mut r, 800, 600, &m);
    assert_eq!(r.len(), 7);
    assert_eq!(r.get(9), Some(rect(1, 2, 3, 4)));
    assert_eq!(r.get(ID_BTN_RUN), Some(rect(715, 5, 80, 24)));
    assert_eq!(r.get(ID_TEXTBOX_PATH), Some(rect(5, 5, 620, 24)));
    assert_eq!(r.entry(0).unwrap().id, 9);
    assert_eq!(r.entry(1).unwrap().id, ID_BTN_RUN);
    assert_eq!(r.entry(7), None);
}
