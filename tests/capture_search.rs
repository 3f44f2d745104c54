use macmatic::search::{MATCH_THRESHOLD, PERFECT_SCORE};
use macmatic::{
    best_match, check_template_size, normalize, to_screen, BestMatch, ErrorKind, RawCapture, Rect, ScoreField, Search,
    SearchAction, SearchEvent,
};

fn raw(height: usize, bytes_per_row: usize, data: Vec<u8>) -> RawCapture {
    RawCapture { height, bytes_per_row, bits_per_pixel: 32, bits_per_component: 8, data }
}

#[test]
fn incomplete_frame_is_a_platform_error() {
    let r = normalize(&raw(2, 8, vec![0u8; 15]));
    assert_eq!(r.unwrap_err().kind, ErrorKind::Platform);
    let r = normalize(&raw(3, 8, vec![0u8; 16]));
    assert_eq!(r.unwrap_err().kind, ErrorKind::Platform);
}

#[test]
fn overflowing_stride_is_a_platform_error() {
    let r = normalize(&raw(usize::MAX, 8, vec![0u8; 8]));
    assert_eq!(r.unwrap_err().kind, ErrorKind::Platform);
}

#[test]
fn non_four_channel_layout_is_a_platform_error() {
    let mut c = raw(1, 6, vec![0u8; 6]);
    c.bits_per_pixel = 24;
    assert_eq!(normalize(&c).unwrap_err().kind, ErrorKind::Platform);
    c.bits_per_component = 0;
    assert_eq!(normalize(&c).unwrap_err().kind, ErrorKind::Platform);
}

#[test]
fn gray_levels_follow_the_fixed_weights() {
    let data = vec![
        0, 0, 255, 255, 255, 255, 255, 255, 0, 0, 0, 0, //
        255, 0, 0, 255, 0, 255, 0, 255, 9, 9, 9, 9,
    ];
    let f = normalize(&raw(2, 12, data)).unwrap();
    assert_eq!(f.width, 3);
    assert_eq!(f.height, 2);
    assert_eq!(f.pixels, vec![76, 255, 0, 29, 150, 9]);
}

#[test]
fn stride_padding_is_dropped() {
    let f = normalize(&raw(1, 10, vec![0, 0, 255, 255, 0, 255, 0, 255, 7, 7])).unwrap();
    assert_eq!(f.width, 2);
    assert_eq!(f.pixels, vec![76, 150]);
}

#[test]
fn empty_capture_gives_empty_frame() {
    let f = normalize(&raw(0, 16, vec![])).unwrap();
    assert_eq!((f.width, f.height), (4, 0));
    assert!(f.pixels.is_empty());
}

#[test]
fn template_larger_than_frame_is_refused() {
    assert_eq!(check_template_size(5, 5, 4, 10).unwrap_err().kind, ErrorKind::InvalidTemplateSize);
    assert_eq!(check_template_size(5, 11, 10, 10).unwrap_err().kind, ErrorKind::InvalidTemplateSize);
    assert_eq!(check_template_size(2, 3, 10, 10).unwrap(), (9, 8));
    assert_eq!(check_template_size(10, 10, 10, 10).unwrap(), (1, 1));
}

#[test]
fn best_match_takes_first_maximum() {
    let field = ScoreField { width: 2, height: 2, scores: vec![1, 5, 5, 2] };
    assert_eq!(best_match(&field), Some(BestMatch { x: 1, y: 0, score: 5 }));
    let field = ScoreField { width: 3, height: 2, scores: vec![-4, -3, -9, 0, 7, 2] };
    assert_eq!(best_match(&field), Some(BestMatch { x: 1, y: 1, score: 7 }));
    let empty = ScoreField { width: 0, height: 3, scores: vec![] };
    assert_eq!(best_match(&empty), None);
}

fn search(timeout_ms: u64) -> Search {
    Search::new(String::from("button.png"), 8, 6, timeout_ms, 3000).unwrap()
}

#[test]
fn exact_copy_is_found_on_first_tick() {
    let mut scores = vec![100_000i64; 12];
    scores[1 * 4 + 2] = PERFECT_SCORE;
    let field = ScoreField { width: 4, height: 3, scores };
    let b = best_match(&field).unwrap();
    assert_eq!(b, BestMatch { x: 2, y: 1, score: PERFECT_SCORE });
    match search(0).step(SearchEvent::Scored(b)) {
        SearchAction::Found(r) => assert_eq!(r, Rect::new(2, 1, 8, 6)),
        other => panic!("unexpected {:?}", other),
    }
}

#[test]
fn threshold_is_inclusive() {
    let s = search(1000);
    let at = BestMatch { x: 3, y: 4, score: MATCH_THRESHOLD };
    assert!(matches!(s.step(SearchEvent::Scored(at)), SearchAction::Found(_)));
    let below = BestMatch { x: 3, y: 4, score: MATCH_THRESHOLD - 1 };
    assert!(matches!(s.step(SearchEvent::Scored(below)), SearchAction::Sleep { millis: 333 }));
}

#[test]
fn deadline_gives_up_after_timeout_only() {
    let s = search(1000);
    assert!(matches!(s.step(SearchEvent::Slept { elapsed_ms: 999 }), SearchAction::Capture));
    assert!(matches!(s.step(SearchEvent::Slept { elapsed_ms: 1000 }), SearchAction::Capture));
    match s.step(SearchEvent::Slept { elapsed_ms: 1001 }) {
        SearchAction::GiveUp(e) => {
            assert_eq!(e.kind, ErrorKind::ImageNotFound);
            assert_eq!(e.message, "Template button.png not found");
        }
        other => panic!("unexpected {:?}", other),
    }
    // the check after the deadline comes within one tick of it
    assert!(matches!(s.step(SearchEvent::Slept { elapsed_ms: 1000 + s.tick_ms }), SearchAction::GiveUp(_)));
}

#[test]
fn zero_timeout_never_gives_up() {
    let s = search(0);
    assert!(!s.timeout_too_low());
    for elapsed_ms in [0u64, 1, 333, 1_000_000, u64::MAX] {
        assert!(matches!(s.step(SearchEvent::Slept { elapsed_ms }), SearchAction::Capture));
    }
}

#[test]
fn tick_follows_capture_frequency() {
    let s = Search::new(String::from("a.png"), 1, 1, 100, 3000).unwrap();
    assert_eq!(s.tick_ms, 333);
    assert!(s.timeout_too_low());
    let s = Search::new(String::from("a.png"), 1, 1, 100, 500).unwrap();
    assert_eq!(s.tick_ms, 2000);
}

#[test]
fn empty_template_is_a_load_error() {
    let r = Search::new(String::from("bad.png"), 0, 0, 0, 3000);
    assert_eq!(r.unwrap_err().kind, ErrorKind::TemplateLoad);
}

#[test]
fn coordinate_mapper_divides_then_offsets() {
    assert_eq!(to_screen((100, 50), 2, (40, 20)), Some((120, 60)));
    assert_eq!(to_screen((100, 50), 1, (40, 20)), Some((140, 70)));
    assert_eq!(to_screen((0, 0), 2, (41, 21)), Some((20, 10)));
    assert_eq!(to_screen((u32::MAX, 0), 1, (0, 0)), None);
}

#[test]
fn rect_center_is_floor_midpoint() {
    assert_eq!(Rect::new(10, 20, 5, 7).center(), (12, 23));
    assert_eq!(Rect::new(0, 0, 1, 1).center(), (0, 0));
}

#[test]
fn error_description_has_kind_heading() {
    let e = macmatic::Error::new(ErrorKind::ImageNotFound, String::from("Template a.png not found"));
    assert_eq!(e.describe(), "Image not found: Template a.png not found");
    let e = macmatic::Error::new(ErrorKind::Platform, String::from("no frame"));
    assert_eq!(e.describe(), "Platform: no frame");
}
