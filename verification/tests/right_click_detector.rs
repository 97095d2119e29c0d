use poker_pro_track::right_click_detector::{
    PointerTarget, RightClickDetector, Sample, Watch, MEMORY_MS,
};

fn target(hwnd: u32, title: &str) -> Option<PointerTarget> {
    Some(PointerTarget {
        hwnd,
        title: title.to_string(),
        class_name: "Qt5QWindowIcon".to_string(),
        x: 10,
        y: 20,
        screen_x: 110,
        screen_y: 220,
    })
}

fn sample(now_ms: u64, pressed: bool, target: Option<PointerTarget>) -> Sample {
    Sample { now_ms, pressed, target }
}

#[test]
fn flags_of_the_detector() {
    let mut detector = RightClickDetector::new();
    assert!(!detector.is_active());
    assert!(!detector.is_running());
    detector.set_active(true);
    assert!(detector.is_active());
    assert!(!detector.is_running());
    assert!(detector.start());
    assert!(detector.is_running());
    assert!(!detector.start());
    assert!(detector.is_running());
    detector.set_active(false);
    assert!(detector.is_running());
    assert!(!detector.is_active());
    assert!(detector.stop());
    assert!(!detector.is_running());
    assert!(!detector.stop());
    assert!(detector.start());
}

#[test]
fn press_over_a_table_emits_one_event() {
    let mut watch = Watch::new(0);
    let event = watch.poll(true, &sample(50, true, target(7, "PokerStars Table 1"))).unwrap();
    assert_eq!(event.hwnd, 7);
    assert_eq!(event.title, "PokerStars Table 1");
    assert_eq!(event.class_name, "Qt5QWindowIcon");
    assert_eq!((event.x, event.y, event.screen_x, event.screen_y), (10, 20, 110, 220));
    assert_eq!(watch, Watch { last_hwnd: 7, last_emit_ms: 50, right_button_down: true });
    assert!(watch.poll(true, &sample(100, true, target(7, "PokerStars Table 1"))).is_none());
    assert!(watch.poll(true, &sample(150, true, target(8, "GGPoker"))).is_none());
}

#[test]
fn same_window_is_suppressed_for_five_seconds() {
    let mut watch = Watch::new(0);
    assert!(watch.poll(true, &sample(1_000, true, target(7, "GGPoker"))).is_some());
    assert!(watch.poll(true, &sample(1_050, false, None)).is_none());
    assert!(watch.poll(true, &sample(2_000, true, target(7, "GGPoker"))).is_none());
    assert!(watch.poll(true, &sample(2_050, false, None)).is_none());
    assert!(watch.poll(true, &sample(5_999, true, target(7, "GGPoker"))).is_none());
    assert_eq!(watch.last_hwnd, 7);
    assert!(watch.poll(true, &sample(6_000, false, None)).is_none());
    assert_eq!(watch.last_hwnd, 0);
    let event = watch.poll(true, &sample(6_050, true, target(7, "GGPoker")));
    assert_eq!(event.unwrap().hwnd, 7);
    assert_eq!(watch.last_emit_ms, 6_050);
}

#[test]
fn press_after_five_seconds_emits_again() {
    let mut watch = Watch::new(0);
    assert!(watch.poll(true, &sample(1_000, true, target(7, "GGPoker"))).is_some());
    assert!(watch.poll(true, &sample(1_050, false, None)).is_none());
    let event = watch.poll(true, &sample(6_000, true, target(7, "GGPoker")));
    assert_eq!(event.unwrap().hwnd, 7);
    assert_eq!(watch, Watch { last_hwnd: 7, last_emit_ms: 6_000, right_button_down: true });

    let mut watch = Watch::new(0);
    assert!(watch.poll(true, &sample(1_000, true, target(7, "GGPoker"))).is_some());
    assert!(watch.poll(true, &sample(6_450, false, None)).is_none());
    let event = watch.poll(true, &sample(6_500, true, target(7, "GGPoker")));
    assert_eq!(event.unwrap().hwnd, 7);
}

#[test]
fn memory_lasts_five_seconds() {
    assert_eq!(MEMORY_MS, 5_000);
    let mut watch = Watch { last_hwnd: 7, last_emit_ms: 1_000, right_button_down: false };
    watch.poll(false, &sample(5_999, false, None));
    assert_eq!(watch.last_hwnd, 7);
    watch.poll(false, &sample(6_000, false, None));
    assert_eq!(watch.last_hwnd, 0);
    let mut watch = Watch { last_hwnd: 7, last_emit_ms: 1_000, right_button_down: false };
    watch.poll(true, &sample(500, false, None));
    assert_eq!(watch.last_hwnd, 7);
}

#[test]
fn another_window_emits_at_once() {
    let mut watch = Watch::new(0);
    assert!(watch.poll(true, &sample(1_000, true, target(7, "GGPoker"))).is_some());
    assert!(watch.poll(true, &sample(1_050, false, None)).is_none());
    let event = watch.poll(true, &sample(1_100, true, target(8, "Winamax")));
    assert_eq!(event.unwrap().hwnd, 8);
    assert_eq!(watch.last_hwnd, 8);
}

#[test]
fn inactive_loop_emits_nothing() {
    let mut watch = Watch::new(0);
    for (now, pressed) in [(50, true), (100, false), (150, true), (9_000, true)] {
        assert!(watch.poll(false, &sample(now, pressed, target(7, "GGPoker"))).is_none());
        assert!(!watch.right_button_down);
    }
    assert!(watch.poll(true, &sample(9_050, true, target(7, "GGPoker"))).is_some());
}

#[test]
fn only_tables_with_a_class_emit() {
    let mut watch = Watch::new(0);
    assert!(watch.poll(true, &sample(50, true, target(7, "Notepad"))).is_none());
    assert!(watch.poll(true, &sample(100, false, None)).is_none());
    assert!(watch.poll(true, &sample(150, true, target(0, "GGPoker"))).is_none());
    assert!(watch.poll(true, &sample(200, false, None)).is_none());
    assert!(watch.poll(true, &sample(250, true, target(7, ""))).is_none());
    assert!(watch.poll(true, &sample(300, false, None)).is_none());
    assert!(watch.poll(true, &sample(350, true, None)).is_none());
    assert!(watch.poll(true, &sample(400, false, None)).is_none());
    let mut classless = target(7, "GGPoker").unwrap();
    classless.class_name = String::new();
    assert!(watch.poll(true, &sample(450, true, Some(classless))).is_none());
    assert_eq!(watch, Watch { last_hwnd: 0, last_emit_ms: 0, right_button_down: true });
}
