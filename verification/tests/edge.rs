use stadia_bridge::edge::run_button_press;

#[test]
fn same_report_twice_dispatches_at_most_once() {
    let mut latch = false;
    let first = run_button_press(&mut latch, true, Some("on-press"), Some("on-release"));
    let second = run_button_press(&mut latch, true, Some("on-press"), Some("on-release"));
    assert_eq!(first, Some("on-press"));
    assert_eq!(second, None);
}

#[test]
fn assistant_press_then_hold_then_release() {
    let mut latch = false;
    let mut dispatched: Vec<&str> = Vec::new();
    for level in [true, true, false] {
        if let Some(cmd) = run_button_press(&mut latch, level, Some("pressed"), Some("released")) {
            dispatched.push(cmd);
        }
    }
    assert_eq!(dispatched, vec!["pressed", "released"]);
}

#[test]
fn unchanged_level_keeps_latch_and_dispatches_nothing() {
    let mut latch = false;
    assert_eq!(run_button_press(&mut latch, false, Some("a"), Some("b")), None);
    assert!(!latch);
    let mut latch = true;
    assert_eq!(run_button_press(&mut latch, true, Some("a"), Some("b")), None);
    assert!(latch);
}

#[test]
fn unset_command_skips_dispatch() {
    let mut latch = false;
    assert_eq!(run_button_press(&mut latch, true, None, Some("released")), None);
    assert!(latch);
    assert_eq!(run_button_press(&mut latch, false, None, Some("released")), Some("released"));
    assert!(!latch);
}

#[test]
fn empty_command_skips_dispatch() {
    let mut latch = false;
    assert_eq!(run_button_press(&mut latch, true, Some(""), Some("released")), None);
    assert!(latch);
    assert_eq!(run_button_press(&mut latch, false, Some("pressed"), Some("")), None);
    assert!(!latch);
}

#[test]
fn release_edge_picks_release_command() {
    let mut latch = true;
    assert_eq!(
        run_button_press(&mut latch, false, Some("pressed"), Some("released")),
        Some("released")
    );
    assert!(!latch);
}
