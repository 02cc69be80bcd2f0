use webview_core::registry::ViewRegistry;
use webview_core::ViewportSize;

fn vp() -> ViewportSize {
    ViewportSize::new(4, 4).expect("small viewport")
}

#[test]
fn inserted_ids_are_pairwise_distinct() {
    let mut reg = ViewRegistry::new();
    let a = reg.insert(10, vp()).expect("id space not exhausted");
    let b = reg.insert(11, vp()).expect("id space not exhausted");
    let c = reg.insert(12, vp()).expect("id space not exhausted");
    assert!(a != b && b != c && a != c);
}

#[test]
fn ids_are_not_reused_after_removal() {
    let mut reg = ViewRegistry::new();
    let a = reg.insert(10, vp()).expect("id space not exhausted");
    let b = reg.insert(11, vp()).expect("id space not exhausted");
    assert_eq!(reg.remove(a), Some(10));
    let c = reg.insert(12, vp()).expect("id space not exhausted");
    assert!(c != a, "a removed id must never come back");
    assert!(c != b);
}

#[test]
fn removing_twice_is_a_no_op() {
    let mut reg = ViewRegistry::new();
    let a = reg.insert(10, vp()).expect("id space not exhausted");
    assert_eq!(reg.remove(a), Some(10));
    assert_eq!(reg.remove(a), None);
    assert_eq!(reg.len(), 0);
}

#[test]
fn stale_ids_answer_not_found() {
    let mut reg = ViewRegistry::new();
    let a = reg.insert(10, vp()).expect("id space not exhausted");
    reg.remove(a);
    assert!(reg.get(a).is_none());
    assert!(!reg.set_current(a));
}

#[test]
fn closing_the_current_view_clears_the_selection() {
    let mut reg = ViewRegistry::new();
    let a = reg.insert(10, vp()).expect("id space not exhausted");
    let b = reg.insert(11, vp()).expect("id space not exhausted");
    assert!(reg.set_current(a));
    assert_eq!(reg.current(), Some(a));
    reg.remove(a);
    assert_eq!(reg.current(), None);
    assert!(reg.set_current(b));
    reg.remove(a);
    assert_eq!(reg.current(), Some(b), "removing a stale id keeps the selection");
}

#[test]
fn new_records_start_with_a_placeholder_and_the_dirty_flag() {
    let mut reg = ViewRegistry::new();
    let a = reg.insert(10, vp()).expect("id space not exhausted");
    let entry = reg.get(a).expect("live view");
    assert_eq!(entry.id(), a);
    assert!(entry.needs_repaint());
    assert!(!entry.is_loading());
    assert_eq!(entry.url(), "");
    assert_eq!(entry.title(), "");
    assert_eq!(entry.frame().width(), 4);
    assert_eq!(entry.frame().height(), 4);
    assert!(entry.frame().pixels().iter().all(|&p| p == 255));
    assert_eq!(entry.cursor_pos(), (0, 0));
}

#[test]
fn cursor_positions_are_tracked_per_view() {
    let mut reg = ViewRegistry::new();
    let a = reg.insert(10, vp()).expect("id space not exhausted");
    let b = reg.insert(11, vp()).expect("id space not exhausted");
    assert!(reg.set_cursor_pos(a, 5, 6));
    assert_eq!(reg.get(a).expect("live").cursor_pos(), (5, 6));
    assert_eq!(reg.get(b).expect("live").cursor_pos(), (0, 0));
    reg.remove(a);
    assert!(!reg.set_cursor_pos(a, 7, 8));
}
