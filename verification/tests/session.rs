use webview_core::engines::test::Test;
use webview_core::input::{Key, KeyEvent, KeyPress, Modifiers, MouseEvent, ScrollDelta};
use webview_core::{Action, Notification, PageType, UpdateError, ViewId, ViewportSize, WebView};

fn vp() -> ViewportSize {
    ViewportSize::new(4, 4).expect("small viewport")
}

fn session() -> WebView<Test> {
    WebView::new(Test::new(vp()), vp())
        .on_create_view()
        .on_close_view()
        .on_url_change()
        .on_title_change()
}

fn create(wv: &mut WebView<Test>, content: Option<PageType>) -> ViewId {
    let notes = wv.update(Action::CreateView(content)).expect("creation succeeds");
    assert_eq!(notes.len(), 1);
    match &notes[0] {
        Notification::ViewCreated(id) => *id,
        other => panic!("expected a view-created notification, got {:?}", other),
    }
}

fn assert_solid(wv: &WebView<Test>, id: ViewId, value: u8) {
    let (frame, _) = wv.snapshot(id).expect("live view");
    assert_eq!(frame.width(), 4);
    assert_eq!(frame.height(), 4);
    assert!(frame.pixels().iter().all(|&p| p == value));
}

#[test]
fn scenario_create_load_and_first_paint() {
    let mut wv = session();
    let id = create(&mut wv, Some(PageType::Url("https://example.test".to_string())));

    // the initial snapshot is a solid placeholder sized to the viewport
    assert_solid(&wv, id, 255);

    // while the page loads, ticks keep returning the placeholder and stay
    // silent
    let notes = wv.update(Action::Tick).expect("tick");
    assert!(notes.is_empty());
    assert_solid(&wv, id, 255);

    // once loading finishes, the next tick shows the painted frame and
    // reports the new url and title
    let notes = wv.update(Action::Tick).expect("tick");
    assert_eq!(
        notes,
        vec![
            Notification::UrlChanged(id, "https://example.test".to_string()),
            Notification::TitleChanged(id, "https://example.test".to_string()),
        ]
    );
    assert_solid(&wv, id, 7);
}

#[test]
fn notifications_are_debounced_between_ticks() {
    let mut wv = session();
    let id = create(&mut wv, Some(PageType::Url("https://a.test".to_string())));
    wv.update(Action::Tick).expect("tick");
    wv.update(Action::Tick).expect("tick");

    // nothing changed: the url notification fires zero times
    let notes = wv.update(Action::Tick).expect("tick");
    assert!(notes.is_empty());

    // one navigation: the url notification fires exactly once, with the
    // new value
    wv.update(Action::Navigate(id, PageType::Url("https://b.test".to_string()))).expect("navigate");
    let mut url_notes = Vec::new();
    for _ in 0..4 {
        for n in wv.update(Action::Tick).expect("tick") {
            if let Notification::UrlChanged(nid, url) = n {
                url_notes.push((nid, url));
            }
        }
    }
    assert_eq!(url_notes, vec![(id, "https://b.test".to_string())]);
}

#[test]
fn a_view_that_never_finishes_loading_keeps_the_placeholder() {
    let mut engine = Test::new(vp());
    engine.set_load_delay(1000);
    let mut wv = WebView::new(engine, vp()).on_create_view();
    let id = create(&mut wv, Some(PageType::Url("https://slow.test".to_string())));
    for _ in 0..5 {
        let notes = wv.update(Action::Tick).expect("tick");
        assert!(notes.is_empty());
        assert_solid(&wv, id, 255);
    }
}

#[test]
fn close_is_idempotent() {
    let mut wv = session();
    let id = create(&mut wv, None);
    let notes = wv.update(Action::CloseView(id)).expect("close");
    assert_eq!(notes, vec![Notification::ViewClosed(id)]);
    assert_eq!(wv.view_count(), 0);

    // the second close is a no-op: no panic, no duplicate notification
    let notes = wv.update(Action::CloseView(id)).expect("close again");
    assert!(notes.is_empty());
    assert_eq!(wv.view_count(), 0);
}

#[test]
fn navigate_after_close_is_a_silent_no_op() {
    let mut wv = session();
    let id = create(&mut wv, None);
    wv.update(Action::CloseView(id)).expect("close");
    let notes = wv
        .update(Action::Navigate(id, PageType::Url("https://gone.test".to_string())))
        .expect("navigate");
    assert!(notes.is_empty());
    assert_eq!(wv.view_count(), 0);
    assert!(wv.snapshot(id).is_none());
}

#[test]
fn failed_creation_surfaces_and_changes_nothing() {
    let mut engine = Test::new(vp());
    engine.set_fail_next_create(true);
    let mut wv = WebView::new(engine, vp()).on_create_view();
    assert_eq!(wv.update(Action::CreateView(None)), Err(UpdateError::CreateFailed));
    assert_eq!(wv.view_count(), 0);
    // the failure mode was one-shot; the next creation succeeds
    let id = create(&mut wv, None);
    assert_eq!(wv.view_count(), 1);
    assert_solid(&wv, id, 255);
}

#[test]
fn closing_the_current_view_leaves_none_current() {
    let mut wv = session();
    let a = create(&mut wv, None);
    let b = create(&mut wv, None);
    assert!(a != b, "live views never share an id");
    wv.update(Action::ChangeCurrentView(a)).expect("select");
    assert_eq!(wv.current_view(), Some(a));
    wv.update(Action::CloseView(a)).expect("close");
    assert_eq!(wv.current_view(), None);
    wv.update(Action::ChangeCurrentView(b)).expect("select");
    assert_eq!(wv.current_view(), Some(b));
}

#[test]
fn ids_stay_unique_across_close_and_create() {
    let mut wv = session();
    let a = create(&mut wv, None);
    let b = create(&mut wv, None);
    wv.update(Action::CloseView(a)).expect("close");
    let c = create(&mut wv, None);
    assert!(c != a && c != b);
}

#[test]
fn html_content_loads_to_the_blank_url() {
    let mut wv = session();
    let id = create(&mut wv, Some(PageType::Html("<p>hello</p>".to_string())));
    wv.update(Action::Tick).expect("tick");
    let notes = wv.update(Action::Tick).expect("tick");
    assert_eq!(
        notes,
        vec![
            Notification::UrlChanged(id, "about:blank".to_string()),
            Notification::TitleChanged(id, "about:blank".to_string()),
        ]
    );
}

#[test]
fn input_commands_run_without_notifications() {
    let mut wv = session();
    let id = create(&mut wv, None);
    let key = KeyEvent {
        press: KeyPress::Press,
        key: Key::Character('a'),
        modifiers: Modifiers { alt: false, control: false, logo: false, shift: false },
        text: Some("a".to_string()),
    };
    assert!(wv.update(Action::KeyInput(id, key)).expect("key input").is_empty());
    assert!(wv.update(Action::PointerInput(id, MouseEvent::CursorMoved(1, 2))).expect(
        "pointer input",
    ).is_empty());
    assert!(wv.update(Action::ScrollInput(id, ScrollDelta::Lines { x: 0, y: 1 })).expect(
        "scroll input",
    ).is_empty());
    assert!(wv.update(Action::GoBack(id)).expect("history").is_empty());
    assert!(wv.update(Action::GoForward(id)).expect("history").is_empty());
    assert!(wv.update(Action::Reload(id)).expect("reload").is_empty());
}

#[test]
fn resize_changes_the_viewport_and_later_placeholders() {
    let mut engine = Test::new(vp());
    engine.set_load_delay(1000);
    let mut wv = WebView::new(engine, vp()).on_create_view();
    let id = create(&mut wv, Some(PageType::Url("https://slow.test".to_string())));
    let bigger = ViewportSize::new(6, 2).expect("small viewport");
    wv.update(Action::Resize(bigger)).expect("resize");
    assert_eq!(wv.viewport(), bigger);
    // the still-loading view now shows a placeholder at the new size
    wv.update(Action::Tick).expect("tick");
    let (frame, _) = wv.snapshot(id).expect("live view");
    assert_eq!((frame.width(), frame.height()), (6, 2));
    assert!(frame.pixels().iter().all(|&p| p == 255));
}

#[test]
fn force_repaint_without_a_fresh_frame_keeps_the_picture() {
    let mut wv = session();
    let id = create(&mut wv, Some(PageType::Url("https://example.test".to_string())));
    wv.update(Action::Tick).expect("tick");
    wv.update(Action::Tick).expect("tick");
    assert_solid(&wv, id, 7);
    // the engine has nothing new to offer; the previous frame stays
    let notes = wv.update(Action::ForceRepaint(id)).expect("force repaint");
    assert!(notes.is_empty());
    assert_solid(&wv, id, 7);
}

#[test]
fn unsubscribed_hosts_get_no_notifications() {
    let mut wv = WebView::new(Test::new(vp()), vp());
    let notes = wv.update(Action::CreateView(Some(PageType::Url(
        "https://example.test".to_string(),
    )))).expect("create");
    assert!(notes.is_empty(), "no subscription, no view-created notification");
    assert_eq!(wv.view_count(), 1);
    wv.update(Action::Tick).expect("tick");
    let notes = wv.update(Action::Tick).expect("tick");
    assert!(notes.is_empty(), "no subscription, no url or title notification");
}
