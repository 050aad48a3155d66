use leftwm::autotag::Autotag;
use leftwm::event::{dispatch, Event};
use leftwm::geometry::Rect;
use leftwm::manager::{DisplayAction, Manager, Mode};
use leftwm::mouse_combo_handler::{build_action, process};
use leftwm::tag::Tag;
use leftwm::window::WindowHandle;
use leftwm::window_handler::{drag_ended, window_created, window_destroyed};

const PRIMARY: u32 = 1;
const MIDDLE: u32 = 2;
const SECONDARY: u32 = 3;

fn manager_with(rules: Vec<Autotag>) -> Manager {
    let tags = vec![
        Tag::new("main".to_string()),
        Tag::new("web".to_string()),
        Tag::new("default".to_string()),
    ];
    Manager::new(tags, rules, "main".to_string())
}

/// Three windows: 1 can move and resize, 2 can do neither, 3 can do both.
fn three_windows() -> Manager {
    let mut m = manager_with(Vec::new());
    let p = "xterm".to_string();
    assert!(window_created(&mut m, WindowHandle(1), &p, Rect::new(10, 20, 300, 400), true, true));
    assert!(window_created(&mut m, WindowHandle(2), &p, Rect::new(0, 0, 50, 50), false, false));
    assert!(window_created(&mut m, WindowHandle(3), &p, Rect::new(5, 5, 60, 60), true, true));
    m
}

fn handles(m: &Manager) -> Vec<u64> {
    m.windows.iter().map(|w| w.handle.0).collect()
}

fn pending(m: &Manager) -> Vec<DisplayAction> {
    m.actions.iter().copied().collect()
}

#[test]
fn new_manager_is_idle() {
    let m = manager_with(Vec::new());
    assert!(m.windows.is_empty());
    assert!(m.actions.is_empty());
    assert_eq!(m.mode, Mode::Normal);
    assert_eq!(m.tags.len(), 3);
    assert_eq!(m.active_tag, "main");
}

#[test]
fn created_window_goes_to_the_tag_of_its_rule() {
    let rules = vec![
        Autotag::new("firefox".to_string(), "web".to_string()),
        Autotag::new("*".to_string(), "default".to_string()),
    ];
    let mut m = manager_with(rules);
    assert!(window_created(&mut m, WindowHandle(1), &"firefox".to_string(), Rect::new(0, 0, 10, 10), true, true));
    assert!(window_created(&mut m, WindowHandle(2), &"xterm".to_string(), Rect::new(0, 0, 10, 10), true, true));
    assert_eq!(m.windows[0].tag, "web");
    assert_eq!(m.windows[1].tag, "default");
    assert_eq!(handles(&m), vec![1, 2]);
}

#[test]
fn created_window_without_rule_keeps_active_tag() {
    let rules = vec![Autotag::new("firefox".to_string(), "web".to_string())];
    let mut m = manager_with(rules);
    assert!(window_created(&mut m, WindowHandle(2), &"xterm".to_string(), Rect::new(1, 2, 3, 4), true, false));
    let w = &m.windows[0];
    assert_eq!(w.tag, "main");
    assert_eq!(w.normal, Rect::new(1, 2, 3, 4));
    assert_eq!(w.container_size, None);
    assert_eq!(w.floating_offset, None);
    assert!(!w.floating);
    assert!(w.can_move());
    assert!(!w.can_resize());
    assert!(m.actions.is_empty());
    assert_eq!(m.mode, Mode::Normal);
}

#[test]
fn created_twice_is_ignored() {
    let mut m = three_windows();
    assert!(!window_created(&mut m, WindowHandle(2), &"other".to_string(), Rect::new(9, 9, 9, 9), true, true));
    assert_eq!(handles(&m), vec![1, 2, 3]);
    assert_eq!(m.windows[1].normal, Rect::new(0, 0, 50, 50));
    assert!(!m.windows[1].can_move());
}

#[test]
fn move_start_on_tiled_window() {
    let mut m = three_windows();
    m.windows[2].container_size = Some(Rect::new(1, 2, 3, 4));
    let refresh = process(&mut m, 0, PRIMARY, WindowHandle(3));
    assert!(!refresh);
    assert_eq!(handles(&m), vec![3, 1, 2]);
    let w = &m.windows[0];
    assert!(w.floating);
    assert_eq!(w.floating_offset, Some(Rect::new(4, 3, 57, 56)));
    assert_eq!(w.start_loc, Some(Rect::new(4, 3, 57, 56)));
    assert_eq!(m.mode, Mode::MovingWindow(WindowHandle(3)));
    assert_eq!(pending(&m), vec![DisplayAction::StartMovingWindow(WindowHandle(3))]);
    assert!(!m.windows[1].floating);
    assert_eq!(m.windows[1].start_loc, None);
}

#[test]
fn move_start_without_container_uses_normal_geometry() {
    let mut m = three_windows();
    process(&mut m, 0, PRIMARY, WindowHandle(1));
    assert_eq!(handles(&m), vec![1, 2, 3]);
    assert_eq!(m.windows[0].floating_offset, Some(Rect::new(10, 20, 300, 400)));
    assert_eq!(m.mode, Mode::MovingWindow(WindowHandle(1)));
}

#[test]
fn move_start_on_floating_window_keeps_offset() {
    let mut m = three_windows();
    m.windows[0].set_floating_offsets(Some(Rect::new(7, 8, 0, 0)));
    m.windows[0].set_floating(true);
    process(&mut m, 4, PRIMARY, WindowHandle(1));
    assert_eq!(m.windows[0].floating_offset, Some(Rect::new(7, 8, 0, 0)));
    assert_eq!(m.windows[0].start_loc, Some(Rect::new(7, 8, 0, 0)));
    assert!(m.windows[0].floating);
    assert_eq!(pending(&m), vec![DisplayAction::StartMovingWindow(WindowHandle(1))]);
}

#[test]
fn resize_start_with_secondary_button() {
    let mut m = three_windows();
    let refresh = process(&mut m, 0, SECONDARY, WindowHandle(3));
    assert!(!refresh);
    assert_eq!(handles(&m), vec![3, 1, 2]);
    assert_eq!(m.mode, Mode::ResizingWindow(WindowHandle(3)));
    assert_eq!(pending(&m), vec![DisplayAction::StartResizingWindow(WindowHandle(3))]);
    assert!(m.windows[0].floating);
    assert_eq!(m.windows[0].start_loc, Some(Rect::new(5, 5, 60, 60)));
}

#[test]
fn move_start_needs_capability() {
    let mut m = three_windows();
    let refresh = process(&mut m, 0, PRIMARY, WindowHandle(2));
    assert!(!refresh);
    assert!(m.actions.is_empty());
    assert_eq!(m.mode, Mode::Normal);
    assert_eq!(handles(&m), vec![1, 2, 3]);
    assert!(!m.windows[1].floating);
    assert_eq!(m.windows[1].floating_offset, None);
    assert_eq!(m.windows[1].start_loc, None);
}

#[test]
fn resize_start_needs_capability() {
    let mut m = three_windows();
    process(&mut m, 0, SECONDARY, WindowHandle(2));
    assert!(m.actions.is_empty());
    assert_eq!(m.mode, Mode::Normal);
    assert_eq!(handles(&m), vec![1, 2, 3]);
}

#[test]
fn unbound_button_is_a_noop() {
    let mut m = three_windows();
    for button in [0, MIDDLE, 4, 5, 8, u32::MAX] {
        assert!(!process(&mut m, 0, button, WindowHandle(3)));
        assert_eq!(build_action(&mut m, 0, button, WindowHandle(3)), None);
    }
    assert!(m.actions.is_empty());
    assert_eq!(m.mode, Mode::Normal);
    assert_eq!(handles(&m), vec![1, 2, 3]);
    assert!(!m.windows[2].floating);
    assert_eq!(m.windows[2].start_loc, None);
}

#[test]
fn press_on_missing_window_is_a_noop() {
    let mut m = three_windows();
    assert!(!process(&mut m, 0, PRIMARY, WindowHandle(99)));
    assert!(m.actions.is_empty());
    assert_eq!(m.mode, Mode::Normal);
    assert_eq!(handles(&m), vec![1, 2, 3]);
}

#[test]
fn press_during_drag_is_ignored() {
    let mut m = three_windows();
    process(&mut m, 0, PRIMARY, WindowHandle(1));
    process(&mut m, 0, SECONDARY, WindowHandle(3));
    process(&mut m, 0, PRIMARY, WindowHandle(3));
    assert_eq!(m.mode, Mode::MovingWindow(WindowHandle(1)));
    assert_eq!(pending(&m), vec![DisplayAction::StartMovingWindow(WindowHandle(1))]);
    assert_eq!(handles(&m), vec![1, 2, 3]);
    assert!(!m.windows[2].floating);
}

#[test]
fn build_action_enters_the_mode() {
    let mut m = three_windows();
    let act = build_action(&mut m, 0, PRIMARY, WindowHandle(3));
    assert_eq!(act, Some(DisplayAction::StartMovingWindow(WindowHandle(3))));
    assert_eq!(m.mode, Mode::MovingWindow(WindowHandle(3)));
    assert_eq!(handles(&m), vec![1, 2, 3]);
    assert!(m.actions.is_empty());
}

#[test]
fn destroying_dragged_window_resets_mode() {
    let mut m = three_windows();
    process(&mut m, 0, PRIMARY, WindowHandle(3));
    assert!(window_destroyed(&mut m, WindowHandle(3)));
    assert_eq!(m.mode, Mode::Normal);
    assert_eq!(handles(&m), vec![1, 2]);
}

#[test]
fn destroying_other_window_keeps_mode() {
    let mut m = three_windows();
    process(&mut m, 0, SECONDARY, WindowHandle(3));
    assert!(window_destroyed(&mut m, WindowHandle(1)));
    assert_eq!(m.mode, Mode::ResizingWindow(WindowHandle(3)));
    assert_eq!(handles(&m), vec![3, 2]);
    assert!(!window_destroyed(&mut m, WindowHandle(1)));
    assert_eq!(handles(&m), vec![3, 2]);
    assert_eq!(pending(&m), vec![DisplayAction::StartResizingWindow(WindowHandle(3))]);
}

#[test]
fn drag_end_returns_to_normal() {
    let mut m = three_windows();
    process(&mut m, 0, PRIMARY, WindowHandle(3));
    assert!(!drag_ended(&mut m, WindowHandle(1)));
    assert_eq!(m.mode, Mode::MovingWindow(WindowHandle(3)));
    assert!(drag_ended(&mut m, WindowHandle(3)));
    assert_eq!(m.mode, Mode::Normal);
    assert_eq!(m.windows[0].start_loc, None);
    assert!(m.windows[0].floating);
    assert_eq!(m.windows[0].floating_offset, Some(Rect::new(5, 5, 60, 60)));
    assert_eq!(handles(&m), vec![3, 1, 2]);
    assert!(!drag_ended(&mut m, WindowHandle(3)));
}

#[test]
fn move_to_top_raises_a_window() {
    let mut m = three_windows();
    assert_eq!(m.move_to_top(&WindowHandle(2)), Some(()));
    assert_eq!(handles(&m), vec![2, 1, 3]);
    assert_eq!(m.move_to_top(&WindowHandle(9)), None);
    assert_eq!(handles(&m), vec![2, 1, 3]);
    assert_eq!(m.find_window(WindowHandle(3)), Some(2));
    assert_eq!(m.find_window(WindowHandle(9)), None);
}

#[test]
fn queue_keeps_dispatch_order() {
    let mut m = three_windows();
    let press = |button: u32, h: u64| Event::ButtonCombo { modmask: 0, button, handle: WindowHandle(h) };
    assert!(!dispatch(&mut m, press(PRIMARY, 1)));
    assert_eq!(pending(&m), vec![DisplayAction::StartMovingWindow(WindowHandle(1))]);
    assert!(dispatch(&mut m, Event::DragEnded(WindowHandle(1))));
    assert!(!dispatch(&mut m, press(SECONDARY, 3)));
    assert!(dispatch(&mut m, Event::DragEnded(WindowHandle(3))));
    assert!(!dispatch(&mut m, press(MIDDLE, 3)));
    assert!(!dispatch(&mut m, press(PRIMARY, 3)));
    let drained = m.drain_actions();
    assert_eq!(
        drained,
        vec![
            DisplayAction::StartMovingWindow(WindowHandle(1)),
            DisplayAction::StartResizingWindow(WindowHandle(3)),
            DisplayAction::StartMovingWindow(WindowHandle(3)),
        ]
    );
    assert!(m.actions.is_empty());
    assert!(m.drain_actions().is_empty());
    assert_eq!(m.mode, Mode::MovingWindow(WindowHandle(3)));
    assert_eq!(handles(&m), vec![3, 1, 2]);
}

#[test]
fn dispatch_create_and_destroy() {
    let mut m = manager_with(vec![Autotag::new("firefox".to_string(), "web".to_string())]);
    let create = Event::WindowCreated {
        handle: WindowHandle(4),
        program: "firefox".to_string(),
        geometry: Rect::new(1, 1, 2, 2),
        can_move: true,
        can_resize: true,
    };
    assert!(dispatch(&mut m, create.clone()));
    assert!(!dispatch(&mut m, create));
    assert_eq!(handles(&m), vec![4]);
    assert_eq!(m.windows[0].tag, "web");
    assert!(dispatch(&mut m, Event::WindowDestroyed(WindowHandle(4))));
    assert!(!dispatch(&mut m, Event::WindowDestroyed(WindowHandle(4))));
    assert!(m.windows.is_empty());
    assert!(m.actions.is_empty());
}

#[test]
fn floating_windows_always_have_an_offset() {
    let mut m = three_windows();
    let events = vec![
        Event::ButtonCombo { modmask: 0, button: PRIMARY, handle: WindowHandle(1) },
        Event::DragEnded(WindowHandle(1)),
        Event::ButtonCombo { modmask: 0, button: SECONDARY, handle: WindowHandle(3) },
        Event::WindowDestroyed(WindowHandle(3)),
        Event::ButtonCombo { modmask: 0, button: PRIMARY, handle: WindowHandle(2) },
    ];
    for e in events {
        dispatch(&mut m, e);
        for w in m.windows.iter() {
            assert!(!w.floating || w.floating_offset.is_some());
        }
    }
    assert_eq!(m.mode, Mode::Normal);
}

#[test]
fn reload_replaces_tags_and_rules() {
    let mut m = three_windows();
    m.reload_config(
        vec![Tag::new("only".to_string())],
        vec![Autotag::new("*".to_string(), "only".to_string())],
    );
    assert_eq!(m.tags.len(), 1);
    assert_eq!(m.tags[0].name, "only");
    assert_eq!(m.windows[0].tag, "main");
    assert!(window_created(&mut m, WindowHandle(8), &"xterm".to_string(), Rect::zero(), true, true));
    assert_eq!(m.windows[3].tag, "only");
}

#[test]
fn invariant_is_decidable() {
    let mut m = three_windows();
    assert!(m.holds_invariant());
    process(&mut m, 0, PRIMARY, WindowHandle(3));
    assert!(m.holds_invariant());
    m.windows[1].handle = WindowHandle(3);
    assert!(!m.holds_invariant());
    m.windows[1].handle = WindowHandle(1);
    assert!(m.holds_invariant());
    m.mode = Mode::ResizingWindow(WindowHandle(42));
    assert!(!m.holds_invariant());
    m.mode = Mode::Normal;
    m.windows[2].floating = true;
    assert!(!m.holds_invariant());
}
