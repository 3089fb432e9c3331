use macos26_sidebar::state::{Event, Macos26Sidebar, Reaction, ViewMode};

fn redraw() -> Reaction {
    Reaction { notify: true, stop_propagation: false, start_window_move: false }
}

#[test]
fn new_window_shows_grid_without_menu() {
    let s: Macos26Sidebar<(i32, i32)> = Macos26Sidebar::new();
    assert_eq!(s.view_mode, ViewMode::Grid);
    assert_eq!(s.context_menu_position, None);
}

#[test]
fn view_button_switches_mode_and_keeps_menu() {
    let mut s: Macos26Sidebar<(i32, i32)> = Macos26Sidebar::new();
    s.open_context_menu((10, 20));
    let r = s.select_view(ViewMode::List);
    assert_eq!(r, redraw());
    assert_eq!(s.view_mode, ViewMode::List);
    assert_eq!(s.context_menu_position, Some((10, 20)));
}

#[test]
fn view_button_twice_is_one_click() {
    let mut s: Macos26Sidebar<(i32, i32)> = Macos26Sidebar::new();
    s.select_view(ViewMode::List);
    let r = s.select_view(ViewMode::List);
    assert_eq!(s.view_mode, ViewMode::List);
    assert_eq!(r, redraw());
}

#[test]
fn secondary_press_opens_menu_and_stops_propagation() {
    let mut s: Macos26Sidebar<(i32, i32)> = Macos26Sidebar::new();
    let r = s.open_context_menu((8, 100));
    assert_eq!(s.context_menu_position, Some((8, 100)));
    assert_eq!(s.view_mode, ViewMode::Grid);
    assert_eq!(r, Reaction { notify: true, stop_propagation: true, start_window_move: false });
}

#[test]
fn second_secondary_press_moves_menu() {
    let mut s: Macos26Sidebar<(i32, i32)> = Macos26Sidebar::new();
    s.open_context_menu((8, 100));
    s.open_context_menu((30, 40));
    assert_eq!(s.context_menu_position, Some((30, 40)));
}

#[test]
fn content_press_closes_open_menu_with_redraw() {
    let mut s: Macos26Sidebar<(i32, i32)> = Macos26Sidebar::new();
    s.select_view(ViewMode::List);
    s.open_context_menu((1, 2));
    let r = s.press_content();
    assert_eq!(s.context_menu_position, None);
    assert_eq!(s.view_mode, ViewMode::List);
    assert_eq!(r, redraw());
}

#[test]
fn content_press_without_menu_does_nothing() {
    let mut s: Macos26Sidebar<(i32, i32)> = Macos26Sidebar::new();
    let r = s.press_content();
    assert_eq!(s.context_menu_position, None);
    assert_eq!(s.view_mode, ViewMode::Grid);
    assert_eq!(r, Reaction { notify: false, stop_propagation: false, start_window_move: false });
}

#[test]
fn menu_item_closes_menu() {
    let mut s: Macos26Sidebar<(i32, i32)> = Macos26Sidebar::new();
    s.open_context_menu((5, 5));
    let r = s.press_menu_item();
    assert_eq!(s.context_menu_position, None);
    assert_eq!(r, redraw());
    let r = s.press_menu_item();
    assert_eq!(s.context_menu_position, None);
    assert!(r.notify);
}

#[test]
fn title_bar_press_moves_window_only() {
    let mut s: Macos26Sidebar<(i32, i32)> = Macos26Sidebar::new();
    s.open_context_menu((5, 6));
    let r = s.press_title_bar();
    assert_eq!(r, Reaction { notify: false, stop_propagation: false, start_window_move: true });
    assert_eq!(s.context_menu_position, Some((5, 6)));
    assert_eq!(s.view_mode, ViewMode::Grid);
}

#[test]
fn handle_dispatches_each_event() {
    let mut s: Macos26Sidebar<(i32, i32)> = Macos26Sidebar::new();
    assert_eq!(s.handle(Event::ViewButtonClicked(ViewMode::List)), redraw());
    assert_eq!(s.view_mode, ViewMode::List);
    let r = s.handle(Event::ContentSecondaryPress((3, 4)));
    assert!(r.stop_propagation);
    assert_eq!(s.context_menu_position, Some((3, 4)));
    assert_eq!(s.handle(Event::MenuItemPressed), redraw());
    assert_eq!(s.context_menu_position, None);
    assert!(!s.handle(Event::ContentPrimaryPress).notify);
    assert!(s.handle(Event::TitleBarPrimaryPress).start_window_move);
    assert_eq!(s.view_mode, ViewMode::List);
}

#[test]
fn run_of_events_follows_last_ones() {
    let mut s: Macos26Sidebar<(i32, i32)> = Macos26Sidebar::new();
    let events = vec![
        Event::ViewButtonClicked(ViewMode::List),
        Event::ContentSecondaryPress((1, 1)),
        Event::ViewButtonClicked(ViewMode::Grid),
        Event::TitleBarPrimaryPress,
        Event::ContentSecondaryPress((2, 2)),
        Event::ViewButtonClicked(ViewMode::List),
        Event::TitleBarPrimaryPress,
    ];
    for e in events {
        s.handle(e);
    }
    assert_eq!(s.view_mode, ViewMode::List);
    assert_eq!(s.context_menu_position, Some((2, 2)));
    s.handle(Event::MenuItemPressed);
    s.handle(Event::TitleBarPrimaryPress);
    assert_eq!(s.context_menu_position, None);
    assert_eq!(s.view_mode, ViewMode::List);
}
