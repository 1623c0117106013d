use teary_eyes::chrome::{
    activate, menu_item_style, menu_title_raised, on_resize_corner, resize_cursor, texture_uv,
    window_inner_size, Control, Corner, CursorShape, MenuItemStyle, Reaction, ResizeReaction,
    UvRect, ViewFlags, WindowCommand,
};
use teary_eyes::palette::Palette;

fn flags(h: bool, v: bool) -> ViewFlags {
    ViewFlags { flip_h: h, flip_v: v }
}

#[test]
fn caption_buttons_and_exit() {
    let mut f = flags(false, false);
    assert_eq!(activate(Control::TitleBar, false, &mut f), Reaction { command: Some(WindowCommand::StartDrag), close_menu: false });
    assert_eq!(activate(Control::Minimize, false, &mut f).command, Some(WindowCommand::Minimized(true)));
    assert_eq!(activate(Control::MaximizeRestore, false, &mut f).command, Some(WindowCommand::Maximized(true)));
    assert_eq!(activate(Control::MaximizeRestore, true, &mut f).command, Some(WindowCommand::Maximized(false)));
    assert_eq!(activate(Control::Close, false, &mut f).command, Some(WindowCommand::Close));
    assert_eq!(activate(Control::MenuExit, true, &mut f), Reaction { command: Some(WindowCommand::Close), close_menu: false });
    assert_eq!(f, flags(false, false));
}

#[test]
fn flip_entries_toggle_and_close_menu() {
    let mut f = flags(false, false);
    assert_eq!(activate(Control::FlipHorizontally, false, &mut f), Reaction { command: None, close_menu: true });
    assert_eq!(f, flags(true, false));
    activate(Control::FlipVertically, false, &mut f);
    assert_eq!(f, flags(true, true));
    activate(Control::FlipHorizontally, false, &mut f);
    assert_eq!(f, flags(false, true));
    activate(Control::FlipVertically, false, &mut f);
    assert_eq!(f, flags(false, false));
}

#[test]
fn idle_entries_only_close_menu() {
    let mut f = flags(true, false);
    assert_eq!(activate(Control::SearchText, false, &mut f), Reaction { command: None, close_menu: true });
    assert_eq!(activate(Control::GetHelp, false, &mut f), Reaction { command: None, close_menu: true });
    assert_eq!(f, flags(true, false));
}

#[test]
fn resize_corners() {
    assert_eq!(resize_cursor(Corner::NorthWest), CursorShape::ResizeNwSe);
    assert_eq!(resize_cursor(Corner::SouthEast), CursorShape::ResizeNwSe);
    assert_eq!(resize_cursor(Corner::NorthEast), CursorShape::ResizeNeSw);
    assert_eq!(resize_cursor(Corner::SouthWest), CursorShape::ResizeNeSw);
    assert_eq!(
        on_resize_corner(Corner::NorthEast, false, true, true),
        ResizeReaction { cursor: Some(CursorShape::ResizeNeSw), command: Some(WindowCommand::BeginResize(Corner::NorthEast)) }
    );
    assert_eq!(
        on_resize_corner(Corner::SouthEast, false, false, false),
        ResizeReaction { cursor: None, command: None }
    );
    assert_eq!(
        on_resize_corner(Corner::NorthWest, true, true, true),
        ResizeReaction { cursor: None, command: None }
    );
}

#[test]
fn menu_looks() {
    assert_eq!(menu_item_style(true), MenuItemStyle { fill: Some(Palette::Navy), text: Palette::White });
    assert_eq!(menu_item_style(false), MenuItemStyle { fill: None, text: Palette::Black });
    assert!(menu_title_raised(true, false));
    assert!(menu_title_raised(false, true));
    assert!(!menu_title_raised(false, false));
}

#[test]
fn texture_bounds_follow_flips() {
    assert_eq!(texture_uv(flags(false, false)), UvRect { min_u: 0, min_v: 0, max_u: 1, max_v: 1 });
    assert_eq!(texture_uv(flags(true, false)), UvRect { min_u: 1, min_v: 0, max_u: 0, max_v: 1 });
    assert_eq!(texture_uv(flags(false, true)), UvRect { min_u: 0, min_v: 1, max_u: 1, max_v: 0 });
    assert_eq!(texture_uv(flags(true, true)), UvRect { min_u: 1, min_v: 1, max_u: 0, max_v: 0 });
}

#[test]
fn window_size_adds_chrome() {
    assert_eq!(window_inner_size(320, 240), (332, 295));
    assert_eq!(window_inner_size(0, 0), (12, 55));
}
