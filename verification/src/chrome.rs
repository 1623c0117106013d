use vstd::prelude::*;
use crate::palette::Palette;

verus! {

/// A corner of the borderless window, grabbed to resize it.
#[derive(Clone, Copy, Debug, PartialEq, Eq, Structural)]
pub enum Corner {
    NorthWest,
    NorthEast,
    SouthWest,
    SouthEast,
}

/// A request to the windowing system.
#[derive(Clone, Copy, Debug, PartialEq, Eq, Structural)]
pub enum WindowCommand {
    StartDrag,
    Minimized(bool),
    Maximized(bool),
    Close,
    BeginResize(Corner),
}

/// The mouse cursor shown over a resize corner.
#[derive(Clone, Copy, Debug, PartialEq, Eq, Structural)]
pub enum CursorShape {
    ResizeNwSe,
    ResizeNeSw,
}

/// What the user can activate: the title bar (by dragging it), the three
/// caption buttons, and the entries of the File, Edit, Search and Help menus.
#[derive(Clone, Copy, Debug, PartialEq, Eq, Structural)]
pub enum Control {
    TitleBar,
    Minimize,
    MaximizeRestore,
    Close,
    MenuExit,
    FlipHorizontally,
    FlipVertically,
    SearchText,
    GetHelp,
}

/// How the picture is shown: mirrored left to right, upside down.
#[derive(Clone, Copy, Debug, PartialEq, Eq, Structural)]
pub struct ViewFlags {
    pub flip_h: bool,
    pub flip_v: bool,
}

/// The answer to an activation: a request to the window, if any, and whether
/// the open menu closes.
#[derive(Clone, Copy, Debug, PartialEq, Eq, Structural)]
pub struct Reaction {
    pub command: Option<WindowCommand>,
    pub close_menu: bool,
}

/// What activating `control` asks of the window, given whether it is
/// maximized: the title bar starts a move, the caption buttons minimize,
/// toggle maximized and close, "Exit" closes; the flips close the menu, and
/// so do the entries that do nothing else.
pub open spec fn reaction(control: Control, maximized: bool) -> Reaction {
    match control {
        Control::TitleBar => Reaction { command: Some(WindowCommand::StartDrag), close_menu: false },
        Control::Minimize => Reaction { command: Some(WindowCommand::Minimized(true)), close_menu: false },
        Control::MaximizeRestore => Reaction { command: Some(WindowCommand::Maximized(!maximized)), close_menu: false },
        Control::Close => Reaction { command: Some(WindowCommand::Close), close_menu: false },
        Control::MenuExit => Reaction { command: Some(WindowCommand::Close), close_menu: false },
        Control::FlipHorizontally => Reaction { command: None, close_menu: true },
        Control::FlipVertically => Reaction { command: None, close_menu: true },
        Control::SearchText => Reaction { command: None, close_menu: true },
        Control::GetHelp => Reaction { command: None, close_menu: true },
    }
}

/// The view flags after activating `control`: each flip entry toggles its
/// own flag, nothing else changes them.
pub open spec fn flags_after(control: Control, flags: ViewFlags) -> ViewFlags {
    match control {
        Control::FlipHorizontally => ViewFlags { flip_h: !flags.flip_h, flip_v: flags.flip_v },
        Control::FlipVertically => ViewFlags { flip_h: flags.flip_h, flip_v: !flags.flip_v },
        _ => flags,
    }
}

/// Handles the activation of `control`.
pub fn activate(control: Control, maximized: bool, flags: &mut ViewFlags) -> (r: Reaction)
    ensures
        r == reaction(control, maximized),
        *final(flags) == flags_after(control, *old(flags)),
        control == Control::TitleBar ==> r == (Reaction { command: Some(WindowCommand::StartDrag), close_menu: false }),
        control == Control::Minimize ==> r == (Reaction { command: Some(WindowCommand::Minimized(true)), close_menu: false }),
        control == Control::MaximizeRestore ==> r == (Reaction { command: Some(WindowCommand::Maximized(!maximized)), close_menu: false }),
        control == Control::Close || control == Control::MenuExit
            ==> r == (Reaction { command: Some(WindowCommand::Close), close_menu: false }),
        control == Control::FlipHorizontally || control == Control::FlipVertically || control == Control::SearchText
            || control == Control::GetHelp ==> r == (Reaction { command: None, close_menu: true }),
        control == Control::FlipHorizontally ==> final(flags).flip_h == !old(flags).flip_h && final(flags).flip_v == old(flags).flip_v,
        control == Control::FlipVertically ==> final(flags).flip_v == !old(flags).flip_v && final(flags).flip_h == old(flags).flip_h,
        control != Control::FlipHorizontally && control != Control::FlipVertically ==> *final(flags) == *old(flags),
{
    match control {
        Control::TitleBar => Reaction { command: Some(WindowCommand::StartDrag), close_menu: false },
        Control::Minimize => Reaction { command: Some(WindowCommand::Minimized(true)), close_menu: false },
        Control::MaximizeRestore => Reaction { command: Some(WindowCommand::Maximized(!maximized)), close_menu: false },
        Control::Close => Reaction { command: Some(WindowCommand::Close), close_menu: false },
        Control::MenuExit => Reaction { command: Some(WindowCommand::Close), close_menu: false },
        Control::FlipHorizontally => {
            flags.flip_h = !flags.flip_h;
            Reaction { command: None, close_menu: true }
        },
        Control::FlipVertically => {
            flags.flip_v = !flags.flip_v;
            Reaction { command: None, close_menu: true }
        },
        Control::SearchText => Reaction { command: None, close_menu: true },
        Control::GetHelp => Reaction { command: None, close_menu: true },
    }
}

/// What each control does, for every maximized state: dragging the title bar
/// starts a move; Minimize always minimizes (sends `Minimized(true)`), even
/// from a maximized window; Maximize/Restore asks for the opposite of the
/// current maximized state; Close and File > Exit close the window; neither
/// of these touches the menu. The Edit flips, Search text and Get Help send
/// no window request and close the menu. Only the flips change the view
/// flags, each toggling its own flag and keeping the other.
pub proof fn lemma_control_effects(control: Control, maximized: bool, flags: ViewFlags)
    ensures
        reaction(Control::TitleBar, maximized) == (Reaction { command: Some(WindowCommand::StartDrag), close_menu: false }),
        reaction(Control::Minimize, maximized) == (Reaction { command: Some(WindowCommand::Minimized(true)), close_menu: false }),
        reaction(Control::MaximizeRestore, maximized) == (Reaction { command: Some(WindowCommand::Maximized(!maximized)), close_menu: false }),
        reaction(Control::Close, maximized) == (Reaction { command: Some(WindowCommand::Close), close_menu: false }),
        reaction(Control::MenuExit, maximized) == (Reaction { command: Some(WindowCommand::Close), close_menu: false }),
        reaction(Control::FlipHorizontally, maximized) == (Reaction { command: None, close_menu: true }),
        reaction(Control::FlipVertically, maximized) == (Reaction { command: None, close_menu: true }),
        reaction(Control::SearchText, maximized) == (Reaction { command: None, close_menu: true }),
        reaction(Control::GetHelp, maximized) == (Reaction { command: None, close_menu: true }),
        flags_after(Control::FlipHorizontally, flags) == (ViewFlags { flip_h: !flags.flip_h, flip_v: flags.flip_v }),
        flags_after(Control::FlipVertically, flags) == (ViewFlags { flip_h: flags.flip_h, flip_v: !flags.flip_v }),
        control != Control::FlipHorizontally && control != Control::FlipVertically ==> flags_after(control, flags) == flags,
{
}

/// Flipping twice the same way shows the picture as before.
pub proof fn lemma_flip_twice_restores(control: Control, flags: ViewFlags)
    ensures
        flags_after(control, flags_after(control, flags)) == flags,
{
}

/// The cursor over a resize corner: diagonal one way for the north-west and
/// south-east corners, the other way for north-east and south-west.
pub open spec fn spec_resize_cursor(corner: Corner) -> CursorShape {
    match corner {
        Corner::NorthWest | Corner::SouthEast => CursorShape::ResizeNwSe,
        Corner::NorthEast | Corner::SouthWest => CursorShape::ResizeNeSw,
    }
}

/// The cursor shown over a resize corner.
pub fn resize_cursor(corner: Corner) -> (c: CursorShape)
    ensures
        c == spec_resize_cursor(corner),
        (corner == Corner::NorthWest || corner == Corner::SouthEast) ==> c == CursorShape::ResizeNwSe,
        (corner == Corner::NorthEast || corner == Corner::SouthWest) ==> c == CursorShape::ResizeNeSw,
{
    match corner {
        Corner::NorthWest | Corner::SouthEast => CursorShape::ResizeNwSe,
        Corner::NorthEast | Corner::SouthWest => CursorShape::ResizeNeSw,
    }
}

/// What a resize corner does this frame: the cursor to show and the request
/// to send.
#[derive(Clone, Copy, Debug, PartialEq, Eq, Structural)]
pub struct ResizeReaction {
    pub cursor: Option<CursorShape>,
    pub command: Option<WindowCommand>,
}

/// Handles a resize corner. A maximized window has no resize corners; else
/// hovering shows the corner's cursor and starting a drag begins a resize
/// from that corner.
pub fn on_resize_corner(corner: Corner, maximized: bool, hovered: bool, drag_started: bool) -> (r: ResizeReaction)
    ensures
        r.cursor == (if !maximized && hovered { Some(spec_resize_cursor(corner)) } else { None::<CursorShape> }),
        r.command == (if !maximized && drag_started { Some(WindowCommand::BeginResize(corner)) } else { None::<WindowCommand> }),
{
    if maximized {
        return ResizeReaction { cursor: None, command: None };
    }
    let cursor = if hovered { Some(resize_cursor(corner)) } else { None };
    let command = if drag_started { Some(WindowCommand::BeginResize(corner)) } else { None };
    ResizeReaction { cursor, command }
}

/// How a menu entry is painted: an optional background and the text colour.
#[derive(Clone, Copy, Debug, PartialEq, Eq, Structural)]
pub struct MenuItemStyle {
    pub fill: Option<Palette>,
    pub text: Palette,
}

/// A hovered menu entry is white on navy; otherwise black on the menu.
pub fn menu_item_style(hovered: bool) -> (s: MenuItemStyle)
    ensures
        s == (if hovered {
            MenuItemStyle { fill: Some(Palette::Navy), text: Palette::White }
        } else {
            MenuItemStyle { fill: None, text: Palette::Black }
        }),
{
    if hovered {
        MenuItemStyle { fill: Some(Palette::Navy), text: Palette::White }
    } else {
        MenuItemStyle { fill: None, text: Palette::Black }
    }
}

/// A top-level menu title gets a raised border while hovered or open.
pub fn menu_title_raised(hovered: bool, open: bool) -> (raised: bool)
    ensures
        raised == (hovered || open),
{
    hovered || open
}

/// The part of the texture shown, as corners in unit texture coordinates
/// (each 0 or 1): a flip swaps the two bounds along its axis.
#[derive(Clone, Copy, Debug, PartialEq, Eq, Structural)]
pub struct UvRect {
    pub min_u: u8,
    pub min_v: u8,
    pub max_u: u8,
    pub max_v: u8,
}

/// The texture corners for the given flags.
pub open spec fn spec_texture_uv(flags: ViewFlags) -> UvRect {
    UvRect {
        min_u: if flags.flip_h { 1 } else { 0 },
        max_u: if flags.flip_h { 0 } else { 1 },
        min_v: if flags.flip_v { 1 } else { 0 },
        max_v: if flags.flip_v { 0 } else { 1 },
    }
}

/// The texture corners for the given flags.
pub fn texture_uv(flags: ViewFlags) -> (uv: UvRect)
    ensures
        uv == spec_texture_uv(flags),
        !flags.flip_h ==> uv.min_u == 0 && uv.max_u == 1,
        flags.flip_h ==> uv.min_u == 1 && uv.max_u == 0,
        !flags.flip_v ==> uv.min_v == 0 && uv.max_v == 1,
        flags.flip_v ==> uv.min_v == 1 && uv.max_v == 0,
{
    let mut uv = UvRect { min_u: 0, min_v: 0, max_u: 1, max_v: 1 };
    if flags.flip_h {
        let t = uv.min_u;
        uv.min_u = uv.max_u;
        uv.max_u = t;
    }
    if flags.flip_v {
        let t = uv.min_v;
        uv.min_v = uv.max_v;
        uv.max_v = t;
    }
    uv
}

/// "Flip horizontally" mirrors the picture left to right and "Flip
/// vertically" upside down: the shown texture bounds swap along that axis
/// and stay along the other.
pub proof fn lemma_flip_mirrors(flags: ViewFlags)
    ensures
        spec_texture_uv(flags_after(Control::FlipHorizontally, flags)) == (UvRect {
            min_u: spec_texture_uv(flags).max_u,
            max_u: spec_texture_uv(flags).min_u,
            min_v: spec_texture_uv(flags).min_v,
            max_v: spec_texture_uv(flags).max_v,
        }),
        spec_texture_uv(flags_after(Control::FlipVertically, flags)) == (UvRect {
            min_u: spec_texture_uv(flags).min_u,
            max_u: spec_texture_uv(flags).max_u,
            min_v: spec_texture_uv(flags).max_v,
            max_v: spec_texture_uv(flags).min_v,
        }),
{
}

/// Width the window adds around the picture: a 4 px margin and a 2 px canvas
/// border on each side.
pub const EXTRA_WIDTH: usize = 4 + 2 + 2 + 4;

/// Height the window adds around the picture: 4 px top margin, 18 px title
/// bar, 24 px menu bar, 1 px gap, 2 px canvas border above and below, and a
/// 4 px bottom margin.
pub const EXTRA_HEIGHT: usize = 4 + 18 + 24 + 1 + 2 + 2 + 4;

/// The window's inner size for a picture of `width` x `height` pixels.
pub fn window_inner_size(width: usize, height: usize) -> (size: (usize, usize))
    requires
        width + EXTRA_WIDTH <= usize::MAX,
        height + EXTRA_HEIGHT <= usize::MAX,
    ensures
        size.0 == width + 12,
        size.1 == height + 55,
{
    (width + EXTRA_WIDTH, height + EXTRA_HEIGHT)
}

} // verus!
