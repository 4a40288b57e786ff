//! Cursors: what the GUI asks for and what the window system can show.
use vstd::prelude::*;

verus! {

/// The cursor that the GUI asks for.
#[derive(Clone, Copy, Debug, PartialEq, Eq, Hash, Structural)]
pub enum CursorIcon {
    Default,
    /// No cursor at all: the GUI wants it hidden.
    Hidden,
    ContextMenu,
    Help,
    PointingHand,
    Progress,
    Wait,
    Cell,
    Crosshair,
    Text,
    VerticalText,
    Alias,
    Copy,
    Move,
    NoDrop,
    NotAllowed,
    Grab,
    Grabbing,
    AllScroll,
    ResizeHorizontal,
    ResizeNeSw,
    ResizeNwSe,
    ResizeVertical,
    ResizeEast,
    ResizeSouthEast,
    ResizeSouth,
    ResizeSouthWest,
    ResizeWest,
    ResizeNorthWest,
    ResizeNorth,
    ResizeNorthEast,
    ResizeColumn,
    ResizeRow,
    ZoomIn,
    ZoomOut,
}

/// A cursor shape of the window system.
#[derive(Clone, Copy, Debug, PartialEq, Eq, Hash, Structural)]
pub enum CursorShape {
    Default,
    ContextMenu,
    Help,
    Pointer,
    Progress,
    Wait,
    Cell,
    Crosshair,
    Text,
    VerticalText,
    Alias,
    Copy,
    Move,
    NoDrop,
    NotAllowed,
    Grab,
    Grabbing,
    EResize,
    NResize,
    NeResize,
    NwResize,
    SResize,
    SeResize,
    SwResize,
    WResize,
    EwResize,
    NsResize,
    NeswResize,
    NwseResize,
    ColResize,
    RowResize,
    AllScroll,
    ZoomIn,
    ZoomOut,
    DndAsk,
    AllResize,
}

/// The shape that shows `icon`. Only [`CursorIcon::Hidden`] has no shape: it
/// asks for the cursor to be hidden.
pub open spec fn cursor_shape(icon: CursorIcon) -> Option<CursorShape> {
    match icon {
        CursorIcon::Default => Some(CursorShape::Default),
        CursorIcon::ContextMenu => Some(CursorShape::ContextMenu),
        CursorIcon::Help => Some(CursorShape::Help),
        CursorIcon::PointingHand => Some(CursorShape::Pointer),
        CursorIcon::Progress => Some(CursorShape::Progress),
        CursorIcon::Wait => Some(CursorShape::Wait),
        CursorIcon::Cell => Some(CursorShape::Cell),
        CursorIcon::Crosshair => Some(CursorShape::Crosshair),
        CursorIcon::Text => Some(CursorShape::Text),
        CursorIcon::VerticalText => Some(CursorShape::VerticalText),
        CursorIcon::Alias => Some(CursorShape::Alias),
        CursorIcon::Copy => Some(CursorShape::Copy),
        CursorIcon::Move => Some(CursorShape::Move),
        CursorIcon::NoDrop => Some(CursorShape::NoDrop),
        CursorIcon::NotAllowed => Some(CursorShape::NotAllowed),
        CursorIcon::Grab => Some(CursorShape::Grab),
        CursorIcon::Grabbing => Some(CursorShape::Grabbing),
        CursorIcon::AllScroll => Some(CursorShape::AllScroll),
        CursorIcon::ResizeHorizontal => Some(CursorShape::EwResize),
        CursorIcon::ResizeNeSw => Some(CursorShape::NeswResize),
        CursorIcon::ResizeNwSe => Some(CursorShape::NwseResize),
        CursorIcon::ResizeVertical => Some(CursorShape::NsResize),
        CursorIcon::ResizeEast => Some(CursorShape::EResize),
        CursorIcon::ResizeSouthEast => Some(CursorShape::SeResize),
        CursorIcon::ResizeSouth => Some(CursorShape::SResize),
        CursorIcon::ResizeSouthWest => Some(CursorShape::SwResize),
        CursorIcon::ResizeWest => Some(CursorShape::WResize),
        CursorIcon::ResizeNorthWest => Some(CursorShape::NwResize),
        CursorIcon::ResizeNorth => Some(CursorShape::NResize),
        CursorIcon::ResizeNorthEast => Some(CursorShape::NeResize),
        CursorIcon::ResizeColumn => Some(CursorShape::ColResize),
        CursorIcon::ResizeRow => Some(CursorShape::RowResize),
        CursorIcon::ZoomIn => Some(CursorShape::ZoomIn),
        CursorIcon::ZoomOut => Some(CursorShape::ZoomOut),
        CursorIcon::Hidden => None,
    }
}

/// Maps an egui cursor icon to the winit cursor that shows it, or to
/// nothing where the cursor is to be hidden.
pub fn egui_to_winit_cursor_icon(icon: CursorIcon) -> (shape: Option<CursorShape>)
    ensures
        shape == cursor_shape(icon),
{
    match icon {
        CursorIcon::Default => Some(CursorShape::Default),
        CursorIcon::ContextMenu => Some(CursorShape::ContextMenu),
        CursorIcon::Help => Some(CursorShape::Help),
        CursorIcon::PointingHand => Some(CursorShape::Pointer),
        CursorIcon::Progress => Some(CursorShape::Progress),
        CursorIcon::Wait => Some(CursorShape::Wait),
        CursorIcon::Cell => Some(CursorShape::Cell),
        CursorIcon::Crosshair => Some(CursorShape::Crosshair),
        CursorIcon::Text => Some(CursorShape::Text),
        CursorIcon::VerticalText => Some(CursorShape::VerticalText),
        CursorIcon::Alias => Some(CursorShape::Alias),
        CursorIcon::Copy => Some(CursorShape::Copy),
        CursorIcon::Move => Some(CursorShape::Move),
        CursorIcon::NoDrop => Some(CursorShape::NoDrop),
        CursorIcon::NotAllowed => Some(CursorShape::NotAllowed),
        CursorIcon::Grab => Some(CursorShape::Grab),
        CursorIcon::Grabbing => Some(CursorShape::Grabbing),
        CursorIcon::AllScroll => Some(CursorShape::AllScroll),
        CursorIcon::ResizeHorizontal => Some(CursorShape::EwResize),
        CursorIcon::ResizeNeSw => Some(CursorShape::NeswResize),
        CursorIcon::ResizeNwSe => Some(CursorShape::NwseResize),
        CursorIcon::ResizeVertical => Some(CursorShape::NsResize),
        CursorIcon::ResizeEast => Some(CursorShape::EResize),
        CursorIcon::ResizeSouthEast => Some(CursorShape::SeResize),
        CursorIcon::ResizeSouth => Some(CursorShape::SResize),
        CursorIcon::ResizeSouthWest => Some(CursorShape::SwResize),
        CursorIcon::ResizeWest => Some(CursorShape::WResize),
        CursorIcon::ResizeNorthWest => Some(CursorShape::NwResize),
        CursorIcon::ResizeNorth => Some(CursorShape::NResize),
        CursorIcon::ResizeNorthEast => Some(CursorShape::NeResize),
        CursorIcon::ResizeColumn => Some(CursorShape::ColResize),
        CursorIcon::ResizeRow => Some(CursorShape::RowResize),
        CursorIcon::ZoomIn => Some(CursorShape::ZoomIn),
        CursorIcon::ZoomOut => Some(CursorShape::ZoomOut),
        CursorIcon::Hidden => None,
    }
}

} // verus!
