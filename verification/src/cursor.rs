//! Cursor icon translation: a total mapping from the UI model's cursor
//! intent to the host's cursor shape, where exactly one intent — the
//! hidden cursor — maps to "no shape", telling the caller to hide the
//! cursor instead of setting one.

use vstd::prelude::*;

verus! {

/// The UI model's cursor intent enumeration.
#[derive(Clone, Copy, Debug, PartialEq, Eq, Structural)]
pub enum UiCursorIcon {
    /// The ordinary arrow cursor.
    Standard,
    ContextMenu,
    Help,
    PointingHand,
    Progress,
    Wait,
    Cell,
    Crosshair,
    Text,
    VerticalText,
    Alias,
    /// The "something will be copied here" cursor.
    Duplicate,
    Move,
    NoDrop,
    NotAllowed,
    Grab,
    Grabbing,
    AllScroll,
    ResizeHorizontal,
    ResizeNeSw,
    ResizeNwSe,
    ResizeVertical,
    ResizeEast,
    ResizeSouthEast,
    ResizeSouth,
    ResizeSouthWest,
    ResizeWest,
    ResizeNorthWest,
    ResizeNorth,
    ResizeNorthEast,
    ResizeColumn,
    ResizeRow,
    ZoomIn,
    ZoomOut,
    /// No cursor at all: the caller must hide the cursor.
    Hidden,
}

/// The host windowing system's cursor shape enumeration.
#[derive(Clone, Copy, Debug, PartialEq, Eq, Structural)]
pub enum HostCursorIcon {
    /// The ordinary arrow cursor.
    Standard,
    ContextMenu,
    Help,
    Pointer,
    Progress,
    Wait,
    Cell,
    Crosshair,
    Text,
    VerticalText,
    Alias,
    /// The "something will be copied here" cursor.
    Duplicate,
    Move,
    NoDrop,
    NotAllowed,
    Grab,
    Grabbing,
    AllScroll,
    EwResize,
    NeswResize,
    NwseResize,
    NsResize,
    EResize,
    SeResize,
    SResize,
    SwResize,
    WResize,
    NwResize,
    NResize,
    NeResize,
    ColResize,
    RowResize,
    ZoomIn,
    ZoomOut,
}

/// The cursor translation table: every intent except `Hidden` has exactly
/// one host shape, and `Hidden` has none.
pub open spec fn host_icon_of_ui(icon: UiCursorIcon) -> Option<HostCursorIcon> {
    match icon {
        UiCursorIcon::Standard => Some(HostCursorIcon::Standard),
        UiCursorIcon::ContextMenu => Some(HostCursorIcon::ContextMenu),
        UiCursorIcon::Help => Some(HostCursorIcon::Help),
        UiCursorIcon::PointingHand => Some(HostCursorIcon::Pointer),
        UiCursorIcon::Progress => Some(HostCursorIcon::Progress),
        UiCursorIcon::Wait => Some(HostCursorIcon::Wait),
        UiCursorIcon::Cell => Some(HostCursorIcon::Cell),
        UiCursorIcon::Crosshair => Some(HostCursorIcon::Crosshair),
        UiCursorIcon::Text => Some(HostCursorIcon::Text),
        UiCursorIcon::VerticalText => Some(HostCursorIcon::VerticalText),
        UiCursorIcon::Alias => Some(HostCursorIcon::Alias),
        UiCursorIcon::Duplicate => Some(HostCursorIcon::Duplicate),
        UiCursorIcon::Move => Some(HostCursorIcon::Move),
        UiCursorIcon::NoDrop => Some(HostCursorIcon::NoDrop),
        UiCursorIcon::NotAllowed => Some(HostCursorIcon::NotAllowed),
        UiCursorIcon::Grab => Some(HostCursorIcon::Grab),
        UiCursorIcon::Grabbing => Some(HostCursorIcon::Grabbing),
        UiCursorIcon::AllScroll => Some(HostCursorIcon::AllScroll),
        UiCursorIcon::ResizeHorizontal => Some(HostCursorIcon::EwResize),
        UiCursorIcon::ResizeNeSw => Some(HostCursorIcon::NeswResize),
        UiCursorIcon::ResizeNwSe => Some(HostCursorIcon::NwseResize),
        UiCursorIcon::ResizeVertical => Some(HostCursorIcon::NsResize),
        UiCursorIcon::ResizeEast => Some(HostCursorIcon::EResize),
        UiCursorIcon::ResizeSouthEast => Some(HostCursorIcon::SeResize),
        UiCursorIcon::ResizeSouth => Some(HostCursorIcon::SResize),
        UiCursorIcon::ResizeSouthWest => Some(HostCursorIcon::SwResize),
        UiCursorIcon::ResizeWest => Some(HostCursorIcon::WResize),
        UiCursorIcon::ResizeNorthWest => Some(HostCursorIcon::NwResize),
        UiCursorIcon::ResizeNorth => Some(HostCursorIcon::NResize),
        UiCursorIcon::ResizeNorthEast => Some(HostCursorIcon::NeResize),
        UiCursorIcon::ResizeColumn => Some(HostCursorIcon::ColResize),
        UiCursorIcon::ResizeRow => Some(HostCursorIcon::RowResize),
        UiCursorIcon::ZoomIn => Some(HostCursorIcon::ZoomIn),
        UiCursorIcon::ZoomOut => Some(HostCursorIcon::ZoomOut),
        UiCursorIcon::Hidden => None,
    }
}

/// Translates a UI cursor intent into the host's cursor shape; `None`
/// means the cursor must be hidden rather than given a shape.
pub fn map_cursor_icon(icon: UiCursorIcon) -> (r: Option<HostCursorIcon>)
    ensures
        r == host_icon_of_ui(icon),
{
    match icon {
        UiCursorIcon::Standard => Some(HostCursorIcon::Standard),
        UiCursorIcon::ContextMenu => Some(HostCursorIcon::ContextMenu),
        UiCursorIcon::Help => Some(HostCursorIcon::Help),
        UiCursorIcon::PointingHand => Some(HostCursorIcon::Pointer),
        UiCursorIcon::Progress => Some(HostCursorIcon::Progress),
        UiCursorIcon::Wait => Some(HostCursorIcon::Wait),
        UiCursorIcon::Cell => Some(HostCursorIcon::Cell),
        UiCursorIcon::Crosshair => Some(HostCursorIcon::Crosshair),
        UiCursorIcon::Text => Some(HostCursorIcon::Text),
        UiCursorIcon::VerticalText => Some(HostCursorIcon::VerticalText),
        UiCursorIcon::Alias => Some(HostCursorIcon::Alias),
        UiCursorIcon::Duplicate => Some(HostCursorIcon::Duplicate),
        UiCursorIcon::Move => Some(HostCursorIcon::Move),
        UiCursorIcon::NoDrop => Some(HostCursorIcon::NoDrop),
        UiCursorIcon::NotAllowed => Some(HostCursorIcon::NotAllowed),
        UiCursorIcon::Grab => Some(HostCursorIcon::Grab),
        UiCursorIcon::Grabbing => Some(HostCursorIcon::Grabbing),
        UiCursorIcon::AllScroll => Some(HostCursorIcon::AllScroll),
        UiCursorIcon::ResizeHorizontal => Some(HostCursorIcon::EwResize),
        UiCursorIcon::ResizeNeSw => Some(HostCursorIcon::NeswResize),
        UiCursorIcon::ResizeNwSe => Some(HostCursorIcon::NwseResize),
        UiCursorIcon::ResizeVertical => Some(HostCursorIcon::NsResize),
        UiCursorIcon::ResizeEast => Some(HostCursorIcon::EResize),
        UiCursorIcon::ResizeSouthEast => Some(HostCursorIcon::SeResize),
        UiCursorIcon::ResizeSouth => Some(HostCursorIcon::SResize),
        UiCursorIcon::ResizeSouthWest => Some(HostCursorIcon::SwResize),
        UiCursorIcon::ResizeWest => Some(HostCursorIcon::WResize),
        UiCursorIcon::ResizeNorthWest => Some(HostCursorIcon::NwResize),
        UiCursorIcon::ResizeNorth => Some(HostCursorIcon::NResize),
        UiCursorIcon::ResizeNorthEast => Some(HostCursorIcon::NeResize),
        UiCursorIcon::ResizeColumn => Some(HostCursorIcon::ColResize),
        UiCursorIcon::ResizeRow => Some(HostCursorIcon::RowResize),
        UiCursorIcon::ZoomIn => Some(HostCursorIcon::ZoomIn),
        UiCursorIcon::ZoomOut => Some(HostCursorIcon::ZoomOut),
        UiCursorIcon::Hidden => None,
    }
}

/// Law: every cursor intent except the hidden one maps to a host shape,
/// and the hidden one maps to "hide the cursor".
pub proof fn lemma_cursor_icon_total(icon: UiCursorIcon)
    ensures
        host_icon_of_ui(icon) is Some <==> icon != UiCursorIcon::Hidden,
{
}

} // verus!
