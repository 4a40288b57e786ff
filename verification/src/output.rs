//! What the GUI asks of the platform at the end of a frame, and what is to be
//! done about it.
use crate::cursor::{cursor_shape, CursorIcon, CursorShape};
use vstd::prelude::*;

verus! {

/// A link that the GUI wants opened.
#[derive(Clone, Debug, PartialEq, Eq, Hash)]
pub struct OpenUrl<Str = String> {
    pub url: Str,
    /// Whether the GUI asked for a new tab. Nothing here tells the two apart.
    pub new_tab: bool,
}

/// The part of the GUI's output that concerns the platform.
#[derive(Clone, Debug, PartialEq, Eq, Hash)]
pub struct PlatformOutput<Str = String> {
    pub cursor_icon: CursorIcon,
    pub open_url: Option<OpenUrl<Str>>,
    /// The text that was copied or cut in this frame; empty if none was.
    pub copied_text: Str,
}

impl View for PlatformOutput<String> {
    type V = PlatformOutput<Seq<char>>;

    open spec fn view(&self) -> PlatformOutput<Seq<char>> {
        PlatformOutput {
            cursor_icon: self.cursor_icon,
            open_url: match self.open_url {
                Some(open) => Some(OpenUrl { url: open.url@, new_tab: open.new_tab }),
                None => None,
            },
            copied_text: self.copied_text@,
        }
    }
}

/// What to do with the window's cursor.
#[derive(Clone, Copy, Debug, PartialEq, Eq, Hash, Structural)]
pub enum CursorUpdate {
    /// Make the cursor invisible, and leave its shape alone.
    Hide,
    /// Make the cursor visible and, where a shape is given, give it that
    /// shape.
    Show(Option<CursorShape>),
}

/// What the platform is to do at the end of a frame.
#[derive(Clone, Debug, PartialEq, Eq, Hash)]
pub struct FrameActions<Str = String> {
    /// What to do with the cursor; nothing where there is no window.
    pub cursor: Option<CursorUpdate>,
    /// The text to put on the clipboard.
    pub clipboard: Option<Str>,
    /// The link to open.
    pub open_url: Option<Str>,
}

impl View for FrameActions<String> {
    type V = FrameActions<Seq<char>>;

    open spec fn view(&self) -> FrameActions<Seq<char>> {
        FrameActions {
            cursor: self.cursor,
            clipboard: match self.clipboard {
                Some(text) => Some(text@),
                None => None,
            },
            open_url: match self.open_url {
                Some(url) => Some(url@),
                None => None,
            },
        }
    }
}

/// The link to open: the one that the output asks for, where links can be
/// opened at all.
pub open spec fn link_to_open(output: PlatformOutput<Seq<char>>, links: bool) -> Option<
    Seq<char>,
> {
    match output.open_url {
        Some(open) if links => Some(open.url),
        _ => None,
    }
}

/// The text for the clipboard: what was copied, where anything was and there
/// is a clipboard.
pub open spec fn text_to_copy(output: PlatformOutput<Seq<char>>, clipboard: bool) -> Option<
    Seq<char>,
> {
    if clipboard && output.copied_text.len() > 0 {
        Some(output.copied_text)
    } else {
        None
    }
}

/// What becomes of the cursor of a window. An icon without a shape hides the
/// cursor. Any other icon shows it, and sets its shape if the pointer is
/// inside the window.
pub open spec fn cursor_update(icon: CursorIcon, pointer_inside: bool) -> CursorUpdate {
    match cursor_shape(icon) {
        Some(shape) => CursorUpdate::Show(
            if pointer_inside {
                Some(shape)
            } else {
                None
            },
        ),
        None => CursorUpdate::Hide,
    }
}

/// The link that the output wants opened, for a platform that can open links
/// (`links`). Whether a new tab was asked for makes no difference.
pub fn handle_links(output: &PlatformOutput, links: bool) -> (url: Option<String>)
    ensures
        match url {
            Some(url) => Some(url@),
            None => None,
        } == link_to_open(output@, links),
{
    match &output.open_url {
        Some(open) => {
            if links {
                Some(open.url.clone())
            } else {
                None
            }
        },
        None => None,
    }
}

/// The text that the output wants on the clipboard, for a platform that has
/// one (`clipboard`).
pub fn handle_clipboard(output: &PlatformOutput, clipboard: bool) -> (text: Option<String>)
    ensures
        match text {
            Some(text) => Some(text@),
            None => None,
        } == text_to_copy(output@, clipboard),
{
    if clipboard && output.copied_text.as_str().unicode_len() > 0 {
        Some(output.copied_text.clone())
    } else {
        None
    }
}

} // verus!
