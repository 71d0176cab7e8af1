//! The tray icon that presents a state.

use vstd::prelude::*;
use crate::state::SunshineState;

verus! {

/// Width and height, in pixels, of every icon image.
pub const ICON_SIZE: i32 = 64;

/// The three images of the tray icon. The library names the image; the host
/// holds the pixels.
#[derive(Clone, Copy, PartialEq, Eq, Structural, Debug)]
pub enum IconImage {
    /// The daemon is stopped.
    Off,
    /// The daemon is running and waits for a client.
    Ready,
    /// The daemon serves a client.
    Active,
}

/// The icon to display: an image and the size it is drawn in.
#[derive(Clone, Copy, PartialEq, Eq, Structural, Debug)]
pub struct Icon {
    pub width: i32,
    pub height: i32,
    /// Which image supplies the pixel data.
    pub image: IconImage,
}

impl IconImage {
    /// The name of the image.
    pub open spec fn name_text(self) -> Seq<char> {
        match self {
            IconImage::Off => "off"@,
            IconImage::Ready => "ready"@,
            IconImage::Active => "active"@,
        }
    }

    /// Returns the name of the image: `off`, `ready` or `active`.
    pub fn name(self) -> (text: &'static str)
        ensures
            text@ == self.name_text(),
    {
        match self {
            IconImage::Off => "off",
            IconImage::Ready => "ready",
            IconImage::Active => "active",
        }
    }
}

/// The image that shows a state.
pub open spec fn image_for(state: SunshineState) -> IconImage {
    match state {
        SunshineState::Stopped => IconImage::Off,
        SunshineState::Running => IconImage::Ready,
        SunshineState::ClientConnected => IconImage::Active,
    }
}

/// The icon that shows a state.
pub open spec fn icon_for(state: SunshineState) -> Icon {
    Icon { width: ICON_SIZE, height: ICON_SIZE, image: image_for(state) }
}

/// Create icon for given state of sunshine.
pub fn create_icon(state: SunshineState) -> (icon: Icon)
    ensures
        icon == icon_for(state),
{
    Icon {
        height: ICON_SIZE,
        width: ICON_SIZE,
        image: match state {
            SunshineState::Stopped => IconImage::Off,
            SunshineState::Running => IconImage::Ready,
            SunshineState::ClientConnected => IconImage::Active,
        },
    }
}

/// Distinct states are shown by distinct icons, so the icon alone tells the
/// state.
pub proof fn lemma_icon_tells_state(a: SunshineState, b: SunshineState)
    ensures
        icon_for(a) == icon_for(b) <==> a == b,
{
}

} // verus!
