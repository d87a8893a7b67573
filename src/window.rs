use vstd::prelude::*;

verus! {

/// How the window is opened.
#[derive(Clone, Debug, PartialEq, Eq)]
pub struct WindowSettings {
    pub title: String,
    pub width: i32,
    pub height: i32,
    pub fullscreen: bool,
    pub high_dpi: bool,
    pub sample_count: i32,
    /// Whether buffer swaps wait for the display's refresh.
    pub vsync: bool,
}

/// The demo's window: 800 by 600 pixels, windowed, high-DPI, one sample per
/// pixel, and no vsync, so that the frame loop sets the pace.
pub fn window_conf() -> (r: WindowSettings)
    ensures
        r.title@ == "Macroquad + Hecs + ResourceManager"@,
        r.width == 800,
        r.height == 600,
        !r.fullscreen,
        r.high_dpi,
        r.sample_count == 1,
        !r.vsync,
{
    WindowSettings {
        title: "Macroquad + Hecs + ResourceManager".to_owned(),
        width: 800,
        height: 600,
        fullscreen: false,
        high_dpi: true,
        sample_count: 1,
        vsync: false,
    }
}

} // verus!
