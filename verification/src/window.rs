//! What the programs ask of the window and of the event loop, and the
//! events that the loop hands back.

use vstd::prelude::*;

verus! {

/// A version of the OpenGL API.
#[derive(Clone, Copy, Debug, PartialEq, Eq, Structural)]
pub struct OpenGl {
    pub major: u8,
    pub minor: u8,
}

/// The window to open.
#[derive(Clone, Copy, Debug, PartialEq, Eq)]
pub struct WindowSettings {
    pub title: &'static str,
    /// Width and height of the drawable area, in pixels.
    pub size: [u32; 2],
    pub fullscreen: bool,
    pub exit_on_esc: bool,
}

/// The pace of the event loop.
#[derive(Clone, Copy, Debug, PartialEq, Eq, Structural)]
pub struct LoopSettings {
    pub updates_per_second: u64,
    pub max_frames_per_second: u64,
}

/// What a render event carries: the size of the area to draw into.
#[derive(Clone, Copy, Debug, PartialEq, Eq, Structural)]
pub struct RenderArgs {
    pub width: u32,
    pub height: u32,
}

/// An event of the loop. Only `Render` is acted on.
#[derive(Clone, Copy, Debug, PartialEq, Eq, Structural)]
pub enum Event {
    /// Time to draw a frame.
    Render(RenderArgs),
    /// Time to advance the simulation by one step.
    Update,
    /// Input, idling and whatever else the loop reports.
    Other,
}

/// The API version both programs ask the window for: OpenGL 3.2.
pub fn requested_api() -> (api: OpenGl)
    ensures
        api == (OpenGl { major: 3, minor: 2 }),
{
    OpenGl { major: 3, minor: 2 }
}

/// The cube's window: 640 by 480, titled "cube".
pub fn cube_window() -> (settings: WindowSettings)
    ensures
        settings == (WindowSettings { title: "cube", size: [640u32, 480u32], fullscreen: false, exit_on_esc: true }),
{
    WindowSettings { title: "cube", size: [640, 480], fullscreen: false, exit_on_esc: true }
}

/// The triangle's window: 800 by 600, titled "Test".
pub fn triangle_window() -> (settings: WindowSettings)
    ensures
        settings == (WindowSettings { title: "Test", size: [800u32, 600u32], fullscreen: false, exit_on_esc: true }),
{
    WindowSettings { title: "Test", size: [800, 600], fullscreen: false, exit_on_esc: true }
}

/// The pace both programs run at: 120 updates and at most 60 frames a
/// second.
pub fn loop_settings() -> (settings: LoopSettings)
    ensures
        settings == (LoopSettings { updates_per_second: 120, max_frames_per_second: 60 }),
{
    LoopSettings { updates_per_second: 120, max_frames_per_second: 60 }
}

} // verus!
