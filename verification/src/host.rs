//! The two flags that the embedding application shares with the input path.

use vstd::prelude::*;
use crate::input::{Event, Keycode};

verus! {

/// Display options of the application that the input path may change.
#[derive(Clone, Copy, Debug, PartialEq, Eq, Structural)]
pub struct App {
    /// Whether the depth map is drawn in place of the scene.
    pub show_depth_map: bool,
}

/// Whether the application is still running.
#[derive(Clone, Copy, Debug, PartialEq, Eq, Structural)]
pub struct AppState {
    /// Cleared by a shutdown request, and never set again by the input path.
    pub is_running: bool,
}

/// The size of the drawing surface, in pixels.
#[derive(Clone, Copy, Debug, PartialEq, Eq, Structural)]
pub struct Size {
    pub width: u32,
    pub height: u32,
}

impl Event {
    /// Whether this event asks the application to shut down: the window was
    /// closed or Escape went down.
    pub open spec fn requests_shutdown(self) -> bool {
        self == Event::Quit || self == (Event::KeyDown { keycode: Some(Keycode::Escape) })
    }

    /// Whether this event switches between the scene and the depth map: Tab
    /// went down.
    pub open spec fn toggles_depth_map(self) -> bool {
        self == (Event::KeyDown { keycode: Some(Keycode::Tab) })
    }
}

impl App {
    /// The display options after `event`.
    pub open spec fn after(self, event: Event) -> App {
        App { show_depth_map: self.show_depth_map != event.toggles_depth_map() }
    }
}

impl AppState {
    /// The running flag after `event`.
    pub open spec fn after(self, event: Event) -> AppState {
        AppState { is_running: self.is_running && !event.requests_shutdown() }
    }
}

} // verus!
