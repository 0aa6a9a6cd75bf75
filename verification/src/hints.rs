use vstd::prelude::*;

verus! {

/// A directive influencing how the next window and its graphics context are
/// created. The builder never interprets a hint: it only stores hints and
/// replays them in order. The layer that talks to the windowing library turns
/// each variant into the corresponding native hint.
#[derive(Clone, Copy, PartialEq, Eq, Debug)]
pub enum Hint {
    /// Requested context version, as (major, minor).
    ContextVersion(u32, u32),
    /// Whether the context must be forward compatible.
    OpenGlForwardCompat(bool),
    /// Requested context profile.
    OpenGlProfile(OpenGlProfileHint),
    /// Desired refresh rate; `None` asks for the highest available rate.
    RefreshRate(Option<u32>),
    /// Whether the context may assume the program produces no errors.
    ContextNoError(bool),
}

/// The context profile a candidate asks for.
#[derive(Clone, Copy, PartialEq, Eq, Debug)]
pub enum OpenGlProfileHint {
    /// No preference.
    Any,
    /// The core profile.
    Core,
    /// The compatibility profile.
    Compat,
}

/// The mode a window is created in. `FullScreen` carries the index of the
/// desired monitor in the windowing library's monitor list; the caller that
/// owns the windowing handle resolves the index.
#[derive(Clone, Copy, PartialEq, Eq, Debug)]
pub enum WindowMode {
    Windowed,
    FullScreen(usize),
}

} // verus!
