//! The window/context manager, modelled as plain state.
//!
//! A [`GameWindow`] holds what the engine's logic reads of the OS window:
//! its size, position, fullscreen mode, the mouse-capture flags, and the
//! overlay's frame clock. The OS calls that realise each mutation (SDL)
//! are made outside this crate; they receive the same arguments and keep
//! the real window in step with this model.

use vstd::prelude::*;

verus! {

/// The frame-clock clamp: a frame's delta time never exceeds this many
/// nanoseconds (0.25 s), the guard against the "spiral of death" after a
/// stall.
pub const MAX_DELTA_NS: u64 = 250_000_000;

/// The window's fullscreen mode: windowed, exclusive fullscreen, or
/// borderless (desktop) fullscreen.
#[derive(Clone, Copy, PartialEq, Eq, Structural, Debug)]
pub enum FullscreenMode {
    Off,
    Exclusive,
    Borderless,
}

/// A display mode: the dimensions and refresh rate of the display the
/// window lives on, as plain values.
#[derive(Clone, Copy, PartialEq, Eq, Structural, Debug)]
pub struct DisplayMode {
    pub width: u32,
    pub height: u32,
    pub refresh_rate: u32,
}

/// A snapshot of the mouse at the start of a frame: cursor position and
/// button state, as plain values.
#[derive(Clone, Copy, PartialEq, Eq, Structural, Debug)]
pub struct MouseSnapshot {
    pub x: i32,
    pub y: i32,
    pub left: bool,
    pub middle: bool,
    pub right: bool,
}

/// The abstract value of a [`GameWindow`].
pub ghost struct WindowView {
    pub title: Seq<char>,
    pub width: u32,
    pub height: u32,
    pub windowed_width: u32,
    pub windowed_height: u32,
    pub pos_x: i32,
    pub pos_y: i32,
    pub display: DisplayMode,
    pub fullscreen: FullscreenMode,
    pub mouse_grabbed: bool,
    pub relative_mouse: bool,
    pub mouse_captured: bool,
    pub ui_delta_ns: u64,
    pub ui_mouse: MouseSnapshot,
    pub frames_prepared: u64,
}

/// The single window/context manager: the OS window, its graphics context
/// and the UI-overlay context, reduced to the state the frame loop reads
/// and mutates.
pub struct GameWindow {
    title: String,
    width: u32,
    height: u32,
    windowed_width: u32,
    windowed_height: u32,
    pos_x: i32,
    pos_y: i32,
    display: DisplayMode,
    fullscreen: FullscreenMode,
    mouse_grabbed: bool,
    relative_mouse: bool,
    mouse_captured: bool,
    ui_delta_ns: u64,
    ui_mouse: MouseSnapshot,
    frames_prepared: u64,
}

impl View for GameWindow {
    type V = WindowView;

    closed spec fn view(&self) -> WindowView {
        WindowView {
            title: self.title@,
            width: self.width,
            height: self.height,
            windowed_width: self.windowed_width,
            windowed_height: self.windowed_height,
            pos_x: self.pos_x,
            pos_y: self.pos_y,
            display: self.display,
            fullscreen: self.fullscreen,
            mouse_grabbed: self.mouse_grabbed,
            relative_mouse: self.relative_mouse,
            mouse_captured: self.mouse_captured,
            ui_delta_ns: self.ui_delta_ns,
            ui_mouse: self.ui_mouse,
            frames_prepared: self.frames_prepared,
        }
    }
}

/// The delta time handed to the simulation for a frame that began at
/// `last_frame_ns` and ends at `now_ns`: the elapsed nanoseconds, clamped
/// to [`MAX_DELTA_NS`].
pub open spec fn spec_delta_time(now_ns: u64, last_frame_ns: u64) -> u64
    recommends
        now_ns >= last_frame_ns,
{
    if now_ns - last_frame_ns > MAX_DELTA_NS {
        MAX_DELTA_NS
    } else {
        (now_ns - last_frame_ns) as u64
    }
}

/// What `set_fullscreen` does to the window state. Entering fullscreen
/// remembers the windowed dimensions (when coming from windowed) and takes
/// the display's dimensions; leaving it restores the remembered windowed
/// dimensions. Disabling always returns to windowed, whatever the
/// requested mode.
pub open spec fn spec_set_fullscreen(w: WindowView, enabled: bool, mode: FullscreenMode) -> WindowView {
    if enabled && mode != FullscreenMode::Off {
        let (ww, wh) = if w.fullscreen == FullscreenMode::Off {
            (w.width, w.height)
        } else {
            (w.windowed_width, w.windowed_height)
        };
        WindowView {
            width: w.display.width,
            height: w.display.height,
            windowed_width: ww,
            windowed_height: wh,
            fullscreen: mode,
            ..w
        }
    } else {
        WindowView {
            width: w.windowed_width,
            height: w.windowed_height,
            fullscreen: FullscreenMode::Off,
            ..w
        }
    }
}

/// What `toggle_grabbed` does to the window state: both mouse flags become
/// the negation of the grab state.
pub open spec fn spec_toggle_grabbed(w: WindowView) -> WindowView {
    WindowView { relative_mouse: !w.mouse_grabbed, mouse_grabbed: !w.mouse_grabbed, ..w }
}

/// Whether the window counts as fullscreen: any mode but `Off`.
pub open spec fn spec_is_fullscreen(w: WindowView) -> bool {
    w.fullscreen != FullscreenMode::Off
}

impl GameWindow {
    /// Every frame's delta time is clamped: it never exceeds
    /// [`MAX_DELTA_NS`], and below the clamp it is exactly the elapsed
    /// time.
    pub proof fn lemma_delta_time_clamped(now_ns: u64, last_frame_ns: u64)
        requires
            now_ns >= last_frame_ns,
        ensures
            spec_delta_time(now_ns, last_frame_ns) <= MAX_DELTA_NS,
            now_ns - last_frame_ns <= MAX_DELTA_NS ==> spec_delta_time(now_ns, last_frame_ns)
                == now_ns - last_frame_ns,
    {
    }

    /// After a toggle the two mouse flags always agree, whatever they were
    /// before.
    pub proof fn lemma_toggle_grabbed_syncs_flags(w: WindowView)
        ensures
            spec_toggle_grabbed(w).relative_mouse == spec_toggle_grabbed(w).mouse_grabbed,
    {
    }

    /// Disabling fullscreen always lands in windowed mode, whatever mode
    /// was asked for and whatever the state was.
    pub proof fn lemma_disable_fullscreen(w: WindowView, mode: FullscreenMode)
        ensures
            !spec_is_fullscreen(spec_set_fullscreen(w, false, mode)),
    {
    }

    /// Toggling fullscreen on and then off returns the window to its
    /// pre-toggle windowed dimensions.
    pub proof fn lemma_fullscreen_round_trip(w: WindowView, on_mode: FullscreenMode, off_mode: FullscreenMode)
        requires
            w.fullscreen == FullscreenMode::Off,
            on_mode != FullscreenMode::Off,
        ensures
            spec_set_fullscreen(spec_set_fullscreen(w, true, on_mode), false, off_mode).width
                == w.width,
            spec_set_fullscreen(spec_set_fullscreen(w, true, on_mode), false, off_mode).height
                == w.height,
            !spec_is_fullscreen(spec_set_fullscreen(spec_set_fullscreen(w, true, on_mode), false, off_mode)),
    {
    }

    /// The clamped frame delta, in nanoseconds, between two timestamps of
    /// a monotonic clock.
    pub fn calculate_delta_time(now_ns: u64, last_frame_ns: u64) -> (delta_ns: u64)
        requires
            now_ns >= last_frame_ns,
        ensures
            delta_ns == spec_delta_time(now_ns, last_frame_ns),
    {
        let delta: u64 = now_ns - last_frame_ns;
        if delta > MAX_DELTA_NS {
            MAX_DELTA_NS
        } else {
            delta
        }
    }

    /// Feeds the clamped delta time and the current mouse snapshot to the
    /// UI overlay's clock; to be called exactly once per frame-loop
    /// iteration, before any overlay draw command. The frame counter
    /// saturates at the machine limit.
    pub fn new_frame(&mut self, delta_ns: u64, mouse_state: &MouseSnapshot)
        ensures
            final(self)@ == (WindowView {
                ui_delta_ns: delta_ns,
                ui_mouse: *mouse_state,
                frames_prepared: if old(self)@.frames_prepared < u64::MAX {
                    (old(self)@.frames_prepared + 1) as u64
                } else {
                    u64::MAX
                },
                ..old(self)@
            }),
    {
        self.ui_delta_ns = delta_ns;
        self.ui_mouse = *mouse_state;
        if self.frames_prepared < u64::MAX {
            self.frames_prepared = self.frames_prepared + 1;
        }
    }

    /// The window's current drawable size.
    pub fn get_width_and_height(&self) -> (r: (u32, u32))
        ensures
            r.0 == self@.width,
            r.1 == self@.height,
    {
        (self.width, self.height)
    }

    /// The window's current position on the display.
    pub fn get_position(&self) -> (r: (i32, i32))
        ensures
            r.0 == self@.pos_x,
            r.1 == self@.pos_y,
    {
        (self.pos_x, self.pos_y)
    }

    /// Switches to the requested fullscreen mode, or back to windowed.
    /// When `fullscreen` is false the window always returns to windowed,
    /// regardless of `new_type`; the drawable size changes accordingly, so
    /// callers must re-query it and propagate it to the renderer.
    pub fn set_fullscreen(&mut self, fullscreen: bool, new_type: FullscreenMode)
        ensures
            final(self)@ == spec_set_fullscreen(old(self)@, fullscreen, new_type),
            !fullscreen ==> !spec_is_fullscreen(final(self)@),
    {
        if fullscreen && !matches!(new_type, FullscreenMode::Off) {
            if matches!(self.fullscreen, FullscreenMode::Off) {
                self.windowed_width = self.width;
                self.windowed_height = self.height;
            }
            self.width = self.display.width;
            self.height = self.display.height;
            self.fullscreen = new_type;
        } else {
            self.width = self.windowed_width;
            self.height = self.windowed_height;
            self.fullscreen = FullscreenMode::Off;
        }
    }

    /// True iff the current mode is exclusive or borderless (not `Off`).
    pub fn is_fullscreen(&mut self) -> (r: bool)
        ensures
            r == spec_is_fullscreen(old(self)@),
            *final(self) == *old(self),
    {
        !matches!(self.fullscreen, FullscreenMode::Off)
    }

    /// The display mode of the display the window was created on.
    pub fn get_current_display_mode(&self) -> (r: DisplayMode)
        ensures
            r == self@.display,
    {
        self.display
    }

    /// Switches relative mouse mode (motion deltas instead of absolute
    /// positions) on or off.
    pub fn set_relative_mouse_mode(&mut self, on: bool)
        ensures
            final(self)@ == (WindowView { relative_mouse: on, ..old(self)@ }),
    {
        self.relative_mouse = on;
    }

    /// Whether relative mouse mode is on.
    pub fn relative_mouse_mode(&self) -> (r: bool)
        ensures
            r == self@.relative_mouse,
    {
        self.relative_mouse
    }

    /// Whether the mouse is grabbed (confined to the window).
    pub fn get_mouse_grabbed(&self) -> (r: bool)
        ensures
            r == self@.mouse_grabbed,
    {
        self.mouse_grabbed
    }

    /// Grabs or releases the mouse.
    pub fn set_mouse_grabbed(&mut self, grab: bool)
        ensures
            final(self)@ == (WindowView { mouse_grabbed: grab, ..old(self)@ }),
    {
        self.mouse_grabbed = grab;
    }

    /// Captures or releases the mouse for tracking outside the window.
    pub fn capture_mouse(&mut self, capture: bool)
        ensures
            final(self)@ == (WindowView { mouse_captured: capture, ..old(self)@ }),
    {
        self.mouse_captured = capture;
    }

    /// Reads the grab state and sets both relative mouse mode and the grab
    /// to its negation: the two flags are always changed together here.
    pub fn toggle_grabbed(&mut self)
        ensures
            final(self)@ == spec_toggle_grabbed(old(self)@),
            final(self)@.relative_mouse == final(self)@.mouse_grabbed,
    {
        let grabbed: bool = self.get_mouse_grabbed();
        self.set_relative_mouse_mode(!grabbed);
        self.set_mouse_grabbed(!grabbed);
    }
}

/// Creates the window/context manager's state for a new window of the
/// given title and size, centered on the given display, windowed, with the
/// mouse free and the overlay clock at zero. The OS window, graphics
/// context and overlay context that realise it are created outside this
/// crate, in this same order.
pub fn create_default(n: &str, w: u32, h: u32, display: DisplayMode) -> (gw: GameWindow)
    ensures
        gw@ == (WindowView {
            title: n@,
            width: w,
            height: h,
            windowed_width: w,
            windowed_height: h,
            pos_x: if display.width > w { (((display.width - w) / 2) as i32) } else { 0 },
            pos_y: if display.height > h { (((display.height - h) / 2) as i32) } else { 0 },
            display: display,
            fullscreen: FullscreenMode::Off,
            mouse_grabbed: false,
            relative_mouse: false,
            mouse_captured: false,
            ui_delta_ns: 0,
            ui_mouse: MouseSnapshot { x: 0, y: 0, left: false, middle: false, right: false },
            frames_prepared: 0,
        }),
{
    let pos_x: i32 = if display.width > w {
        ((display.width - w) / 2) as i32
    } else {
        0
    };
    let pos_y: i32 = if display.height > h {
        ((display.height - h) / 2) as i32
    } else {
        0
    };
    GameWindow {
        title: n.to_owned(),
        width: w,
        height: h,
        windowed_width: w,
        windowed_height: h,
        pos_x,
        pos_y,
        display,
        fullscreen: FullscreenMode::Off,
        mouse_grabbed: false,
        relative_mouse: false,
        mouse_captured: false,
        ui_delta_ns: 0,
        ui_mouse: MouseSnapshot { x: 0, y: 0, left: false, middle: false, right: false },
        frames_prepared: 0,
    }
}

} // verus!
