//! The frame loop's decisions: which pending input events stop the loop,
//! which toggle fullscreen, and what each does to the window and renderer
//! state. The loop itself — polling the OS event queue, drawing,
//! presenting, pacing — runs outside this crate and feeds each batch of
//! polled events through [`handle_events`].

use vstd::prelude::*;

use crate::game_window::FullscreenMode;
use crate::game_window::GameWindow;
use crate::game_window::WindowView;
use crate::game_window::spec_is_fullscreen;
use crate::game_window::spec_set_fullscreen;
use crate::renderer::Renderer;
use crate::renderer::RendererView;
use crate::renderer::spec_set_viewport;

verus! {

/// The keys the frame loop reacts to; every other key is `Other`.
#[derive(Clone, Copy, PartialEq, Eq, Structural, Debug)]
pub enum Key {
    /// Ends the loop.
    Escape,
    /// Toggles fullscreen.
    F,
    /// Reserved for an engine-specific action; currently does nothing.
    O,
    Other,
}

/// One input event as the frame loop sees it.
#[derive(Clone, Copy, PartialEq, Eq, Structural, Debug)]
pub enum InputEvent {
    /// The OS asked the application to quit.
    Quit,
    /// A key went down.
    KeyDown(Key),
    /// Any other event: mouse motion, window events, and the rest.
    Other,
}

/// An event together with the UI overlay's claim on it: when the overlay's
/// input-capture predicate claimed the event, the loop must not dispatch
/// it further.
#[derive(Clone, Copy, PartialEq, Eq, Structural, Debug)]
pub struct FrameEvent {
    pub claimed_by_overlay: bool,
    pub event: InputEvent,
}

/// The state after dispatching events: the window, the renderer, and
/// whether the loop keeps running.
pub ghost struct DispatchOutcome {
    pub window: WindowView,
    pub renderer: RendererView,
    pub keep_running: bool,
}

/// What dispatching one unclaimed event does. A quit request or the exit
/// key stops the loop; the fullscreen key toggles fullscreen (entering
/// exclusive mode) and points the renderer's viewport at the new drawable
/// size; everything else changes nothing.
pub open spec fn spec_dispatch_event(w: WindowView, r: RendererView, e: FrameEvent) -> DispatchOutcome {
    if e.claimed_by_overlay {
        DispatchOutcome { window: w, renderer: r, keep_running: true }
    } else {
        match e.event {
            InputEvent::Quit => DispatchOutcome { window: w, renderer: r, keep_running: false },
            InputEvent::KeyDown(Key::Escape) => DispatchOutcome {
                window: w,
                renderer: r,
                keep_running: false,
            },
            InputEvent::KeyDown(Key::F) => {
                let w2 = spec_set_fullscreen(w, !spec_is_fullscreen(w), FullscreenMode::Exclusive);
                DispatchOutcome {
                    window: w2,
                    renderer: spec_set_viewport(r, w2.width, w2.height),
                    keep_running: true,
                }
            },
            _ => DispatchOutcome { window: w, renderer: r, keep_running: true },
        }
    }
}

/// What dispatching a batch of events does: events are dispatched in
/// order, and the first one that stops the loop ends the dispatch with the
/// remaining events untouched.
pub open spec fn spec_dispatch_events(w: WindowView, r: RendererView, events: Seq<FrameEvent>) -> DispatchOutcome
    decreases events.len(),
{
    if events.len() == 0 {
        DispatchOutcome { window: w, renderer: r, keep_running: true }
    } else {
        let first = spec_dispatch_event(w, r, events[0]);
        if !first.keep_running {
            first
        } else {
            spec_dispatch_events(first.window, first.renderer, events.drop_first())
        }
    }
}

proof fn lemma_dispatch_events_step(w: WindowView, r: RendererView, events: Seq<FrameEvent>, i: int)
    requires
        0 <= i < events.len(),
        spec_dispatch_event(w, r, events[i]).keep_running,
    ensures
        ({
            let first = spec_dispatch_event(w, r, events[i]);
            spec_dispatch_events(w, r, events.skip(i)) == spec_dispatch_events(
                first.window,
                first.renderer,
                events.skip(i + 1),
            )
        }),
{
    assert(events.skip(i)[0] == events[i]);
    assert(events.skip(i).drop_first() =~= events.skip(i + 1));
}

/// The renderer invariant the frame loop maintains: when the viewport
/// matches the window's drawable size, it still does after dispatching
/// any batch of events — a fullscreen toggle re-points the viewport in
/// the same step that resizes the window.
pub proof fn lemma_dispatch_keeps_viewport_in_step(w: WindowView, r: RendererView, events: Seq<FrameEvent>)
    requires
        r.viewport_width == w.width,
        r.viewport_height == w.height,
    ensures
        spec_dispatch_events(w, r, events).renderer.viewport_width == spec_dispatch_events(
            w,
            r,
            events,
        ).window.width,
        spec_dispatch_events(w, r, events).renderer.viewport_height == spec_dispatch_events(
            w,
            r,
            events,
        ).window.height,
    decreases events.len(),
{
    if events.len() > 0 {
        let first = spec_dispatch_event(w, r, events[0]);
        if first.keep_running {
            lemma_dispatch_keeps_viewport_in_step(first.window, first.renderer, events.drop_first());
        }
    }
}

/// Routes one batch of polled events, already offered to the UI overlay,
/// through the frame loop's rules, mutating the window and renderer as
/// each event asks; returns false when the loop must stop.
pub fn handle_events(events: &Vec<FrameEvent>, game_window: &mut GameWindow, renderer: &mut Renderer) -> (keep_running: bool)
    ensures
        ({
            let o = spec_dispatch_events(old(game_window)@, old(renderer)@, events@);
            &&& final(game_window)@ == o.window
            &&& final(renderer)@ == o.renderer
            &&& keep_running == o.keep_running
        }),
{
    let ghost w0 = game_window@;
    let ghost r0 = renderer@;
    proof {
        assert(events@.skip(0) =~= events@);
    }
    let mut running: bool = true;
    let mut i: usize = 0;
    while running && i < events.len()
        invariant
            i <= events@.len(),
            running ==> spec_dispatch_events(w0, r0, events@) == spec_dispatch_events(
                game_window@,
                renderer@,
                events@.skip(i as int),
            ),
            !running ==> spec_dispatch_events(w0, r0, events@) == (DispatchOutcome {
                window: game_window@,
                renderer: renderer@,
                keep_running: false,
            }),
        decreases events@.len() - i,
    {
        let e = events[i];
        proof {
            assert(events@.skip(i as int)[0] == events@[i as int]);
            assert(events@.skip(i as int).len() > 0);
        }
        if !e.claimed_by_overlay {
            match e.event {
                InputEvent::Quit => {
                    running = false;
                },
                InputEvent::KeyDown(Key::Escape) => {
                    running = false;
                },
                InputEvent::KeyDown(Key::F) => {
                    proof {
                        lemma_dispatch_events_step(game_window@, renderer@, events@, i as int);
                    }
                    let is_fs: bool = game_window.is_fullscreen();
                    game_window.set_fullscreen(!is_fs, FullscreenMode::Exclusive);
                    let (width, height) = game_window.get_width_and_height();
                    renderer.set_viewport(width, height);
                },
                _ => {
                    proof {
                        lemma_dispatch_events_step(game_window@, renderer@, events@, i as int);
                    }
                },
            }
        } else {
            proof {
                lemma_dispatch_events_step(game_window@, renderer@, events@, i as int);
            }
        }
        i = i + 1;
    }
    proof {
        if running {
            assert(events@.skip(events@.len() as int) =~= Seq::<FrameEvent>::empty());
        }
    }
    running
}

/// The frame loop's soft pacing interval: the nanoseconds of one frame at
/// the target frame rate. The end-of-frame sleep of this length bounds CPU
/// use; it is a soft cap, not a precise scheduler.
pub fn frame_interval_ns(target_fps: u32) -> (r: u32)
    requires
        target_fps >= 1,
    ensures
        r == 1_000_000_000u32 / target_fps,
{
    1_000_000_000u32 / target_fps
}

} // verus!
