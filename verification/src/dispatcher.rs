use vstd::prelude::*;
use crate::color::Rgba;
use crate::manager::{Extent, PointerButton, PressState, SurfaceManager};

verus! {

/// A window or input event, reduced to the payload the dispatcher reads.
#[derive(Clone, Copy, Debug, PartialEq, Eq, Structural)]
pub enum DispatchEvent {
    /// The window's close control was activated.
    CloseRequested,
    /// The window was resized to the given physical size; a zero dimension
    /// means the window is minimized.
    Resized { width: u32, height: u32 },
    /// A key was pressed or released.
    KeyboardInput,
    /// A mouse button changed state.
    MouseInput { state: PressState, button: PointerButton },
    /// The host asks for the next frame.
    RedrawRequested,
    /// Any event the dispatcher does not care about.
    Other,
}

/// What the host must do after an event was dispatched.
#[derive(Clone, Copy, Debug, PartialEq, Eq, Structural)]
pub enum DispatchAction {
    /// Nothing: the event was absorbed or dropped.
    Ignore,
    /// Terminate the event loop.
    Exit,
    /// Render one frame, clearing the whole surface to the given color.
    RenderFrame { clear_color: Rgba },
}

/// Which way acquiring the next presentable texture went; handed back to the
/// dispatcher by the host after it performed a `RenderFrame` action.
#[derive(Clone, Copy, Debug, PartialEq, Eq, Structural)]
pub enum FrameOutcome {
    /// The frame was rendered and presented.
    Presented,
    /// The surface was lost and must be recreated.
    SurfaceLost,
    /// The surface no longer matches the window, or acquisition timed out.
    SurfaceOutdated,
    /// The host is out of memory.
    OutOfMemory,
    /// Any other acquisition failure.
    OtherFailure,
}

/// What the host must do once a frame attempt has finished.
#[derive(Clone, Copy, Debug, PartialEq, Eq, Structural)]
pub struct RedrawFollowUp {
    /// Report that the surface was lost; every other failure is silent.
    pub report_lost: bool,
    /// Ask for another redraw so the loop continues; always set.
    pub request_redraw: bool,
}

/// The dispatcher owns at most one surface manager. Before the first resume
/// there is none and every window event is dropped; once `exit_requested`
/// is set the loop is terminating and no further event does anything.
pub struct EventDispatcher {
    pub manager: Option<SurfaceManager>,
    pub exit_requested: bool,
}

impl EventDispatcher {
    /// The held manager, if any, is itself well formed.
    pub open spec fn wf(self) -> bool {
        match self.manager {
            Option::Some(m) => m.wf(),
            Option::None => true,
        }
    }

    /// A manager exists: the dispatcher is past its first resume.
    pub open spec fn ready(self) -> bool {
        self.manager is Some
    }

    /// The state after a resume that reported the window size `reported`:
    /// the first resume installs a fresh manager, every later one changes
    /// nothing.
    pub open spec fn spec_resumed(self, reported: Extent) -> EventDispatcher {
        if self.ready() {
            self
        } else {
            EventDispatcher {
                manager: Option::Some(SurfaceManager::spec_new(reported)),
                ..self
            }
        }
    }

    /// The state and action produced by one window event. Without a manager,
    /// or once exit was signalled, every event is dropped. A close request
    /// signals exit once; a resize with both dimensions nonzero reaches the
    /// manager and one with a zero dimension does not; a mouse-button event
    /// reaches the manager's click handling; a redraw request asks the host
    /// for one frame cleared to the manager's current background color.
    pub open spec fn spec_window_event(self, event: DispatchEvent) -> (EventDispatcher, DispatchAction) {
        match self.manager {
            Option::None => (self, DispatchAction::Ignore),
            Option::Some(m) => {
                if self.exit_requested {
                    (self, DispatchAction::Ignore)
                } else {
                    match event {
                        DispatchEvent::CloseRequested => (
                            EventDispatcher { exit_requested: true, ..self },
                            DispatchAction::Exit,
                        ),
                        DispatchEvent::Resized { width, height } => {
                            if width == 0 || height == 0 {
                                (self, DispatchAction::Ignore)
                            } else {
                                (
                                    EventDispatcher {
                                        manager: Option::Some(
                                            m.spec_set_window_resized(Extent { width, height }),
                                        ),
                                        ..self
                                    },
                                    DispatchAction::Ignore,
                                )
                            }
                        }
                        DispatchEvent::KeyboardInput => (self, DispatchAction::Ignore),
                        DispatchEvent::MouseInput { state, button } => (
                            EventDispatcher {
                                manager: Option::Some(m.spec_mouse_click(state, button)),
                                ..self
                            },
                            DispatchAction::Ignore,
                        ),
                        DispatchEvent::RedrawRequested => (
                            self,
                            DispatchAction::RenderFrame { clear_color: m.clear_color },
                        ),
                        DispatchEvent::Other => (self, DispatchAction::Ignore),
                    }
                }
            }
        }
    }

    /// A dispatcher that has seen no resume yet.
    pub fn new() -> (d: EventDispatcher)
        ensures
            d.manager is None,
            !d.exit_requested,
            d.wf(),
    {
        EventDispatcher { manager: Option::None, exit_requested: false }
    }

    /// Whether a manager exists yet; the host performs window and GPU setup
    /// only when none does.
    pub fn is_ready(&self) -> (ready: bool)
        ensures
            ready == self.ready(),
    {
        self.manager.is_some()
    }

    /// The resume lifecycle event, with the created window's reported
    /// physical size: installs the one manager on the first resume and is a
    /// no-op on every later one, so the slot is filled at most once.
    pub fn resumed(&mut self, reported_width: u32, reported_height: u32)
        requires
            old(self).wf(),
        ensures
            *final(self) == old(self).spec_resumed(
                Extent { width: reported_width, height: reported_height },
            ),
            final(self).wf(),
            final(self).ready(),
            final(self).exit_requested == old(self).exit_requested,
            old(self).ready() ==> *final(self) == *old(self),
    {
        if self.manager.is_some() {
            return;
        }
        self.manager = Option::Some(SurfaceManager::new(reported_width, reported_height));
    }

    /// The suspend lifecycle event: deliberately a no-op, nothing is
    /// released.
    pub fn suspended(&mut self)
        ensures
            *final(self) == *old(self),
    {
    }

    /// Dispatch one window event and say what the host must do for it.
    pub fn window_event(&mut self, event: DispatchEvent) -> (action: DispatchAction)
        requires
            old(self).wf(),
        ensures
            (*final(self), action) == old(self).spec_window_event(event),
            final(self).wf(),
            final(self).exit_requested == (
                old(self).exit_requested
                || (old(self).ready() && event == DispatchEvent::CloseRequested)
            ),
            !old(self).ready() ==> *final(self) == *old(self) && action == DispatchAction::Ignore,
    {
        match self.manager {
            Option::None => DispatchAction::Ignore,
            Option::Some(m) => {
                if self.exit_requested {
                    DispatchAction::Ignore
                } else {
                    match event {
                        DispatchEvent::CloseRequested => {
                            self.exit_requested = true;
                            DispatchAction::Exit
                        }
                        DispatchEvent::Resized { width, height } => {
                            if width == 0 || height == 0 {
                                DispatchAction::Ignore
                            } else {
                                let mut updated = m;
                                updated.set_window_resized(width, height);
                                self.manager = Option::Some(updated);
                                DispatchAction::Ignore
                            }
                        }
                        DispatchEvent::KeyboardInput => DispatchAction::Ignore,
                        DispatchEvent::MouseInput { state, button } => {
                            let mut updated = m;
                            let _consumed = updated.mouse_click(state, button);
                            self.manager = Option::Some(updated);
                            DispatchAction::Ignore
                        }
                        DispatchEvent::RedrawRequested => {
                            DispatchAction::RenderFrame { clear_color: m.clear_color }
                        }
                        DispatchEvent::Other => DispatchAction::Ignore,
                    }
                }
            }
        }
    }

    /// Apply a pending resize before the next frame. Returns the size the
    /// host must reconfigure the real surface with, exactly when a resize
    /// was pending; `None` otherwise or when no manager exists.
    pub fn apply_pending_resize(&mut self) -> (reconfigure: Option<Extent>)
        requires
            old(self).wf(),
        ensures
            final(self).wf(),
            final(self).exit_requested == old(self).exit_requested,
            match old(self).manager {
                Option::None => *final(self) == *old(self) && reconfigure is None,
                Option::Some(m) => {
                    &&& final(self).manager == Option::Some(m.spec_resize_surface_if_needed())
                    &&& reconfigure == (if m.size_changed { Option::Some(m.size) } else { Option::<Extent>::None })
                },
            },
    {
        match self.manager {
            Option::None => Option::None,
            Option::Some(m) => {
                let mut updated = m;
                let needed = updated.resize_surface_if_needed();
                self.manager = Option::Some(updated);
                if needed {
                    Option::Some(updated.size)
                } else {
                    Option::None
                }
            }
        }
    }
}

impl Default for EventDispatcher {
    /// Same as `EventDispatcher::new`: no manager yet, no exit signalled.
    fn default() -> (d: EventDispatcher)
        ensures
            d.manager is None,
            !d.exit_requested,
            d.wf(),
    {
        EventDispatcher { manager: Option::None, exit_requested: false }
    }
}

/// After a frame attempt the host always asks for another redraw, and it
/// reports the failure exactly when the surface was lost; every other
/// failure is skipped silently.
pub fn after_render(outcome: FrameOutcome) -> (follow_up: RedrawFollowUp)
    ensures
        follow_up.report_lost == (outcome == FrameOutcome::SurfaceLost),
        follow_up.request_redraw,
{
    RedrawFollowUp {
        report_lost: matches!(outcome, FrameOutcome::SurfaceLost),
        request_redraw: true,
    }
}

/// Before the first resume there is no manager, and every window event
/// leaves the dispatcher untouched and asks nothing of the host.
pub proof fn lemma_pre_resume_events_dropped(d: EventDispatcher, event: DispatchEvent)
    requires
        d.wf(),
        !d.ready(),
    ensures
        d.spec_window_event(event) == (d, DispatchAction::Ignore),
{
}

/// A later resume never replaces the manager installed by the first one.
pub proof fn lemma_resume_installs_once(d: EventDispatcher, reported: Extent)
    requires
        d.wf(),
        d.ready(),
    ensures
        d.spec_resumed(reported) == d,
{
}

/// The exit signal is produced exactly once: a close request while ready
/// produces it and marks the dispatcher as terminating, after which every
/// event — further close requests included — is dropped without any action;
/// and no event other than a close request ever produces it.
pub proof fn lemma_exit_signalled_once(d: EventDispatcher, m: SurfaceManager, event: DispatchEvent)
    requires
        d.wf(),
    ensures
        d.manager == Option::Some(m) && !d.exit_requested ==> d.spec_window_event(
            DispatchEvent::CloseRequested,
        ) == (EventDispatcher { exit_requested: true, ..d }, DispatchAction::Exit),
        d.exit_requested ==> d.spec_window_event(event) == (d, DispatchAction::Ignore),
        d.spec_window_event(event).1 == DispatchAction::Exit ==> {
            &&& event == DispatchEvent::CloseRequested
            &&& d.ready()
            &&& !d.exit_requested
        },
{
}

/// A resize event with a zero width or height never reaches the manager:
/// the dispatcher's whole state, the stored size included, is unchanged.
pub proof fn lemma_zero_size_resize_filtered(d: EventDispatcher, width: u32, height: u32)
    requires
        d.wf(),
        width == 0 || height == 0,
    ensures
        d.spec_window_event(DispatchEvent::Resized { width, height }) == (d, DispatchAction::Ignore),
{
}

/// A redraw request asks the host for exactly one frame, cleared to the
/// manager's background color at the time of the request, and changes no
/// state.
pub proof fn lemma_redraw_uses_current_color(d: EventDispatcher, m: SurfaceManager)
    requires
        d.wf(),
        d.manager == Option::Some(m),
        !d.exit_requested,
    ensures
        d.spec_window_event(DispatchEvent::RedrawRequested) == (
            d,
            DispatchAction::RenderFrame { clear_color: m.clear_color },
        ),
{
}

} // verus!
