use vstd::prelude::*;
use crate::color::{Rgba, initial_color, alternate_color, spec_initial_color, spec_alternate_color};

verus! {

/// A width and height in physical pixels.
#[derive(Clone, Copy, Debug, PartialEq, Eq, Structural)]
pub struct Extent {
    pub width: u32,
    pub height: u32,
}

/// The host asks the GPU to queue at most this many finished frames ahead of
/// presentation.
pub const DESIRED_MAXIMUM_FRAME_LATENCY: u32 = 2;

/// The state of a mouse button carried by a mouse-button event.
#[derive(Clone, Copy, Debug, PartialEq, Eq, Structural)]
pub enum PressState {
    Pressed,
    Released,
}

/// The mouse button carried by a mouse-button event. Buttons other than the
/// left and right one never change any state.
#[derive(Clone, Copy, Debug, PartialEq, Eq, Structural)]
pub enum PointerButton {
    Left,
    Right,
    Other,
}

/// A value of 0 reported for a surface dimension is lifted to 1: a surface
/// cannot be configured with a zero width or height.
pub open spec fn clamp_min_one(v: u32) -> u32 {
    if v == 0 { 1u32 } else { v }
}

/// The surface manager's view of one presentable surface bound to a window.
///
/// `config` is the pixel size the surface is currently configured with; the
/// pixel format, alpha mode, presentation policy and frame latency of the
/// configuration are fixed when the surface is first configured and never
/// change, so they are not part of the state. `size` is the last window size
/// the manager was told of, and `size_changed` marks that `config` must be
/// reapplied from `size` before the surface is reused.
#[derive(Clone, Copy, Debug, PartialEq, Eq, Structural)]
pub struct SurfaceManager {
    pub config: Extent,
    pub size: Extent,
    pub size_changed: bool,
    pub clear_color: Rgba,
}

impl SurfaceManager {
    /// Both stored sizes stay at least one pixel in each dimension, the
    /// background color stays within range, and whenever no resize is
    /// pending the configured size agrees with the stored window size.
    pub open spec fn wf(self) -> bool {
        &&& self.size.width >= 1
        &&& self.size.height >= 1
        &&& self.config.width >= 1
        &&& self.config.height >= 1
        &&& self.clear_color.well_formed()
        &&& (!self.size_changed ==> self.config == self.size)
    }

    /// The manager made for a window whose reported size is `reported`:
    /// the size is clamped to at least 1x1, the surface is configured with
    /// exactly that size, no resize is pending, and the background is the
    /// startup color.
    pub open spec fn spec_new(reported: Extent) -> SurfaceManager {
        let clamped = Extent {
            width: clamp_min_one(reported.width),
            height: clamp_min_one(reported.height),
        };
        SurfaceManager {
            config: clamped,
            size: clamped,
            size_changed: false,
            clear_color: spec_initial_color(),
        }
    }

    /// A resize notification stores the new size and marks the configuration
    /// stale, unless the size is the one already stored, in which case
    /// nothing changes.
    pub open spec fn spec_set_window_resized(self, new_size: Extent) -> SurfaceManager {
        if new_size == self.size {
            self
        } else {
            SurfaceManager { size: new_size, size_changed: true, ..self }
        }
    }

    /// Applying a pending resize copies the stored size into the
    /// configuration and clears the dirty flag; with no resize pending
    /// nothing changes.
    pub open spec fn spec_resize_surface_if_needed(self) -> SurfaceManager {
        if self.size_changed {
            SurfaceManager { config: self.size, size_changed: false, ..self }
        } else {
            self
        }
    }

    /// A left press selects the alternate background, a right press restores
    /// the startup background, and every other combination of button and
    /// state leaves the manager as it was.
    pub open spec fn spec_mouse_click(self, state: PressState, button: PointerButton) -> SurfaceManager {
        if state == PressState::Pressed && button == PointerButton::Left {
            SurfaceManager { clear_color: spec_alternate_color(), ..self }
        } else if state == PressState::Pressed && button == PointerButton::Right {
            SurfaceManager { clear_color: spec_initial_color(), ..self }
        } else {
            self
        }
    }

    /// Create the manager for a window whose reported physical size is
    /// `reported_width` by `reported_height`; a zero dimension is clamped
    /// to 1.
    pub fn new(reported_width: u32, reported_height: u32) -> (m: SurfaceManager)
        ensures
            m == SurfaceManager::spec_new(Extent { width: reported_width, height: reported_height }),
            m.wf(),
    {
        let width: u32 = if reported_width == 0 { 1 } else { reported_width };
        let height: u32 = if reported_height == 0 { 1 } else { reported_height };
        SurfaceManager {
            config: Extent { width, height },
            size: Extent { width, height },
            size_changed: false,
            clear_color: initial_color(),
        }
    }

    /// Record that the window was resized to `new_width` by `new_height`.
    /// The caller filters out zero dimensions. A notification carrying the
    /// size already stored is a no-op; otherwise the new size is stored and
    /// the dirty flag is set. The configuration and the background color are
    /// untouched either way.
    pub fn set_window_resized(&mut self, new_width: u32, new_height: u32)
        requires
            old(self).wf(),
            new_width >= 1,
            new_height >= 1,
        ensures
            *final(self) == old(self).spec_set_window_resized(
                Extent { width: new_width, height: new_height },
            ),
            final(self).wf(),
            final(self).config == old(self).config,
            final(self).clear_color == old(self).clear_color,
            final(self).size == (Extent { width: new_width, height: new_height }),
    {
        if new_width == self.size.width && new_height == self.size.height {
            return;
        }
        self.size = Extent { width: new_width, height: new_height };
        self.size_changed = true;
    }

    /// Reapply the configuration from the stored size if a resize is
    /// pending. Returns whether the surface must be reconfigured: exactly
    /// when the dirty flag was set. Afterwards no resize is pending and the
    /// configured size equals the stored size.
    pub fn resize_surface_if_needed(&mut self) -> (reconfigured: bool)
        requires
            old(self).wf(),
        ensures
            *final(self) == old(self).spec_resize_surface_if_needed(),
            final(self).wf(),
            reconfigured == old(self).size_changed,
            !final(self).size_changed,
            final(self).config == old(self).size,
            final(self).size == old(self).size,
            final(self).clear_color == old(self).clear_color,
    {
        if self.size_changed {
            self.config = self.size;
            self.size_changed = false;
            true
        } else {
            false
        }
    }

    /// Per-frame bookkeeping before rendering; this manager has none.
    pub fn update(&mut self)
        ensures
            *final(self) == *old(self),
    {
    }

    /// Set the background color used for every following frame.
    pub fn set_clear_color(&mut self, color: Rgba)
        requires
            old(self).wf(),
            color.well_formed(),
        ensures
            *final(self) == (SurfaceManager { clear_color: color, ..*old(self) }),
            final(self).wf(),
    {
        self.clear_color = color;
    }

    /// A keyboard event is observed but never acted on; the returned flag
    /// says whether the event was consumed, which it never is.
    pub fn keyboard_input(&mut self) -> (consumed: bool)
        ensures
            *final(self) == *old(self),
            !consumed,
    {
        false
    }

    /// A mouse-button event: a left press selects the alternate background,
    /// a right press restores the startup background, anything else changes
    /// nothing. The returned flag says whether the event was consumed, which
    /// it never is.
    pub fn mouse_click(&mut self, state: PressState, button: PointerButton) -> (consumed: bool)
        requires
            old(self).wf(),
        ensures
            *final(self) == old(self).spec_mouse_click(state, button),
            final(self).wf(),
            final(self).config == old(self).config,
            final(self).size == old(self).size,
            final(self).size_changed == old(self).size_changed,
            !consumed,
    {
        match button {
            PointerButton::Left => {
                if matches!(state, PressState::Pressed) {
                    self.clear_color = alternate_color();
                }
            }
            PointerButton::Right => {
                if matches!(state, PressState::Pressed) {
                    self.clear_color = initial_color();
                }
            }
            PointerButton::Other => {}
        }
        false
    }

    /// A scroll-wheel event is observed but never acted on.
    pub fn mouse_wheel(&mut self) -> (consumed: bool)
        ensures
            *final(self) == *old(self),
            !consumed,
    {
        false
    }

    /// A cursor-motion event is observed but never acted on.
    pub fn cursor_move(&mut self) -> (consumed: bool)
        ensures
            *final(self) == *old(self),
            !consumed,
    {
        false
    }

    /// A raw device event is observed but never acted on.
    pub fn device_input(&mut self) -> (consumed: bool)
        ensures
            *final(self) == *old(self),
            !consumed,
    {
        false
    }
}

/// For every window size of at least one pixel in each dimension, a resize
/// notification followed by applying the pending resize leaves the active
/// configuration at exactly that size, with no resize pending.
pub proof fn lemma_resize_then_apply(m: SurfaceManager, width: u32, height: u32)
    requires
        m.wf(),
        width >= 1,
        height >= 1,
    ensures
        ({
            let applied = m.spec_set_window_resized(Extent { width, height })
                .spec_resize_surface_if_needed();
            &&& applied.config == (Extent { width, height })
            &&& !applied.size_changed
            &&& applied.wf()
        }),
{
}

/// A second resize notification with the same size is a no-op: the state
/// after two notifications equals the state after one, so applying the
/// pending resize afterwards reconfigures the surface exactly once.
pub proof fn lemma_repeated_resize_notification(m: SurfaceManager, width: u32, height: u32)
    requires
        m.wf(),
    ensures
        ({
            let once = m.spec_set_window_resized(Extent { width, height });
            once.spec_set_window_resized(Extent { width, height }) == once
        }),
{
}

/// Applying a pending resize clears the dirty flag, so applying again
/// changes nothing and reports that no reconfiguration is needed.
pub proof fn lemma_apply_resize_at_most_once(m: SurfaceManager)
    requires
        m.wf(),
    ensures
        !m.spec_resize_surface_if_needed().size_changed,
        m.spec_resize_surface_if_needed().spec_resize_surface_if_needed()
            == m.spec_resize_surface_if_needed(),
{
}

/// A mouse-button release changes nothing, whichever button it is for; a
/// left press selects the alternate background and a right press restores
/// the startup background, touching nothing else.
pub proof fn lemma_mouse_click_effect(m: SurfaceManager, button: PointerButton)
    requires
        m.wf(),
    ensures
        m.spec_mouse_click(PressState::Released, button) == m,
        m.spec_mouse_click(PressState::Pressed, PointerButton::Left)
            == (SurfaceManager { clear_color: spec_alternate_color(), ..m }),
        m.spec_mouse_click(PressState::Pressed, PointerButton::Right)
            == (SurfaceManager { clear_color: spec_initial_color(), ..m }),
        m.spec_mouse_click(PressState::Pressed, PointerButton::Other) == m,
{
}

} // verus!
