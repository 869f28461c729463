//! The graphics context's own state: the window it is bound to, the last
//! known size, and the surface configuration that follows that size.

use vstd::prelude::*;
use crate::event::Signal;
use crate::format::{gamma_flags, is_preferred, preferred, select_format};
use crate::surface::{Size, SurfaceCapabilities, SurfaceConfig, MAX_FRAME_LATENCY};

verus! {

/// The mathematical content of a [`State`].
pub struct StateView {
    /// Identity of the window that the surface presents to.
    pub window: u64,
    /// The last size taken over from the platform.
    pub size: Size,
    /// The configuration currently held for the surface.
    pub config: SurfaceConfig,
}

impl StateView {
    /// The configuration targets exactly the last known size, with the
    /// fixed frame latency.
    pub open spec fn wf(self) -> bool {
        &&& self.config.extent() == self.size
        &&& self.config.frame_latency == MAX_FRAME_LATENCY
    }

    /// The state after a resize request: a size with area is taken over
    /// into both the size and the configuration; any other is ignored.
    pub open spec fn resized(self, new_size: Size) -> StateView {
        if new_size.has_area() {
            StateView { size: new_size, config: self.config.with_extent(new_size), ..self }
        } else {
            self
        }
    }
}

/// A resize request keeps the configuration on the last known size, and a
/// size with area is never replaced by one without.
pub proof fn lemma_resized_keeps_valid_size(state: StateView, new_size: Size)
    requires
        state.wf(),
    ensures
        state.resized(new_size).wf(),
        state.resized(new_size).window == state.window,
        state.size.has_area() ==> state.resized(new_size).size.has_area(),
        new_size.has_area() ==> state.resized(new_size).config.extent() == new_size,
        !new_size.has_area() ==> state.resized(new_size) == state,
{
}

/// Resizing to the size already held changes nothing.
pub proof fn lemma_resized_to_own_size(state: StateView)
    requires
        state.wf(),
    ensures
        state.resized(state.size) == state,
{
}

/// The state that negotiation derives for `window` at `size` from what the
/// platform reports: the preferred format, the first present mode and the
/// first alpha mode.
pub open spec fn negotiated(window: u64, size: Size, caps: SurfaceCapabilities) -> StateView {
    StateView {
        window,
        size,
        config: SurfaceConfig {
            format: caps.formats@[preferred(gamma_flags(caps.formats@))],
            width: size.width,
            height: size.height,
            present_mode: caps.present_modes@[0],
            alpha_mode: caps.alpha_modes@[0],
            frame_latency: MAX_FRAME_LATENCY,
        },
    }
}

/// The graphics context. Its configuration always targets its last known
/// size.
pub struct State {
    config: SurfaceConfig,
    size: Size,
    window: u64,
}

impl View for State {
    type V = StateView;

    closed spec fn view(&self) -> StateView {
        StateView { window: self.window, size: self.size, config: self.config }
    }
}

impl State {
    /// Holds of every context: its view is well formed.
    #[verifier::type_invariant]
    pub open spec fn inv(self) -> bool {
        self@.wf()
    }

    /// Negotiates the context for `window`, whose current physical size is
    /// `size`, from the capabilities of its surface.
    pub fn new(window: u64, size: Size, caps: &SurfaceCapabilities) -> (state: State)
        requires
            caps.is_usable(),
        ensures
            state@ == negotiated(window, size, *caps),
            state@.wf(),
            is_preferred(gamma_flags(caps.formats@), preferred(gamma_flags(caps.formats@))),
    {
        let format = select_format(&caps.formats);
        let config = SurfaceConfig {
            format,
            width: size.width,
            height: size.height,
            present_mode: caps.present_modes[0],
            alpha_mode: caps.alpha_modes[0],
            frame_latency: MAX_FRAME_LATENCY,
        };
        State { config, size, window }
    }

    /// The window that this context presents to.
    pub fn window(&self) -> (window: u64)
        ensures
            window == self@.window,
    {
        self.window
    }

    /// The last known size.
    pub fn size(&self) -> (size: Size)
        ensures
            size == self@.size,
            self@.wf(),
    {
        proof {
            use_type_invariant(self);
        }
        self.size
    }

    /// The configuration currently held for the surface.
    pub fn config(&self) -> (config: SurfaceConfig)
        ensures
            config == self@.config,
            self@.wf(),
    {
        proof {
            use_type_invariant(self);
        }
        self.config
    }

    /// The configuration to apply to the surface as things stand: the one
    /// held, provided that its target size has area. A surface is never
    /// configured to a zero-area target.
    pub fn presentable_config(&self) -> (config: Option<SurfaceConfig>)
        ensures
            config == (if self@.size.has_area() {
                Some(self@.config)
            } else {
                None
            }),
            config matches Some(c) ==> c.extent() == self@.size,
    {
        proof {
            use_type_invariant(self);
        }
        if self.size.is_presentable() {
            Some(self.config)
        } else {
            None
        }
    }

    /// Takes over a new physical size. A size with area replaces the stored
    /// size and the configuration's target, and the new configuration is
    /// returned for the caller to apply to the surface. A size without area
    /// is ignored: nothing changes and nothing is returned.
    pub fn resize(&mut self, new_size: Size) -> (apply: Option<SurfaceConfig>)
        ensures
            final(self)@ == old(self)@.resized(new_size),
            final(self)@.wf(),
            new_size.has_area() ==> final(self)@.config.width == new_size.width
                && final(self)@.config.height == new_size.height
                && final(self)@.size == new_size,
            !new_size.has_area() ==> final(self)@ == old(self)@,
            apply == (if new_size.has_area() {
                Some(final(self)@.config)
            } else {
                None
            }),
    {
        proof {
            use_type_invariant(&*self);
        }
        if new_size.is_presentable() {
            let config = SurfaceConfig {
                width: new_size.width,
                height: new_size.height,
                format: self.config.format,
                present_mode: self.config.present_mode,
                alpha_mode: self.config.alpha_mode,
                frame_latency: self.config.frame_latency,
            };
            *self = State { config, size: new_size, window: self.window };
            Some(config)
        } else {
            None
        }
    }

    /// Offers a window event to the context before the loop handles it.
    /// The context claims none: the answer is always "unhandled".
    pub fn input(&mut self, signal: &Signal) -> (handled: bool)
        ensures
            !handled,
            final(self)@ == old(self)@,
    {
        false
    }

    /// Advances the context by one frame before rendering. There is
    /// nothing to advance yet.
    pub fn update(&mut self)
        ensures
            final(self)@ == old(self)@,
    {
    }
}

} // verus!
