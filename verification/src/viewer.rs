//! The viewer's state machine: which window and user events lead to a surface
//! reconfiguration, a new input binding, a draw, or nothing.
//!
//! The GPU resources are type parameters: `G` is whatever the caller keeps for
//! the surface and pipeline, `B` the bind group of the labelled buffer. The
//! caller performs the GPU work that an action names.

use vstd::prelude::*;

verus! {

/// A labelled buffer with the grid dimensions it was computed for.
#[derive(Clone, Debug)]
pub struct BufferBundle<B> {
    pub buffer: B,
    pub width: u32,
    pub height: u32,
}

/// What the worker side sends to the viewer: a channel on which the viewer
/// hands out its device, or a freshly labelled buffer.
#[derive(Clone, Debug)]
pub enum UserEvent<D, U> {
    CreateDevice(D),
    UpdateBuffer(U),
}

/// What the viewer does with a user event.
#[derive(Clone, Debug)]
pub enum UserStep<D, U> {
    /// Build the GPU state, handing the device out on the channel.
    CreateState(D),
    /// Bind the new buffer for drawing.
    ChangeBuffer(U),
    /// Nothing: the buffer came before any GPU state existed.
    Discard,
}

/// The window events that the viewer tells apart.
#[derive(Clone, Copy, Debug, PartialEq, Eq, Structural)]
pub enum WindowInput {
    CloseRequested,
    Resized(u32, u32),
    RedrawRequested,
    Other,
}

/// What the viewer does with a window event.
#[derive(Clone, Copy, Debug, PartialEq, Eq, Structural)]
pub enum WindowAction {
    Ignore,
    Exit,
    /// Configure the surface and the screen uniform for this size.
    Reconfigure(u32, u32),
    /// Ask for the next frame and render this one.
    Redraw,
}

/// How acquiring the next surface texture failed.
#[derive(Clone, Copy, Debug, PartialEq, Eq, Structural)]
pub enum SurfaceFault {
    Lost,
    Outdated,
    Other,
}

/// What the viewer does after a failed frame.
#[derive(Clone, Copy, Debug, PartialEq, Eq, Structural)]
pub enum FaultAction {
    Ignore,
    Reconfigure(u32, u32),
    Report,
}

/// The viewer's GPU state with the two facts that decide whether a frame is
/// drawn: the surface has been configured for a non-empty size, and an input
/// buffer is bound.
pub struct State<G, B> {
    pub gpu: G,
    is_surface_configured: bool,
    input_bind_group: Option<B>,
}

impl<G, B> State<G, B> {
    /// The GPU resources that the state carries.
    pub closed spec fn resources(&self) -> G {
        self.gpu
    }

    /// The surface has been configured for a non-empty size.
    pub closed spec fn configured(&self) -> bool {
        self.is_surface_configured
    }

    /// The bind group of the current input buffer, if one arrived.
    pub closed spec fn bound(&self) -> Option<B> {
        self.input_bind_group
    }

    /// A state of these resources: `gpu`, with the surface configured or not
    /// and the given input binding.
    pub closed spec fn of(gpu: G, configured: bool, bound: Option<B>) -> State<G, B> {
        State { gpu, is_surface_configured: configured, input_bind_group: bound }
    }

    /// The state after a resize to `width` by `height`: a non-empty size
    /// configures the surface, an empty one changes nothing.
    pub open spec fn resized(&self, width: u32, height: u32) -> State<G, B> {
        if width > 0 && height > 0 {
            State::of(self.resources(), true, self.bound())
        } else {
            *self
        }
    }

    /// The state after a new input buffer was bound.
    pub open spec fn with_bind_group(&self, bind: B) -> State<G, B> {
        State::of(self.resources(), self.configured(), Some(bind))
    }

    /// The bind group that a frame draws with, or none when the frame draws
    /// nothing: the bound group once the surface is configured.
    pub open spec fn drawable(&self) -> Option<B> {
        if self.configured() {
            self.bound()
        } else {
            None
        }
    }

    /// What a state built by `of` holds.
    pub broadcast proof fn lemma_of(gpu: G, configured: bool, bound: Option<B>)
        ensures
            (#[trigger] State::of(gpu, configured, bound)).resources() == gpu,
            State::of(gpu, configured, bound).configured() == configured,
            State::of(gpu, configured, bound).bound() == bound,
    {
    }

    /// A state is determined by its resources, its configured flag and its
    /// binding.
    pub broadcast proof fn lemma_of_parts(s: State<G, B>)
        ensures
            #[trigger] State::of(s.resources(), s.configured(), s.bound()) == s,
    {
    }

    /// The effect of each step on the three parts of a state.
    pub proof fn lemma_state_steps(s: State<G, B>, bind: B, width: u32, height: u32)
        ensures
            s.drawable() == (if s.configured() {
                s.bound()
            } else {
                None
            }),
            s.resized(width, height).configured() == (s.configured() || (width > 0 && height
                > 0)),
            s.resized(width, height).bound() == s.bound(),
            s.resized(width, height).resources() == s.resources(),
            s.with_bind_group(bind).bound() == Some(bind),
            s.with_bind_group(bind).configured() == s.configured(),
            s.with_bind_group(bind).resources() == s.resources(),
    {
    }

    /// A new state around freshly created resources: the surface not yet
    /// configured and no input bound.
    pub fn new(gpu: G) -> (s: State<G, B>)
        ensures
            s == State::<G, B>::of(gpu, false, None),
            s.resources() == gpu,
            !s.configured(),
            s.bound() is None,
    {
        State { gpu, is_surface_configured: false, input_bind_group: None }
    }

    /// Resize to `width` by `height`. Returns whether the surface must be
    /// configured for that size, which is so exactly when both are non-zero.
    pub fn resize(&mut self, width: u32, height: u32) -> (reconfigure: bool)
        ensures
            reconfigure == (width > 0 && height > 0),
            *final(self) == old(self).resized(width, height),
            final(self).configured() == (old(self).configured() || reconfigure),
            final(self).bound() == old(self).bound(),
            final(self).resources() == old(self).resources(),
    {
        if width > 0 && height > 0 {
            self.is_surface_configured = true;
            true
        } else {
            false
        }
    }

    /// Bind a new input buffer for drawing, in place of any earlier one.
    pub fn change_buffer(&mut self, bind: B)
        ensures
            *final(self) == old(self).with_bind_group(bind),
            final(self).bound() == Some(bind),
            final(self).configured() == old(self).configured(),
            final(self).resources() == old(self).resources(),
    {
        self.input_bind_group = Some(bind);
    }

    /// The bind group to draw this frame with: none before the surface is
    /// configured or before any buffer arrived.
    pub fn render(&self) -> (r: Option<&B>)
        ensures
            r matches Some(b) ==> self.drawable() == Some(*b),
            r is None ==> self.drawable() is None,
            r matches Some(b) ==> self.configured() && self.bound() == Some(*b),
            r is None <==> (!self.configured() || self.bound() is None),
    {
        if !self.is_surface_configured {
            return None;
        }
        match &self.input_bind_group {
            Some(b) => Some(b),
            None => None,
        }
    }

    /// After a failed frame: a lost or outdated surface is resized to the
    /// window's current size (`width` by `height`), any other fault is reported.
    pub fn recover(&mut self, fault: SurfaceFault, width: u32, height: u32) -> (action:
        FaultAction)
        ensures
            fault == SurfaceFault::Other ==> action == FaultAction::Report && *final(self)
                == *old(self),
            fault != SurfaceFault::Other ==> {
                &&& *final(self) == old(self).resized(width, height)
                &&& action == if width > 0 && height > 0 {
                    FaultAction::Reconfigure(width, height)
                } else {
                    FaultAction::Ignore
                }
            },
    {
        match fault {
            SurfaceFault::Other => FaultAction::Report,
            _ => {
                if self.resize(width, height) {
                    FaultAction::Reconfigure(width, height)
                } else {
                    FaultAction::Ignore
                }
            },
        }
    }
}

/// The facts about `State::of` that callers reason with.
pub broadcast group group_state_parts {
    State::lemma_of,
    State::lemma_of_parts,
}

/// The viewer application: no GPU state until the device is created.
pub struct App<G, B> {
    pub state: Option<State<G, B>>,
}

impl<G, B> App<G, B> {
    /// An application without GPU state.
    pub fn new() -> (app: App<G, B>)
        ensures
            app.state is None,
    {
        App { state: None }
    }

    /// The step for a user event: a device channel always leads to building
    /// the state; a buffer is bound only when a state exists, and dropped
    /// otherwise.
    pub fn user_event<D, U>(&self, event: UserEvent<D, U>) -> (step: UserStep<D, U>)
        ensures
            match event {
                UserEvent::CreateDevice(d) => step == UserStep::<D, U>::CreateState(d),
                UserEvent::UpdateBuffer(u) => if self.state is Some {
                    step == UserStep::<D, U>::ChangeBuffer(u)
                } else {
                    step == UserStep::<D, U>::Discard
                },
            },
    {
        match event {
            UserEvent::CreateDevice(d) => UserStep::CreateState(d),
            UserEvent::UpdateBuffer(u) => {
                if self.state.is_some() {
                    UserStep::ChangeBuffer(u)
                } else {
                    UserStep::Discard
                }
            },
        }
    }

    /// The step for a window event. Without GPU state every event is ignored.
    /// Otherwise a close request exits, a resize resizes the state (and asks for
    /// a reconfiguration when the size is non-empty), a redraw request redraws,
    /// and anything else is ignored.
    pub fn window_event(&mut self, event: WindowInput) -> (action: WindowAction)
        ensures
            old(self).state is None ==> action == WindowAction::Ignore && final(self).state
                is None,
            old(self).state matches Some(s) ==> match event {
                WindowInput::Resized(w, h) => {
                    &&& final(self).state == Some(s.resized(w, h))
                    &&& action == if w > 0 && h > 0 {
                        WindowAction::Reconfigure(w, h)
                    } else {
                        WindowAction::Ignore
                    }
                },
                WindowInput::CloseRequested => action == WindowAction::Exit && final(self).state
                    == Some(s),
                WindowInput::RedrawRequested => action == WindowAction::Redraw
                    && final(self).state == Some(s),
                WindowInput::Other => action == WindowAction::Ignore && final(self).state
                    == Some(s),
            },
    {
        match &mut self.state {
            None => WindowAction::Ignore,
            Some(state) => match event {
                WindowInput::CloseRequested => WindowAction::Exit,
                WindowInput::Resized(w, h) => {
                    if state.resize(w, h) {
                        WindowAction::Reconfigure(w, h)
                    } else {
                        WindowAction::Ignore
                    }
                },
                WindowInput::RedrawRequested => WindowAction::Redraw,
                WindowInput::Other => WindowAction::Ignore,
            },
        }
    }
}

/// A step that can change what a frame draws: a resize or a new binding.
/// (`render` reads the state and changes nothing.)
pub enum StateStep<B> {
    Resize(u32, u32),
    Bind(B),
}

/// The state after the steps, taken in order.
pub open spec fn after_steps<G, B>(s: State<G, B>, steps: Seq<StateStep<B>>) -> State<G, B>
    decreases steps.len(),
{
    if steps.len() == 0 {
        s
    } else {
        let prev = after_steps(s, steps.drop_last());
        match steps.last() {
            StateStep::Resize(w, h) => prev.resized(w, h),
            StateStep::Bind(b) => prev.with_bind_group(b),
        }
    }
}

/// A resize to a non-empty size.
pub open spec fn is_positive_resize<B>(step: StateStep<B>) -> bool {
    match step {
        StateStep::Resize(w, h) => w > 0 && h > 0,
        StateStep::Bind(_) => false,
    }
}

/// The steps hold a resize to a non-empty size.
pub open spec fn has_positive_resize<B>(steps: Seq<StateStep<B>>) -> bool {
    exists|i: int| 0 <= i < steps.len() && is_positive_resize(#[trigger] steps[i])
}

/// The steps hold a binding.
pub open spec fn has_binding<B>(steps: Seq<StateStep<B>>) -> bool {
    exists|i: int| 0 <= i < steps.len() && (#[trigger] steps[i]) is Bind
}

/// Through any sequence of steps the resources stay, the surface is configured
/// exactly when it was or some step resized to a non-empty size, and a group is
/// bound exactly when one was or some step bound one. So both facts, once true,
/// stay true.
pub proof fn law_steps<G, B>(s: State<G, B>, steps: Seq<StateStep<B>>)
    ensures
        after_steps(s, steps).resources() == s.resources(),
        after_steps(s, steps).configured() == (s.configured() || has_positive_resize(steps)),
        (after_steps(s, steps).bound() is Some) == (s.bound() is Some || has_binding(steps)),
    decreases steps.len(),
{
    if steps.len() > 0 {
        let prev = steps.drop_last();
        law_steps(s, prev);
        let n = steps.len() - 1;
        assert(steps[n] == steps.last());
        assert forall|i: int| 0 <= i < prev.len() implies #[trigger] prev[i] == steps[i] by {}
        if has_positive_resize(steps) && !is_positive_resize(steps.last()) {
            let i = choose|i: int| 0 <= i < steps.len() && is_positive_resize(#[trigger] steps[i]);
            assert(prev[i] == steps[i]);
        }
        if has_positive_resize(prev) {
            let i = choose|i: int| 0 <= i < prev.len() && is_positive_resize(#[trigger] prev[i]);
            assert(prev[i] == steps[i]);
        }
        if has_binding(steps) && !(steps.last() is Bind) {
            let i = choose|i: int| 0 <= i < steps.len() && (#[trigger] steps[i]) is Bind;
            assert(prev[i] == steps[i]);
        }
        if has_binding(prev) {
            let i = choose|i: int| 0 <= i < prev.len() && (#[trigger] prev[i]) is Bind;
            assert(prev[i] == steps[i]);
        }
    }
}

/// From a new state, a frame draws after a sequence of steps exactly when the
/// sequence holds both a resize to a non-empty size and a binding.
pub proof fn law_new_state_draws_after_size_and_binding<G, B>(gpu: G, steps: Seq<StateStep<B>>)
    ensures
        (after_steps(State::<G, B>::of(gpu, false, None), steps).drawable() is Some) == (
        has_positive_resize(steps) && has_binding(steps)),
{
    law_steps(State::<G, B>::of(gpu, false, None), steps);
}

/// Resizing and binding a new buffer can come in either order: the state that
/// results is the same.
pub proof fn law_resize_commutes_with_buffer<G, B>(s: State<G, B>, bind: B, width: u32, height: u32)
    ensures
        s.resized(width, height).with_bind_group(bind) == s.with_bind_group(bind).resized(
            width,
            height,
        ),
{
}

/// Once a buffer is bound and the surface has had a non-empty size, a frame
/// draws with that buffer, whichever came first.
pub proof fn law_draws_after_buffer_and_size<G, B>(s: State<G, B>, bind: B, width: u32, height: u32)
    requires
        width > 0,
        height > 0,
    ensures
        s.with_bind_group(bind).resized(width, height).drawable() == Some(bind),
        s.resized(width, height).with_bind_group(bind).drawable() == Some(bind),
{
}

/// A new state draws nothing until both a non-empty size and a buffer have
/// arrived: neither alone is enough.
pub proof fn law_new_state_needs_size_and_buffer<G, B>(gpu: G, bind: B, width: u32, height: u32)
    ensures
        State::<G, B>::of(gpu, false, None).drawable() is None,
        State::<G, B>::of(gpu, false, None).resized(width, height).drawable() is None,
        State::<G, B>::of(gpu, false, None).with_bind_group(bind).drawable() is None,
{
}

/// A resize with an empty side changes nothing.
pub proof fn law_empty_resize_is_noop<G, B>(s: State<G, B>, width: u32, height: u32)
    requires
        width == 0 || height == 0,
    ensures
        s.resized(width, height) == s,
{
}

/// Resizing twice to the same size is resizing once.
pub proof fn law_resize_idempotent<G, B>(s: State<G, B>, width: u32, height: u32)
    ensures
        s.resized(width, height).resized(width, height) == s.resized(width, height),
{
}

/// A configured surface stays configured through any later resize.
pub proof fn law_configuration_persists<G, B>(s: State<G, B>, width: u32, height: u32)
    requires
        s.configured(),
    ensures
        s.resized(width, height).configured(),
{
}

/// Of two buffers bound one after the other, the later one is drawn.
pub proof fn law_latest_buffer_wins<G, B>(s: State<G, B>, first: B, second: B)
    ensures
        s.with_bind_group(first).with_bind_group(second) == s.with_bind_group(second),
{
}

/// Neither resizing nor binding a buffer touches the GPU resources.
pub proof fn law_resources_kept<G, B>(s: State<G, B>, bind: B, width: u32, height: u32)
    ensures
        s.resized(width, height).resources() == s.resources(),
        s.with_bind_group(bind).resources() == s.resources(),
{
}

} // verus!
