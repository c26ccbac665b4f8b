use vstd::prelude::*;

use crate::frame::{ComputeDispatch, cascade_of, frame_dispatches, frame_dispatches_of, lemma_frame_schedule};
use crate::options::AppOptions;

verus! {

/// How the presentation surface is configured: its size in pixels and how many
/// frames may be queued ahead of the display.
#[derive(Clone, Copy, Debug)]
pub struct SurfaceSpec {
    pub width: u32,
    pub height: u32,
    pub desired_maximum_frame_latency: u32,
}

/// The surface configuration for a window of `size` pixels: the window's size, and at
/// most one frame queued.
pub open spec fn surface_spec_of(size: (u32, u32)) -> SurfaceSpec {
    SurfaceSpec { width: size.0, height: size.1, desired_maximum_frame_latency: 1 }
}

/// What the window keeps between events: the options it renders with, its inner size
/// and the last cursor position, in whole pixels.
#[derive(Clone, Copy, Debug)]
pub struct WindowModel {
    pub options: AppOptions,
    pub size: (u32, u32),
    pub cursor: (u32, u32),
}

/// The window events that the renderer reacts to; every other event is `Other`.
#[derive(Clone, Copy, Debug)]
pub enum WindowInput {
    CloseRequested,
    RedrawRequested,
    CursorMoved { x: u32, y: u32 },
    Resized { width: u32, height: u32 },
    Other,
}

/// What the program does in answer to an event.
#[derive(Debug)]
pub enum WindowAction {
    /// Leave the event loop.
    Exit,
    /// Run these compute passes, present the result and ask for the next redraw.
    Render(Vec<ComputeDispatch>),
    /// Configure the surface anew.
    Reconfigure(SurfaceSpec),
    /// Nothing to do.
    Nothing,
}

/// The model after `event`, for a window whose model is `m`.
pub open spec fn next_model(m: WindowModel, event: WindowInput) -> WindowModel {
    match event {
        WindowInput::CursorMoved { x, y } => WindowModel { cursor: (x, y), ..m },
        WindowInput::Resized { width, height } => WindowModel { size: (width, height), ..m },
        _ => m,
    }
}

/// The compute passes that a redraw of a window with model `m` runs.
pub open spec fn frame_of(m: WindowModel) -> Seq<ComputeDispatch> {
    frame_dispatches_of(m.options, m.cursor)
}


/// The surface is configured at exactly the window's size, whatever that size is,
/// with one frame queued at most: nothing is clamped or rounded.
pub proof fn lemma_surface_matches_window(size: (u32, u32))
    ensures
        surface_spec_of(size).width == size.0,
        surface_spec_of(size).height == size.1,
        surface_spec_of(size).desired_maximum_frame_latency == 1,
{
}

/// After a resize to `width` x `height`, the model records that size, and the
/// surface it asks for is configured at that same size.
pub proof fn lemma_resize_configures_new_size(m: WindowModel, width: u32, height: u32)
    ensures
        next_model(m, WindowInput::Resized { width, height }).size == (width, height),
        surface_spec_of(next_model(m, WindowInput::Resized { width, height }).size).width == width,
        surface_spec_of(next_model(m, WindowInput::Resized { width, height }).size).height == height,
        next_model(m, WindowInput::Resized { width, height }).cursor == m.cursor,
{
}

/// A cursor move records exactly the new position and keeps the size; a redraw, a
/// close request and any other event leave the model as it was.
pub proof fn lemma_event_effects(m: WindowModel, event: WindowInput)
    ensures
        event matches WindowInput::CursorMoved { x, y } ==> next_model(m, event).cursor == (x, y)
            && next_model(m, event).size == m.size,
        event matches WindowInput::Resized { width, height } ==> next_model(m, event).size == (
        width,
        height,
        ) && next_model(m, event).cursor == m.cursor,
        (event is RedrawRequested || event is CloseRequested || event is Other) ==> next_model(m, event)
            == m,
{
}

/// No event changes the options a window renders with.
pub proof fn lemma_events_keep_options(m: WindowModel, event: WindowInput)
    ensures
        next_model(m, event).options == m.options,
{
}

/// Resizing the window does not change the frames it renders: the passes are planned
/// from the configured dimensions, not from the window's size.
pub proof fn lemma_resize_keeps_frame(m: WindowModel, width: u32, height: u32)
    ensures
        frame_of(next_model(m, WindowInput::Resized { width, height })) == frame_of(m),
{
}

/// After the cursor moves to `(x, y)`, every cascade pass of the next frame hands its
/// shader that position, and nothing else about the frame changes.
pub proof fn lemma_cursor_reaches_frame(m: WindowModel, x: u32, y: u32)
    requires
        m.options.num_cascades >= 1,
    ensures
        ({
            let p = frame_of(next_model(m, WindowInput::CursorMoved { x, y }));
            let q = frame_of(m);
            &&& p.len() == q.len()
            &&& forall|i: int|
                0 <= i < p.len() && (#[trigger] p[i]).immediates is Some ==> p[i].immediates.unwrap().cursor_x
                    == x && p[i].immediates.unwrap().cursor_y == y
            &&& forall|i: int|
                0 <= i < p.len() ==> (#[trigger] p[i]).stage == q[i].stage && p[i].workgroups
                    == q[i].workgroups && cascade_of(p[i]) == cascade_of(q[i])
        }),
{
    let m2 = next_model(m, WindowInput::CursorMoved { x, y });
    lemma_frame_schedule(m.options, m.cursor);
    lemma_frame_schedule(m2.options, m2.cursor);
}

impl WindowModel {
    /// The model of a window that has just been created with `options` and whose inner
    /// size is `size`: the cursor starts at the origin.
    pub fn new(options: AppOptions, size: (u32, u32)) -> (m: WindowModel)
        ensures
            m == (WindowModel { options, size, cursor: (0, 0) }),
    {
        WindowModel { options, size, cursor: (0, 0) }
    }

    /// The surface configuration that matches the window's current size.
    pub fn surface_spec(&self) -> (spec: SurfaceSpec)
        ensures
            spec == surface_spec_of(self.size),
    {
        SurfaceSpec { width: self.size.0, height: self.size.1, desired_maximum_frame_latency: 1 }
    }

    /// Records the window's new size and gives the surface configuration to apply.
    pub fn resize(&mut self, new_size: (u32, u32)) -> (spec: SurfaceSpec)
        ensures
            *final(self) == (WindowModel { size: new_size, ..*old(self) }),
            spec == surface_spec_of(new_size),
    {
        self.size = new_size;
        self.surface_spec()
    }
}

/// Reacts to a window event. `state` is the window's model, `None` until the window has
/// been created. A close request exits; any other event but `Other` needs a created
/// window; a redraw renders the frame planned from the options and the last cursor
/// position, a cursor move records the position, and a resize records the size and
/// reconfigures the surface.
pub fn window_event(state: &mut Option<WindowModel>, event: WindowInput) -> (action: WindowAction)
    requires
        !(event is CloseRequested || event is Other) ==> old(state).is_some(),
        event is RedrawRequested ==> old(state).unwrap().options.num_cascades >= 1,
    ensures
        match event {
            WindowInput::CloseRequested => action is Exit && *final(state) == *old(state),
            WindowInput::Other => action is Nothing && *final(state) == *old(state),
            WindowInput::RedrawRequested => *final(state) == *old(state) && (action matches WindowAction::Render(
                passes,
            ) && passes@ == frame_of(old(state).unwrap())),
            WindowInput::CursorMoved { .. } => action is Nothing && *final(state) == Some(
                next_model(old(state).unwrap(), event),
            ),
            WindowInput::Resized { width, height } => *final(state) == Some(
                next_model(old(state).unwrap(), event),
            ) && (action matches WindowAction::Reconfigure(spec) && spec == surface_spec_of(
                (width, height),
            )),
        },
{
    match event {
        WindowInput::CloseRequested => WindowAction::Exit,
        WindowInput::RedrawRequested => {
            let m = state.unwrap();
            WindowAction::Render(frame_dispatches(&m.options, m.cursor))
        },
        WindowInput::CursorMoved { x, y } => {
            let mut m = state.unwrap();
            m.cursor = (x, y);
            *state = Some(m);
            WindowAction::Nothing
        },
        WindowInput::Resized { width, height } => {
            let mut m = state.unwrap();
            let spec = m.resize((width, height));
            *state = Some(m);
            WindowAction::Reconfigure(spec)
        },
        WindowInput::Other => WindowAction::Nothing,
    }
}

} // verus!
