//! The viewer's state as a whole, what each event does to it, and what each
//! tick hands to the renderer.

use vstd::prelude::*;
use crate::camera::{
    dolly_distance, dolly_for, dragged, keyboard_travel, travel_for, with_aspect, Aspect, Camera,
    CameraView, Displacement,
};
use crate::input::{
    button_changed, drag_step, pointer_moved, pressed, released, scrolled, InputState, InputView,
    Point, PointerButton, ScrollDelta,
};
use crate::keys::{command_for_key, key_command, Key, KeyCommand};
use crate::surface::{
    resized, toggle_change, toggled, Extent, FullscreenChange, PresentMode, SurfaceConfig,
    SurfaceView,
};

verus! {

/// Vertices of the one draw call of a frame: two triangles that cover the
/// screen.
pub const QUAD_VERTICES: u32 = 6;

/// What the platform reports to the viewer.
#[derive(Clone, Copy, Debug, PartialEq, Eq, Structural)]
pub enum Event {
    KeyDown(Key),
    KeyUp(Key),
    Button(PointerButton, bool),
    PointerMoved(Point),
    Scroll(ScrollDelta),
    Resized(Extent),
    CloseRequested,
}

/// What the program has to do after an event: nothing, leave the loop,
/// reconfigure the surface to its new size, or toggle fullscreen.
#[derive(Clone, Copy, Debug, PartialEq, Eq, Structural)]
pub enum Reaction {
    Continue,
    Exit,
    Reconfigure,
    ToggleFullscreen,
}

/// What to do after an attempt to acquire the next image.
#[derive(Clone, Copy, Debug, PartialEq, Eq, Structural)]
pub enum AcquireStep {
    Draw,
    ReconfigureAndRetry,
    Abort,
}

/// What one tick hands to the renderer: how far the camera travels along
/// its axes and along its view direction, in micro-units, and the
/// orientation, aspect and resolution to draw with.
#[derive(Clone, Copy, Debug, PartialEq, Eq, Structural)]
pub struct Frame {
    pub travel: Displacement,
    pub dolly: i64,
    pub yaw: i64,
    pub pitch: i64,
    pub aspect: Aspect,
    pub resolution: Extent,
}

/// The step after an attempt to acquire an image, given how many attempts
/// of this tick failed before it: an image is drawn to; a first failure is
/// answered by reconfiguring and trying again; a second one ends the program.
pub open spec fn acquire_step(failed_before: int, acquired: bool) -> AcquireStep {
    if acquired {
        AcquireStep::Draw
    } else if failed_before == 0 {
        AcquireStep::ReconfigureAndRetry
    } else {
        AcquireStep::Abort
    }
}

/// Decides the step after an attempt to acquire an image.
pub fn after_acquire(failed_before: u32, acquired: bool) -> (step: AcquireStep)
    ensures
        step == acquire_step(failed_before as int, acquired),
{
    if acquired {
        AcquireStep::Draw
    } else if failed_before == 0 {
        AcquireStep::ReconfigureAndRetry
    } else {
        AcquireStep::Abort
    }
}

/// The mathematical content of a [`Viewer`].
pub ghost struct ViewerView<F> {
    pub camera: CameraView,
    pub input: InputView,
    pub surface: SurfaceView<F>,
}

impl<F> ViewerView<F> {
    /// The pitch is within its limit, the surface is well formed, and the
    /// camera's aspect is that of the surface.
    pub open spec fn wf(self) -> bool {
        &&& crate::camera::pitch_in_range(self.camera.pitch)
        &&& self.surface.wf()
        &&& self.camera.aspect == self.surface.aspect()
    }
}

/// The state after an event.
pub open spec fn handled<F>(v: ViewerView<F>, event: Event) -> ViewerView<F> {
    match event {
        Event::KeyDown(key) => ViewerView { input: pressed(v.input, key), ..v },
        Event::KeyUp(key) => ViewerView { input: released(v.input, key), ..v },
        Event::Button(button, down) => ViewerView { input: button_changed(v.input, button, down), ..v },
        Event::PointerMoved(to) => ViewerView {
            input: pointer_moved(v.input, to),
            camera: match drag_step(v.input, to) {
                Some(step) => dragged(v.camera, step.dx as int, step.dy as int),
                None => v.camera,
            },
            ..v
        },
        Event::Scroll(delta) => ViewerView { input: scrolled(v.input, delta), ..v },
        Event::Resized(size) => ViewerView {
            surface: resized(v.surface, size),
            camera: with_aspect(v.camera, size.width, size.height),
            ..v
        },
        Event::CloseRequested => v,
    }
}

/// What the program has to do after an event.
pub open spec fn reaction(event: Event) -> Reaction {
    match event {
        Event::KeyDown(key) => match key_command(key) {
            Some(KeyCommand::Exit) => Reaction::Exit,
            Some(KeyCommand::ToggleFullscreen) => Reaction::ToggleFullscreen,
            None => Reaction::Continue,
        },
        Event::Resized(size) => if size.usable() {
            Reaction::Reconfigure
        } else {
            Reaction::Continue
        },
        Event::CloseRequested => Reaction::Exit,
        _ => Reaction::Continue,
    }
}

/// The state after a fullscreen toggle: the surface flips, and the camera
/// takes the aspect of the size it then has.
pub open spec fn fullscreen_toggled<F>(v: ViewerView<F>, modes: Seq<Extent>, monitor: Option<Extent>) -> ViewerView<F> {
    let surface = toggled(v.surface, modes, monitor);
    ViewerView { surface, camera: with_aspect(v.camera, surface.size.width, surface.size.height), ..v }
}

/// What a tick hands to the renderer.
pub open spec fn frame_of<F>(v: ViewerView<F>) -> Frame {
    Frame {
        travel: keyboard_travel(v.input.held),
        dolly: dolly_distance(v.input.scroll) as i64,
        yaw: v.camera.yaw as i64,
        pitch: v.camera.pitch as i64,
        aspect: v.camera.aspect,
        resolution: v.surface.size,
    }
}

/// The state after a tick: the pending scroll is used up.
pub open spec fn ticked<F>(v: ViewerView<F>) -> ViewerView<F> {
    ViewerView { input: InputView { scroll: 0, ..v.input }, ..v }
}

/// Camera, input state and surface of one viewer.
pub struct Viewer<F> {
    camera: Camera,
    input: InputState,
    surface: SurfaceConfig<F>,
}

impl<F> View for Viewer<F> {
    type V = ViewerView<F>;

    closed spec fn view(&self) -> ViewerView<F> {
        ViewerView { camera: self.camera@, input: self.input@, surface: self.surface@ }
    }
}

impl<F> Viewer<F> {
    /// The parts are well formed, and so is the whole.
    pub closed spec fn wf(&self) -> bool {
        &&& self.camera.wf()
        &&& self.input.wf()
        &&& self@.wf()
    }

    /// What `wf` says of the view.
    pub proof fn lemma_wf_view(&self)
        requires
            self.wf(),
        ensures
            self@.wf(),
    {
    }

    /// A viewer with a windowed surface of the given size, a camera at yaw 0
    /// and pitch 0, and no input. `None` if a side of the size is zero.
    pub fn new(size: Extent, format: F, present_mode: PresentMode) -> (viewer: Option<Self>)
        ensures
            viewer.is_some() == size.usable(),
            viewer.is_some() ==> viewer.unwrap().wf() && viewer.unwrap()@ == (ViewerView {
                camera: CameraView {
                    yaw: 0,
                    pitch: 0,
                    aspect: Aspect { width: size.width, height: size.height },
                },
                input: InputView { held: Set::empty(), dragging: false, pointer: None, scroll: 0 },
                surface: SurfaceView { size, format, present_mode, fullscreen: false, windowed: size },
            }),
    {
        let surface = SurfaceConfig::new(size, format, present_mode);
        let camera = Camera::new(size.width, size.height);
        match (surface, camera) {
            (Some(surface), Some(camera)) => Some(Viewer { camera, input: InputState::new(), surface }),
            _ => None,
        }
    }

    /// The camera.
    pub fn camera(&self) -> (camera: &Camera)
        ensures
            camera@ == self@.camera,
    {
        &self.camera
    }

    /// The input state.
    pub fn input(&self) -> (input: &InputState)
        ensures
            input@ == self@.input,
    {
        &self.input
    }

    /// The surface configuration.
    pub fn surface(&self) -> (surface: &SurfaceConfig<F>)
        ensures
            surface@ == self@.surface,
    {
        &self.surface
    }

    /// Takes an event in and says what the program has to do about it.
    pub fn handle(&mut self, event: Event) -> (todo: Reaction)
        requires
            old(self).wf(),
        ensures
            final(self).wf(),
            final(self)@ == handled(old(self)@, event),
            todo == reaction(event),
    {
        match event {
            Event::KeyDown(key) => {
                self.input.press(key);
                match command_for_key(key) {
                    Some(KeyCommand::Exit) => Reaction::Exit,
                    Some(KeyCommand::ToggleFullscreen) => Reaction::ToggleFullscreen,
                    None => Reaction::Continue,
                }
            },
            Event::KeyUp(key) => {
                self.input.release(key);
                Reaction::Continue
            },
            Event::Button(button, down) => {
                self.input.button(button, down);
                Reaction::Continue
            },
            Event::PointerMoved(to) => {
                match self.input.pointer_moved(to) {
                    Some(step) => {
                        self.camera.apply_drag(step.dx, step.dy);
                    },
                    None => {},
                }
                Reaction::Continue
            },
            Event::Scroll(delta) => {
                self.input.scroll(delta);
                Reaction::Continue
            },
            Event::Resized(size) => {
                let taken = self.surface.resize(size);
                self.camera.set_aspect(size.width, size.height);
                if taken {
                    Reaction::Reconfigure
                } else {
                    Reaction::Continue
                }
            },
            Event::CloseRequested => Reaction::Exit,
        }
    }

    /// Flips between windowed and fullscreen, given the video modes and the
    /// size of the current monitor as far as they are known, and says what
    /// to ask of the window.
    pub fn toggle_fullscreen(&mut self, modes: &Vec<Extent>, monitor: Option<Extent>) -> (change: FullscreenChange)
        requires
            old(self).wf(),
        ensures
            final(self).wf(),
            final(self)@ == fullscreen_toggled(old(self)@, modes@, monitor),
            change == toggle_change(old(self)@.surface.fullscreen, modes@),
    {
        let change = self.surface.toggle_fullscreen(modes, monitor);
        let size = self.surface.size();
        self.camera.set_aspect(size.width, size.height);
        change
    }

    /// Runs the input part of one tick: works out the travel for the held
    /// keys, uses up the pending scroll, and reports what to draw with.
    pub fn tick(&mut self) -> (frame: Frame)
        requires
            old(self).wf(),
        ensures
            final(self).wf(),
            final(self)@ == ticked(old(self)@),
            frame == frame_of(old(self)@),
    {
        let travel = travel_for(&self.input);
        let scroll = self.input.take_scroll();
        Frame {
            travel,
            dolly: dolly_for(scroll),
            yaw: self.camera.yaw(),
            pitch: self.camera.pitch(),
            aspect: self.camera.aspect(),
            resolution: self.surface.size(),
        }
    }
}

/// The state after a run of events, first to last.
pub open spec fn handled_all<F>(v: ViewerView<F>, events: Seq<Event>) -> ViewerView<F>
    decreases events.len(),
{
    if events.len() == 0 {
        v
    } else {
        handled(handled_all(v, events.drop_last()), events.last())
    }
}

/// Every event, every fullscreen toggle and every tick leaves the pitch
/// within its limit and the camera's aspect equal to the ratio of the
/// surface's width to its height.
pub proof fn lemma_steps_keep_invariant<F>(v: ViewerView<F>, event: Event, modes: Seq<Extent>, monitor: Option<Extent>)
    requires
        v.wf(),
    ensures
        handled(v, event).wf(),
        fullscreen_toggled(v, modes, monitor).wf(),
        ticked(v).wf(),
{
    crate::surface::lemma_aspect_follows_size(v.surface, v.surface.size, modes, monitor);
}

/// After any run of events the pitch is within its limit and the camera's
/// aspect is the ratio of the surface's width to its height.
pub proof fn lemma_events_keep_invariant<F>(v: ViewerView<F>, events: Seq<Event>)
    requires
        v.wf(),
    ensures
        handled_all(v, events).wf(),
    decreases events.len(),
{
    if events.len() > 0 {
        lemma_events_keep_invariant(v, events.drop_last());
        lemma_steps_keep_invariant(handled_all(v, events.drop_last()), events.last(), Seq::empty(), None);
    }
}

/// Going fullscreen and back returns a windowed viewer's surface and
/// camera to exactly what they were.
pub proof fn lemma_fullscreen_round_trip<F>(
    v: ViewerView<F>,
    modes: Seq<Extent>,
    monitor: Option<Extent>,
    modes_back: Seq<Extent>,
    monitor_back: Option<Extent>,
)
    requires
        v.wf(),
        !v.surface.fullscreen,
    ensures
        fullscreen_toggled(fullscreen_toggled(v, modes, monitor), modes_back, monitor_back) == v,
{
    crate::surface::lemma_aspect_follows_size(v.surface, v.surface.size, modes, monitor);
}

/// An image that could not be acquired is asked for once more and no more:
/// the step after a failure that follows a failure is to give up.
pub proof fn lemma_one_retry(failed_before: int, acquired: bool)
    requires
        failed_before >= 0,
    ensures
        acquired ==> acquire_step(failed_before, acquired) == AcquireStep::Draw,
        !acquired ==> (acquire_step(failed_before, acquired) == AcquireStep::ReconfigureAndRetry
            <==> failed_before == 0),
        !acquired && failed_before > 0 ==> acquire_step(failed_before, acquired) == AcquireStep::Abort,
{
}

} // verus!
