//! The event-dispatch state machine: one flat application state, a pure
//! transition per input event, and the command (if any) that the windowing
//! backend must carry out after the event is fully handled.
//!
//! A window re-creation request is returned as a command rather than
//! performed mid-dispatch, so the backend replaces the window only after the
//! whole event has been handled, then reapplies position, vsync and a forced
//! redraw to the new window.

use vstd::prelude::*;
use crate::camera::CameraView;
use crate::camera::spec_apply_pan;
use crate::camera::spec_apply_zoom;
use crate::camera::apply_pan;
use crate::camera::apply_zoom;
use crate::placement::ImagePlacement;
use crate::placement::ImageSize;
use crate::placement::spec_center_and_maximize;
use crate::placement::center_and_maximize;
use crate::placement::reset_zoom;
use crate::viewport::LogicalCanvas;
use crate::viewport::Viewport;
use crate::viewport::spec_fit_viewport;
use crate::viewport::fit_viewport;

verus! {

/// The two window styles. Initial state is `Windowed`; an explicit toggle
/// command flips it.
#[derive(Clone, Copy, Debug, PartialEq, Eq, Structural)]
pub enum WindowMode {
    Windowed,
    Fullscreen,
}

/// The other window mode.
pub open spec fn spec_toggled(m: WindowMode) -> WindowMode {
    match m {
        WindowMode::Windowed => WindowMode::Fullscreen,
        WindowMode::Fullscreen => WindowMode::Windowed,
    }
}

impl WindowMode {
    pub fn toggled(&self) -> (r: WindowMode)
        ensures
            r == spec_toggled(*self),
    {
        match self {
            WindowMode::Windowed => WindowMode::Fullscreen,
            WindowMode::Fullscreen => WindowMode::Windowed,
        }
    }
}

/// One input event, already reduced to its meaning: the backend maps its raw
/// window and key events onto these. Anything it cannot map is `Other`,
/// which is ignored (a no-op, not an error).
#[derive(Clone, Copy, Debug, PartialEq, Eq, Structural)]
pub enum InputEvent {
    /// The window's close button, or the quit key.
    CloseRequested,
    /// The toggle-fullscreen key.
    ToggleFullscreenKey,
    /// The actual-size key: scale back to unit without recentering.
    ActualSizeKey,
    /// The reset-view key: recompute the centered, maximized placement.
    ResetViewKey,
    /// The physical window was resized.
    Resized { width: u32, height: u32 },
    /// Mouse wheel; only the sign of `delta` is meaningful.
    Scrolled { delta: i32 },
    /// Left mouse button pressed: a drag begins.
    PointerPressed,
    /// Left mouse button released: the drag ends.
    PointerReleased,
    /// The pointer moved to window position `(x, y)`.
    PointerMoved { x: i32, y: i32 },
    /// Input focus was lost; any drag in progress ends.
    FocusLost,
    /// Any event the backend does not recognize.
    Other,
}

/// What the backend must do after an event was handled.
#[derive(Clone, Copy, Debug, PartialEq, Eq, Structural)]
pub enum Command {
    /// Nothing beyond redrawing if the state is dirty.
    Nothing,
    /// Leave the event loop and exit.
    Quit,
    /// Re-create the window in the given mode, then reapply window position,
    /// vsync and a forced redraw to the new window.
    Recreate(WindowMode),
}

/// The whole mutable state of the viewer, owned by the event loop and passed
/// to `handle_event` one event at a time.
#[derive(Clone, Copy, Debug, PartialEq, Eq, Structural)]
pub struct AppState {
    /// Fixed logical coordinate space; never changes after startup.
    pub canvas: LogicalCanvas,
    /// Source image dimensions; never change after startup.
    pub image: ImageSize,
    /// Last known physical window size (may be transiently zero).
    pub win_width: u32,
    pub win_height: u32,
    pub mode: WindowMode,
    pub camera: CameraView,
    pub placement: ImagePlacement,
    pub viewport: Viewport,
    /// A drag is in progress: set by pointer-press, cleared by pointer
    /// release or focus loss (so a drag cannot stick after focus-out).
    pub dragging: bool,
    pub last_pointer_x: i32,
    pub last_pointer_y: i32,
    /// Set by any state mutation; cleared right after a redraw is issued.
    pub dirty: bool,
}

impl AppState {
    pub open spec fn wf(self) -> bool {
        &&& self.canvas.wf()
        &&& self.image.wf()
        &&& self.placement.wf()
        &&& self.viewport.wf()
    }
}

/// The startup state: windowed, neutral camera, the image centered and
/// maximized, the viewport fitted to the initial window, and a first redraw
/// pending.
pub open spec fn spec_init(canvas: LogicalCanvas, image: ImageSize, win_w: u32, win_h: u32)
    -> AppState {
    AppState {
        canvas,
        image,
        win_width: win_w,
        win_height: win_h,
        mode: WindowMode::Windowed,
        camera: CameraView { offset_x: 0, offset_y: 0, zoom_steps: 0 },
        placement: spec_center_and_maximize(win_w, win_h, image),
        viewport: spec_fit_viewport(win_w, win_h, canvas),
        dragging: false,
        last_pointer_x: 0,
        last_pointer_y: 0,
        dirty: true,
    }
}

/// The state after one event: the whole state machine as a mathematical
/// function. Quit requests and unrecognized events leave the state as it is;
/// a zero-sized window makes the reset-view command skip the recompute (a
/// degenerate input is a no-op, not an error).
pub open spec fn spec_step(s: AppState, e: InputEvent) -> AppState {
    match e {
        InputEvent::CloseRequested => s,
        InputEvent::ToggleFullscreenKey => AppState {
            mode: spec_toggled(s.mode),
            dirty: true,
            ..s
        },
        InputEvent::ActualSizeKey => AppState {
            placement: ImagePlacement {
                pos_x: s.placement.pos_x,
                pos_y: s.placement.pos_y,
                scale_num: 1,
                scale_den: 1,
            },
            dirty: true,
            ..s
        },
        InputEvent::ResetViewKey => if s.win_width > 0 && s.win_height > 0 {
            AppState {
                placement: spec_center_and_maximize(s.win_width, s.win_height, s.image),
                dirty: true,
                ..s
            }
        } else {
            s
        },
        InputEvent::Resized { width, height } => AppState {
            win_width: width,
            win_height: height,
            viewport: spec_fit_viewport(width, height, s.canvas),
            dirty: true,
            ..s
        },
        InputEvent::Scrolled { delta } => AppState {
            camera: spec_apply_zoom(s.camera, delta),
            dirty: true,
            ..s
        },
        InputEvent::PointerPressed => AppState { dragging: true, ..s },
        InputEvent::PointerReleased => AppState { dragging: false, ..s },
        InputEvent::PointerMoved { x, y } => if s.dragging {
            AppState {
                camera: spec_apply_pan(
                    s.camera,
                    (x as int - s.last_pointer_x as int) as i64,
                    (y as int - s.last_pointer_y as int) as i64,
                ),
                last_pointer_x: x,
                last_pointer_y: y,
                dirty: true,
                ..s
            }
        } else {
            AppState { last_pointer_x: x, last_pointer_y: y, ..s }
        },
        InputEvent::FocusLost => AppState { dragging: false, ..s },
        InputEvent::Other => s,
    }
}

/// The command one event produces.
pub open spec fn spec_command(s: AppState, e: InputEvent) -> Command {
    match e {
        InputEvent::CloseRequested => Command::Quit,
        InputEvent::ToggleFullscreenKey => Command::Recreate(spec_toggled(s.mode)),
        _ => Command::Nothing,
    }
}

impl AppState {
    /// Builds the startup state. The initial window is created at the
    /// display's native resolution, so its dimensions are positive.
    pub fn new(canvas: LogicalCanvas, image: ImageSize, win_w: u32, win_h: u32) -> (s: AppState)
        requires
            canvas.wf(),
            image.wf(),
            win_w > 0,
            win_h > 0,
        ensures
            s == spec_init(canvas, image, win_w, win_h),
            s.wf(),
    {
        AppState {
            canvas,
            image,
            win_width: win_w,
            win_height: win_h,
            mode: WindowMode::Windowed,
            camera: CameraView { offset_x: 0, offset_y: 0, zoom_steps: 0 },
            placement: center_and_maximize(win_w, win_h, &image),
            viewport: fit_viewport(win_w, win_h, &canvas),
            dragging: false,
            last_pointer_x: 0,
            last_pointer_y: 0,
            dirty: true,
        }
    }

    /// Handles one input event: mutates the state exactly as `spec_step`
    /// says and returns the command for the backend. Total over all events;
    /// nothing here panics.
    pub fn handle_event(&mut self, e: InputEvent) -> (c: Command)
        requires
            old(self).wf(),
        ensures
            *final(self) == spec_step(*old(self), e),
            c == spec_command(*old(self), e),
            final(self).wf(),
            final(self).canvas == old(self).canvas,
            final(self).image == old(self).image,
    {
        match e {
            InputEvent::CloseRequested => Command::Quit,
            InputEvent::ToggleFullscreenKey => {
                self.mode = self.mode.toggled();
                self.dirty = true;
                Command::Recreate(self.mode)
            },
            InputEvent::ActualSizeKey => {
                self.placement = reset_zoom(&self.placement);
                self.dirty = true;
                Command::Nothing
            },
            InputEvent::ResetViewKey => {
                if self.win_width > 0 && self.win_height > 0 {
                    self.placement = center_and_maximize(
                        self.win_width,
                        self.win_height,
                        &self.image,
                    );
                    self.dirty = true;
                }
                Command::Nothing
            },
            InputEvent::Resized { width, height } => {
                self.win_width = width;
                self.win_height = height;
                self.viewport = fit_viewport(width, height, &self.canvas);
                self.dirty = true;
                Command::Nothing
            },
            InputEvent::Scrolled { delta } => {
                self.camera = apply_zoom(&self.camera, delta);
                self.dirty = true;
                Command::Nothing
            },
            InputEvent::PointerPressed => {
                self.dragging = true;
                Command::Nothing
            },
            InputEvent::PointerReleased => {
                self.dragging = false;
                Command::Nothing
            },
            InputEvent::PointerMoved { x, y } => {
                if self.dragging {
                    let dx: i64 = (x as i64) - (self.last_pointer_x as i64);
                    let dy: i64 = (y as i64) - (self.last_pointer_y as i64);
                    self.camera = apply_pan(&self.camera, dx, dy);
                    self.dirty = true;
                }
                self.last_pointer_x = x;
                self.last_pointer_y = y;
                Command::Nothing
            },
            InputEvent::FocusLost => {
                self.dragging = false;
                Command::Nothing
            },
            InputEvent::Other => Command::Nothing,
        }
    }

    /// Clears the dirty flag, right after the backend has issued a redraw.
    pub fn mark_redrawn(&mut self)
        ensures
            *final(self) == (AppState { dirty: false, ..*old(self) }),
    {
        self.dirty = false;
    }
}

/// The state after a whole sequence of events, handled first to last.
pub open spec fn run_events(s: AppState, evs: Seq<InputEvent>) -> AppState
    decreases evs.len(),
{
    if evs.len() == 0 {
        s
    } else {
        run_events(spec_step(s, evs[0]), evs.drop_first())
    }
}

/// Every event of the sequence is a pointer move.
pub open spec fn all_pointer_moves(evs: Seq<InputEvent>) -> bool {
    forall|i: int| 0 <= i < evs.len() ==> evs[i] is PointerMoved
}

/// The sum of the x deltas between consecutive pointer positions along a
/// sequence of pointer moves, starting from position `from_x`.
pub open spec fn delta_sum_x(from_x: int, evs: Seq<InputEvent>) -> int
    decreases evs.len(),
{
    if evs.len() == 0 {
        0
    } else {
        (evs[0]->x - from_x) + delta_sum_x(evs[0]->x as int, evs.drop_first())
    }
}

/// The sum of the y deltas between consecutive pointer positions along a
/// sequence of pointer moves, starting from position `from_y`.
pub open spec fn delta_sum_y(from_y: int, evs: Seq<InputEvent>) -> int
    decreases evs.len(),
{
    if evs.len() == 0 {
        0
    } else {
        (evs[0]->y - from_y) + delta_sum_y(evs[0]->y as int, evs.drop_first())
    }
}

/// Pan law, inactive half: while no drag is in progress, any sequence of
/// pointer-move events leaves the camera (and the drag flag) unchanged; the
/// moves only track the last pointer position.
pub proof fn lemma_pan_inactive(s: AppState, evs: Seq<InputEvent>)
    requires
        !s.dragging,
        all_pointer_moves(evs),
    ensures
        run_events(s, evs).camera == s.camera,
        !run_events(s, evs).dragging,
    decreases evs.len(),
{
    if evs.len() > 0 {
        let s1 = spec_step(s, evs[0]);
        assert(s1.camera == s.camera);
        assert(!s1.dragging);
        assert(all_pointer_moves(evs.drop_first())) by {
            assert forall|i: int| 0 <= i < evs.drop_first().len()
                implies evs.drop_first()[i] is PointerMoved by {
                assert(evs.drop_first()[i] == evs[i + 1]);
            }
        }
        lemma_pan_inactive(s1, evs.drop_first());
    }
}

/// Pan law, active half: while a drag is in progress, a sequence of
/// pointer-move events accumulates exactly the negated sum of the pointer
/// deltas onto the camera offset, leaves the zoom untouched, and keeps the
/// drag active. The bound on `offset + last_pointer` keeps every
/// intermediate offset inside the i64 range, so no step saturates.
pub proof fn lemma_pan_accumulates(s: AppState, evs: Seq<InputEvent>)
    requires
        s.dragging,
        all_pointer_moves(evs),
        s.camera.offset_x as int + s.last_pointer_x as int <= i64::MAX - 0x8000_0000,
        s.camera.offset_x as int + s.last_pointer_x as int >= i64::MIN + 0x8000_0000,
        s.camera.offset_y as int + s.last_pointer_y as int <= i64::MAX - 0x8000_0000,
        s.camera.offset_y as int + s.last_pointer_y as int >= i64::MIN + 0x8000_0000,
    ensures
        run_events(s, evs).dragging,
        run_events(s, evs).camera.zoom_steps == s.camera.zoom_steps,
        run_events(s, evs).camera.offset_x
            == s.camera.offset_x - delta_sum_x(s.last_pointer_x as int, evs),
        run_events(s, evs).camera.offset_y
            == s.camera.offset_y - delta_sum_y(s.last_pointer_y as int, evs),
    decreases evs.len(),
{
    if evs.len() > 0 {
        let e = evs[0];
        assert(e is PointerMoved);
        let s1 = spec_step(s, e);
        // the delta stays within one i32 span of the invariant sum, so the
        // saturating subtraction is an exact subtraction here
        assert(s1.camera.offset_x == s.camera.offset_x - (e->x - s.last_pointer_x));
        assert(s1.camera.offset_y == s.camera.offset_y - (e->y - s.last_pointer_y));
        // offset + last_pointer is invariant under a pan step
        assert(s1.camera.offset_x as int + s1.last_pointer_x as int
            == s.camera.offset_x as int + s.last_pointer_x as int);
        assert(s1.camera.offset_y as int + s1.last_pointer_y as int
            == s.camera.offset_y as int + s.last_pointer_y as int);
        assert(all_pointer_moves(evs.drop_first())) by {
            assert forall|i: int| 0 <= i < evs.drop_first().len()
                implies evs.drop_first()[i] is PointerMoved by {
                assert(evs.drop_first()[i] == evs[i + 1]);
            }
        }
        lemma_pan_accumulates(s1, evs.drop_first());
    }
}

/// Toggling fullscreen twice returns the window mode to what it was (in
/// particular, from Windowed back to Windowed) without altering the camera,
/// the image placement or the viewport, and leaves a forced redraw pending.
/// Each toggle's command asks the backend to re-create the window in the new
/// mode, after which the backend resets the window position and redraws.
pub proof fn lemma_toggle_fullscreen_twice(s: AppState)
    ensures
        ({
            let s1 = spec_step(s, InputEvent::ToggleFullscreenKey);
            let s2 = spec_step(s1, InputEvent::ToggleFullscreenKey);
            &&& s2.mode == s.mode
            &&& s2.camera == s.camera
            &&& s2.placement == s.placement
            &&& s2.viewport == s.viewport
            &&& s2.dirty
            &&& spec_command(s, InputEvent::ToggleFullscreenKey)
                == Command::Recreate(spec_toggled(s.mode))
            &&& spec_command(s1, InputEvent::ToggleFullscreenKey) == Command::Recreate(s.mode)
        }),
{
}

} // verus!

