//! Orbit-camera state and its update rules. Angles are held in milliradians
//! and the zoom distance in milli-units, so one pixel of pointer drag turns
//! the camera by exactly 5 milliradians and one scene unit of scroll zooms by
//! exactly 1000 milli. Yaw is unbounded and wraps; pitch is clamped to a
//! symmetric band around level; distance is clamped to a fixed zoom band.
//! The tracked last pointer position empties whenever the drag button is up,
//! so re-pressing never produces a spurious jump.

use vstd::prelude::*;

verus! {

/// Milliradians of turn per pixel of pointer drag.
pub const DRAG_SENSITIVITY_MRAD: i64 = 5;

/// Lower clamp of the pitch angle, in milliradians.
pub const PITCH_MIN_MRAD: i64 = -1500;

/// Upper clamp of the pitch angle, in milliradians.
pub const PITCH_MAX_MRAD: i64 = 1500;

/// Nearest allowed camera distance, in milli-units.
pub const DISTANCE_MIN_MILLI: i64 = 10000;

/// Farthest allowed camera distance, in milli-units.
pub const DISTANCE_MAX_MILLI: i64 = 150000;

/// Milli-units of zoom per milli-notch of scroll.
pub const SCROLL_ZOOM_FACTOR: i64 = 2;

/// Yaw the camera starts with, in milliradians.
pub const INITIAL_YAW_MRAD: i64 = 800;

/// Pitch the camera starts with, in milliradians.
pub const INITIAL_PITCH_MRAD: i64 = 600;

/// Distance the camera starts with, in milli-units.
pub const INITIAL_DISTANCE_MILLI: i64 = 50000;

/// A pointer position in whole screen pixels.
#[derive(Clone, Copy, Debug, PartialEq, Eq, Structural)]
pub struct PointerPos {
    pub x: i32,
    pub y: i32,
}

/// The orbit camera's whole mutable state: two angles, a zoom distance, the
/// pointer position of the previous drag sample, and the debug-model flag.
#[derive(Clone, Copy, Debug)]
pub struct CameraState {
    pub yaw_mrad: i64,
    pub pitch_mrad: i64,
    pub distance_milli: i64,
    pub last_pointer: Option<PointerPos>,
    pub show_camera_model: bool,
}

/// Clamp an integer to a closed band.
pub open spec fn clamp_spec(v: int, lo: int, hi: int) -> int {
    if v < lo {
        lo
    } else if v > hi {
        hi
    } else {
        v
    }
}

/// One input event, as the host samples it each frame: the drag button's
/// state with the pointer position, a scroll amount in milli-notches, or the
/// debug-model key's state.
#[derive(Clone, Copy, Debug)]
pub enum InputEvent {
    Drag { down: bool, x: i32, y: i32 },
    Scroll { wheel_milli: i64 },
    DebugKey { pressed: bool },
}

impl CameraState {
    /// The camera's numeric state is in bounds: pitch inside its clamp band
    /// and distance inside the zoom band.
    pub open spec fn wf(self) -> bool {
        &&& PITCH_MIN_MRAD <= self.pitch_mrad <= PITCH_MAX_MRAD
        &&& DISTANCE_MIN_MILLI <= self.distance_milli <= DISTANCE_MAX_MILLI
    }

    /// The state a viewer starts with.
    pub fn new() -> (s: CameraState)
        ensures
            s.yaw_mrad == INITIAL_YAW_MRAD,
            s.pitch_mrad == INITIAL_PITCH_MRAD,
            s.distance_milli == INITIAL_DISTANCE_MILLI,
            s.last_pointer is None,
            !s.show_camera_model,
            s.wf(),
    {
        CameraState {
            yaw_mrad: INITIAL_YAW_MRAD,
            pitch_mrad: INITIAL_PITCH_MRAD,
            distance_milli: INITIAL_DISTANCE_MILLI,
            last_pointer: None,
            show_camera_model: false,
        }
    }

    /// Apply one drag sample.
    pub fn drag_update(&mut self, down: bool, x: i32, y: i32)
        requires
            old(self).wf(),
        ensures
            *final(self) == drag_step(*old(self), down, x, y),
            final(self).wf(),
    {
        if down {
            if let Some(p) = self.last_pointer {
                let dx: i64 = (x as i64) - (p.x as i64);
                let dy: i64 = (y as i64) - (p.y as i64);
                self.yaw_mrad = self.yaw_mrad.wrapping_add(DRAG_SENSITIVITY_MRAD * dx);
                let mut pitch: i64 = self.pitch_mrad - DRAG_SENSITIVITY_MRAD * dy;
                if pitch < PITCH_MIN_MRAD {
                    pitch = PITCH_MIN_MRAD;
                }
                if pitch > PITCH_MAX_MRAD {
                    pitch = PITCH_MAX_MRAD;
                }
                self.pitch_mrad = pitch;
            }
            self.last_pointer = Some(PointerPos { x, y });
        } else {
            self.last_pointer = None;
        }
    }

    /// Apply one scroll sample, `wheel_milli` milli-notches of the wheel.
    pub fn scroll_update(&mut self, wheel_milli: i64)
        requires
            old(self).wf(),
        ensures
            *final(self) == scroll_step(*old(self), wheel_milli),
            final(self).wf(),
    {
        let scaled: i128 = (wheel_milli as i128) + (wheel_milli as i128);
        let target: i128 = (self.distance_milli as i128) - scaled;
        assert(scaled == SCROLL_ZOOM_FACTOR * wheel_milli);
        let clamped: i64 = if target < DISTANCE_MIN_MILLI as i128 {
            DISTANCE_MIN_MILLI
        } else if target > DISTANCE_MAX_MILLI as i128 {
            DISTANCE_MAX_MILLI
        } else {
            target as i64
        };
        self.distance_milli = clamped;
    }

    /// Apply one sample of the debug-model key; a press flips the flag.
    pub fn debug_key_update(&mut self, pressed: bool)
        ensures
            *final(self) == debug_key_step(*old(self), pressed),
    {
        if pressed {
            self.show_camera_model = !self.show_camera_model;
        }
    }
}

/// The state after one drag sample: while the button is up the tracked
/// pointer position empties and nothing else moves; the first sample after a
/// press only records the pointer; a sample with a recorded previous position
/// turns yaw (wrapping) and pitch (clamped) by the pointer delta.
pub open spec fn drag_step(s: CameraState, down: bool, x: i32, y: i32) -> CameraState {
    if !down {
        CameraState { last_pointer: None, ..s }
    } else {
        match s.last_pointer {
            None => CameraState { last_pointer: Some(PointerPos { x, y }), ..s },
            Some(p) => CameraState {
                yaw_mrad: vstd::wrapping::i64_specs::wrapping_add(
                    s.yaw_mrad,
                    (DRAG_SENSITIVITY_MRAD * (x - p.x)) as i64,
                ),
                pitch_mrad: clamp_spec(
                    s.pitch_mrad - DRAG_SENSITIVITY_MRAD * (y - p.y),
                    PITCH_MIN_MRAD as int,
                    PITCH_MAX_MRAD as int,
                ) as i64,
                last_pointer: Some(PointerPos { x, y }),
                ..s
            },
        }
    }
}

/// The state after one scroll sample: the distance moves against the wheel
/// and is clamped to the zoom band.
pub open spec fn scroll_step(s: CameraState, wheel_milli: i64) -> CameraState {
    CameraState {
        distance_milli: clamp_spec(
            s.distance_milli - SCROLL_ZOOM_FACTOR * wheel_milli,
            DISTANCE_MIN_MILLI as int,
            DISTANCE_MAX_MILLI as int,
        ) as i64,
        ..s
    }
}

/// The state after one debug-key sample: a press flips the flag.
pub open spec fn debug_key_step(s: CameraState, pressed: bool) -> CameraState {
    if pressed {
        CameraState { show_camera_model: !s.show_camera_model, ..s }
    } else {
        s
    }
}

/// The state after one arbitrary input event.
pub open spec fn input_step(s: CameraState, e: InputEvent) -> CameraState {
    match e {
        InputEvent::Drag { down, x, y } => drag_step(s, down, x, y),
        InputEvent::Scroll { wheel_milli } => scroll_step(s, wheel_milli),
        InputEvent::DebugKey { pressed } => debug_key_step(s, pressed),
    }
}

/// The state after a whole sequence of input events, applied in order.
pub open spec fn run_inputs(s: CameraState, events: Seq<InputEvent>) -> CameraState
    decreases events.len(),
{
    if events.len() == 0 {
        s
    } else {
        input_step(run_inputs(s, events.drop_last()), events.last())
    }
}

/// One input event keeps the camera's numeric state in bounds.
pub proof fn lemma_step_preserves_wf(s: CameraState, e: InputEvent)
    requires
        s.wf(),
    ensures
        input_step(s, e).wf(),
{
}

/// Pitch stays inside its clamp band and distance inside the zoom band after
/// any sequence of drag, scroll and key inputs, however extreme the deltas.
pub proof fn lemma_inputs_keep_camera_in_bounds(s: CameraState, events: Seq<InputEvent>)
    requires
        s.wf(),
    ensures
        run_inputs(s, events).wf(),
        PITCH_MIN_MRAD <= run_inputs(s, events).pitch_mrad <= PITCH_MAX_MRAD,
        DISTANCE_MIN_MILLI <= run_inputs(s, events).distance_milli <= DISTANCE_MAX_MILLI,
    decreases events.len(),
{
    if events.len() > 0 {
        lemma_inputs_keep_camera_in_bounds(s, events.drop_last());
        lemma_step_preserves_wf(run_inputs(s, events.drop_last()), events.last());
    }
}

/// Releasing the drag button and re-pressing it turns the camera by nothing
/// on the first sample after the re-press, wherever the pointer stands.
pub proof fn lemma_no_jump_on_repress(s: CameraState, x0: i32, y0: i32, x1: i32, y1: i32)
    ensures
        ({
            let released = drag_step(s, false, x0, y0);
            let repressed = drag_step(released, true, x1, y1);
            repressed.yaw_mrad == s.yaw_mrad && repressed.pitch_mrad == s.pitch_mrad
        }),
{
}

/// The state after the debug key is pressed `n` times in a row.
pub open spec fn toggle_n(s: CameraState, n: nat) -> CameraState
    decreases n,
{
    if n == 0 {
        s
    } else {
        debug_key_step(toggle_n(s, (n - 1) as nat), true)
    }
}

/// Pressing the debug key twice restores the whole state.
pub proof fn lemma_toggle_twice_restores(s: CameraState)
    ensures
        debug_key_step(debug_key_step(s, true), true) == s,
{
}

/// Pressing the debug key an even number of times restores the debug-model
/// visibility — indeed the whole state.
pub proof fn lemma_even_toggles_restore(s: CameraState, n: nat)
    requires
        n % 2 == 0,
    ensures
        toggle_n(s, n) == s,
        toggle_n(s, n).show_camera_model == s.show_camera_model,
    decreases n,
{
    if n >= 2 {
        lemma_even_toggles_restore(s, (n - 2) as nat);
        lemma_toggle_twice_restores(toggle_n(s, (n - 2) as nat));
        assert(toggle_n(s, (n - 1) as nat) == debug_key_step(toggle_n(s, (n - 2) as nat), true));
        assert(toggle_n(s, n) == debug_key_step(toggle_n(s, (n - 1) as nat), true));
    }
}

} // verus!

