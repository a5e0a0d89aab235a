use vstd::prelude::*;
use crate::input::{AxisInput, MoveKeys, axis_input, key_pair};
use crate::capture::{CaptureStep, capture_step, next_ready, seeds, cursor_request};

verus! {

/// How the velocity changes in a frame.
#[derive(Clone, Copy, Debug, PartialEq, Eq, Structural)]
pub enum VelocityStep {
    /// Snap to the normalised axis direction at walking speed.
    Walk,
    /// Snap to the normalised axis direction at running speed.
    Run,
    /// No axis input: scale the velocity by `1 - friction`, then snap it to
    /// zero once its squared length is below the cut-off.
    Decay,
}

pub open spec fn spec_velocity_step(axis: AxisInput, running: bool) -> VelocityStep {
    if axis.spec_is_zero() {
        VelocityStep::Decay
    } else if running {
        VelocityStep::Run
    } else {
        VelocityStep::Walk
    }
}

/// Chooses the velocity update: a nonzero axis snaps the velocity to the
/// run speed while the run key is held and to the walk speed otherwise; a
/// zero axis lets the velocity decay.
pub fn velocity_step(axis: &AxisInput, running: bool) -> (r: VelocityStep)
    ensures
        r == spec_velocity_step(*axis, running),
{
    if axis.is_zero() {
        VelocityStep::Decay
    } else if running {
        VelocityStep::Run
    } else {
        VelocityStep::Walk
    }
}

/// Unit in which a mouse-wheel sample reports its magnitude.
#[derive(Clone, Copy, Debug, PartialEq, Eq, Structural)]
pub enum ScrollUnit {
    Line,
    Pixel,
}

/// Whether a wheel sample adds to the zoom distance: only line-unit samples
/// do; pixel-unit samples contribute nothing.
pub fn scroll_counts(unit: ScrollUnit) -> (r: bool)
    ensures
        r == (unit == ScrollUnit::Line),
{
    match unit {
        ScrollUnit::Line => true,
        ScrollUnit::Pixel => false,
    }
}

/// Whether mouse motion turns the camera: always in first-person mode, and in
/// orbit mode only while the pan button is held.
pub fn look_enabled(orbit: bool, pan_held: bool) -> (r: bool)
    ensures
        r == (!orbit || pan_held),
{
    !orbit || pan_held
}

/// Whether the wheel zooms: only in orbit mode with a positive scroll factor.
pub fn scroll_enabled(orbit: bool, factor_positive: bool) -> (r: bool)
    ensures
        r == (orbit && factor_positive),
{
    orbit && factor_positive
}

/// The input states that the host samples for one frame.
#[derive(Clone, Copy, Debug, PartialEq, Eq, Structural)]
pub struct FrameInput {
    pub keys: MoveKeys,
    /// The activation input was pressed this frame.
    pub activate: bool,
    /// The release input was pressed this frame.
    pub release: bool,
    /// The orbit pan button is held.
    pub pan_held: bool,
}

/// What the host does in one frame of the camera update.
#[derive(Clone, Copy, Debug, PartialEq, Eq, Structural)]
pub struct FramePlan {
    pub capture: CaptureStep,
    /// Whether movement and rotation are integrated this frame.
    pub integrate: bool,
    pub axis: AxisInput,
    pub velocity: VelocityStep,
    /// Whether the frame's mouse-motion samples are summed into the look
    /// delta; when false they are discarded.
    pub read_mouse: bool,
    /// Whether the frame's wheel samples are summed into a zoom translation.
    pub read_scroll: bool,
}

/// Plans one frame of the camera update.
///
/// `ready` is the controller's active state before the frame, `orbit` its
/// mode, and `factor_positive` whether its scroll factor is above zero.
/// Nothing is integrated unless the controller is active after the capture
/// transition.
pub fn plan_frame(ready: bool, orbit: bool, factor_positive: bool, input: &FrameInput) -> (r: FramePlan)
    ensures
        r.capture.ready == next_ready(ready, orbit, input.activate, input.release),
        r.capture.seed == seeds(ready, orbit, input.activate),
        r.capture.cursor == cursor_request(ready, orbit, input.activate, input.release),
        r.integrate == r.capture.ready,
        r.axis.wf(),
        r.axis.x as int == key_pair(input.keys.right, input.keys.left),
        r.axis.y as int == key_pair(input.keys.up, input.keys.down),
        r.axis.z as int == key_pair(input.keys.forward, input.keys.back),
        r.velocity == spec_velocity_step(r.axis, input.keys.run),
        r.read_mouse == (r.integrate && (!orbit || input.pan_held)),
        r.read_scroll == (r.integrate && orbit && factor_positive),
{
    let capture = capture_step(ready, orbit, input.activate, input.release);
    let axis = axis_input(&input.keys);
    let velocity = velocity_step(&axis, input.keys.run);
    let integrate = capture.ready;
    FramePlan {
        capture,
        integrate,
        axis,
        velocity,
        read_mouse: integrate && look_enabled(orbit, input.pan_held),
        read_scroll: integrate && scroll_enabled(orbit, factor_positive),
    }
}

} // verus!
