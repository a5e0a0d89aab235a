use vstd::prelude::*;

verus! {

/// What the host does with the pointer after a frame's capture decision.
#[derive(Clone, Copy, Debug, PartialEq, Eq, Structural)]
pub enum CursorRequest {
    /// Leave pointer capture and visibility as they are.
    Keep,
    /// Hide the pointer and lock it to the window.
    Capture,
    /// Show the pointer and release it.
    Release,
}

/// Outcome of the capture state machine for one frame.
#[derive(Clone, Copy, Debug, PartialEq, Eq, Structural)]
pub struct CaptureStep {
    /// Whether the controller is active after this frame's transition.
    pub ready: bool,
    /// Whether yaw and pitch are seeded from the current orientation.
    pub seed: bool,
    pub cursor: CursorRequest,
}

/// Whether the controller is active after the transition.
pub open spec fn next_ready(ready: bool, orbit: bool, activate: bool, release: bool) -> bool {
    if ready || orbit {
        !release
    } else {
        activate
    }
}

/// An inactive controller seeds its angles when it becomes active: at once in
/// orbit mode, on the activation input in first-person mode.
pub open spec fn seeds(ready: bool, orbit: bool, activate: bool) -> bool {
    !ready && (orbit || activate)
}

pub open spec fn cursor_request(ready: bool, orbit: bool, activate: bool, release: bool) -> CursorRequest {
    if ready || orbit {
        if release {
            CursorRequest::Release
        } else {
            CursorRequest::Keep
        }
    } else if activate {
        CursorRequest::Capture
    } else {
        CursorRequest::Keep
    }
}

/// Advances the capture state by one frame.
///
/// An orbit controller that is not yet active becomes active and seeds its
/// angles without any input. A first-person controller that is not active
/// waits for the activation input, then captures the pointer and seeds its
/// angles. An active controller (of either mode) is deactivated by the release
/// input, which also frees the pointer; velocity and angles are kept.
pub fn capture_step(ready: bool, orbit: bool, activate: bool, release: bool) -> (r: CaptureStep)
    ensures
        r.ready == next_ready(ready, orbit, activate, release),
        r.seed == seeds(ready, orbit, activate),
        r.cursor == cursor_request(ready, orbit, activate, release),
{
    let mut now_ready = ready;
    let mut seed = false;
    let mut cursor = CursorRequest::Keep;
    if !now_ready && orbit {
        seed = true;
        now_ready = true;
    }
    if !now_ready {
        if activate {
            cursor = CursorRequest::Capture;
            seed = true;
            now_ready = true;
        }
    } else if release {
        cursor = CursorRequest::Release;
        now_ready = false;
    }
    CaptureStep { ready: now_ready, seed, cursor }
}

} // verus!
