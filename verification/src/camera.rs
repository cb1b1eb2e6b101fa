//! Camera shake feedback: a collision starts a decaying rotation counter.

use vstd::prelude::*;

verus! {

/// How many ticks a camera shake lasts.
pub const SHAKE_TICKS: u32 = 20;

/// The main camera: `shaker` counts the remaining shake ticks, if a shake
/// is running at all.
#[derive(Debug, Clone, Copy)]
pub struct MainCamera {
    pub shaker: Option<u32>,
}

impl Default for MainCamera {
    /// A camera at rest.
    fn default() -> (c: MainCamera)
        ensures
            c.shaker is None,
    {
        MainCamera { shaker: None }
    }
}

/// The shake counter after a tick that saw (or did not see) a collision:
/// a collision starts a full shake unless one is already running.
pub open spec fn shaken(shaker: Option<u32>, collision: bool) -> Option<u32> {
    if collision && shaker is None {
        Some(SHAKE_TICKS)
    } else {
        shaker
    }
}

pub fn shake_camera(camera: &mut MainCamera, collision: bool)
    ensures
        final(camera).shaker == shaken(old(camera).shaker, collision),
{
    if collision && camera.shaker.is_none() {
        camera.shaker = Some(SHAKE_TICKS);
    }
}

/// The shake counter after one tick of decay: it counts down while
/// positive and the shake ends when it reaches zero.
pub open spec fn decayed(shaker: Option<u32>) -> Option<u32> {
    match shaker {
        Some(n) => if n > 0 {
            Some((n - 1) as u32)
        } else {
            None
        },
        None => None,
    }
}

/// One tick of camera animation: while a shake runs, report this tick's
/// rotation step (the remaining counter; the host turns it into an angle)
/// and count the shake down.  A camera at rest reports no step.
pub fn animate_camera(camera: &mut MainCamera) -> (step: Option<u32>)
    ensures
        step == old(camera).shaker,
        final(camera).shaker == decayed(old(camera).shaker),
{
    match camera.shaker {
        Some(n) => {
            camera.shaker = if n > 0 {
                Some(n - 1)
            } else {
                None
            };
            Some(n)
        },
        None => None,
    }
}

} // verus!
