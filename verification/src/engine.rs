//! The decisions of the frame driver: which adapter to render on, and what
//! a frame consists of.

use vstd::prelude::*;
use crate::command::{white, ClearColor, ONE};
use crate::error::StartupError;

verus! {

/// The kind of a graphics adapter.
#[derive(Clone, Copy, Debug, PartialEq, Eq, Structural)]
pub enum PhysicalDeviceType {
    Other,
    IntegratedGpu,
    DiscreteGpu,
    VirtualGpu,
    Cpu,
}

/// Whether `at` is the position of the first discrete adapter.
pub open spec fn first_discrete(adapters: Seq<PhysicalDeviceType>, at: int) -> bool {
    &&& 0 <= at < adapters.len()
    &&& adapters[at] == PhysicalDeviceType::DiscreteGpu
    &&& forall|i: int| 0 <= i < at ==> adapters[i] != PhysicalDeviceType::DiscreteGpu
}

/// Picks the adapter to render on: the first discrete one. Without one
/// there is nothing to render on.
pub fn select_device(adapters: &Vec<PhysicalDeviceType>) -> (r: Result<usize, StartupError>)
    ensures
        r matches Ok(at) ==> first_discrete(adapters@, at as int),
        r matches Err(e) ==> e == StartupError::NoSuitableGpu && forall|i: int|
            0 <= i < adapters@.len() ==> adapters@[i] != PhysicalDeviceType::DiscreteGpu,
{
    let mut i: usize = 0;
    while i < adapters.len()
        invariant
            i <= adapters@.len(),
            forall|k: int| 0 <= k < i ==> adapters@[k] != PhysicalDeviceType::DiscreteGpu,
        decreases adapters@.len() - i,
    {
        if adapters[i] == PhysicalDeviceType::DiscreteGpu {
            return Ok(i);
        }
        i += 1;
    }
    Err(StartupError::NoSuitableGpu)
}

/// What a frame consists of.
#[derive(Clone, Copy, Debug, PartialEq, Eq, Structural)]
pub enum FramePlan {
    /// No image could be acquired: nothing is drawn and nothing presented.
    Skip,
    /// There is no scene: the user interface is drawn onto this colour.
    UiOnly { clear: ClearColor },
    /// The active pass draws the scene onto this colour, and the user
    /// interface is drawn on top of it.
    SceneThenUi { clear: ClearColor },
}

/// The plan of a frame: nothing without an image to draw into; else the
/// scene, if there is one, under the user interface, on white.
pub open spec fn frame_plan(acquired: bool, has_scene: bool) -> FramePlan {
    if !acquired {
        FramePlan::Skip
    } else if has_scene {
        FramePlan::SceneThenUi { clear: white() }
    } else {
        FramePlan::UiOnly { clear: white() }
    }
}

/// Plans a frame.
pub fn render(acquired: bool, has_scene: bool) -> (plan: FramePlan)
    ensures
        plan == frame_plan(acquired, has_scene),
{
    let clear = ClearColor { r: ONE, g: ONE, b: ONE, a: ONE };
    if !acquired {
        FramePlan::Skip
    } else if has_scene {
        FramePlan::SceneThenUi { clear }
    } else {
        FramePlan::UiOnly { clear }
    }
}

} // verus!
