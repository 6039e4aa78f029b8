//! What the panels of the user interface ask of the engine.

use vstd::prelude::*;

verus! {

/// A request from the panels that the engine answers after the frame.
#[derive(Clone, Copy, Debug, PartialEq, Eq, Structural)]
pub enum UiMessage {
    /// Render the scene offline.
    Render,
}

/// One of the two passes.
#[derive(Clone, Copy, Debug, PartialEq, Eq, Structural)]
pub enum PassChoice {
    Wireframe,
    RayTracing,
}

/// The buttons that were clicked while the panels were drawn.
#[derive(Clone, Copy, Debug, PartialEq, Eq, Structural)]
pub struct UiClicks {
    pub open_scene: bool,
    pub import_skymap: bool,
    pub organize_windows: bool,
    pub wireframe: bool,
    pub ray_tracing: bool,
    pub render: bool,
}

/// What the clicks of one frame come to.
#[derive(Clone, Copy, Debug, PartialEq, Eq, Structural)]
pub struct UiOutcome {
    /// The pass that is active from the next frame on.
    pub active: PassChoice,
    /// Whether to ask the user for a scene file.
    pub open_scene: bool,
    /// Whether to ask the user for an environment image.
    pub import_skymap: bool,
    /// Whether to put the windows back where they belong.
    pub organize_windows: bool,
    /// The request to the engine, if there is one.
    pub message: Option<UiMessage>,
}

/// The pass that is active after the clicks of a frame: the ray-traced one
/// if its button was clicked, else the wireframe one if its button was
/// clicked, else the one that was active.
pub open spec fn pass_after(active: PassChoice, clicks: UiClicks) -> PassChoice {
    if clicks.ray_tracing {
        PassChoice::RayTracing
    } else if clicks.wireframe {
        PassChoice::Wireframe
    } else {
        active
    }
}

/// Says what the clicks of one frame come to.
pub fn draw_ui(active: PassChoice, clicks: &UiClicks) -> (outcome: UiOutcome)
    ensures
        outcome.active == pass_after(active, *clicks),
        outcome.open_scene == clicks.open_scene,
        outcome.import_skymap == clicks.import_skymap,
        outcome.organize_windows == clicks.organize_windows,
        outcome.message == (if clicks.render {
            Some(UiMessage::Render)
        } else {
            None::<UiMessage>
        }),
{
    let mut next = active;
    if clicks.wireframe {
        next = PassChoice::Wireframe;
    }
    if clicks.ray_tracing {
        next = PassChoice::RayTracing;
    }
    UiOutcome {
        active: next,
        open_scene: clicks.open_scene,
        import_skymap: clicks.import_skymap,
        organize_windows: clicks.organize_windows,
        message: if clicks.render {
            Some(UiMessage::Render)
        } else {
            None
        },
    }
}

} // verus!
