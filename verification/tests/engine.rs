use po_renderer::command::{cmd_blit_image, ClearColor, Corner, Extent, ImageSlot, RenderCommand};
use po_renderer::engine::{render, select_device, FramePlan, PhysicalDeviceType};
use po_renderer::error::{FrameError, StartupError};
use po_renderer::ui::{draw_ui, PassChoice, UiClicks, UiMessage};

const WHITE: ClearColor =
    ClearColor { r: 0x3F80_0000, g: 0x3F80_0000, b: 0x3F80_0000, a: 0x3F80_0000 };

const NO_CLICK: UiClicks = UiClicks {
    open_scene: false,
    import_skymap: false,
    organize_windows: false,
    wireframe: false,
    ray_tracing: false,
    render: false,
};

#[test]
fn the_first_discrete_adapter_is_chosen() {
    let adapters = vec![
        PhysicalDeviceType::IntegratedGpu,
        PhysicalDeviceType::Cpu,
        PhysicalDeviceType::DiscreteGpu,
        PhysicalDeviceType::DiscreteGpu,
    ];
    assert_eq!(select_device(&adapters), Ok(2));
    assert_eq!(select_device(&vec![PhysicalDeviceType::DiscreteGpu]), Ok(0));
}

#[test]
fn without_a_discrete_adapter_startup_fails() {
    assert_eq!(select_device(&Vec::new()), Err(StartupError::NoSuitableGpu));
    let adapters = vec![
        PhysicalDeviceType::IntegratedGpu,
        PhysicalDeviceType::VirtualGpu,
        PhysicalDeviceType::Other,
    ];
    assert_eq!(select_device(&adapters), Err(StartupError::NoSuitableGpu));
}

#[test]
fn a_frame_is_skipped_without_an_image() {
    assert_eq!(render(false, true), FramePlan::Skip);
    assert_eq!(render(false, false), FramePlan::Skip);
}

#[test]
fn a_frame_draws_the_scene_under_the_interface() {
    assert_eq!(render(true, true), FramePlan::SceneThenUi { clear: WHITE });
    assert_eq!(render(true, false), FramePlan::UiOnly { clear: WHITE });
    assert_eq!(f32::from_bits(WHITE.r), 1.0);
}

#[test]
fn no_click_changes_nothing() {
    let outcome = draw_ui(PassChoice::Wireframe, &NO_CLICK);
    assert_eq!(outcome.active, PassChoice::Wireframe);
    assert_eq!(outcome.message, None);
    assert!(!outcome.open_scene && !outcome.import_skymap && !outcome.organize_windows);
    assert_eq!(draw_ui(PassChoice::RayTracing, &NO_CLICK).active, PassChoice::RayTracing);
}

#[test]
fn a_click_on_a_pass_selects_it() {
    let wireframe = UiClicks { wireframe: true, ..NO_CLICK };
    let ray_tracing = UiClicks { ray_tracing: true, ..NO_CLICK };
    let both = UiClicks { wireframe: true, ray_tracing: true, ..NO_CLICK };
    assert_eq!(draw_ui(PassChoice::RayTracing, &wireframe).active, PassChoice::Wireframe);
    assert_eq!(draw_ui(PassChoice::Wireframe, &ray_tracing).active, PassChoice::RayTracing);
    assert_eq!(draw_ui(PassChoice::Wireframe, &both).active, PassChoice::RayTracing);
    assert_eq!(draw_ui(PassChoice::RayTracing, &both).active, PassChoice::RayTracing);
}

#[test]
fn the_other_buttons_are_passed_on() {
    let clicks = UiClicks { open_scene: true, organize_windows: true, render: true, ..NO_CLICK };
    let outcome = draw_ui(PassChoice::RayTracing, &clicks);
    assert!(outcome.open_scene);
    assert!(!outcome.import_skymap);
    assert!(outcome.organize_windows);
    assert_eq!(outcome.message, Some(UiMessage::Render));
    assert_eq!(outcome.active, PassChoice::RayTracing);
    let clicks = UiClicks { import_skymap: true, ..NO_CLICK };
    assert!(draw_ui(PassChoice::RayTracing, &clicks).import_skymap);
}

#[test]
fn a_blit_covers_both_images() {
    let mut recorder = vec![RenderCommand::BindRayTracingPipeline];
    let r = cmd_blit_image(
        &mut recorder,
        ImageSlot::Color,
        Extent { width: 10, height: 20 },
        ImageSlot::Target,
        Extent { width: 0x7FFF_FFFF, height: 1 },
    );
    assert_eq!(r, Ok(()));
    assert_eq!(recorder.len(), 2);
    match recorder[1] {
        RenderCommand::BlitImage(blit) => {
            assert_eq!(blit.src, ImageSlot::Color);
            assert_eq!(blit.dst, ImageSlot::Target);
            assert_eq!(blit.src_corner, Corner { x: 10, y: 20, z: 1 });
            assert_eq!(blit.dst_corner, Corner { x: i32::MAX, y: 1, z: 1 });
            assert!(blit.linear_filter);
        }
        _ => panic!("no blit was recorded"),
    }
}

#[test]
fn a_blit_beyond_what_can_be_addressed_records_nothing() {
    let small = Extent { width: 1, height: 1 };
    for big in [
        Extent { width: 0x8000_0000, height: 1 },
        Extent { width: 1, height: 0x8000_0000 },
        Extent { width: u32::MAX, height: u32::MAX },
    ] {
        let mut recorder = Vec::new();
        assert_eq!(
            cmd_blit_image(&mut recorder, ImageSlot::Color, big, ImageSlot::Target, small),
            Err(FrameError::PreconditionNotMet)
        );
        assert_eq!(
            cmd_blit_image(&mut recorder, ImageSlot::Color, small, ImageSlot::Target, big),
            Err(FrameError::PreconditionNotMet)
        );
        assert!(recorder.is_empty());
    }
}
