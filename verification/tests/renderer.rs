use clearframe::events::{Action, App, Fault, Phase, Signal};
use clearframe::format::{srgb_suffixed, PixelFormat};
use clearframe::frame::{
    acquire_outcome, plan_frame, Color, FrameError, FrameStep, LoadOp, StoreOp,
};
use clearframe::surface::{
    make_config, plan_initialization, select_format, Extent, InitError, PresentMode,
    SurfaceManager, TextureUsage, MAX_FRAME_LATENCY,
};

#[test]
fn srgb_suffix_of_each_format() {
    assert_eq!(
        srgb_suffixed(PixelFormat::Rgba8Unorm),
        PixelFormat::Rgba8UnormSrgb
    );
    assert_eq!(
        srgb_suffixed(PixelFormat::Bgra8Unorm),
        PixelFormat::Bgra8UnormSrgb
    );
    assert_eq!(
        srgb_suffixed(PixelFormat::Rgba8UnormSrgb),
        PixelFormat::Rgba8UnormSrgb
    );
    assert_eq!(
        srgb_suffixed(PixelFormat::Bgra8UnormSrgb),
        PixelFormat::Bgra8UnormSrgb
    );
}

#[test]
fn config_states_every_field() {
    let size = Extent {
        width: 800,
        height: 600,
    };
    let c = make_config(PixelFormat::Bgra8Unorm, size);
    assert_eq!(c.usage, TextureUsage::RenderAttachment);
    assert_eq!(c.format, PixelFormat::Bgra8Unorm);
    assert_eq!(c.width, 800);
    assert_eq!(c.height, 600);
    assert_eq!(c.present_mode, PresentMode::AutoVsync);
    // The one extra view format is the sRGB variant, not the format itself.
    assert_eq!(c.view_formats, vec![PixelFormat::Bgra8UnormSrgb]);
    assert_eq!(c.desired_maximum_frame_latency, 2);
    assert_eq!(MAX_FRAME_LATENCY, 2);
}

#[test]
fn resize_reconfigures_to_new_extent() {
    let mut m = SurfaceManager::new(
        PixelFormat::Rgba8Unorm,
        Extent {
            width: 100,
            height: 100,
        },
    );
    m.resize(Extent {
        width: 1920,
        height: 1080,
    });
    assert_eq!(m.config.width, 1920);
    assert_eq!(m.config.height, 1080);
    assert_eq!(m.config.format, PixelFormat::Rgba8Unorm);
}

#[test]
fn configure_twice_is_idempotent() {
    let mut m = SurfaceManager::new(
        PixelFormat::Bgra8Unorm,
        Extent {
            width: 640,
            height: 480,
        },
    );
    let first = m.config.clone();
    m.configure();
    assert_eq!(m.config, first);
    m.configure();
    assert_eq!(m.config, first);
}

#[test]
fn frame_plan_records_one_clearing_pass() {
    let p = plan_frame(42, PixelFormat::Bgra8Unorm);
    assert_eq!(p.acquired_texture, 42);
    assert_eq!(p.passes.len(), 1);
    let pass = &p.passes[0];
    assert!(!pass.has_depth_stencil);
    assert_eq!(pass.color_attachments.len(), 1);
    let att = &pass.color_attachments[0];
    assert_eq!(att.texture, 42);
    assert_eq!(att.view_format, PixelFormat::Bgra8UnormSrgb);
    assert_eq!(
        att.ops.load,
        LoadOp::Clear(Color {
            r: 0,
            g: 0,
            b: 0,
            a: 255
        })
    );
    assert_eq!(att.ops.store, StoreOp::Store);
}

#[test]
fn frame_plan_steps_in_protocol_order() {
    let p = plan_frame(3, PixelFormat::Rgba8UnormSrgb);
    assert_eq!(
        p.steps,
        vec![
            FrameStep::Acquire { texture: 3 },
            FrameStep::CreateView {
                view_texture: 3,
                view_format: PixelFormat::Rgba8UnormSrgb
            },
            FrameStep::BeginPass { pass_texture: 3 },
            FrameStep::EndPass,
            FrameStep::FinishEncoder,
            FrameStep::Submit,
            FrameStep::PrePresentNotify,
            FrameStep::Present { presented: 3 },
        ]
    );
}

#[test]
fn acquisition_outcomes() {
    assert_eq!(acquire_outcome(Some(9)), Ok(9));
    assert_eq!(acquire_outcome(None), Err(FrameError::NoTexture));
}

#[test]
fn format_selection_takes_first_reported() {
    let formats = vec![PixelFormat::Bgra8UnormSrgb, PixelFormat::Rgba8Unorm];
    assert_eq!(select_format(&formats), Ok(PixelFormat::Bgra8UnormSrgb));
    let none: Vec<PixelFormat> = vec![];
    assert_eq!(select_format(&none), Err(InitError::NoFormats));
}

#[test]
fn initialization_reports_first_failure() {
    let formats = vec![PixelFormat::Bgra8Unorm];
    let size = Extent {
        width: 10,
        height: 10,
    };
    assert_eq!(
        plan_initialization(false, false, false, &formats, size),
        Err(InitError::NoAdapter)
    );
    assert_eq!(
        plan_initialization(true, false, false, &formats, size),
        Err(InitError::NoDevice)
    );
    assert_eq!(
        plan_initialization(true, true, false, &formats, size),
        Err(InitError::NoSurface)
    );
    let none: Vec<PixelFormat> = vec![];
    assert_eq!(
        plan_initialization(true, true, true, &none, size),
        Err(InitError::NoFormats)
    );
    let m = plan_initialization(true, true, true, &formats, size).unwrap();
    assert_eq!(m.format, PixelFormat::Bgra8Unorm);
    assert_eq!(m.size, size);
    assert_eq!(m.config.width, 10);
    assert_eq!(m.config.height, 10);
}

#[test]
fn event_sequence_drives_one_session() {
    let mut app = App::new();
    assert_eq!(app.phase, Phase::Uninitialized);

    // activated: the driver is told to create the window and negotiate.
    assert_eq!(app.on_activated(), Action::CreateWindowAndInitialize);

    // negotiation succeeds: Ready, with the first redraw scheduled.
    let formats = vec![PixelFormat::Bgra8Unorm];
    let outcome = plan_initialization(
        true,
        true,
        true,
        &formats,
        Extent {
            width: 640,
            height: 480,
        },
    );
    assert_eq!(app.on_initialized(outcome), Action::ConfigureAndScheduleRedraw);
    assert!(matches!(app.phase, Phase::Ready { .. }));

    // resized(800, 600): the surface extent follows.
    let a = app.on_window_event(Signal::Resized {
        size: Extent {
            width: 800,
            height: 600,
        },
    });
    assert_eq!(a, Action::ApplySurfaceConfig);
    match &app.phase {
        Phase::Ready { manager } => {
            assert_eq!(manager.config.width, 800);
            assert_eq!(manager.config.height, 600);
        }
        Phase::Uninitialized => panic!("application lost its ready state"),
    }

    // redraw requested: render one frame, schedule the next.
    assert_eq!(
        app.on_window_event(Signal::RedrawRequested),
        Action::RenderAndScheduleRedraw
    );

    // close requested: leave the run loop.
    assert_eq!(
        app.on_window_event(Signal::CloseRequested),
        Action::ExitRunLoop
    );
}

#[test]
fn no_adapter_fails_before_any_window_activity() {
    let mut app = App::new();
    assert_eq!(app.on_activated(), Action::CreateWindowAndInitialize);

    // No adapter is available: negotiation fails on the first step.
    let none: Vec<PixelFormat> = vec![];
    let outcome = plan_initialization(
        false,
        false,
        false,
        &none,
        Extent {
            width: 0,
            height: 0,
        },
    );
    assert_eq!(outcome, Err(InitError::NoAdapter));

    // The adapter aborts, and no redraw was ever scheduled: still
    // uninitialized, so any further window signal is a contract violation.
    assert_eq!(
        app.on_initialized(outcome),
        Action::Abort {
            fault: Fault::Initialization {
                error: InitError::NoAdapter
            }
        }
    );
    assert_eq!(app.phase, Phase::Uninitialized);
    assert_eq!(
        app.on_window_event(Signal::RedrawRequested),
        Action::Abort {
            fault: Fault::NotInitialized
        }
    );
}

#[test]
fn other_signals_are_ignored() {
    let mut app = App::new();
    let formats = vec![PixelFormat::Rgba8Unorm];
    let outcome = plan_initialization(
        true,
        true,
        true,
        &formats,
        Extent {
            width: 320,
            height: 200,
        },
    );
    app.on_initialized(outcome);
    let before = app.clone();
    assert_eq!(app.on_window_event(Signal::Other), Action::Ignore);
    assert_eq!(app, before);
}
