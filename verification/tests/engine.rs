use mandelrust::engine::{EngineAction, MandelEngine, DEFAULT_MAX_ITERATIONS};
use mandelrust::navigation::BoundShift;
use mandelrust::protocol::{EngineCommand, EngineStatus, Region, RenderType};
use mandelrust::render::{RenderError, RenderJob};

fn region(re0: f32, re1: f32, im0: f32, im1: f32) -> Region {
    Region { re0: re0.to_bits(), re1: re1.to_bits(), im0: im0.to_bits(), im1: im1.to_bits() }
}

// The evaluation of one point, in single precision.
fn escape_time(x0: f32, y0: f32, max_iterations: u32) -> u32 {
    let mut x = 0.0f32;
    let mut y = 0.0f32;
    let mut iteration: u32 = 0;
    while x * x + y * y < 4.0 && iteration < max_iterations {
        let x1 = x * x - y * y + x0;
        y = 2.0 * x * y + y0;
        x = x1;
        iteration += 1;
    }
    iteration
}

fn count_at(job: &RenderJob, px: u32, py: u32) -> u32 {
    let r = job.region();
    let (re0, re1) = (f32::from_bits(r.re0), f32::from_bits(r.re1));
    let (im0, im1) = (f32::from_bits(r.im0), f32::from_bits(r.im1));
    let (w, h) = (job.width(), job.height());
    let x0 = px as f32 / w as f32 * (re1 - re0) + re0;
    let y0 = py as f32 / h as f32 * (im1 - im0) + im0;
    escape_time(x0, y0, job.max_iterations())
}

// Carries a render out as a driver does, and collects the messages.
fn run_render(engine: &MandelEngine, first: EngineStatus, mut job: RenderJob) -> Vec<EngineStatus> {
    let mut sent = vec![first];
    while !job.is_complete() {
        let count = count_at(&job, job.column(), job.row());
        if let Some(status) = job.plot(engine.palette(), count).unwrap() {
            sent.push(status);
        }
    }
    sent.push(job.finish().unwrap());
    sent
}

#[test]
fn new_engine() {
    let engine = MandelEngine::new(640, 480);
    assert!(engine.is_running());
    assert_eq!(engine.region(), region(-1.4, 0.6, -1.0, 1.0));
    assert_eq!(engine.max_iterations(), 500);
    assert_eq!(DEFAULT_MAX_ITERATIONS, 500);
    assert_eq!(engine.palette().len(), 720);
}

#[test]
fn iteration_budget_can_be_set() {
    let mut engine = MandelEngine::new(8, 8).with_max_iterations(80);
    assert_eq!(engine.max_iterations(), 80);
    assert_eq!(engine.region(), Region::initial());
    match engine.dispatch(Some(EngineCommand::Render(RenderType::FullRender))) {
        EngineAction::Render(_, job) => assert_eq!(job.max_iterations(), 80),
        other => panic!("{:?}", other),
    }
}

#[test]
fn update_region_replaces_the_view_unchecked() {
    let mut engine = MandelEngine::new(640, 480);
    let action = engine.dispatch(Some(EngineCommand::UpdateRegion(
        0.5f32.to_bits(),
        (-0.5f32).to_bits(),
        f32::NAN.to_bits(),
        7,
    )));
    assert!(matches!(action, EngineAction::Idle));
    assert_eq!(
        engine.region(),
        Region { re0: 0.5f32.to_bits(), re1: (-0.5f32).to_bits(), im0: f32::NAN.to_bits(), im1: 7 }
    );
    assert!(engine.is_running());
}

#[test]
fn navigation_commands_ask_for_a_shift() {
    let table = [
        (EngineCommand::ZoomIn, (1, -1, 1, -1)),
        (EngineCommand::ZoomOut, (-1, 1, -1, 1)),
        (EngineCommand::PanLeft, (-1, -1, 0, 0)),
        (EngineCommand::PanRight, (1, 1, 0, 0)),
        (EngineCommand::PanUp, (0, 0, 1, 1)),
        (EngineCommand::PanDown, (0, 0, -1, -1)),
    ];
    for (cmd, (re0, re1, im0, im1)) in table {
        let mut engine = MandelEngine::new(640, 480);
        match engine.dispatch(Some(cmd)) {
            EngineAction::Shift(s) => assert_eq!(s, BoundShift { re0, re1, im0, im1 }),
            other => panic!("{:?}", other),
        }
        assert_eq!(engine.region(), Region::initial());
        assert!(engine.is_running());
    }
}

#[test]
fn a_move_is_taken_when_the_view_stays_usable() {
    let mut engine = MandelEngine::new(640, 480);
    let moved = region(-1.2, 0.4, -0.8, 0.8);
    assert!(engine.move_to(moved));
    assert_eq!(engine.region(), moved);
}

#[test]
fn a_move_that_collapses_the_view_is_not_made() {
    let mut engine = MandelEngine::new(640, 480);
    assert!(!engine.move_to(region(0.25, 0.25, -1.0, 1.0)));
    assert!(!engine.move_to(region(0.6, -1.4, -1.0, 1.0)));
    assert!(!engine.move_to(region(-1.4, 0.6, 1.0, 1.0)));
    assert!(!engine.move_to(region(-1.4, f32::INFINITY, -1.0, 1.0)));
    assert!(!engine.move_to(region(f32::NAN, 0.6, -1.0, 1.0)));
    assert_eq!(engine.region(), Region::initial());
}

#[test]
fn render_of_a_preview_is_256_square() {
    let mut engine = MandelEngine::new(640, 480);
    match engine.dispatch(Some(EngineCommand::Render(RenderType::PreviewRender))) {
        EngineAction::Render(first, job) => {
            assert!(matches!(first, EngineStatus::Startup));
            assert_eq!(job.kind(), RenderType::PreviewRender);
            assert_eq!((job.width(), job.height()), (256, 256));
            assert_eq!(job.region(), Region::initial());
            assert_eq!(job.max_iterations(), 500);
            assert_eq!((job.column(), job.row()), (0, 0));
        },
        other => panic!("{:?}", other),
    }
    assert!(engine.is_running());
}

#[test]
fn render_of_the_full_image_has_the_framebuffer_size_and_the_current_view() {
    let mut engine = MandelEngine::new(640, 480);
    let view = region(-0.5, 0.5, -0.25, 0.25);
    engine.dispatch(Some(EngineCommand::UpdateRegion(view.re0, view.re1, view.im0, view.im1)));
    match engine.dispatch(Some(EngineCommand::Render(RenderType::FullRender))) {
        EngineAction::Render(first, job) => {
            assert!(matches!(first, EngineStatus::Startup));
            assert_eq!(job.kind(), RenderType::FullRender);
            assert_eq!((job.width(), job.height()), (640, 480));
            assert_eq!(job.region(), view);
        },
        other => panic!("{:?}", other),
    }
}

#[test]
fn full_render_of_an_empty_framebuffer_is_refused() {
    for (w, h) in [(0, 480), (640, 0), (0, 0)] {
        let mut engine = MandelEngine::new(w, h);
        assert!(matches!(
            engine.dispatch(Some(EngineCommand::Render(RenderType::FullRender))),
            EngineAction::Refuse(RenderError::EmptyResolution)
        ));
        assert!(engine.is_running());
        // the preview does not depend on the framebuffer
        assert!(matches!(
            engine.dispatch(Some(EngineCommand::Render(RenderType::PreviewRender))),
            EngineAction::Render(_, _)
        ));
    }
}

#[test]
fn full_render_beyond_a_buffer_is_refused() {
    let mut engine = MandelEngine::new(u32::MAX, u32::MAX);
    assert!(matches!(
        engine.dispatch(Some(EngineCommand::Render(RenderType::FullRender))),
        EngineAction::Refuse(RenderError::TooLarge)
    ));
}

#[test]
fn shutdown_terminates() {
    let mut engine = MandelEngine::new(640, 480);
    assert!(matches!(engine.dispatch(Some(EngineCommand::Shutdown)), EngineAction::Stop));
    assert!(!engine.is_running());
}

#[test]
fn a_closed_command_channel_terminates() {
    let mut engine = MandelEngine::new(640, 480);
    assert!(matches!(engine.dispatch(None), EngineAction::Stop));
    assert!(!engine.is_running());
}

#[test]
fn a_terminated_engine_answers_stop_to_everything() {
    let mut engine = MandelEngine::new(640, 480);
    engine.dispatch(Some(EngineCommand::Shutdown));
    let commands = [
        Some(EngineCommand::Render(RenderType::PreviewRender)),
        Some(EngineCommand::Render(RenderType::FullRender)),
        Some(EngineCommand::ZoomIn),
        Some(EngineCommand::PanLeft),
        Some(EngineCommand::UpdateRegion(1, 2, 3, 4)),
        Some(EngineCommand::Shutdown),
        None,
    ];
    for cmd in commands {
        assert!(matches!(engine.dispatch(cmd), EngineAction::Stop));
        assert!(!engine.is_running());
        assert_eq!(engine.region(), Region::initial());
    }
}

#[test]
fn default_preview_is_deep_at_the_centre_and_shallow_at_the_corner() {
    let mut engine = MandelEngine::new(640, 640);
    let (first, job) = match engine.dispatch(Some(EngineCommand::Render(RenderType::PreviewRender))) {
        EngineAction::Render(first, job) => (first, job),
        other => panic!("{:?}", other),
    };
    let centre = count_at(&job, 128, 128);
    let corner = count_at(&job, 0, 0);
    assert_eq!(centre, 500);
    assert!(corner <= 5);
    let sent = run_render(&engine, first, job);
    match sent.last() {
        Some(EngineStatus::RenderComplete(kind, pixels)) => {
            assert_eq!(*kind, RenderType::PreviewRender);
            assert_eq!(pixels.len(), 256 * 256 * 3);
            let at = |px: usize, py: usize| {
                let i = 3 * (py * 256 + px);
                (pixels[i], pixels[i + 1], pixels[i + 2])
            };
            assert_eq!(at(128, 128), engine.palette().color_at(500));
            assert_eq!(at(0, 0), engine.palette().color_at(corner));
            assert_eq!(at(0, 0), engine.palette().color_at(3));
        },
        _ => panic!("the render was carried out"),
    }
}

#[test]
fn previews_then_shutdown() {
    let n = 3;
    let mut engine = MandelEngine::new(64, 64).with_max_iterations(20);
    let mut commands: Vec<Option<EngineCommand>> = Vec::new();
    for _ in 0..n {
        commands.push(Some(EngineCommand::Render(RenderType::PreviewRender)));
    }
    commands.push(Some(EngineCommand::Shutdown));
    let mut sent: Vec<EngineStatus> = Vec::new();
    let mut stopped_at: Option<usize> = None;
    for (i, cmd) in commands.into_iter().enumerate() {
        match engine.dispatch(cmd) {
            EngineAction::Render(first, job) => sent.append(&mut run_render(&engine, first, job)),
            EngineAction::Stop => {
                stopped_at = Some(i);
                break;
            },
            other => panic!("{:?}", other),
        }
    }
    assert_eq!(stopped_at, Some(n));
    assert!(!engine.is_running());
    // each render: Startup, the rows 0, 100 and 200, the image
    assert_eq!(sent.len(), 5 * n);
    for block in sent.chunks(5) {
        assert!(matches!(block[0], EngineStatus::Startup));
        assert!(matches!(block[1], EngineStatus::Processing(0)));
        assert!(matches!(block[2], EngineStatus::Processing(100)));
        assert!(matches!(block[3], EngineStatus::Processing(200)));
        match &block[4] {
            EngineStatus::RenderComplete(kind, pixels) => {
                assert_eq!(*kind, RenderType::PreviewRender);
                assert_eq!(pixels.len(), 3 * 256 * 256);
            },
            other => panic!("{:?}", other),
        }
    }
}

#[test]
fn rendering_twice_gives_the_same_bytes() {
    let mut engine = MandelEngine::new(48, 32).with_max_iterations(60);
    let mut images: Vec<Vec<u8>> = Vec::new();
    for _ in 0..2 {
        match engine.dispatch(Some(EngineCommand::Render(RenderType::FullRender))) {
            EngineAction::Render(first, job) => match run_render(&engine, first, job).pop() {
                Some(EngineStatus::RenderComplete(_, pixels)) => images.push(pixels),
                _ => panic!("the render was carried out"),
            },
            other => panic!("{:?}", other),
        }
    }
    assert_eq!(images[0].len(), 48 * 32 * 3);
    assert_eq!(images[0], images[1]);
}
