use rune_host::context::RuntimeContext;
use rune_host::host::{EventAction, Host, PlatformEvent};
use rune_host::scheduler::{FrameScheduler, FrameTime, Phase, WakePlan, DEFAULT_LOGIC_INTERVAL, DEFAULT_RENDER_INTERVAL};
use rune_host::surface::SurfaceConfig;

fn running_host(logic: u64, render: u64) -> Host {
    let config = SurfaceConfig { width: 640, height: 480, format: 0, present_mode: 0, alpha_mode: 0 };
    let mut host = Host::new(FrameScheduler::new(logic, render), RuntimeContext::new(9, config));
    assert!(host.begin_init());
    assert!(host.finish_init(true));
    host
}

#[test]
fn dual_rate_ticks() {
    let mut host = running_host(33, 16);
    let mut logic = Vec::new();
    let mut render = Vec::new();
    for now in [0u64, 16, 32, 33, 48, 64, 66] {
        let plan = host.wake(now);
        if let Some(t) = plan.update {
            logic.push(t.epoch);
        }
        if let Some(t) = plan.render {
            render.push(t.epoch);
        }
    }
    assert_eq!(logic, vec![33, 66]);
    assert_eq!(render, vec![16, 32, 48, 64]);
    assert_eq!(host.context.generation, 2);
}

#[test]
fn logic_tick_precedes_render_in_same_wake() {
    let mut host = running_host(10, 10);
    let plan = host.wake(10);
    assert_eq!(
        plan,
        WakePlan {
            update: Some(FrameTime { epoch: 10, delta: 10 }),
            render: Some(FrameTime { epoch: 10, delta: 10 }),
        }
    );
    assert_eq!(host.context.generation, 1);
}

#[test]
fn generation_advances_once_per_logic_tick() {
    let mut host = running_host(33_000, 16_000);
    let mut expected = 0u64;
    for step in 0..40u64 {
        let plan = host.wake(step * 5_000);
        if plan.update.is_some() {
            expected += 1;
        }
        assert_eq!(host.context.generation, expected);
    }
    assert_eq!(expected, 5);
}

#[test]
fn default_intervals() {
    let s = FrameScheduler::with_default_intervals();
    assert_eq!(s.logic_interval, 33_000);
    assert_eq!(s.render_interval, 16_000);
    assert_eq!(DEFAULT_LOGIC_INTERVAL, 33_000);
    assert_eq!(DEFAULT_RENDER_INTERVAL, 16_000);
    assert_eq!(s.phase, Phase::Uninitialized);
}

#[test]
fn no_ticks_before_running() {
    let config = SurfaceConfig { width: 1, height: 1, format: 0, present_mode: 0, alpha_mode: 0 };
    let mut host = Host::new(FrameScheduler::new(1, 1), RuntimeContext::new(1, config));
    assert_eq!(host.wake(100), WakePlan { update: None, render: None });
    assert!(host.begin_init());
    assert!(!host.begin_init());
    assert_eq!(host.wake(100), WakePlan { update: None, render: None });
    assert!(host.finish_init(true));
    assert!(host.wake(100).update.is_some());
}

#[test]
fn failed_init_shuts_down() {
    let config = SurfaceConfig { width: 1, height: 1, format: 0, present_mode: 0, alpha_mode: 0 };
    let mut host = Host::new(FrameScheduler::new(1, 1), RuntimeContext::new(1, config));
    assert!(!host.finish_init(true));
    host.begin_init();
    host.finish_init(false);
    assert_eq!(host.scheduler.phase, Phase::ShuttingDown);
    assert_eq!(host.wake(100), WakePlan { update: None, render: None });
}

#[test]
fn close_and_resize_events() {
    let mut host = running_host(33, 16);
    let action = host.handle_event(PlatformEvent::Resized { width: 1024, height: 768 });
    match action {
        EventAction::Reconfigure(c) => {
            assert_eq!((c.width, c.height), (1024, 768));
        }
        _ => panic!("expected a reconfigure"),
    }
    assert_eq!(host.context.dimensions(), (1024, 768));
    assert_eq!(host.handle_event(PlatformEvent::CloseRequested), EventAction::Exit);
    assert_eq!(host.scheduler.phase, Phase::ShuttingDown);
    assert_eq!(host.wake(1000), WakePlan { update: None, render: None });
}

#[test]
fn clock_going_back_runs_nothing() {
    let mut host = running_host(10, 10);
    assert!(host.wake(50).update.is_some());
    assert_eq!(host.wake(20), WakePlan { update: None, render: None });
}
