//! The adapter capability contracts, the shutdown signal, the polling event
//! loop and the per-event decision step, exercised on concrete values.

use engine::engine_window_wrapper::EngineWindowWrapper;
use engine::error::EngineError;
use engine::event_loop::handle_platform_event;
use engine::event_loop::polling_event_loop;
use engine::event_loop::EventStep;
use engine::event_loop::LoopCommand;
use engine::event_loop::PlatformEvent;
use engine::graphics_adapter::DummyGraphicsAdapter;
use engine::graphics_adapter::GraphicsAdapter;
use engine::platform_adapter::DummyPlatformAdapter;
use engine::platform_adapter::PlatformAdapter;
use engine::shutdown_signal::ShutdownSignal;
use raw_window_handle::RawWindowHandle;
use raw_window_handle::XlibWindowHandle;

#[test]
fn adapter_names_are_the_same_on_every_call() {
    let platform = DummyPlatformAdapter::default();
    assert_eq!(platform.adapter_name(), "DummyPlatformAdapter");
    assert_eq!(platform.adapter_name(), platform.adapter_name());

    let graphics = DummyGraphicsAdapter::default();
    assert_eq!(graphics.adapter_name(), "DummyGraphicsAdapter");
    assert_eq!(graphics.adapter_name(), graphics.adapter_name());
}

#[test]
fn a_windowless_adapter_never_hands_out_a_window_handle() {
    let mut platform = DummyPlatformAdapter::default();
    assert!(!platform.creates_window_handle());

    // Before setup.
    match platform.get_window_handle() {
        Err(EngineError::MissingCapability { adapter_name }) => {
            assert_eq!(adapter_name, "DummyPlatformAdapter");
        }
        _ => panic!("expected the missing-capability error"),
    }

    // After setup: still no window.
    assert!(platform.initialize().is_ok());
    assert!(matches!(
        platform.get_window_handle(),
        Err(EngineError::MissingCapability { .. })
    ));
}

#[test]
fn a_fresh_signal_is_not_requested() {
    let signal = ShutdownSignal::new();
    assert!(!signal.is_requested());
}

#[test]
fn a_request_through_one_handle_is_seen_by_all_handles() {
    let signal = ShutdownSignal::new();
    let first = signal.handle();
    let second = first.handle();

    second.request();

    assert!(signal.is_requested());
    assert!(first.is_requested());
    // Once requested, the signal keeps reading true.
    assert!(signal.is_requested());
}

#[test]
fn two_fresh_signals_do_not_share_state() {
    let one = ShutdownSignal::new();
    let other = ShutdownSignal::new();
    other.request();
    assert!(!one.is_requested());
    assert!(other.is_requested());
}

#[test]
fn polling_event_loop_returns_promptly_once_shutdown_is_requested() {
    let signal = ShutdownSignal::new();
    signal.handle().request();

    let started = std::time::Instant::now();
    assert!(polling_event_loop(&signal).is_ok());

    // One observation of the already-set flag: well under a few poll
    // intervals.
    assert!(started.elapsed() < std::time::Duration::from_millis(100));
}

#[test]
fn run_event_loop_on_the_dummy_adapter_stops_once_shutdown_is_requested() {
    // No thread may be spawned here, so the request is stored before the
    // loop starts; the loop must observe it on its first poll and return.
    let mut platform = DummyPlatformAdapter::default();
    assert!(platform.initialize().is_ok());

    let shutdown_requested = ShutdownSignal::new();
    shutdown_requested.handle().request();

    let start = std::time::Instant::now();
    assert!(platform.run_event_loop(shutdown_requested).is_ok());
    assert!(start.elapsed() < std::time::Duration::from_millis(100));
}

#[test]
fn a_close_request_sets_the_shutdown_flag_and_exits() {
    let signal = ShutdownSignal::new();

    let step = handle_platform_event(false, &PlatformEvent::CloseRequested, &signal);

    assert_eq!(step, EventStep { destroying: true, command: LoopCommand::Exit });
    assert!(signal.is_requested());
}

#[test]
fn an_escape_press_sets_the_shutdown_flag_and_exits() {
    let signal = ShutdownSignal::new();

    let step = handle_platform_event(
        false,
        &PlatformEvent::KeyboardInput { escape: true },
        &signal,
    );

    assert_eq!(step, EventStep { destroying: true, command: LoopCommand::Exit });
    assert!(signal.is_requested());
}

#[test]
fn other_keys_and_ignored_events_keep_polling() {
    let signal = ShutdownSignal::new();

    let key = handle_platform_event(
        false,
        &PlatformEvent::KeyboardInput { escape: false },
        &signal,
    );
    assert_eq!(key, EventStep { destroying: false, command: LoopCommand::Poll });

    let other = handle_platform_event(false, &PlatformEvent::Other, &signal);
    assert_eq!(other, EventStep { destroying: false, command: LoopCommand::Poll });

    assert!(!signal.is_requested());
}

#[test]
fn an_events_cleared_step_polls_the_flag() {
    let signal = ShutdownSignal::new();

    let quiet = handle_platform_event(false, &PlatformEvent::MainEventsCleared, &signal);
    assert_eq!(quiet, EventStep { destroying: false, command: LoopCommand::Poll });

    signal.request();
    let after = handle_platform_event(false, &PlatformEvent::MainEventsCleared, &signal);
    assert_eq!(after, EventStep { destroying: true, command: LoopCommand::Exit });
}

#[test]
fn the_destroying_latch_stays_set_for_every_event() {
    let signal = ShutdownSignal::new();

    for event in [
        PlatformEvent::MainEventsCleared,
        PlatformEvent::CloseRequested,
        PlatformEvent::KeyboardInput { escape: false },
        PlatformEvent::Other,
    ] {
        let step = handle_platform_event(true, &event, &signal);
        assert_eq!(step, EventStep { destroying: true, command: LoopCommand::Exit });
    }

    // A step taken after the latch is set decides nothing further: not even
    // the close request above was allowed to touch the flag.
    assert!(!signal.is_requested());
}

#[test]
fn the_window_wrapper_carries_its_handle_unchanged() {
    let raw = RawWindowHandle::Xlib(XlibWindowHandle::empty());
    let wrapper = EngineWindowWrapper::create(raw);

    assert!(matches!(wrapper.raw_window_handle(), RawWindowHandle::Xlib(_)));

    // The wrapper is a plain copyable value.
    let copy = wrapper;
    assert!(matches!(copy.raw_window_handle(), RawWindowHandle::Xlib(_)));
}

#[test]
fn a_graphics_adapter_judges_compatibility_by_its_own_answer() {
    let platform = DummyPlatformAdapter::default();

    let agreeable = DummyGraphicsAdapter::default();
    assert!(agreeable.is_compatible_with_platform_adapter(&platform));

    let choosy = DummyGraphicsAdapter { compatible: false, ..Default::default() };
    assert!(!choosy.is_compatible_with_platform_adapter(&platform));
}
