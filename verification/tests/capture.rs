use d2b_clip_picker::capture::{
    output_bind_version, pointer_poll_action, wait_step, Attachment, BufferError, BufferPlan,
    Configured, Leftovers, PointerCapture, PointerPollAction, ProbeError, SetupError, State,
    WaitAction, WaitError, WaitEvent, WorkAreaProbe, CLOSED, READABLE,
};
use d2b_clip_picker::placement::UsableArea;
use rustix::event::PollFlags;

#[test]
fn pointer_poll_action_prioritizes_read_before_hup() {
    let action = pointer_poll_action(
        (rustix::event::PollFlags::IN | rustix::event::PollFlags::HUP).bits(),
    );

    assert_eq!(action, PointerPollAction::Read);
}

#[test]
fn polls_tell_of_data_and_of_the_end() {
    assert_eq!(PollFlags::IN.bits(), READABLE);
    assert_eq!((PollFlags::ERR | PollFlags::HUP).bits(), CLOSED);
    let action = |flags: PollFlags| pointer_poll_action(flags.bits());
    assert_eq!(action(PollFlags::HUP), PointerPollAction::Closed);
    assert_eq!(action(PollFlags::ERR), PointerPollAction::Closed);
    assert_eq!(action(PollFlags::OUT), PointerPollAction::Ignore);
    assert_eq!(action(PollFlags::empty()), PointerPollAction::Ignore);
    assert_eq!(action(PollFlags::all()), PointerPollAction::Read);
}

#[test]
fn one_turn_of_waiting() {
    assert!(matches!(
        wait_step(WaitEvent::PendingDispatched { count: 3 }),
        WaitAction::Finish
    ));
    assert!(matches!(
        wait_step(WaitEvent::PendingDispatched { count: 0 }),
        WaitAction::PrepareRead
    ));
    assert!(matches!(wait_step(WaitEvent::ReadRefused), WaitAction::Finish));
    assert!(matches!(
        wait_step(WaitEvent::ReadPrepared { seconds: 0, nanos: 0 }),
        WaitAction::Fail(WaitError::TimedOut)
    ));
    assert!(matches!(
        wait_step(WaitEvent::ReadPrepared { seconds: 0, nanos: 5 }),
        WaitAction::Poll { seconds: 0, nanos: 5 }
    ));
    assert!(matches!(
        wait_step(WaitEvent::ReadPrepared { seconds: u64::MAX, nanos: 0 }),
        WaitAction::Fail(WaitError::TimeoutTooLarge)
    ));
    assert!(matches!(
        wait_step(WaitEvent::Polled { ready: 0, revents: READABLE }),
        WaitAction::Fail(WaitError::TimedOut)
    ));
    assert!(matches!(
        wait_step(WaitEvent::Polled { ready: 1, revents: READABLE | CLOSED }),
        WaitAction::Read
    ));
    assert!(matches!(
        wait_step(WaitEvent::Polled { ready: 1, revents: CLOSED }),
        WaitAction::Fail(WaitError::ConnectionClosed)
    ));
    assert!(matches!(
        wait_step(WaitEvent::Polled { ready: 1, revents: 0 }),
        WaitAction::Finish
    ));
    assert!(matches!(wait_step(WaitEvent::PollInterrupted), WaitAction::Finish));
    match wait_step(WaitEvent::PollFailed { error: "EBADF".to_owned() }) {
        WaitAction::Fail(error) => {
            assert_eq!(error.message(), "poll pointer capture fd: EBADF");
        }
        _ => panic!("a failed poll ends the waiting"),
    }
    assert_eq!(WaitError::TimedOut.message(), "timed out waiting for pointer enter");
    assert_eq!(
        WaitError::TimeoutTooLarge.message(),
        "pointer capture timeout is too large"
    );
    assert_eq!(
        WaitError::ConnectionClosed.message(),
        "Wayland connection closed during pointer capture"
    );
}

#[test]
fn captured_pointers_place_the_picker() {
    let mut state = State::new();
    assert!(!PointerCapture::finished(&state));
    state.surface_entered(4);
    state.configured(1920, 1080);
    state.configured(0, 50);
    state.pointer_entered(31, 41);
    assert!(PointerCapture::finished(&state));
    let placement = PointerCapture::placement(&state);
    assert_eq!((placement.geometry.x, placement.geometry.y), (31, 41));
    assert_eq!(
        (placement.geometry.output_width, placement.geometry.output_height),
        (1920, 1080)
    );
    assert_eq!(placement.output, None);
    state.output_named(4, "DP-3".to_owned());
    assert_eq!(
        PointerCapture::placement(&state).output.as_deref(),
        Some("DP-3")
    );
}

#[test]
fn outputs_are_found_by_name_lowest_id_first() {
    let mut state = State::new();
    state.output_announced(9);
    state.output_announced(3);
    state.output_announced(5);
    state.output_announced(5);
    assert_eq!(state.outputs.iter().copied().collect::<Vec<u32>>(), vec![3, 5, 9]);
    state.output_named(9, "DP-3".to_owned());
    state.output_named(5, "DP-3".to_owned());
    state.output_named(7, "HDMI-A-1".to_owned());
    assert_eq!(state.output_with_name("DP-3"), Some(5));
    assert!(matches!(WorkAreaProbe::find_output(&state, None), Ok(None)));
    assert!(matches!(
        WorkAreaProbe::find_output(&state, Some("DP-3")),
        Ok(Some(5))
    ));
    match WorkAreaProbe::find_output(&state, Some("HDMI-A-1")) {
        Err(error) => assert_eq!(error.message(), "Wayland output HDMI-A-1 is unavailable"),
        Ok(_) => panic!("the output was never announced"),
    }
}

#[test]
fn usable_areas_hold_something() {
    let mut state = State::new();
    assert!(!WorkAreaProbe::finished(&state));
    match WorkAreaProbe::usable_area(&state) {
        Err(ProbeError::EmptyArea) => {}
        _ => panic!("nothing is known yet"),
    }
    assert_eq!(
        ProbeError::EmptyArea.message(),
        "compositor returned an empty usable output area"
    );
    state.configured(800, 600);
    assert!(WorkAreaProbe::finished(&state));
    match WorkAreaProbe::usable_area(&state) {
        Ok(area) => assert_eq!(area, UsableArea { width: 800, height: 600 }),
        Err(_) => panic!("the area is known"),
    }
}

#[test]
fn surfaces_need_a_compositor_and_a_layer_shell() {
    let mut state = State::new();
    assert_eq!(state.start_capture(), Err(SetupError::CompositorMissing));
    assert_eq!(state.add_layer_surface(), Err(SetupError::LayerShellMissing));
    assert_eq!(SetupError::CompositorMissing.message(), "wl_compositor missing");
    assert_eq!(SetupError::LayerShellMissing.message(), "layer shell missing");
    assert_eq!(state.start_work_area(), Err(SetupError::CompositorMissing));

    let mut state = State::new();
    state.bind(true, false);
    assert!(state.needs_shm());
    assert_eq!(state.start_capture(), Ok(true));
    assert_eq!(state.add_layer_surface(), Ok(()));
    let mut state = State::new();
    state.bind(true, true);
    assert!(!state.needs_shm());
}

#[test]
fn transparent_buffers_are_planned() {
    let mut state = State::new();
    state.bind(false, true);
    assert_eq!(state.plan_transparent_buffer(0, 4), Err(BufferError::NotPositive));
    assert_eq!(state.plan_transparent_buffer(1, 1), Ok(BufferPlan::SinglePixel));
    state.buffer_created(BufferPlan::SinglePixel, 1, 1);
    assert_eq!(state.plan_transparent_buffer(1, 1), Ok(BufferPlan::Keep));
    assert_eq!(
        state.plan_transparent_buffer(3, 2),
        Err(BufferError::SharedMemoryUnavailable)
    );
    assert!(!state.transparent_buffer);
    state.shm = true;
    let shared = BufferPlan::Shared { stride: 12, size: 24 };
    assert_eq!(state.plan_transparent_buffer(3, 2), Ok(shared));
    state.buffer_created(shared, 3, 2);
    assert_eq!(state.plan_transparent_buffer(3, 2), Ok(BufferPlan::Keep));
    assert_eq!(
        state.plan_transparent_buffer(0x2000_0000, 1),
        Err(BufferError::StrideOverflow)
    );
    assert_eq!(
        state.plan_transparent_buffer(0x1000_0000, 2),
        Err(BufferError::SizeOverflow)
    );
    assert_eq!(
        BufferError::NotPositive.message(),
        "transparent buffer dimensions must be positive"
    );
    assert_eq!(BufferError::SharedMemoryUnavailable.message(), "wl_shm unavailable");
    assert_eq!(
        BufferError::StrideOverflow.message(),
        "transparent buffer stride overflow"
    );
    assert_eq!(
        BufferError::SizeOverflow.message(),
        "transparent buffer size overflow"
    );
}

#[test]
fn surfaces_are_shown_with_what_there_is() {
    let mut state = State::new();
    state.bind(false, false);
    assert_eq!(state.configured(10, 10), Configured::Nothing);
    state.start_capture().expect("compositor");
    assert_eq!(state.configured(10, 10), Configured::NeedsBuffer);
    state.bind(true, false);
    assert_eq!(state.configured(10, 10), Configured::Ready);
    assert_eq!(
        state.attach(),
        Attachment { attach_buffer: false, create_viewport: true, set_destination: true }
    );
    assert_eq!(
        state.attach(),
        Attachment { attach_buffer: false, create_viewport: false, set_destination: true }
    );
    assert_eq!(
        state.cleanup_capture_layer(),
        Leftovers {
            viewport: true,
            layer_surface: false,
            surface: true,
            buffer: false,
            pool: false,
        }
    );
    assert_eq!(
        state.cleanup_capture_layer(),
        Leftovers {
            viewport: false,
            layer_surface: false,
            surface: false,
            buffer: false,
            pool: false,
        }
    );

    let mut state = State::new();
    state.bind(true, true);
    state.start_work_area().expect("compositor");
    assert_eq!(state.configured(10, 10), Configured::Nothing);
}

#[test]
fn outputs_are_bound_at_a_known_version() {
    assert_eq!(output_bind_version("wl_output", 2), Some(2));
    assert_eq!(output_bind_version("wl_output", 9), Some(4));
    assert_eq!(output_bind_version("wl_seat", 2), None);
}
