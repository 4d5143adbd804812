use d2b_clip_picker::observer::{
    is_activated_state, is_activated_state_in, order_shown_by, should_notify_activation, ByteOrder,
    ObserverState,
};
use wayland_protocols_wlr::foreign_toplevel::v1::client::zwlr_foreign_toplevel_handle_v1 as toplevel_handle;

fn state_bytes(states: &[toplevel_handle::State]) -> Vec<u8> {
    states
        .iter()
        .flat_map(|state| (*state as u32).to_ne_bytes())
        .collect()
}

#[test]
fn activated_state_parser_ignores_other_presentation_states() {
    let inactive = state_bytes(&[
        toplevel_handle::State::Maximized,
        toplevel_handle::State::Fullscreen,
    ]);
    let active = state_bytes(&[
        toplevel_handle::State::Maximized,
        toplevel_handle::State::Activated,
    ]);

    assert!(!is_activated_state(&inactive));
    assert!(is_activated_state(&active));
}

#[test]
fn baseline_and_repeated_active_states_do_not_notify() {
    assert!(!should_notify_activation(false, false, true));
    assert!(should_notify_activation(true, false, true));
    assert!(!should_notify_activation(true, true, true));
    assert!(!should_notify_activation(true, true, false));
}

#[test]
fn state_words_are_read_whole_and_in_order() {
    assert!(is_activated_state_in(ByteOrder::LowFirst, &[2, 0, 0, 0]));
    assert!(!is_activated_state_in(ByteOrder::HighFirst, &[2, 0, 0, 0]));
    assert!(is_activated_state_in(ByteOrder::HighFirst, &[0, 0, 0, 2]));
    assert!(!is_activated_state_in(ByteOrder::LowFirst, &[0, 2, 0, 0, 0]));
    assert!(!is_activated_state_in(ByteOrder::LowFirst, &[2, 0, 0]));
    assert!(!is_activated_state(&[]));
}

#[test]
fn windows_that_were_active_before_are_not_told() {
    let mut state = ObserverState::new();
    state.register(1);
    state.set_pending(1, true);
    assert!(!state.commit(1));
    state.finish_baseline();
    assert!(!state.commit(1));
    state.set_pending_state(1, &state_bytes(&[toplevel_handle::State::Maximized]));
    assert!(!state.commit(1));
    state.set_pending_state(1, &state_bytes(&[toplevel_handle::State::Activated]));
    assert!(state.commit(1));
    assert!(!state.commit(1));
}

#[test]
fn windows_do_not_influence_each_other() {
    let mut state = ObserverState::new();
    state.finish_baseline();
    state.set_pending(1, true);
    assert!(!state.commit(2));
    assert!(state.commit(1));
    state.remove(1);
    state.set_pending(1, true);
    assert!(state.commit(1));
    assert!(!state.is_stopped());
    state.stop();
    assert!(state.is_stopped());
}

#[test]
fn the_order_of_bytes_shows_in_a_word() {
    assert_eq!(order_shown_by(u32::from_le_bytes([1, 0, 0, 0])), ByteOrder::LowFirst);
    assert_eq!(order_shown_by(u32::from_be_bytes([1, 0, 0, 0])), ByteOrder::HighFirst);
}
