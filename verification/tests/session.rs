use d2b_clip_picker::protocol::{OpenRequest, PickerFrame};
use d2b_clip_picker::render::render_sample_request;
use d2b_clip_picker::rows::Step;
use d2b_clip_picker::session::{
    keep_observing, key_action, pin_texts, Effects, KeyAction, ObserverReport, PickerSession,
    KEY_BACKSPACE, KEY_DELETE, KEY_DOWN, KEY_ESCAPE, KEY_J, KEY_KEYPAD_ENTER, KEY_RETURN, KEY_UP,
    KEY_UPPER_K, KEY_V,
};

const PLAIN: usize = 0;
const CONFIRMED: usize = 2;

fn is_select(effects: &Effects, request: &OpenRequest, place: usize) -> bool {
    match &effects.send {
        Some(PickerFrame::Select { selected_protocol_version, request_id, entry_id }) => {
            *selected_protocol_version == request.selected_protocol_version
                && *request_id == request.request_id
                && *entry_id == request.candidates[place].entry_id
        }
        _ => false,
    }
}

fn is_cancel(effects: &Effects, request: &OpenRequest) -> bool {
    match &effects.send {
        Some(PickerFrame::Cancel { selected_protocol_version, request_id }) => {
            *selected_protocol_version == request.selected_protocol_version
                && *request_id == request.request_id
        }
        _ => false,
    }
}

#[test]
fn a_selected_entry_is_sent_once() {
    let request = render_sample_request();
    let mut session = PickerSession::new(true, true);
    let effects = session.activate_candidate(&request, PLAIN);
    assert!(is_select(&effects, &request, PLAIN));
    assert!(effects.quit);
    let effects = session.activate_candidate(&request, PLAIN);
    assert!(effects.send.is_none());
    assert!(!effects.quit);
    let effects = session.cancel(&request);
    assert!(effects.send.is_none());
    assert!(effects.quit);
}

#[test]
fn confirmation_takes_a_second_selection() {
    let request = render_sample_request();
    assert!(request.candidates[CONFIRMED].confirmation_required);
    let mut session = PickerSession::new(true, true);
    let effects = session.activate_candidate(&request, CONFIRMED);
    assert!(effects.ask_again && effects.send.is_none() && !effects.quit);
    let effects = session.activate_candidate(&request, CONFIRMED);
    assert!(is_select(&effects, &request, CONFIRMED));
    assert!(effects.quit && !effects.ask_again);
}

#[test]
fn another_entry_takes_the_place_of_the_pending_one() {
    let mut request = render_sample_request();
    request.candidates[PLAIN].confirmation_required = true;
    let mut session = PickerSession::new(true, true);
    assert!(session.activate_candidate(&request, CONFIRMED).ask_again);
    assert!(session.activate_candidate(&request, PLAIN).ask_again);
    assert!(session.activate_candidate(&request, CONFIRMED).ask_again);
    assert!(is_select(
        &session.activate_candidate(&request, CONFIRMED),
        &request,
        CONFIRMED
    ));
}

#[test]
fn losing_the_focus_cancels_once() {
    let request = render_sample_request();
    let mut session = PickerSession::new(true, true);
    assert!(session.other_activated(&request).send.is_none());
    let effects = session.focus_entered(&request);
    assert!(effects.release_keyboard && effects.start_observer);
    let effects = session.focus_entered(&request);
    assert!(!effects.release_keyboard && !effects.start_observer);
    let effects = session.other_activated(&request);
    assert!(is_cancel(&effects, &request));
    assert!(effects.quit);
    assert!(session.has_answered());
    let effects = session.other_activated(&request);
    assert!(effects.send.is_none() && !effects.quit);
}

#[test]
fn a_pinned_session_outlasts_other_windows() {
    let request = render_sample_request();
    let mut session = PickerSession::new(true, true);
    session.focus_entered(&request);
    assert!(session.set_pinned(&request, true).send.is_none());
    assert!(session.is_pinned());
    assert!(session.other_activated(&request).send.is_none());
    let effects = session.set_pinned(&request, false);
    assert!(is_cancel(&effects, &request));
    assert!(effects.quit);
}

#[test]
fn a_closed_socket_ends_the_session_in_silence() {
    let request = render_sample_request();
    let mut session = PickerSession::new(true, true);
    let effects = session.socket_closed(&request);
    assert!(effects.quit && effects.send.is_none());
    assert!(session.cancel(&request).send.is_none());
}

#[test]
fn a_sample_answers_nobody() {
    let request = render_sample_request();
    let mut session = PickerSession::new(false, false);
    let effects = session.focus_entered(&request);
    assert!(effects.release_keyboard && !effects.start_observer);
    assert!(session.other_activated(&request).send.is_none());
    let effects = session.cancel(&request);
    assert!(effects.quit && effects.send.is_none());
}

#[test]
fn searches_are_typed_and_taken_back() {
    let mut session = PickerSession::new(true, true);
    session.erase();
    assert_eq!(session.query(), "");
    session.type_char('a');
    session.type_char('é');
    assert_eq!(session.query(), "aé");
    session.erase();
    assert_eq!(session.query(), "a");
    session.erase();
    assert_eq!(session.query(), "");
}

#[test]
fn keys_have_their_actions() {
    assert_eq!(key_action(KEY_V, true, Some('v')), KeyAction::Swallow);
    assert_eq!(key_action(KEY_V, false, Some('v')), KeyAction::Type('v'));
    assert_eq!(key_action(KEY_ESCAPE, false, Some('\u{1b}')), KeyAction::Cancel);
    assert_eq!(key_action(KEY_DOWN, false, None), KeyAction::Move(Step::Down));
    assert_eq!(key_action(KEY_J, false, Some('j')), KeyAction::Move(Step::Down));
    assert_eq!(key_action(KEY_UP, false, None), KeyAction::Move(Step::Up));
    assert_eq!(key_action(KEY_UPPER_K, false, Some('K')), KeyAction::Move(Step::Up));
    assert_eq!(key_action(KEY_RETURN, false, Some('\r')), KeyAction::Activate);
    assert_eq!(key_action(KEY_KEYPAD_ENTER, false, None), KeyAction::Activate);
    assert_eq!(key_action(KEY_BACKSPACE, false, Some('\u{8}')), KeyAction::Erase);
    assert_eq!(key_action(KEY_DELETE, false, Some('\u{7f}')), KeyAction::Swallow);
    assert_eq!(key_action(0x61, false, Some('a')), KeyAction::Type('a'));
    assert_eq!(key_action(0xff09, false, Some('\t')), KeyAction::Pass);
    assert_eq!(key_action(0xffe1, false, None), KeyAction::Pass);
}

#[test]
fn watching_ends_with_the_session_or_the_watcher() {
    assert!(keep_observing(ObserverReport::Quiet, false));
    assert!(keep_observing(ObserverReport::Quiet, true));
    assert!(keep_observing(ObserverReport::Activated, false));
    assert!(!keep_observing(ObserverReport::Activated, true));
    assert!(!keep_observing(ObserverReport::Unavailable, false));
    assert!(!keep_observing(ObserverReport::Disconnected, false));
}

#[test]
fn the_pin_control_says_what_it_does() {
    assert_eq!(pin_texts(true).tooltip, "Unpin picker");
    assert_eq!(pin_texts(true).label, "Unpin picker");
    assert_eq!(
        pin_texts(true).description,
        "Allow this picker to close when another window receives focus"
    );
    assert_eq!(
        pin_texts(false).tooltip,
        "Pin picker so focus loss does not close it"
    );
    assert_eq!(pin_texts(false).label, "Pin picker");
    assert_eq!(
        pin_texts(false).description,
        "Keep this picker open when another window receives focus"
    );
}
