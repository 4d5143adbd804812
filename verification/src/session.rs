//! One showing of the picker: what the user and the compositor do to it, and how it answers.

use crate::focus::{FocusEvent, FocusLifecycle, FocusModel, FocusTransition};
use crate::protocol;
use crate::protocol::{Candidate, OpenRequest, PickerFrame};
use crate::rows::Step;
use crate::text;
use vstd::prelude::*;

verus! {

/// What is told when an entry has to be selected again.
pub const SELECT_AGAIN: &'static str = "Select this item again to confirm.";

pub const PIN_WIDGET_NAME: &'static str = "d2b-pin-toggle";

pub const PIN_ICON_WIDGET_NAME: &'static str = "d2b-pin-icon";

pub const DRAG_HANDLE_WIDGET_NAME: &'static str = "d2b-drag-handle";

/// How the picker gets the keys that the user presses.
#[derive(Debug, Clone, Copy, PartialEq, Eq, Structural)]
pub enum KeyboardMode {
    /// It gets all of them.
    Exclusive,
    /// It gets them while it has the focus, which the user may take away.
    OnDemand,
}

/// Until the picker has had the focus once.
pub const PICKER_BOOTSTRAP_KEYBOARD_MODE: KeyboardMode = KeyboardMode::Exclusive;

/// From then on.
pub const PICKER_STEADY_KEYBOARD_MODE: KeyboardMode = KeyboardMode::OnDemand;

/// One showing of the picker.
pub struct PickerSession {
    lifecycle: FocusLifecycle,
    pending: Option<String>,
    connected: bool,
    dismiss_on_focus_loss: bool,
    keyboard_released: bool,
    observer_started: bool,
    query: String,
}

/// The state of a session.
pub struct SessionModel {
    pub focus: FocusModel,
    /// The entry that has been selected once and has to be selected again.
    pub pending: Option<Seq<char>>,
    /// Whether somebody waits for the answer.
    pub connected: bool,
    /// Whether losing the focus cancels.
    pub dismiss_on_focus_loss: bool,
    pub keyboard_released: bool,
    pub observer_started: bool,
    /// What the user searches for.
    pub query: Seq<char>,
}

/// What can happen to a session.
pub enum SessionEvent {
    /// The user selected an entry.
    Activate { entry_id: Seq<char>, confirmation_required: bool },
    /// The user wants no entry.
    Cancel,
    /// The picker got the focus.
    FocusEntered,
    /// Another window was activated.
    OtherActivated,
    /// The user pinned or unpinned the picker.
    Pin(bool),
    /// Nobody waits for the answer any more.
    SocketClosed,
    /// The user typed a character.
    Type(char),
    /// The user took a character back.
    Erase,
}

/// What happens when the user selects a candidate.
pub open spec fn selection_of(candidate: Candidate) -> SessionEvent {
    SessionEvent::Activate {
        entry_id: candidate.entry_id@,
        confirmation_required: candidate.confirmation_required,
    }
}

/// An answer to a request.
pub enum Answer {
    Select(Seq<char>),
    Cancel,
}

/// What follows from an event.
pub struct Outcome {
    pub sent: Option<Answer>,
    pub quit: bool,
    pub ask_again: bool,
    pub release_keyboard: bool,
    pub start_observer: bool,
}

/// What is to be done about an event.
pub struct Effects {
    /// The frame to send.
    pub send: Option<PickerFrame>,
    /// The picker goes away.
    pub quit: bool,
    /// The user is told to select the entry again.
    pub ask_again: bool,
    /// The keyboard is left to other windows, from now on.
    pub release_keyboard: bool,
    /// Other windows are watched, from now on.
    pub start_observer: bool,
}

impl Outcome {
    /// Nothing follows.
    pub open spec fn nothing() -> Outcome {
        Outcome {
            sent: None,
            quit: false,
            ask_again: false,
            release_keyboard: false,
            start_observer: false,
        }
    }
}

impl Effects {
    /// Whether these effects bring about an outcome, in answer to a request.
    pub open spec fn bring(&self, request: OpenRequest, outcome: Outcome) -> bool {
        &&& match outcome.sent {
            Some(Answer::Select(entry_id)) => self.send matches Some(frame) && request.selects(
                frame,
                entry_id,
            ),
            Some(Answer::Cancel) => self.send matches Some(frame) && request.cancels(frame),
            None => self.send is None,
        }
        &&& self.quit == outcome.quit
        &&& self.ask_again == outcome.ask_again
        &&& self.release_keyboard == outcome.release_keyboard
        &&& self.start_observer == outcome.start_observer
    }

    fn none() -> (r: Effects)
        ensures
            r == (Effects {
                send: None,
                quit: false,
                ask_again: false,
                release_keyboard: false,
                start_observer: false,
            }),
    {
        Effects {
            send: None,
            quit: false,
            ask_again: false,
            release_keyboard: false,
            start_observer: false,
        }
    }
}

impl SessionModel {
    /// A session that has just begun.
    pub open spec fn start(connected: bool, dismiss_on_focus_loss: bool) -> SessionModel {
        SessionModel {
            focus: FocusModel::start(),
            pending: None,
            connected,
            dismiss_on_focus_loss,
            keyboard_released: false,
            observer_started: false,
            query: Seq::empty(),
        }
    }

    /// The answer, as far as somebody waits for it.
    pub open spec fn told(self, answer: Answer) -> Option<Answer> {
        if self.connected {
            Some(answer)
        } else {
            None
        }
    }

    /// What follows when the session is cancelled by an event that has the answer, or not.
    pub open spec fn cancelled(self, answers: bool) -> Outcome {
        if answers {
            Outcome { sent: self.told(Answer::Cancel), quit: true, ..Outcome::nothing() }
        } else {
            Outcome::nothing()
        }
    }

    /// The state after an event, and what follows from it.
    pub open spec fn after(self, event: SessionEvent) -> (SessionModel, Outcome) {
        match event {
            SessionEvent::Activate { entry_id, confirmation_required } => {
                if self.focus.terminal_sent {
                    (self, Outcome::nothing())
                } else if confirmation_required && self.pending != Some(entry_id) {
                    (
                        SessionModel { pending: Some(entry_id), ..self },
                        Outcome { ask_again: true, ..Outcome::nothing() },
                    )
                } else {
                    (
                        SessionModel { focus: self.focus.answered(), ..self },
                        Outcome {
                            sent: self.told(Answer::Select(entry_id)),
                            quit: true,
                            ..Outcome::nothing()
                        },
                    )
                }
            },
            SessionEvent::Cancel => {
                let (focus, answers) = self.focus.after(FocusEvent::ClaimTerminal);
                (
                    SessionModel { focus, ..self },
                    Outcome { quit: true, ..self.cancelled(answers) },
                )
            },
            SessionEvent::FocusEntered => {
                (
                    SessionModel {
                        focus: if self.dismiss_on_focus_loss {
                            self.focus.after(FocusEvent::FocusChanged(true)).0
                        } else {
                            self.focus
                        },
                        keyboard_released: true,
                        observer_started: self.observer_started || self.dismiss_on_focus_loss,
                        ..self
                    },
                    Outcome {
                        release_keyboard: !self.keyboard_released,
                        start_observer: self.dismiss_on_focus_loss && !self.observer_started,
                        ..Outcome::nothing()
                    },
                )
            },
            SessionEvent::OtherActivated => {
                if self.dismiss_on_focus_loss {
                    let (focus, answers) = self.focus.after(FocusEvent::FocusChanged(false));
                    (SessionModel { focus, ..self }, self.cancelled(answers))
                } else {
                    (self, Outcome::nothing())
                }
            },
            SessionEvent::Pin(pinned) => {
                let (focus, answers) = self.focus.after(FocusEvent::Pinned(pinned));
                (SessionModel { focus, ..self }, self.cancelled(answers))
            },
            SessionEvent::SocketClosed => {
                (
                    SessionModel { focus: self.focus.answered(), ..self },
                    Outcome { quit: true, ..Outcome::nothing() },
                )
            },
            SessionEvent::Type(c) => {
                (SessionModel { query: self.query.push(c), ..self }, Outcome::nothing())
            },
            SessionEvent::Erase => {
                (
                    SessionModel {
                        query: if self.query.len() > 0 {
                            self.query.drop_last()
                        } else {
                            self.query
                        },
                        ..self
                    },
                    Outcome::nothing(),
                )
            },
        }
    }

    /// The state after several events.
    pub open spec fn after_all(self, events: Seq<SessionEvent>) -> SessionModel
        decreases events.len(),
    {
        if events.len() == 0 {
            self
        } else {
            self.after_all(events.drop_last()).after(events.last()).0
        }
    }

    /// What follows from the event at a place in a sequence of them.
    pub open spec fn outcome(self, events: Seq<SessionEvent>, i: int) -> Outcome {
        self.after_all(events.take(i)).after(events[i]).1
    }
}

impl View for PickerSession {
    type V = SessionModel;

    closed spec fn view(&self) -> SessionModel {
        SessionModel {
            focus: self.lifecycle@,
            pending: protocol::optional_text(self.pending),
            connected: self.connected,
            dismiss_on_focus_loss: self.dismiss_on_focus_loss,
            keyboard_released: self.keyboard_released,
            observer_started: self.observer_started,
            query: self.query@,
        }
    }
}

impl PickerSession {
    pub fn new(connected: bool, dismiss_on_focus_loss: bool) -> (r: PickerSession)
        ensures
            r@ == SessionModel::start(connected, dismiss_on_focus_loss),
    {
        let r = PickerSession {
            lifecycle: FocusLifecycle::default(),
            pending: None,
            connected,
            dismiss_on_focus_loss,
            keyboard_released: false,
            observer_started: false,
            query: String::new(),
        };
        assert(r@.query =~= Seq::<char>::empty());
        r
    }

    /// What the user searches for.
    pub fn query(&self) -> (r: &str)
        ensures
            r@ == self@.query,
    {
        self.query.as_str()
    }

    /// Whether the session is over.
    pub fn has_answered(&self) -> (r: bool)
        ensures
            r == self@.focus.terminal_sent,
    {
        self.lifecycle.has_answered()
    }

    pub fn is_pinned(&self) -> (r: bool)
        ensures
            r == self@.focus.pinned,
    {
        self.lifecycle.is_pinned()
    }

    fn is_pending(&self, entry_id: &str) -> (r: bool)
        ensures
            r == (self@.pending == Some(entry_id@)),
    {
        match &self.pending {
            Some(pending) => text::same_text(pending.as_str(), entry_id),
            None => false,
        }
    }

    /// The user selected the entry at this place in the request.
    pub fn activate_candidate(&mut self, request: &OpenRequest, place: usize) -> (r: Effects)
        requires
            place < request.candidates@.len(),
        ensures
            ({
                let (after, outcome) = old(self)@.after(
                    selection_of(request.candidates@[place as int]),
                );
                final(self)@ == after && r.bring(*request, outcome)
            }),
            ({
                let candidate = request.candidates@[place as int];
                old(self)@.connected && !old(self)@.focus.terminal_sent && (
                candidate.confirmation_required ==> old(self)@.pending == Some(
                    candidate.entry_id@,
                )) ==> r.quit && (r.send matches Some(
                    PickerFrame::Select { selected_protocol_version, request_id, entry_id },
                ) && selected_protocol_version == request.selected_protocol_version
                    && request_id@ == request.request_id@ && entry_id@ == candidate.entry_id@)
            }),
    {
        let candidate = &request.candidates[place];
        let mut effects = Effects::none();
        if self.lifecycle.has_answered() {
            return effects;
        }
        if candidate.confirmation_required && !self.is_pending(candidate.entry_id.as_str()) {
            self.pending = Some(candidate.entry_id.clone());
            effects.ask_again = true;
            return effects;
        }
        if self.lifecycle.claim_terminal() && self.connected {
            effects.send = Some(request.select_frame(candidate.entry_id.as_str()));
        }
        effects.quit = true;
        effects
    }

    /// The user wants no entry.
    pub fn cancel(&mut self, request: &OpenRequest) -> (r: Effects)
        ensures
            ({
                let (after, outcome) = old(self)@.after(SessionEvent::Cancel);
                final(self)@ == after && r.bring(*request, outcome)
            }),
            r.quit,
            old(self)@.connected && !old(self)@.focus.terminal_sent ==> (r.send matches Some(
                PickerFrame::Cancel { selected_protocol_version, request_id },
            ) && selected_protocol_version == request.selected_protocol_version && request_id@
                == request.request_id@),
    {
        let mut effects = Effects::none();
        if self.lifecycle.claim_terminal() && self.connected {
            effects.send = Some(request.cancel_frame());
        }
        effects.quit = true;
        effects
    }

    /// What follows from a transition of the focus.
    fn transition_effects(&self, transition: FocusTransition, request: &OpenRequest) -> (r: Effects)
        ensures
            r.bring(*request, self@.cancelled(transition == FocusTransition::Cancel)),
    {
        let mut effects = Effects::none();
        if matches!(transition, FocusTransition::Cancel) {
            if self.connected {
                effects.send = Some(request.cancel_frame());
            }
            effects.quit = true;
        }
        effects
    }

    /// The picker got the focus.
    pub fn focus_entered(&mut self, request: &OpenRequest) -> (r: Effects)
        ensures
            ({
                let (after, outcome) = old(self)@.after(SessionEvent::FocusEntered);
                final(self)@ == after && r.bring(*request, outcome)
            }),
    {
        let mut effects = Effects::none();
        if self.dismiss_on_focus_loss {
            let transition = self.lifecycle.focus_changed(true);
            assert(transition == FocusTransition::Keep);
        }
        effects.release_keyboard = !self.keyboard_released;
        self.keyboard_released = true;
        if self.dismiss_on_focus_loss {
            effects.start_observer = !self.observer_started;
            self.observer_started = true;
        }
        effects
    }

    /// Another window was activated.
    pub fn other_activated(&mut self, request: &OpenRequest) -> (r: Effects)
        ensures
            ({
                let (after, outcome) = old(self)@.after(SessionEvent::OtherActivated);
                final(self)@ == after && r.bring(*request, outcome)
            }),
    {
        if !self.dismiss_on_focus_loss {
            return Effects::none();
        }
        let transition = self.lifecycle.focus_changed(false);
        self.transition_effects(transition, request)
    }

    /// The user pinned or unpinned the picker.
    pub fn set_pinned(&mut self, request: &OpenRequest, pinned: bool) -> (r: Effects)
        ensures
            ({
                let (after, outcome) = old(self)@.after(SessionEvent::Pin(pinned));
                final(self)@ == after && r.bring(*request, outcome)
            }),
    {
        let transition = self.lifecycle.set_pinned(pinned);
        self.transition_effects(transition, request)
    }

    /// Nobody waits for the answer any more.
    pub fn socket_closed(&mut self, request: &OpenRequest) -> (r: Effects)
        ensures
            ({
                let (after, outcome) = old(self)@.after(SessionEvent::SocketClosed);
                final(self)@ == after && r.bring(*request, outcome)
            }),
    {
        let mut effects = Effects::none();
        let _ = self.lifecycle.claim_terminal();
        effects.quit = true;
        effects
    }

    /// The user typed a character.
    pub fn type_char(&mut self, c: char)
        ensures
            final(self)@ == old(self)@.after(SessionEvent::Type(c)).0,
    {
        self.query.push(c);
    }

    /// The user took a character back.
    pub fn erase(&mut self)
        ensures
            final(self)@ == old(self)@.after(SessionEvent::Erase).0,
    {
        let _ = self.query.pop();
    }
}

/// What a look at the watcher of other windows found.
#[derive(Debug, Clone, Copy, PartialEq, Eq, Structural)]
pub enum ObserverReport {
    /// Another window was activated.
    Activated,
    /// There is nothing new.
    Quiet,
    /// Nothing can be watched.
    Unavailable,
    /// The watcher is gone.
    Disconnected,
}

/// Whether the watcher is looked at again. `answered` tells whether the session was over after
/// what was found.
pub fn keep_observing(report: ObserverReport, answered: bool) -> (r: bool)
    ensures
        r == (report == ObserverReport::Quiet || (report == ObserverReport::Activated
            && !answered)),
{
    match report {
        ObserverReport::Activated => !answered,
        ObserverReport::Quiet => true,
        ObserverReport::Unavailable => false,
        ObserverReport::Disconnected => false,
    }
}

/// How the control that pins the picker presents itself.
pub struct PinTexts {
    pub tooltip: &'static str,
    pub label: &'static str,
    pub description: &'static str,
}

pub fn pin_texts(pinned: bool) -> (r: PinTexts)
    ensures
        pinned ==> r.tooltip@ == "Unpin picker"@ && r.label@ == "Unpin picker"@ && r.description@
            == "Allow this picker to close when another window receives focus"@,
        !pinned ==> r.tooltip@ == "Pin picker so focus loss does not close it"@ && r.label@
            == "Pin picker"@ && r.description@
            == "Keep this picker open when another window receives focus"@,
{
    if pinned {
        PinTexts {
            tooltip: "Unpin picker",
            label: "Unpin picker",
            description: "Allow this picker to close when another window receives focus",
        }
    } else {
        PinTexts {
            tooltip: "Pin picker so focus loss does not close it",
            label: "Pin picker",
            description: "Keep this picker open when another window receives focus",
        }
    }
}

pub const KEY_BACKSPACE: u32 = 0xff08;

pub const KEY_RETURN: u32 = 0xff0d;

pub const KEY_ESCAPE: u32 = 0xff1b;

pub const KEY_UP: u32 = 0xff52;

pub const KEY_DOWN: u32 = 0xff54;

pub const KEY_KEYPAD_ENTER: u32 = 0xff8d;

pub const KEY_DELETE: u32 = 0xffff;

pub const KEY_UPPER_J: u32 = 0x4a;

pub const KEY_UPPER_K: u32 = 0x4b;

pub const KEY_J: u32 = 0x6a;

pub const KEY_K: u32 = 0x6b;

pub const KEY_V: u32 = 0x76;

/// What a key does.
#[derive(Debug, Clone, Copy, PartialEq, Eq, Structural)]
pub enum KeyAction {
    /// Nothing, and nobody else gets it.
    Swallow,
    Cancel,
    Move(Step),
    /// It selects the marked entry.
    Activate,
    /// It takes back a character of the search.
    Erase,
    /// It adds a character to the search.
    Type(char),
    /// It is left to others.
    Pass,
}

/// What a key does, given its symbol, whether Control is held, and the character that it stands
/// for.
pub open spec fn action_of_key(key: u32, control: bool, unicode: Option<char>) -> KeyAction {
    if control && key == KEY_V {
        KeyAction::Swallow
    } else if key == KEY_ESCAPE {
        KeyAction::Cancel
    } else if key == KEY_DOWN || key == KEY_J || key == KEY_UPPER_J {
        KeyAction::Move(Step::Down)
    } else if key == KEY_UP || key == KEY_K || key == KEY_UPPER_K {
        KeyAction::Move(Step::Up)
    } else if key == KEY_RETURN || key == KEY_KEYPAD_ENTER {
        KeyAction::Activate
    } else if key == KEY_BACKSPACE {
        KeyAction::Erase
    } else if key == KEY_DELETE {
        KeyAction::Swallow
    } else {
        match unicode {
            Some(c) => if text::is_control_char(c) {
                KeyAction::Pass
            } else {
                KeyAction::Type(c)
            },
            None => KeyAction::Pass,
        }
    }
}

pub fn key_action(key: u32, control: bool, unicode: Option<char>) -> (r: KeyAction)
    ensures
        r == action_of_key(key, control, unicode),
{
    if control && key == KEY_V {
        return KeyAction::Swallow;
    }
    if key == KEY_ESCAPE {
        KeyAction::Cancel
    } else if key == KEY_DOWN || key == KEY_J || key == KEY_UPPER_J {
        KeyAction::Move(Step::Down)
    } else if key == KEY_UP || key == KEY_K || key == KEY_UPPER_K {
        KeyAction::Move(Step::Up)
    } else if key == KEY_RETURN || key == KEY_KEYPAD_ENTER {
        KeyAction::Activate
    } else if key == KEY_BACKSPACE {
        KeyAction::Erase
    } else if key == KEY_DELETE {
        KeyAction::Swallow
    } else {
        match unicode {
            Some(c) => {
                if text::is_control(c) {
                    KeyAction::Pass
                } else {
                    KeyAction::Type(c)
                }
            },
            None => KeyAction::Pass,
        }
    }
}

/// How many of the first `count` events send something.
pub open spec fn answers_sent(start: SessionModel, events: Seq<SessionEvent>, count: int) -> nat
    decreases count,
{
    if count <= 0 {
        0
    } else {
        answers_sent(start, events, count - 1) + (if start.outcome(events, count - 1).sent is Some {
            1nat
        } else {
            0
        })
    }
}

proof fn one_more_event(start: SessionModel, events: Seq<SessionEvent>, count: int)
    requires
        0 <= count < events.len(),
    ensures
        start.after_all(events.take(count + 1)) == start.after_all(events.take(count)).after(
            events[count],
        ).0,
{
    assert(events.take(count + 1).drop_last() =~= events.take(count));
    assert(events.take(count + 1).last() == events[count]);
}

/// Whatever happens, and in whatever order, a session sends one answer at most, and none if
/// nobody waits for it.
pub proof fn one_answer_per_session(start: SessionModel, events: Seq<SessionEvent>, count: int)
    requires
        0 <= count <= events.len(),
    ensures
        answers_sent(start, events, count) <= 1,
        start.focus.terminal_sent || !start.connected ==> answers_sent(start, events, count) == 0,
        answers_sent(start, events, count) == 1 ==> start.after_all(
            events.take(count),
        ).focus.terminal_sent,
        start.after_all(events.take(count)).connected == start.connected,
        start.focus.terminal_sent ==> start.after_all(events.take(count)).focus.terminal_sent,
    decreases count,
{
    if count > 0 {
        one_answer_per_session(start, events, count - 1);
        one_more_event(start, events, count - 1);
    } else {
        assert(events.take(0).len() == 0);
    }
}

/// Only the user selects: an entry is sent only in answer to its being selected in the picker.
pub proof fn only_the_user_selects(before: SessionModel, event: SessionEvent, entry_id: Seq<char>)
    requires
        before.after(event).1.sent == Some(Answer::Select(entry_id)),
    ensures
        event matches SessionEvent::Activate { entry_id: selected, .. } && selected == entry_id,
{
}

/// What is shown of an entry has no influence on its selection: provider, isolation, realm,
/// application, preview and all the rest neither allow nor prevent it, nor change what is sent.
pub proof fn presentation_does_not_decide(
    before: SessionModel,
    one: Candidate,
    other: Candidate,
)
    requires
        one.entry_id@ == other.entry_id@,
        one.confirmation_required == other.confirmation_required,
    ensures
        before.after(selection_of(one)) == before.after(selection_of(other)),
{
}

/// An entry that has to be confirmed is sent only after it has been selected before.
pub proof fn confirmation_takes_two_selections(
    start: SessionModel,
    events: Seq<SessionEvent>,
    i: int,
    entry_id: Seq<char>,
)
    requires
        start.pending is None,
        0 <= i < events.len(),
        events[i] == (SessionEvent::Activate { entry_id, confirmation_required: true }),
        start.outcome(events, i).sent is Some,
    ensures
        exists|j: int|
            0 <= j < i && (#[trigger] events[j] matches SessionEvent::Activate {
                entry_id: earlier,
                ..
            } && earlier == entry_id),
{
    pending_was_selected(start, events, i, entry_id);
}

proof fn pending_was_selected(
    start: SessionModel,
    events: Seq<SessionEvent>,
    count: int,
    entry_id: Seq<char>,
)
    requires
        start.pending is None,
        0 <= count <= events.len(),
        start.after_all(events.take(count)).pending == Some(entry_id),
    ensures
        exists|j: int|
            0 <= j < count && (#[trigger] events[j] matches SessionEvent::Activate {
                entry_id: earlier,
                ..
            } && earlier == entry_id),
    decreases count,
{
    if count == 0 {
        assert(events.take(0).len() == 0);
    } else {
        one_more_event(start, events, count - 1);
        let before = start.after_all(events.take(count - 1));
        if before.pending == Some(entry_id) {
            pending_was_selected(start, events, count - 1, entry_id);
            let j = choose|j: int|
                0 <= j < count - 1 && (#[trigger] events[j] matches SessionEvent::Activate {
                    entry_id: earlier,
                    ..
                } && earlier == entry_id);
            assert(events[j] matches SessionEvent::Activate { entry_id: earlier, .. } && earlier
                == entry_id);
        } else {
            assert(events[count - 1] matches SessionEvent::Activate { entry_id: earlier, .. }
                && earlier == entry_id);
        }
    }
}

/// An entry that has to be confirmed is asked for again the first time it is selected, and sent
/// the second time.
pub proof fn second_selection_confirms(start: SessionModel, entry_id: Seq<char>)
    requires
        start.connected,
        !start.focus.terminal_sent,
        start.pending != Some(entry_id),
    ensures
        ({
            let select = SessionEvent::Activate { entry_id, confirmation_required: true };
            let (asked, first) = start.after(select);
            let (_, second) = asked.after(select);
            first == (Outcome { ask_again: true, ..Outcome::nothing() }) && second == (Outcome {
                sent: Some(Answer::Select(entry_id)),
                quit: true,
                ..Outcome::nothing()
            })
        }),
{
}

/// While the picker is pinned, the activation of other windows changes nothing that anybody
/// sees.
pub proof fn pinned_session_stays(before: SessionModel)
    requires
        before.focus.pinned,
    ensures
        before.after(SessionEvent::OtherActivated).1 == Outcome::nothing(),
{
}

/// Once the keyboard has been left to others it is not taken back, and other windows are watched
/// once at most.
pub proof fn keyboard_is_released_once(before: SessionModel, event: SessionEvent)
    ensures
        before.keyboard_released ==> before.after(event).0.keyboard_released && !before.after(
            event,
        ).1.release_keyboard,
        before.observer_started ==> before.after(event).0.observer_started && !before.after(
            event,
        ).1.start_observer,
        before.after(event).1.release_keyboard ==> before.after(event).0.keyboard_released,
        before.after(event).1.start_observer ==> before.after(event).0.observer_started,
{
}

/// Searching never answers, and taking back what was typed brings the search back.
pub proof fn searching_does_not_answer(before: SessionModel, c: char)
    ensures
        before.after(SessionEvent::Type(c)).1 == Outcome::nothing(),
        before.after(SessionEvent::Erase).1 == Outcome::nothing(),
        before.after(SessionEvent::Type(c)).0.after(SessionEvent::Erase).0 == before,
{
    assert(before.query.push(c).drop_last() =~= before.query);
}

/// Selecting an entry answers with it: as long as somebody waits and nothing has been answered,
/// an entry that needs no confirmation, or that has been selected once already, is sent under its
/// own id, and the picker goes away. Focus, pin, keyboard and search have no part in it.
pub proof fn selection_is_sent(
    before: SessionModel,
    entry_id: Seq<char>,
    confirmation_required: bool,
)
    requires
        before.connected,
        !before.focus.terminal_sent,
        confirmation_required ==> before.pending == Some(entry_id),
    ensures
        ({
            let (after, outcome) = before.after(
                SessionEvent::Activate { entry_id, confirmation_required },
            );
            &&& outcome.sent == Some(Answer::Select(entry_id))
            &&& outcome.quit
            &&& !outcome.ask_again
            &&& !outcome.release_keyboard
            &&& !outcome.start_observer
            &&& after.focus.terminal_sent
            &&& after.pending == before.pending
        }),
{
}

/// Where nobody waits for the answer, a selection that counts makes the picker go away without
/// a word.
pub proof fn unawaited_selection_ends_the_session(
    before: SessionModel,
    entry_id: Seq<char>,
    confirmation_required: bool,
)
    requires
        !before.connected,
        !before.focus.terminal_sent,
        confirmation_required ==> before.pending == Some(entry_id),
    ensures
        ({
            let (after, outcome) = before.after(
                SessionEvent::Activate { entry_id, confirmation_required },
            );
            &&& outcome.sent is None
            &&& outcome.quit
            &&& !outcome.ask_again
            &&& after.focus.terminal_sent
        }),
{
}

/// Once a session is over, a selection does nothing at all, and nothing else answers or asks.
pub proof fn finished_session_does_nothing(
    before: SessionModel,
    event: SessionEvent,
    entry_id: Seq<char>,
    confirmation_required: bool,
)
    requires
        before.focus.terminal_sent,
    ensures
        ({
            let (after, outcome) = before.after(
                SessionEvent::Activate { entry_id, confirmation_required },
            );
            &&& after == before
            &&& outcome.sent is None
            &&& !outcome.quit
            &&& !outcome.ask_again
            &&& !outcome.release_keyboard
            &&& !outcome.start_observer
        }),
        before.after(event).1.sent is None,
        !before.after(event).1.ask_again,
        before.after(event).0.focus.terminal_sent,
        before.after(event).1.quit ==> event is Cancel || event is SocketClosed,
{
}

/// An entry that needs confirmation and has not been selected just before is not sent: the user
/// is asked, the picker stays, and the next selection of that entry is the one that counts.
pub proof fn unconfirmed_selection_is_asked_for(before: SessionModel, entry_id: Seq<char>)
    requires
        !before.focus.terminal_sent,
        before.pending != Some(entry_id),
    ensures
        ({
            let (after, outcome) = before.after(
                SessionEvent::Activate { entry_id, confirmation_required: true },
            );
            &&& outcome.sent is None
            &&& !outcome.quit
            &&& outcome.ask_again
            &&& !outcome.release_keyboard
            &&& !outcome.start_observer
            &&& after.pending == Some(entry_id)
            &&& after.focus == before.focus
        }),
{
}

/// The user's cancelling answers with a cancellation, as long as somebody waits and nothing has
/// been answered; the picker goes away in any case.
pub proof fn cancelling_is_sent(before: SessionModel)
    ensures
        ({
            let (after, outcome) = before.after(SessionEvent::Cancel);
            &&& before.connected && !before.focus.terminal_sent ==> outcome.sent == Some(
                Answer::Cancel,
            )
            &&& outcome.quit
            &&& !outcome.ask_again
            &&& !outcome.release_keyboard
            &&& !outcome.start_observer
            &&& after.focus.terminal_sent
        }),
{
}

/// Losing the focus to another window cancels a session that is to be dismissed then, that has
/// had the focus and is not pinned; any other session stays as it is for the user.
pub proof fn losing_the_focus_cancels(before: SessionModel)
    ensures
        ({
            let (after, outcome) = before.after(SessionEvent::OtherActivated);
            let dismissed = before.dismiss_on_focus_loss && before.focus.had_focus
                && !before.focus.pinned && !before.focus.terminal_sent;
            &&& dismissed && before.connected ==> outcome.sent == Some(Answer::Cancel)
            &&& outcome.quit == dismissed
            &&& after.focus.terminal_sent == (before.focus.terminal_sent || dismissed)
            &&& before.dismiss_on_focus_loss ==> !after.focus.focused
            &&& !before.dismiss_on_focus_loss ==> after == before
            &&& !dismissed ==> outcome.sent is None
            &&& !outcome.ask_again
            &&& !outcome.release_keyboard
            &&& !outcome.start_observer
        }),
{
}

/// Pinning never answers. Unpinning cancels a session that has had the focus and lost it.
pub proof fn unpinning_may_cancel(before: SessionModel, pinned: bool)
    ensures
        ({
            let (after, outcome) = before.after(SessionEvent::Pin(pinned));
            let dismissed = !pinned && before.focus.had_focus && !before.focus.focused
                && !before.focus.terminal_sent;
            &&& dismissed && before.connected ==> outcome.sent == Some(Answer::Cancel)
            &&& outcome.quit == dismissed
            &&& after.focus.terminal_sent == (before.focus.terminal_sent || dismissed)
            &&& after.focus.pinned == pinned
            &&& !dismissed ==> outcome.sent is None
            &&& !outcome.ask_again
            &&& !outcome.release_keyboard
            &&& !outcome.start_observer
        }),
{
}

/// When nobody waits any more, the picker goes away without a word, and nothing that happens
/// later is answered.
pub proof fn closed_socket_is_not_answered(before: SessionModel, later: SessionEvent)
    ensures
        ({
            let (after, outcome) = before.after(SessionEvent::SocketClosed);
            &&& outcome.sent is None
            &&& outcome.quit
            &&& !outcome.ask_again
            &&& after.focus.terminal_sent
            &&& after.after(later).1.sent is None
            &&& !after.after(later).1.ask_again
        }),
{
}

/// The first time that the picker gets the focus, the keyboard is left to other windows, and
/// other windows are watched if losing the focus dismisses the picker. From then on the session
/// has had the focus. Nothing is answered.
pub proof fn first_focus_releases_the_keyboard(before: SessionModel)
    ensures
        ({
            let (after, outcome) = before.after(SessionEvent::FocusEntered);
            &&& outcome.release_keyboard <==> !before.keyboard_released
            &&& outcome.start_observer <==> before.dismiss_on_focus_loss
                && !before.observer_started
            &&& after.keyboard_released
            &&& before.dismiss_on_focus_loss ==> after.observer_started
            &&& before.dismiss_on_focus_loss ==> after.focus.had_focus && after.focus.focused
            &&& !before.dismiss_on_focus_loss ==> after.focus == before.focus
            &&& !before.dismiss_on_focus_loss ==> after.observer_started == before.observer_started
            &&& after.focus.pinned == before.focus.pinned
            &&& after.focus.terminal_sent == before.focus.terminal_sent
            &&& outcome.sent is None
            &&& !outcome.quit
            &&& !outcome.ask_again
        }),
{
}

/// What an event is not about stays as it was: only a selection changes which entry has to be
/// confirmed, only typing and taking back change the search, only focus and pin change those, and
/// nothing changes whether somebody waits and whether losing the focus dismisses.
pub proof fn events_keep_the_rest(before: SessionModel, event: SessionEvent)
    ensures
        ({
            let after = before.after(event).0;
            &&& after.connected == before.connected
            &&& after.dismiss_on_focus_loss == before.dismiss_on_focus_loss
            &&& !(event is Activate) ==> after.pending == before.pending
            &&& !(event is Type) && !(event is Erase) ==> after.query == before.query
            &&& !(event is FocusEntered) ==> after.keyboard_released == before.keyboard_released
            &&& !(event is FocusEntered) ==> after.observer_started == before.observer_started
            &&& !(event is Pin) ==> after.focus.pinned == before.focus.pinned
            &&& !(event is FocusEntered) ==> after.focus.had_focus == before.focus.had_focus
            &&& !(event is FocusEntered) && !(event is OtherActivated) ==> after.focus.focused
                == before.focus.focused
        }),
{
}

/// Typing adds the character at the end of the search, and taking back removes the last one.
pub proof fn search_is_edited_at_its_end(before: SessionModel, c: char)
    ensures
        ({
            let typed = before.after(SessionEvent::Type(c)).0.query;
            &&& typed.len() == before.query.len() + 1
            &&& typed.last() == c
            &&& forall|i: int| 0 <= i < before.query.len() ==> typed[i] == before.query[i]
        }),
        ({
            let erased = before.after(SessionEvent::Erase).0.query;
            &&& before.query.len() == 0 ==> erased.len() == 0
            &&& before.query.len() > 0 ==> erased.len() == before.query.len() - 1
            &&& forall|i: int| 0 <= i < erased.len() ==> erased[i] == before.query[i]
        }),
{
}

/// A session begins unanswered and unpinned, with nothing searched for, nothing to confirm, the
/// keyboard held and no other window watched.
pub proof fn session_begins_unanswered(connected: bool, dismiss_on_focus_loss: bool)
    ensures
        ({
            let start = SessionModel::start(connected, dismiss_on_focus_loss);
            &&& !start.focus.terminal_sent
            &&& !start.focus.pinned
            &&& !start.focus.had_focus
            &&& !start.focus.focused
            &&& start.pending is None
            &&& start.connected == connected
            &&& start.dismiss_on_focus_loss == dismiss_on_focus_loss
            &&& !start.keyboard_released
            &&& !start.observer_started
            &&& start.query.len() == 0
        }),
{
}

/// An outcome reaches the daemon as it is: a selection as one frame that names the entry, the
/// request and the version that was agreed on, a cancellation as one that names the request and
/// the version, and nothing as no frame.
pub proof fn answers_are_sent_as_frames(effects: Effects, request: OpenRequest, outcome: Outcome)
    requires
        effects.bring(request, outcome),
    ensures
        outcome.sent matches Some(Answer::Select(selected)) ==> (effects.send matches Some(
            PickerFrame::Select { selected_protocol_version, request_id, entry_id },
        ) && selected_protocol_version == request.selected_protocol_version && request_id@
            == request.request_id@ && entry_id@ == selected),
        outcome.sent == Some(Answer::Cancel) ==> (effects.send matches Some(
            PickerFrame::Cancel { selected_protocol_version, request_id },
        ) && selected_protocol_version == request.selected_protocol_version && request_id@
            == request.request_id@),
        outcome.sent is None ==> effects.send is None,
        effects.quit == outcome.quit,
        effects.ask_again == outcome.ask_again,
        effects.release_keyboard == outcome.release_keyboard,
        effects.start_observer == outcome.start_observer,
{
}

/// The keys of the picker: Escape cancels, the arrows and `j` and `k` in either case move the
/// mark, Return and the keypad's Enter select, Backspace takes back a character, Delete and
/// Control-V do nothing.
pub proof fn special_keys(control: bool, unicode: Option<char>)
    ensures
        action_of_key(0xff1b, control, unicode) == KeyAction::Cancel,
        action_of_key(0xff54, control, unicode) == KeyAction::Move(Step::Down),
        action_of_key(0x6a, control, unicode) == KeyAction::Move(Step::Down),
        action_of_key(0x4a, control, unicode) == KeyAction::Move(Step::Down),
        action_of_key(0xff52, control, unicode) == KeyAction::Move(Step::Up),
        action_of_key(0x6b, control, unicode) == KeyAction::Move(Step::Up),
        action_of_key(0x4b, control, unicode) == KeyAction::Move(Step::Up),
        action_of_key(0xff0d, control, unicode) == KeyAction::Activate,
        action_of_key(0xff8d, control, unicode) == KeyAction::Activate,
        action_of_key(0xff08, control, unicode) == KeyAction::Erase,
        action_of_key(0xffff, control, unicode) == KeyAction::Swallow,
        action_of_key(0x76, true, unicode) == KeyAction::Swallow,
{
}

/// Every other key that stands for a character that is no control character adds it to the
/// search, and is left to others if it stands for none.
pub proof fn other_keys_type(key: u32, control: bool, unicode: Option<char>)
    requires
        key != 0xff1b && key != 0xff54 && key != 0x6a && key != 0x4a && key != 0xff52 && key != 0x6b
            && key != 0x4b && key != 0xff0d && key != 0xff8d && key != 0xff08 && key != 0xffff,
        !(control && key == 0x76),
    ensures
        unicode matches Some(c) ==> (' ' <= c <= '~' || '\u{a0}' <= c) ==> action_of_key(
            key,
            control,
            unicode,
        ) == KeyAction::Type(c),
        unicode matches Some(c) ==> (c < ' ' || '~' < c < '\u{a0}') ==> action_of_key(
            key,
            control,
            unicode,
        ) == KeyAction::Pass,
        unicode is None ==> action_of_key(key, control, unicode) == KeyAction::Pass,
{
}

/// The watcher is looked at until it has nothing more to tell: when it cannot watch or is gone,
/// or when another window was activated and the session is over.
pub proof fn watching_ends_with_the_session(report: ObserverReport, answered: bool, r: bool)
    requires
        call_ensures(keep_observing, (report, answered), r),
    ensures
        report is Quiet ==> r,
        report is Unavailable ==> !r,
        report is Disconnected ==> !r,
        report is Activated ==> r == !answered,
{
}

/// The control that pins the picker offers what it would do next.
pub proof fn pin_control_offers_the_opposite(pinned: bool, r: PinTexts)
    requires
        call_ensures(pin_texts, (pinned,), r),
    ensures
        pinned ==> r.label@ == "Unpin picker"@ && r.tooltip@ == "Unpin picker"@,
        !pinned ==> r.label@ == "Pin picker"@ && r.tooltip@
            == "Pin picker so focus loss does not close it"@,
{
}

} // verus!
