//! When the picker goes away by itself: losing the focus cancels it, unless it is pinned or has
//! answered already.

use vstd::prelude::*;

verus! {

#[derive(Debug, Clone, Copy, PartialEq, Eq, Structural)]
pub enum FocusTransition {
    Keep,
    Cancel,
}

/// What has happened to the focus of the picker, and whether the picker has answered.
#[derive(Debug)]
pub struct FocusLifecycle {
    had_focus: bool,
    focused: bool,
    pinned: bool,
    terminal_sent: bool,
}

/// The state of a focus lifecycle.
pub struct FocusModel {
    pub had_focus: bool,
    pub focused: bool,
    pub pinned: bool,
    pub terminal_sent: bool,
}

impl View for FocusLifecycle {
    type V = FocusModel;

    closed spec fn view(&self) -> FocusModel {
        FocusModel {
            had_focus: self.had_focus,
            focused: self.focused,
            pinned: self.pinned,
            terminal_sent: self.terminal_sent,
        }
    }
}

/// What can happen to a focus lifecycle.
pub enum FocusEvent {
    /// The focus came or went.
    FocusChanged(bool),
    /// The user pinned or unpinned the picker.
    Pinned(bool),
    /// Something else wants to answer.
    ClaimTerminal,
}

impl FocusModel {
    pub open spec fn start() -> FocusModel {
        FocusModel { had_focus: false, focused: false, pinned: false, terminal_sent: false }
    }

    /// Whether the picker has lost a focus that it had, without being pinned or having answered.
    pub open spec fn is_abandoned(self) -> bool {
        self.had_focus && !self.focused && !self.pinned && !self.terminal_sent
    }

    /// The state with the answer claimed.
    pub open spec fn answered(self) -> FocusModel {
        FocusModel { terminal_sent: true, ..self }
    }

    /// The state after an event, and whether this event may answer.
    pub open spec fn after(self, event: FocusEvent) -> (FocusModel, bool) {
        match event {
            FocusEvent::FocusChanged(true) => (
                FocusModel { had_focus: true, focused: true, ..self },
                false,
            ),
            FocusEvent::FocusChanged(false) => {
                let next = FocusModel { focused: false, ..self };
                (
                    if next.is_abandoned() {
                        next.answered()
                    } else {
                        next
                    },
                    next.is_abandoned(),
                )
            },
            FocusEvent::Pinned(pinned) => {
                let next = FocusModel { pinned, ..self };
                (
                    if next.is_abandoned() {
                        next.answered()
                    } else {
                        next
                    },
                    next.is_abandoned(),
                )
            },
            FocusEvent::ClaimTerminal => (self.answered(), !self.terminal_sent),
        }
    }

    /// The state after several events, and how many of them might answer.
    pub open spec fn after_all(self, events: Seq<FocusEvent>) -> (FocusModel, nat)
        decreases events.len(),
    {
        if events.len() == 0 {
            (self, 0)
        } else {
            let (before, count) = self.after_all(events.drop_last());
            let (after, answers) = before.after(events.last());
            (
                after,
                if answers {
                    count + 1
                } else {
                    count
                },
            )
        }
    }
}

impl Default for FocusLifecycle {
    fn default() -> (r: FocusLifecycle)
        ensures
            r@ == FocusModel::start(),
    {
        FocusLifecycle { had_focus: false, focused: false, pinned: false, terminal_sent: false }
    }
}

impl FocusLifecycle {
    /// The focus came or went. `Cancel` means that the caller has the answer and is to cancel.
    pub fn focus_changed(&mut self, focused: bool) -> (r: FocusTransition)
        ensures
            (final(self)@, r == FocusTransition::Cancel) == old(self)@.after(
                FocusEvent::FocusChanged(focused),
            ),
    {
        self.focused = focused;
        if focused {
            self.had_focus = true;
            return FocusTransition::Keep;
        }
        self.cancel_if_transient()
    }

    /// The user pinned or unpinned the picker.
    pub fn set_pinned(&mut self, pinned: bool) -> (r: FocusTransition)
        ensures
            (final(self)@, r == FocusTransition::Cancel) == old(self)@.after(
                FocusEvent::Pinned(pinned),
            ),
    {
        self.pinned = pinned;
        self.cancel_if_transient()
    }

    pub fn is_pinned(&self) -> (r: bool)
        ensures
            r == self@.pinned,
    {
        self.pinned
    }

    /// Whether the picker has answered.
    pub fn has_answered(&self) -> (r: bool)
        ensures
            r == self@.terminal_sent,
    {
        self.terminal_sent
    }

    /// Takes the one answer that the picker has. Only the first caller gets it.
    pub fn claim_terminal(&mut self) -> (r: bool)
        ensures
            (final(self)@, r) == old(self)@.after(FocusEvent::ClaimTerminal),
    {
        if self.terminal_sent {
            false
        } else {
            self.terminal_sent = true;
            true
        }
    }

    fn cancel_if_transient(&mut self) -> (r: FocusTransition)
        ensures
            (r == FocusTransition::Cancel) == old(self)@.is_abandoned(),
            final(self)@ == (if old(self)@.is_abandoned() {
                old(self)@.answered()
            } else {
                old(self)@
            }),
    {
        if self.had_focus && !self.focused && !self.pinned && self.claim_terminal() {
            FocusTransition::Cancel
        } else {
            FocusTransition::Keep
        }
    }
}

/// Whatever happens, and in whatever order, the picker answers once at most: it has the answer
/// as long as nothing took it, and nobody gets it a second time.
pub proof fn at_most_one_answer(start: FocusModel, events: Seq<FocusEvent>)
    ensures
        start.after_all(events).1 <= 1,
        start.after_all(events).1 == 1 ==> !start.terminal_sent,
        start.after_all(events).0.terminal_sent == (start.terminal_sent || start.after_all(
            events,
        ).1 == 1),
    decreases events.len(),
{
    if events.len() > 0 {
        at_most_one_answer(start, events.drop_last());
    }
}

/// A picker that has not had the focus yet is not cancelled for not having it, nor for being
/// pinned or unpinned.
pub proof fn startup_does_not_cancel(start: FocusModel, event: FocusEvent)
    requires
        !start.had_focus,
        event !is ClaimTerminal,
    ensures
        !start.after(event).1,
        start.after(event).0.terminal_sent == start.terminal_sent,
{
}

/// A pinned picker does not go away when it loses the focus.
pub proof fn pinned_picker_stays(start: FocusModel, focused: bool)
    requires
        start.pinned,
    ensures
        !start.after(FocusEvent::FocusChanged(focused)).1,
        start.after(FocusEvent::FocusChanged(focused)).0.pinned,
{
}

/// Unpinning a picker that has lost its focus meanwhile cancels it, if it has not answered.
pub proof fn unpinning_without_focus_cancels(start: FocusModel)
    requires
        start.had_focus,
        start.pinned,
        !start.terminal_sent,
    ensures
        start.after(FocusEvent::FocusChanged(false)).0.after(FocusEvent::Pinned(false)).1,
{
}

/// The one answer is had by the first that claims it, and by nobody after.
pub proof fn first_claim_has_the_answer(state: FocusModel)
    ensures
        state.after(FocusEvent::ClaimTerminal).1 <==> !state.terminal_sent,
        state.after(FocusEvent::ClaimTerminal).0.terminal_sent,
        !state.after(FocusEvent::ClaimTerminal).0.after(FocusEvent::ClaimTerminal).1,
{
}

/// Getting the focus is remembered and cancels nothing. Losing it cancels exactly where the
/// picker has had it, is not pinned, and has not answered.
pub proof fn losing_the_focus_cancels_once(state: FocusModel)
    ensures
        ({
            let (after, cancels) = state.after(FocusEvent::FocusChanged(true));
            &&& !cancels
            &&& after.had_focus
            &&& after.focused
            &&& after.pinned == state.pinned
            &&& after.terminal_sent == state.terminal_sent
        }),
        ({
            let (after, cancels) = state.after(FocusEvent::FocusChanged(false));
            &&& cancels <==> state.had_focus && !state.pinned && !state.terminal_sent
            &&& after.had_focus == state.had_focus
            &&& !after.focused
            &&& after.pinned == state.pinned
            &&& after.terminal_sent <==> state.terminal_sent || cancels
        }),
{
}

/// Pinning cancels nothing. Unpinning cancels exactly where the picker has had the focus, does not
/// have it, and has not answered.
pub proof fn unpinning_cancels_an_abandoned_picker(state: FocusModel, pinned: bool)
    ensures
        ({
            let (after, cancels) = state.after(FocusEvent::Pinned(pinned));
            &&& cancels <==> !pinned && state.had_focus && !state.focused && !state.terminal_sent
            &&& after.pinned == pinned
            &&& after.had_focus == state.had_focus
            &&& after.focused == state.focused
            &&& after.terminal_sent <==> state.terminal_sent || cancels
        }),
{
}

} // verus!
