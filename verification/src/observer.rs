//! The other windows of the desktop: which of them are active, and when one becomes so.

use std::collections::HashMap;
use vstd::prelude::*;
use wayland_protocols_wlr::foreign_toplevel::v1::client::zwlr_foreign_toplevel_handle_v1 as toplevel_handle;

verus! {

/// The order in which the bytes of a word stand in memory.
#[derive(Debug, Clone, Copy, PartialEq, Eq, Structural)]
pub enum ByteOrder {
    LowFirst,
    HighFirst,
}

/// The word that four bytes make.
pub open spec fn word_of(order: ByteOrder, a: u8, b: u8, c: u8, d: u8) -> nat {
    match order {
        ByteOrder::LowFirst => (a + 0x100 * b + 0x1_0000 * c + 0x100_0000 * d) as nat,
        ByteOrder::HighFirst => (d + 0x100 * c + 0x1_0000 * b + 0x100_0000 * a) as nat,
    }
}

/// The code of the state "activated" in the foreign-toplevel protocol.
pub const ACTIVATED: u32 = 2;

/// Whether a list of window states, one word each, holds the state "activated". Bytes at the end
/// that make no whole word do not count.
pub open spec fn holds_activated(order: ByteOrder, state: Seq<u8>) -> bool {
    exists|i: int|
        #![trigger state[4 * i]]
        0 <= i && 4 * i + 3 < state.len() && word_of(
            order,
            state[4 * i],
            state[4 * i + 1],
            state[4 * i + 2],
            state[4 * i + 3],
        ) == ACTIVATED
}

/// Calls `u32::from_ne_bytes`: the word that four bytes make in the memory of this machine.
/// Which of the two orders that is depends on the machine.
#[verifier::external_body]
fn word_in_memory(bytes: [u8; 4]) -> (r: u32)
    ensures
        r == word_of(ByteOrder::LowFirst, bytes@[0], bytes@[1], bytes@[2], bytes@[3]) || r
            == word_of(ByteOrder::HighFirst, bytes@[0], bytes@[1], bytes@[2], bytes@[3]),
{
    u32::from_ne_bytes(bytes)
}

/// `State::Activated` of the foreign-toplevel handle in `wayland_protocols_wlr`: the protocol
/// gives it the code 2.
#[verifier::external_body]
fn activated_code() -> (r: u32)
    ensures
        r == ACTIVATED,
{
    toplevel_handle::State::Activated as u32
}

/// The byte order of this machine, as it shows in the word that a one and three zeros make.
/// Which of the two it is depends on the machine alone, so nothing is said of it here.
fn native_order() -> ByteOrder {
    order_shown_by(word_in_memory([1, 0, 0, 0]))
}

/// The byte order in which a one and three zeros make this word.
pub fn order_shown_by(word: u32) -> (r: ByteOrder)
    requires
        exists|order: ByteOrder| word == #[trigger] word_of(order, 1, 0, 0, 0),
    ensures
        word == word_of(r, 1, 0, 0, 0),
        forall|order: ByteOrder| word == #[trigger] word_of(order, 1, 0, 0, 0) ==> r == order,
{
    if word == 1 {
        ByteOrder::LowFirst
    } else {
        ByteOrder::HighFirst
    }
}

/// Whether a list of window states in this byte order holds the state "activated".
pub fn is_activated_state_in(order: ByteOrder, state: &[u8]) -> (r: bool)
    ensures
        r == holds_activated(order, state@),
{
    let code: u32 = activated_code();
    let size: usize = state.len();
    let mut at: usize = 0;
    let ghost mut n: int = 0;
    while size - at >= 4
        invariant
            size == state@.len(),
            at <= size,
            at == 4 * n,
            0 <= n,
            code == ACTIVATED,
            forall|i: int|
                #![trigger state@[4 * i]]
                0 <= i < n && 4 * i + 3 < state@.len() ==> word_of(
                    order,
                    state@[4 * i],
                    state@[4 * i + 1],
                    state@[4 * i + 2],
                    state@[4 * i + 3],
                ) != ACTIVATED,
        decreases size - at,
    {
        let a: u32 = state[at] as u32;
        let b: u32 = state[at + 1] as u32;
        let c: u32 = state[at + 2] as u32;
        let d: u32 = state[at + 3] as u32;
        let word: u32 = match order {
            ByteOrder::LowFirst => a + 0x100 * b + 0x1_0000 * c + 0x100_0000 * d,
            ByteOrder::HighFirst => d + 0x100 * c + 0x1_0000 * b + 0x100_0000 * a,
        };
        if word == code {
            assert(state@[4 * n] == a);
            return true;
        }
        at = at + 4;
        proof {
            n = n + 1;
        }
    }
    false
}

/// Whether a list of window states holds the state "activated", in the byte order of this
/// machine.
pub fn is_activated_state(state: &[u8]) -> (r: bool)
    ensures
        exists|order: ByteOrder| r == #[trigger] holds_activated(order, state@),
{
    let order = native_order();
    is_activated_state_in(order, state)
}

/// Whether it is to be told that a window became active: not before the windows that were there
/// at the start are known, and only when it was not active before.
pub fn should_notify_activation(
    baseline_complete: bool,
    was_active: bool,
    is_active: bool,
) -> (r: bool)
    ensures
        r == (baseline_complete && !was_active && is_active),
{
    baseline_complete && !was_active && is_active
}

/// What is known of one window.
#[derive(Debug, Clone, Copy)]
pub struct HandleState {
    pub activated: bool,
    pub pending_activated: Option<bool>,
}

impl HandleState {
    /// A window of which nothing is known yet.
    pub open spec fn fresh() -> HandleState {
        HandleState { activated: false, pending_activated: None }
    }

    /// Whether the window is active once its pending state is taken over.
    pub open spec fn settled(self) -> bool {
        match self.pending_activated {
            Some(activated) => activated,
            None => self.activated,
        }
    }
}

/// What is known of the windows of the desktop.
pub struct ObserverState {
    handles: HashMap<u32, HandleState>,
    baseline_complete: bool,
    stopped: bool,
}

/// The state of an observer of windows.
pub struct ObserverModel {
    pub handles: Map<u32, HandleState>,
    pub baseline_complete: bool,
    pub stopped: bool,
}

impl ObserverModel {
    /// What is known of a window; of a window that was not announced, nothing.
    pub open spec fn handle(self, id: u32) -> HandleState {
        if self.handles.dom().contains(id) {
            self.handles[id]
        } else {
            HandleState::fresh()
        }
    }

    /// The same, but for what is known of one window.
    pub open spec fn with_handle(self, id: u32, handle: HandleState) -> ObserverModel {
        ObserverModel { handles: self.handles.insert(id, handle), ..self }
    }

    /// The state after a window was announced.
    pub open spec fn registered(self, id: u32) -> ObserverModel {
        self.with_handle(id, self.handle(id))
    }

    /// The state in which a window will be active, or not, from its next commit on.
    pub open spec fn with_pending(self, id: u32, activated: bool) -> ObserverModel {
        self.with_handle(
            id,
            HandleState { pending_activated: Some(activated), ..self.handle(id) },
        )
    }

    /// The state after a window is gone.
    pub open spec fn removed(self, id: u32) -> ObserverModel {
        ObserverModel { handles: self.handles.remove(id), ..self }
    }

    /// The state in which all windows of the start are known.
    pub open spec fn with_baseline(self) -> ObserverModel {
        ObserverModel { baseline_complete: true, ..self }
    }

    /// The state in which nothing is watched any more.
    pub open spec fn ended(self) -> ObserverModel {
        ObserverModel { stopped: true, ..self }
    }

    /// Whether taking over the pending state of a window is to be told.
    pub open spec fn notifies(self, id: u32) -> bool {
        self.baseline_complete && !self.handle(id).activated && self.handle(id).settled()
    }

    /// The state after taking over the pending state of a window.
    pub open spec fn committed(self, id: u32) -> ObserverModel {
        self.with_handle(
            id,
            HandleState { activated: self.handle(id).settled(), pending_activated: None },
        )
    }
}

impl View for ObserverState {
    type V = ObserverModel;

    closed spec fn view(&self) -> ObserverModel {
        ObserverModel {
            handles: self.handles@,
            baseline_complete: self.baseline_complete,
            stopped: self.stopped,
        }
    }
}

impl ObserverState {
    pub fn new() -> (r: ObserverState)
        ensures
            r@ == (ObserverModel {
                handles: Map::empty(),
                baseline_complete: false,
                stopped: false,
            }),
    {
        broadcast use vstd::std_specs::hash::group_hash_axioms;

        ObserverState { handles: HashMap::new(), baseline_complete: false, stopped: false }
    }

    /// All windows that were there at the start have been announced.
    pub fn finish_baseline(&mut self)
        ensures
            final(self)@ == (ObserverModel { baseline_complete: true, ..old(self)@ }),
            final(self)@ == old(self)@.with_baseline(),
    {
        self.baseline_complete = true;
    }

    /// Nobody listens any more, or nothing will be told any more.
    pub fn stop(&mut self)
        ensures
            final(self)@ == (ObserverModel { stopped: true, ..old(self)@ }),
            final(self)@ == old(self)@.ended(),
    {
        self.stopped = true;
    }

    pub fn is_stopped(&self) -> (r: bool)
        ensures
            r == self@.stopped,
    {
        self.stopped
    }

    fn handle(&self, id: u32) -> (r: HandleState)
        ensures
            r == self@.handle(id),
    {
        broadcast use vstd::std_specs::hash::group_hash_axioms;

        match self.handles.get(&id) {
            Some(handle) => *handle,
            None => HandleState { activated: false, pending_activated: None },
        }
    }

    fn set_handle(&mut self, id: u32, handle: HandleState)
        ensures
            final(self)@ == old(self)@.with_handle(id, handle),
    {
        broadcast use vstd::std_specs::hash::group_hash_axioms;

        self.handles.insert(id, handle);
    }

    /// A window was announced.
    pub fn register(&mut self, id: u32)
        ensures
            final(self)@ == old(self)@.with_handle(id, old(self)@.handle(id)),
            final(self)@ == old(self)@.registered(id),
    {
        let handle = self.handle(id);
        self.set_handle(id, handle);
    }

    /// A window will be active, or not, from its next commit on.
    pub fn set_pending(&mut self, id: u32, activated: bool)
        ensures
            final(self)@ == old(self)@.with_handle(
                id,
                HandleState { pending_activated: Some(activated), ..old(self)@.handle(id) },
            ),
            final(self)@ == old(self)@.with_pending(id, activated),
    {
        let handle = self.handle(id);
        self.set_handle(
            id,
            HandleState { activated: handle.activated, pending_activated: Some(activated) },
        );
    }

    /// A window will have these states from its next commit on.
    pub fn set_pending_state(&mut self, id: u32, state: &[u8])
        ensures
            exists|order: ByteOrder|
                final(self)@ == old(self)@.with_handle(
                    id,
                    HandleState {
                        pending_activated: Some(#[trigger] holds_activated(order, state@)),
                        ..old(self)@.handle(id)
                    },
                ),
    {
        let activated = is_activated_state(state);
        self.set_pending(id, activated);
    }

    /// The pending state of a window takes effect. The result says whether that is to be told.
    pub fn commit(&mut self, id: u32) -> (r: bool)
        ensures
            r == old(self)@.notifies(id),
            final(self)@ == old(self)@.committed(id),
    {
        let handle = self.handle(id);
        let activated: bool = match handle.pending_activated {
            Some(activated) => activated,
            None => handle.activated,
        };
        let r = should_notify_activation(self.baseline_complete, handle.activated, activated);
        self.set_handle(id, HandleState { activated, pending_activated: None });
        r
    }

    /// A window is gone.
    pub fn remove(&mut self, id: u32)
        ensures
            final(self)@ == (ObserverModel { handles: old(self)@.handles.remove(id), ..old(self)@ }),
            final(self)@ == old(self)@.removed(id),
    {
        broadcast use vstd::std_specs::hash::group_hash_axioms;

        self.handles.remove(&id);
    }
}

/// Before the windows of the start are known nothing is told, and a window that is told of is
/// not told of again by the next commit.
pub proof fn baseline_and_repeats_are_not_told(state: ObserverModel, id: u32)
    ensures
        !state.baseline_complete ==> !state.notifies(id),
        !state.committed(id).notifies(id),
{
}

/// What happens to one window changes nothing that is known of another.
pub proof fn windows_are_independent(state: ObserverModel, id: u32, other: u32)
    requires
        id != other,
    ensures
        state.committed(id).handle(other) == state.handle(other),
        state.committed(id).notifies(other) == state.notifies(other),
{
}

/// Once the windows of the start are known, a window that was not active and becomes so is told
/// of. A window that was active, or is not to be, is not.
pub proof fn activations_are_told(state: ObserverModel, id: u32)
    requires
        state.handles.dom().contains(id),
        state.baseline_complete,
    ensures
        ({
            let known = state.handles[id];
            let told = state.notifies(id);
            &&& known.activated ==> !told
            &&& known.pending_activated == Some(true) && !known.activated ==> told
            &&& known.pending_activated != Some(true) && !known.activated ==> !told
        }),
{
}

/// A commit takes over what is pending, once; where nothing is, the window stays as it was. It
/// changes neither other windows nor whether those of the start are known.
pub proof fn commits_take_over_what_is_pending(state: ObserverModel, id: u32, other: u32)
    ensures
        ({
            let after = state.committed(id);
            &&& after.handles.dom().contains(id)
            &&& after.handles[id].pending_activated is None
            &&& state.handles.dom().contains(id) ==> {
                &&& state.handles[id].pending_activated == Some(true) ==> after.handles[id].activated
                &&& state.handles[id].pending_activated == Some(false)
                    ==> !after.handles[id].activated
                &&& state.handles[id].pending_activated is None ==> after.handles[id].activated
                    == state.handles[id].activated
            }
            &&& !state.handles.dom().contains(id) ==> !after.handles[id].activated
            &&& after.baseline_complete == state.baseline_complete
            &&& after.stopped == state.stopped
            &&& other != id ==> after.handles.dom().contains(other)
                == state.handles.dom().contains(other)
        }),
{
}

/// A window of which nothing is known is not active and not about to be.
pub proof fn unknown_windows_are_not_active(state: ObserverModel, id: u32)
    requires
        !state.handles.dom().contains(id),
    ensures
        !state.handle(id).activated,
        state.handle(id).pending_activated is None,
        !state.notifies(id),
{
}

/// A list of window states tells of activation wherever in it, in a word of its own, the code two
/// stands: with the two first where low bytes come first, and last where high bytes do.
pub proof fn activated_word_is_found(before: Seq<u8>, after: Seq<u8>)
    requires
        before.len() % 4 == 0,
    ensures
        holds_activated(ByteOrder::LowFirst, before + seq![2u8, 0, 0, 0] + after),
        holds_activated(ByteOrder::HighFirst, before + seq![0u8, 0, 0, 2] + after),
{
    let i = before.len() as int / 4;
    let low = before + seq![2u8, 0, 0, 0] + after;
    let high = before + seq![0u8, 0, 0, 2] + after;
    assert(low[4 * i] == 2 && low[4 * i + 1] == 0 && low[4 * i + 2] == 0 && low[4 * i + 3] == 0);
    assert(high[4 * i] == 0 && high[4 * i + 1] == 0 && high[4 * i + 2] == 0 && high[4 * i + 3]
        == 2);
}

/// A list of window states tells of activation only if one of its words is the code two.
pub proof fn only_the_activated_word_counts(order: ByteOrder, state: Seq<u8>)
    requires
        holds_activated(order, state),
    ensures
        exists|i: int|
            #![trigger state[4 * i]]
            {
                &&& 0 <= i
                &&& 4 * i + 3 < state.len()
                &&& state[4 * i + 1] == 0
                &&& state[4 * i + 2] == 0
                &&& order == ByteOrder::LowFirst ==> state[4 * i] == 2 && state[4 * i + 3] == 0
                &&& order == ByteOrder::HighFirst ==> state[4 * i] == 0 && state[4 * i + 3] == 2
            },
{
    let i = choose|i: int|
        #![trigger state[4 * i]]
        0 <= i && 4 * i + 3 < state.len() && word_of(
            order,
            state[4 * i],
            state[4 * i + 1],
            state[4 * i + 2],
            state[4 * i + 3],
        ) == ACTIVATED;
    assert(state[4 * i] >= 0);
}

/// A window is told of when it becomes active, after those of the start are known.
pub proof fn only_new_activations_are_told(
    baseline_complete: bool,
    was_active: bool,
    is_active: bool,
    r: bool,
)
    requires
        call_ensures(should_notify_activation, (baseline_complete, was_active, is_active), r),
    ensures
        !baseline_complete ==> !r,
        was_active ==> !r,
        !is_active ==> !r,
        baseline_complete && !was_active && is_active ==> r,
{
}

/// A window that is about to be active is told of by its next commit, if the windows of the start
/// are known and it was not active; from then on it is active. One that is about not to be is
/// not told of, and is not active from then on.
pub proof fn pending_states_take_effect(state: ObserverModel, id: u32)
    ensures
        state.with_pending(id, true).notifies(id) <==> state.baseline_complete
            && !state.handle(id).activated,
        state.with_pending(id, true).committed(id).handle(id).activated,
        !state.with_pending(id, false).notifies(id),
        !state.with_pending(id, false).committed(id).handle(id).activated,
        state.baseline_complete ==> state.with_pending(id, false).committed(id).with_pending(
            id,
            true,
        ).notifies(id),
        state.with_pending(id, true).handle(id).activated == state.handle(id).activated,
        state.with_pending(id, false).handle(id).activated == state.handle(id).activated,
{
}

/// What is said of a window concerns that window: other windows stay as they are known, and so
/// does whether those of the start are known and whether anything is watched.
pub proof fn other_windows_stay_as_they_are(
    state: ObserverModel,
    id: u32,
    other: u32,
    activated: bool,
)
    requires
        id != other,
    ensures
        state.registered(id).handle(other) == state.handle(other),
        state.with_pending(id, activated).handle(other) == state.handle(other),
        state.removed(id).handle(other) == state.handle(other),
        state.with_pending(id, activated).baseline_complete == state.baseline_complete,
        state.with_pending(id, activated).stopped == state.stopped,
        state.registered(id).baseline_complete == state.baseline_complete,
        state.registered(id).stopped == state.stopped,
        state.removed(id).baseline_complete == state.baseline_complete,
        state.removed(id).stopped == state.stopped,
{
}

/// Announcing a window again forgets nothing, a window that is gone is forgotten, and knowing the
/// windows of the start or ending the watch changes nothing that is known of any window.
pub proof fn windows_are_known_until_they_go(state: ObserverModel, id: u32)
    ensures
        state.registered(id).handles.dom().contains(id),
        state.registered(id).handle(id) == state.handle(id),
        !state.removed(id).handles.dom().contains(id),
        !state.removed(id).handle(id).activated,
        state.removed(id).handle(id).pending_activated is None,
        state.with_baseline().baseline_complete,
        state.with_baseline().handles == state.handles,
        state.with_baseline().stopped == state.stopped,
        state.ended().stopped,
        state.ended().handles == state.handles,
        state.ended().baseline_complete == state.baseline_complete,
{
}

} // verus!
