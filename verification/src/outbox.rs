//! What still needs to reach the server, kept as plain state (not a queue)
//! so that button and occupancy handling can record it without ever waiting
//! on the network.
//!
//! - Presses and cancels: one state word per person, a sequence counter
//!   bumped on every press or cancel with a "was a cancel" flag in the low
//!   bit, plus the last word the server acknowledged. `state != acked` means
//!   something is owed, and the flag says which action: only the latest
//!   action per person is ever sent.
//! - Occupancy: the latest debounced value plus the last value the server
//!   acknowledged; only the current value is sent, and only when it differs.
use vstd::prelude::*;

use crate::config::NUM_PEOPLE;

verus! {

/// The low bit of a state word: the latest action was a cancel.
pub const CANCEL_FLAG: u32 = 1;

/// Occupancy codes kept in the outbox.
pub const OCC_UNKNOWN: u8 = 0;
pub const OCC_FREE: u8 = 1;
pub const OCC_OCCUPIED: u8 = 2;

/// One thing to deliver next. `state` is the person's state word.
#[derive(Clone, Copy, Debug, PartialEq, Eq, Structural)]
pub enum Outgoing {
    Press { person_idx: usize, state: u32 },
    Cancel { person_idx: usize, state: u32 },
    Occupancy { occupied: bool },
}

/// The pending state of everything owed to the server.
pub struct Outbox {
    press_state: [u32; NUM_PEOPLE],
    press_acked: [u32; NUM_PEOPLE],
    occ_current: u8,
    occ_last_sent: u8,
}

/// The mathematical content of an [`Outbox`].
pub struct OutboxView {
    /// `(counter << 1) | is_cancel` per person; 0 means nothing happened yet.
    pub state: Seq<u32>,
    /// The last state word the server acknowledged, per person.
    pub acked: Seq<u32>,
    /// Latest debounced occupancy code (`OCC_*`).
    pub occ_current: u8,
    /// Last occupancy code the server acknowledged.
    pub occ_last_sent: u8,
}

impl View for Outbox {
    type V = OutboxView;

    closed spec fn view(&self) -> OutboxView {
        OutboxView {
            state: self.press_state@,
            acked: self.press_acked@,
            occ_current: self.occ_current,
            occ_last_sent: self.occ_last_sent,
        }
    }
}

/// The state word after one more action: the counter (bits 1..) goes up by
/// one, wrapping within 31 bits, and the low bit records whether it was a
/// cancel.
pub open spec fn next_word(v: u32, cancel: bool) -> u32 {
    ((((v / 2) + 1) * 2) % 0x1_0000_0000 + (if cancel { 1int } else { 0int })) as u32
}

/// The occupancy code for a debounced reading.
pub open spec fn occ_code(occupied: bool) -> u8 {
    if occupied { OCC_OCCUPIED } else { OCC_FREE }
}

impl OutboxView {
    /// Both per-person tables cover every person.
    pub open spec fn wf(self) -> bool {
        &&& self.state.len() == NUM_PEOPLE
        &&& self.acked.len() == NUM_PEOPLE
        &&& self.occ_current <= OCC_OCCUPIED
        &&& self.occ_last_sent <= OCC_OCCUPIED
    }

    /// What person `p` did last that the server has not acknowledged:
    /// `Some(true)` for a press, `Some(false)` for a cancel.
    pub open spec fn intent(self, p: int) -> Option<bool> {
        if self.state[p] != self.acked[p] {
            Some(self.state[p] % 2 == 0)
        } else {
            None
        }
    }

    /// The delivery owed for person `p`, if any.
    pub open spec fn press_item(self, p: int) -> Option<Outgoing> {
        if self.state[p] != self.acked[p] {
            if self.state[p] % 2 == 0 {
                Some(Outgoing::Press { person_idx: p as usize, state: self.state[p] })
            } else {
                Some(Outgoing::Cancel { person_idx: p as usize, state: self.state[p] })
            }
        } else {
            None
        }
    }

    /// The first owed press or cancel among persons `p..NUM_PEOPLE`.
    pub open spec fn first_press_item(self, p: int) -> Option<Outgoing>
        decreases NUM_PEOPLE - p,
    {
        if p >= NUM_PEOPLE || p < 0 {
            None
        } else if self.press_item(p) is Some {
            self.press_item(p)
        } else {
            self.first_press_item(p + 1)
        }
    }

    /// The occupancy delivery owed, if any: a known reading that differs
    /// from the last one delivered.
    pub open spec fn occupancy_item(self) -> Option<Outgoing> {
        if self.occ_current != OCC_UNKNOWN && self.occ_current != self.occ_last_sent {
            Some(Outgoing::Occupancy { occupied: self.occ_current == OCC_OCCUPIED })
        } else {
            None
        }
    }

    /// The next thing to deliver: presses and cancels first, in person
    /// order, then occupancy.
    pub open spec fn next_item(self) -> Option<Outgoing> {
        if self.first_press_item(0) is Some {
            self.first_press_item(0)
        } else {
            self.occupancy_item()
        }
    }

    /// The outbox after `item` has been answered by the server.
    pub open spec fn completed(self, item: Outgoing) -> OutboxView {
        match item {
            Outgoing::Press { person_idx, state } => OutboxView {
                acked: self.acked.update(person_idx as int, state),
                ..self
            },
            Outgoing::Cancel { person_idx, state } => OutboxView {
                acked: self.acked.update(person_idx as int, state),
                ..self
            },
            Outgoing::Occupancy { occupied } => OutboxView {
                occ_last_sent: occ_code(occupied),
                ..self
            },
        }
    }

    /// The outbox after person `p` pressed (`cancel == false`) or cancelled.
    pub open spec fn recorded(self, p: int, cancel: bool) -> OutboxView {
        OutboxView { state: self.state.update(p, next_word(self.state[p], cancel)), ..self }
    }
}

/// The person an item is about, if it is a press or a cancel.
pub open spec fn item_person(item: Outgoing) -> Option<usize> {
    match item {
        Outgoing::Press { person_idx, .. } => Some(person_idx),
        Outgoing::Cancel { person_idx, .. } => Some(person_idx),
        Outgoing::Occupancy { .. } => None,
    }
}

/// An item whose person (if any) exists.
pub open spec fn item_ok(item: Outgoing) -> bool {
    match item_person(item) {
        Some(p) => p < NUM_PEOPLE,
        None => true,
    }
}

impl Outbox {
    /// Nothing has happened and nothing is owed.
    pub fn new() -> (o: Outbox)
        ensures
            o@.wf(),
            forall|p: int| 0 <= p < NUM_PEOPLE ==> o@.state[p] == 0 && o@.acked[p] == 0,
            o@.occ_current == OCC_UNKNOWN,
            o@.occ_last_sent == OCC_UNKNOWN,
    {
        Outbox {
            press_state: [0u32; NUM_PEOPLE],
            press_acked: [0u32; NUM_PEOPLE],
            occ_current: OCC_UNKNOWN,
            occ_last_sent: OCC_UNKNOWN,
        }
    }

    /// Bumps person `person_idx`'s state word, flagging it as a cancel or not.
    fn record(&mut self, person_idx: usize, cancel: bool)
        requires
            old(self)@.wf(),
            person_idx < NUM_PEOPLE,
        ensures
            final(self)@.wf(),
            final(self)@ == old(self)@.recorded(person_idx as int, cancel),
    {
        let flag: u32 = if cancel { CANCEL_FLAG } else { 0 };
        let v: u32 = self.press_state[person_idx];
        let counter: u32 = (v >> 1u32).wrapping_add(1);
        let next: u32 = (counter << 1u32) | flag;
        assert(next == next_word(v, cancel)) by {
            assert((v >> 1u32) == v / 2) by (bit_vector);
            assert(v / 2 < 0x8000_0000) by (bit_vector);
            assert(counter == v / 2 + 1);
            assert(((counter << 1u32) as int) == (counter * 2) % 0x1_0000_0000) by (bit_vector);
            assert(((counter << 1u32) | flag) == (counter << 1u32) + flag) by (bit_vector)
                requires
                    flag <= 1,
            ;
        }
        self.press_state[person_idx] = next;
        proof {
            assert(self@.state =~= old(self)@.state.update(person_idx as int, next));
        }
    }

    /// Records a press. Never blocks, whatever the network state.
    pub fn mark_press(&mut self, person_idx: usize)
        requires
            old(self)@.wf(),
            person_idx < NUM_PEOPLE,
        ensures
            final(self)@.wf(),
            final(self)@ == old(self)@.recorded(person_idx as int, false),
    {
        self.record(person_idx, false);
    }

    /// Records a cancel (long press), superseding any press not yet delivered.
    pub fn mark_cancel(&mut self, person_idx: usize)
        requires
            old(self)@.wf(),
            person_idx < NUM_PEOPLE,
        ensures
            final(self)@.wf(),
            final(self)@ == old(self)@.recorded(person_idx as int, true),
    {
        self.record(person_idx, true);
    }

    /// Records the latest debounced occupancy.
    pub fn set_occupancy(&mut self, occupied: bool)
        requires
            old(self)@.wf(),
        ensures
            final(self)@.wf(),
            final(self)@ == (OutboxView { occ_current: occ_code(occupied), ..old(self)@ }),
    {
        let v: u8 = if occupied { OCC_OCCUPIED } else { OCC_FREE };
        self.occ_current = v;
    }

    /// What `person_idx` did last that the server has not acknowledged yet
    /// (including while that delivery is in flight): `Some(true)` for a
    /// press, `Some(false)` for a cancel, `None` if nothing is owed.
    pub fn pending_intent(&self, person_idx: usize) -> (r: Option<bool>)
        requires
            self@.wf(),
            person_idx < NUM_PEOPLE,
        ensures
            r == self@.intent(person_idx as int),
    {
        let state: u32 = self.press_state[person_idx];
        if state != self.press_acked[person_idx] {
            let is_press = state & CANCEL_FLAG == 0;
            assert(is_press == (state % 2 == 0)) by (bit_vector)
                requires
                    is_press == (state & 1 == 0),
            ;
            Some(is_press)
        } else {
            None
        }
    }

    /// `pending_intent` for every person.
    pub fn pending_intents(&self) -> (r: [Option<bool>; NUM_PEOPLE])
        requires
            self@.wf(),
        ensures
            forall|p: int| 0 <= p < NUM_PEOPLE ==> r[p] == self@.intent(p),
    {
        let r = [
            self.pending_intent(0),
            self.pending_intent(1),
            self.pending_intent(2),
            self.pending_intent(3),
            self.pending_intent(4),
        ];
        assert(r[0] == self@.intent(0));
        assert(r[1] == self@.intent(1));
        assert(r[2] == self@.intent(2));
        assert(r[3] == self@.intent(3));
        assert(r[4] == self@.intent(4));
        r
    }

    /// The next thing to deliver, if any. Does not consume it: `complete`
    /// it once the server has answered, otherwise it comes back.
    pub fn next(&self) -> (r: Option<Outgoing>)
        requires
            self@.wf(),
        ensures
            r == self@.next_item(),
    {
        let mut person_idx: usize = 0;
        while person_idx < NUM_PEOPLE
            invariant
                person_idx <= NUM_PEOPLE,
                self@.first_press_item(0) == self@.first_press_item(person_idx as int),
            decreases NUM_PEOPLE - person_idx,
        {
            let state: u32 = self.press_state[person_idx];
            if state != self.press_acked[person_idx] {
                let is_press = state & CANCEL_FLAG == 0;
                assert(is_press == (state % 2 == 0)) by (bit_vector)
                    requires
                        is_press == (state & 1 == 0),
                ;
                return Some(
                    if is_press {
                        Outgoing::Press { person_idx, state }
                    } else {
                        Outgoing::Cancel { person_idx, state }
                    },
                );
            }
            person_idx = person_idx + 1;
        }
        let current: u8 = self.occ_current;
        if current != OCC_UNKNOWN && current != self.occ_last_sent {
            return Some(Outgoing::Occupancy { occupied: current == OCC_OCCUPIED });
        }
        None
    }

    /// Marks `item` as no longer pending. For a press or cancel this
    /// acknowledges exactly the state word that was sent, so an action that
    /// arrived meanwhile stays pending.
    pub fn complete(&mut self, item: &Outgoing)
        requires
            old(self)@.wf(),
            item_ok(*item),
        ensures
            final(self)@.wf(),
            final(self)@ == old(self)@.completed(*item),
    {
        match *item {
            Outgoing::Press { person_idx, state } => {
                self.press_acked[person_idx] = state;
            },
            Outgoing::Cancel { person_idx, state } => {
                self.press_acked[person_idx] = state;
            },
            Outgoing::Occupancy { occupied } => {
                let v: u8 = if occupied { OCC_OCCUPIED } else { OCC_FREE };
                self.occ_last_sent = v;
            },
        }
        proof {
            assert(self@.acked =~= old(self)@.completed(*item).acked);
        }
    }
}

} // verus!
verus! {

/// Every press or cancel changes the person's state word.
pub proof fn lemma_next_word_differs(v: u32, cancel: bool)
    ensures
        next_word(v, cancel) != v,
        next_word(v, cancel) % 2 == (if cancel { 1int } else { 0int }),
{
}

/// The first owed press or cancel from person `p` on is the owed item of
/// the lowest such person, and there is none exactly when no one from `p`
/// on owes anything.
pub proof fn lemma_first_press_item(v: OutboxView, p: int)
    requires
        0 <= p <= NUM_PEOPLE,
    ensures
        (v.first_press_item(p) is None) <==> (forall|q: int| p <= q < NUM_PEOPLE ==> v.press_item(q) is None),
        v.first_press_item(p) is Some ==> exists|q: int|
            p <= q < NUM_PEOPLE && v.first_press_item(p) == v.press_item(q) && (forall|r: int|
                p <= r < q ==> v.press_item(r) is None),
    decreases NUM_PEOPLE - p,
{
    if p < NUM_PEOPLE {
        lemma_first_press_item(v, p + 1);
        if v.press_item(p) is Some {
            assert(v.first_press_item(p) == v.press_item(p));
        } else {
            if v.first_press_item(p + 1) is Some {
                let q = choose|q: int|
                    p + 1 <= q < NUM_PEOPLE && v.first_press_item(p + 1) == v.press_item(q) && (
                    forall|r: int| p + 1 <= r < q ==> v.press_item(r) is None);
                assert forall|r: int| p <= r < q implies v.press_item(r) is None by {
                    if r > p {
                    }
                }
            }
        }
    }
}

/// A fresh outbox owes nothing: no occupancy is sent before the first
/// reading, and no press before the first button action.
pub proof fn law_fresh_outbox_owes_nothing(v: OutboxView)
    requires
        v.wf(),
        forall|p: int| 0 <= p < NUM_PEOPLE ==> v.state[p] == 0 && v.acked[p] == 0,
        v.occ_current == OCC_UNKNOWN,
    ensures
        v.next_item() is None,
{
    lemma_first_press_item(v, 0);
}

/// Presses and cancels are delivered before occupancy, and what is
/// delivered is exactly what its person owes: the person's current state
/// word, as a press or a cancel according to their latest action.
pub proof fn law_next_item_is_owed(v: OutboxView)
    requires
        v.wf(),
    ensures
        (exists|p: int| 0 <= p < NUM_PEOPLE && v.intent(p) is Some) ==> item_person(
            v.next_item().unwrap(),
        ) is Some && v.next_item() is Some,
        v.next_item() matches Some(Outgoing::Press { person_idx, state }) ==> person_idx
            < NUM_PEOPLE && state == v.state[person_idx as int] && v.intent(person_idx as int)
            == Some(true),
        v.next_item() matches Some(Outgoing::Cancel { person_idx, state }) ==> person_idx
            < NUM_PEOPLE && state == v.state[person_idx as int] && v.intent(person_idx as int)
            == Some(false),
        v.next_item() matches Some(Outgoing::Occupancy { occupied }) ==> (forall|p: int|
            0 <= p < NUM_PEOPLE ==> v.intent(p) is None) && v.occ_current == occ_code(occupied)
            && v.occ_current != v.occ_last_sent,
        v.next_item() is None <==> ((forall|p: int| 0 <= p < NUM_PEOPLE ==> v.intent(p) is None)
            && v.occupancy_item() is None),
{
    lemma_first_press_item(v, 0);
    if exists|p: int| 0 <= p < NUM_PEOPLE && v.intent(p) is Some {
        let p = choose|p: int| 0 <= p < NUM_PEOPLE && v.intent(p) is Some;
        assert(v.press_item(p) is Some);
    }
    if v.first_press_item(0) is Some {
        let q = choose|q: int|
            0 <= q < NUM_PEOPLE && v.first_press_item(0) == v.press_item(q) && (forall|r: int|
                0 <= r < q ==> v.press_item(r) is None);
        assert(v.press_item(q) is Some);
    } else {
        assert forall|p: int| 0 <= p < NUM_PEOPLE implies v.intent(p) is None by {
            assert(v.press_item(p) is None);
        }
    }
}

/// Recording an action leaves that action as what is owed for the person
/// (unless the word has come round to the acknowledged one) and touches
/// nothing else.
pub proof fn law_latest_action_is_owed(v: OutboxView, p: int, cancel: bool)
    requires
        v.wf(),
        0 <= p < NUM_PEOPLE,
    ensures
        v.recorded(p, cancel).intent(p) == Some(!cancel) || (v.recorded(p, cancel).intent(p) is None
            && next_word(v.state[p], cancel) == v.acked[p]),
        forall|q: int| 0 <= q < NUM_PEOPLE && q != p ==> v.recorded(p, cancel).intent(q) == v.intent(q),
        v.recorded(p, cancel).occupancy_item() == v.occupancy_item(),
{
    lemma_next_word_differs(v.state[p], cancel);
}

/// A press followed by a cancel collapses into a single cancel: what is
/// owed for that person is a cancel, and once that one delivery is
/// acknowledged nothing is owed for them any more.
pub proof fn law_press_then_cancel_is_one_cancel(v: OutboxView, p: int)
    requires
        v.wf(),
        0 <= p < NUM_PEOPLE,
        v.recorded(p, false).recorded(p, true).press_item(p) is Some,
    ensures
        ({
            let w = v.recorded(p, false).recorded(p, true);
            let item = w.press_item(p).unwrap();
            &&& item matches Outgoing::Cancel { person_idx, state } && person_idx == p
            &&& w.completed(item).press_item(p) is None
        }),
{
    let w = v.recorded(p, false).recorded(p, true);
    lemma_next_word_differs(v.recorded(p, false).state[p], true);
    assert(w.state[p] % 2 == 1);
}

/// The outbox after person `p` made the actions `acts` in order, each
/// `true` for a cancel and `false` for a press.
pub open spec fn recorded_all(v: OutboxView, p: int, acts: Seq<bool>) -> OutboxView
    decreases acts.len(),
{
    if acts.len() == 0 {
        v
    } else {
        recorded_all(v, p, acts.drop_last()).recorded(p, acts.last())
    }
}

/// The counter of a state word (bits 1..).
pub open spec fn word_counter(w: u32) -> int {
    w as int / 2
}

/// One action moves the counter on by one, modulo 2^31, and sets the low
/// bit to the kind of action.
pub proof fn lemma_next_word_counter(v: u32, cancel: bool)
    ensures
        word_counter(next_word(v, cancel)) == (word_counter(v) + 1) % 0x8000_0000,
        next_word(v, cancel) % 2 == (if cancel { 1int } else { 0int }),
{
}

/// After `acts`, person `p`'s counter has moved on by `acts.len()` modulo
/// 2^31, the low bit is the kind of the last action, and nothing else in
/// the outbox has changed.
pub proof fn lemma_recorded_all(v: OutboxView, p: int, acts: Seq<bool>)
    requires
        v.wf(),
        0 <= p < NUM_PEOPLE,
    ensures
        ({
            let w = recorded_all(v, p, acts);
            &&& w.wf()
            &&& w.acked == v.acked
            &&& w.occ_current == v.occ_current
            &&& w.occ_last_sent == v.occ_last_sent
            &&& forall|q: int| 0 <= q < NUM_PEOPLE && q != p ==> w.state[q] == v.state[q]
            &&& word_counter(w.state[p]) == (word_counter(v.state[p]) + acts.len()) % 0x8000_0000
            &&& acts.len() > 0 ==> w.state[p] % 2 == (if acts.last() { 1int } else { 0int })
        }),
    decreases acts.len(),
{
    if acts.len() > 0 {
        let u = recorded_all(v, p, acts.drop_last());
        lemma_recorded_all(v, p, acts.drop_last());
        lemma_next_word_counter(u.state[p], acts.last());
        let c = word_counter(v.state[p]);
        let n = acts.len() - 1;
        vstd::arithmetic::div_mod::lemma_add_mod_noop(c + n, 1, 0x8000_0000);
    } else {
        assert(word_counter(v.state[p]) < 0x8000_0000);
    }
}

/// Two counters taken `k` actions apart, with `0 < k < 2^31`, differ.
pub proof fn lemma_counter_moves(c: int, k: int)
    requires
        0 <= c < 0x8000_0000,
        0 < k < 0x8000_0000,
    ensures
        (c + k) % 0x8000_0000 != c,
{
    if c + k >= 0x8000_0000 {
        assert((c + k) % 0x8000_0000 == c + k - 0x8000_0000);
    } else {
        assert((c + k) % 0x8000_0000 == c + k);
    }
}

/// A person's state word never comes back within fewer than 2^31 of their
/// actions: after any such nonempty run of actions it differs from the
/// word before the run, so each word tells apart every one of the
/// 2^31 - 1 words before it, and its low bit is the kind of the latest
/// action.
pub proof fn law_word_differs_from_earlier(v: OutboxView, p: int, acts: Seq<bool>)
    requires
        v.wf(),
        0 <= p < NUM_PEOPLE,
        1 <= acts.len() < 0x8000_0000,
    ensures
        recorded_all(v, p, acts).state[p] != v.state[p],
        recorded_all(v, p, acts).state[p] % 2 == (if acts.last() { 1int } else { 0int }),
{
    lemma_recorded_all(v, p, acts);
    lemma_counter_moves(word_counter(v.state[p]), acts.len() as int);
}

/// Actions that land while an earlier delivery for the same person is in
/// flight are never lost: however many there were (fewer than the 2^31
/// after which the counter comes round), acknowledging the earlier word
/// leaves the latest of them owed.
pub proof fn law_actions_during_delivery_not_lost(v: OutboxView, item: Outgoing, acts: Seq<bool>)
    requires
        v.wf(),
        v.next_item() == Some(item),
        item_person(item) is Some,
        1 <= acts.len() < 0x8000_0000,
    ensures
        ({
            let p = item_person(item).unwrap() as int;
            recorded_all(v, p, acts).completed(item).intent(p) == Some(!acts.last())
        }),
{
    law_next_item_is_owed(v);
    let p = item_person(item).unwrap() as int;
    lemma_recorded_all(v, p, acts);
    let w = recorded_all(v, p, acts);
    let c = word_counter(v.state[p]);
    lemma_counter_moves(c, acts.len() as int);
    assert(word_counter(w.state[p]) != word_counter(v.state[p]));
    assert(w.completed(item).acked[p] == v.state[p]);
}

/// One thing that can happen to an outbox: an action by a person, a new
/// occupancy reading, or the server's answer to a delivered item.
pub enum OutboxEvent {
    Press(usize),
    Cancel(usize),
    Occupancy(bool),
    Complete(Outgoing),
}

/// The outbox after one event, as `mark_press`, `mark_cancel`,
/// `set_occupancy` and `complete` change it.
pub open spec fn step(v: OutboxView, e: OutboxEvent) -> OutboxView {
    match e {
        OutboxEvent::Press(q) => v.recorded(q as int, false),
        OutboxEvent::Cancel(q) => v.recorded(q as int, true),
        OutboxEvent::Occupancy(occupied) => OutboxView { occ_current: occ_code(occupied), ..v },
        OutboxEvent::Complete(item) => v.completed(item),
    }
}

/// The outbox after the first `k` events of `es`.
pub open spec fn after(v: OutboxView, es: Seq<OutboxEvent>, k: int) -> OutboxView
    decreases k,
{
    if k <= 0 {
        v
    } else {
        step(after(v, es, k - 1), es[k - 1])
    }
}

/// Whether `e` is a press or a cancel by person `p`.
pub open spec fn is_action_of(e: OutboxEvent, p: int) -> bool {
    match e {
        OutboxEvent::Press(q) => q == p,
        OutboxEvent::Cancel(q) => q == p,
        _ => false,
    }
}

/// How many of the first `k` events of `es` are actions by person `p`.
pub open spec fn actions_of(es: Seq<OutboxEvent>, p: int, k: int) -> nat
    decreases k,
{
    if k <= 0 {
        0
    } else {
        actions_of(es, p, k - 1) + (if is_action_of(es[k - 1], p) { 1nat } else { 0nat })
    }
}

/// `item` is what `next` gave after some prefix of at most `bound` events.
pub open spec fn taken_by(v: OutboxView, es: Seq<OutboxEvent>, item: Outgoing, bound: int) -> bool {
    exists|j: int| #![trigger after(v, es, j)] 0 <= j <= bound && after(v, es, j).next_item() == Some(item)
}

/// Event `k` is one the methods accept: an action names an existing
/// person, and an item the server answered is one that `next` gave at or
/// before that point.
pub open spec fn event_ok(v: OutboxView, es: Seq<OutboxEvent>, k: int) -> bool {
    match es[k] {
        OutboxEvent::Press(q) => q < NUM_PEOPLE,
        OutboxEvent::Cancel(q) => q < NUM_PEOPLE,
        OutboxEvent::Occupancy(_) => true,
        OutboxEvent::Complete(item) => item_ok(item) && taken_by(v, es, item, k),
    }
}

/// Every event of `es` is accepted.
pub open spec fn events_ok(v: OutboxView, es: Seq<OutboxEvent>) -> bool {
    forall|k: int| 0 <= k < es.len() ==> #[trigger] event_ok(v, es, k)
}

/// Along accepted events the outbox stays well formed, and person `p`'s
/// counter has moved on by the number of their actions, modulo 2^31.
proof fn lemma_after_counter(v: OutboxView, es: Seq<OutboxEvent>, p: int, k: int)
    requires
        v.wf(),
        0 <= p < NUM_PEOPLE,
        events_ok(v, es),
        0 <= k <= es.len(),
    ensures
        after(v, es, k).wf(),
        word_counter(after(v, es, k).state[p]) == (word_counter(v.state[p]) + actions_of(es, p, k))
            % 0x8000_0000,
    decreases k,
{
    if k > 0 {
        lemma_after_counter(v, es, p, k - 1);
        let u = after(v, es, k - 1);
        assert(event_ok(v, es, k - 1));
        let c = word_counter(v.state[p]);
        let n = actions_of(es, p, k - 1);
        match es[k - 1] {
            OutboxEvent::Press(q) => {
                if q as int == p {
                    lemma_next_word_counter(u.state[p], false);
                    vstd::arithmetic::div_mod::lemma_add_mod_noop(c + n, 1, 0x8000_0000);
                }
            },
            OutboxEvent::Cancel(q) => {
                if q as int == p {
                    lemma_next_word_counter(u.state[p], true);
                    vstd::arithmetic::div_mod::lemma_add_mod_noop(c + n, 1, 0x8000_0000);
                }
            },
            _ => {},
        }
    } else {
        assert(word_counter(v.state[p]) < 0x8000_0000);
    }
}

/// Counting actions over a longer prefix never gives fewer.
proof fn lemma_actions_of_grows(es: Seq<OutboxEvent>, p: int, k1: int, k2: int)
    requires
        0 <= k1 <= k2,
    ensures
        actions_of(es, p, k1) <= actions_of(es, p, k2),
    decreases k2,
{
    if k2 > k1 {
        lemma_actions_of_grows(es, p, k1, k2 - 1);
    }
}

/// Events after `i` that are not actions by `p` leave `p`'s state word as
/// it was just after event `i`.
proof fn lemma_after_word_kept(v: OutboxView, es: Seq<OutboxEvent>, p: int, i: int, k: int)
    requires
        v.wf(),
        0 <= p < NUM_PEOPLE,
        events_ok(v, es),
        0 <= i < k <= es.len(),
        forall|m: int| i < m < es.len() ==> !is_action_of(#[trigger] es[m], p),
    ensures
        after(v, es, k).state[p] == after(v, es, i + 1).state[p],
    decreases k,
{
    if k > i + 1 {
        lemma_after_word_kept(v, es, p, i, k - 1);
        lemma_after_counter(v, es, p, k - 1);
        assert(event_ok(v, es, k - 1));
        assert(!is_action_of(es[k - 1], p));
    }
}

/// The word acknowledged for `p` after `k` events is the word `p` had
/// after some prefix `j` of them, with `j` no later than event `i`.
proof fn lemma_after_acked(v: OutboxView, es: Seq<OutboxEvent>, p: int, i: int, k: int)
    requires
        v.wf(),
        0 <= p < NUM_PEOPLE,
        v.intent(p) is None,
        events_ok(v, es),
        0 <= i < es.len(),
        is_action_of(es[i], p),
        forall|m: int|
            i < m < es.len() ==> (#[trigger] es[m] matches OutboxEvent::Complete(item) ==> (
            item_person(item) == Some(p as usize) ==> taken_by(v, es, item, i))),
        0 <= k <= es.len(),
    ensures
        exists|j: int|
            0 <= j <= k && j <= i && word_counter(after(v, es, k).acked[p]) == (word_counter(
                v.state[p],
            ) + #[trigger] actions_of(es, p, j)) % 0x8000_0000,
    decreases k,
{
    let c = word_counter(v.state[p]);
    if k == 0 {
        assert(c < 0x8000_0000);
        assert(actions_of(es, p, 0) == 0);
    } else {
        lemma_after_acked(v, es, p, i, k - 1);
        lemma_after_counter(v, es, p, k - 1);
        let u = after(v, es, k - 1);
        let j0 = choose|j: int|
            0 <= j <= k - 1 && j <= i && word_counter(u.acked[p]) == (c + #[trigger] actions_of(
                es,
                p,
                j,
            )) % 0x8000_0000;
        assert(event_ok(v, es, k - 1));
        match es[k - 1] {
            OutboxEvent::Complete(item) => {
                if item_person(item) == Some(p as usize) {
                    let bound = if k - 1 > i { i } else { k - 1 };
                    assert(taken_by(v, es, item, bound));
                    let j1 = choose|j: int|
                        #![trigger after(v, es, j)]
                        0 <= j <= bound && after(v, es, j).next_item() == Some(item);
                    lemma_after_counter(v, es, p, j1);
                    law_next_item_is_owed(after(v, es, j1));
                    assert(word_counter(after(v, es, k).acked[p]) == (c + actions_of(es, p, j1))
                        % 0x8000_0000);
                } else {
                    assert(after(v, es, k).acked[p] == u.acked[p]);
                    assert(word_counter(after(v, es, k).acked[p]) == (c + actions_of(es, p, j0))
                        % 0x8000_0000);
                }
            },
            _ => {
                assert(after(v, es, k).acked[p] == u.acked[p]);
                assert(word_counter(after(v, es, k).acked[p]) == (c + actions_of(es, p, j0))
                    % 0x8000_0000);
            },
        }
    }
}

/// An action is owed until the server acknowledges a delivery taken after
/// it. Start from an outbox in which person `p` owes nothing (a fresh one,
/// for instance) and apply any accepted events with fewer than 2^31
/// actions by `p` among them. If event `i` is `p`'s latest action, and
/// every answer for `p` after it is for an item taken no later than that
/// action, then that action is still owed, as a press or as a cancel
/// according to its kind: a press made while offline, or while earlier
/// deliveries were in flight, is never lost.
pub proof fn law_action_owed_until_delivered(v: OutboxView, es: Seq<OutboxEvent>, p: int, i: int)
    requires
        v.wf(),
        0 <= p < NUM_PEOPLE,
        v.intent(p) is None,
        events_ok(v, es),
        actions_of(es, p, es.len() as int) < 0x8000_0000,
        0 <= i < es.len(),
        is_action_of(es[i], p),
        forall|m: int| i < m < es.len() ==> !is_action_of(#[trigger] es[m], p),
        forall|m: int|
            i < m < es.len() ==> (#[trigger] es[m] matches OutboxEvent::Complete(item) ==> (
            item_person(item) == Some(p as usize) ==> taken_by(v, es, item, i))),
    ensures
        after(v, es, es.len() as int).intent(p) == Some(es[i] is Press),
{
    let len = es.len() as int;
    let c = word_counter(v.state[p]);
    let w = after(v, es, len);
    lemma_after_counter(v, es, p, len);
    lemma_after_counter(v, es, p, i);
    lemma_after_word_kept(v, es, p, i, len);
    lemma_after_acked(v, es, p, i, len);
    let j = choose|j: int|
        0 <= j <= len && j <= i && word_counter(w.acked[p]) == (c + #[trigger] actions_of(es, p, j))
            % 0x8000_0000;
    lemma_actions_of_grows(es, p, j, i);
    lemma_actions_of_grows(es, p, i + 1, len);
    let a = actions_of(es, p, j) as int;
    let n = actions_of(es, p, len) as int;
    assert(actions_of(es, p, i + 1) == actions_of(es, p, i) + 1);
    assert(1 <= n - a < 0x8000_0000);
    vstd::arithmetic::div_mod::lemma_add_mod_noop(c + a, n - a, 0x8000_0000);
    assert((n - a) % 0x8000_0000 == n - a);
    lemma_counter_moves((c + a) % 0x8000_0000, n - a);
    assert(word_counter(w.state[p]) != word_counter(w.acked[p]));
    let u = after(v, es, i);
    match es[i] {
        OutboxEvent::Press(q) => lemma_next_word_counter(u.state[p], false),
        OutboxEvent::Cancel(q) => lemma_next_word_counter(u.state[p], true),
        _ => {},
    }
}

/// Acknowledging the delivered item clears it when nothing changed
/// meanwhile: that person owes nothing more, or the occupancy is up to date.
pub proof fn law_complete_clears_item(v: OutboxView)
    requires
        v.wf(),
        v.next_item() is Some,
    ensures
        ({
            let item = v.next_item().unwrap();
            match item {
                Outgoing::Occupancy { .. } => v.completed(item).occupancy_item() is None,
                _ => v.completed(item).intent(item_person(item).unwrap() as int) is None,
            }
        }),
{
    law_next_item_is_owed(v);
}

/// Occupancy changes that reverted before they could be delivered are not
/// replayed: only a current reading that differs from the last delivered
/// one is owed.
pub proof fn law_reverted_occupancy_not_sent(v: OutboxView, occupied: bool)
    requires
        v.occ_last_sent == occ_code(occupied),
    ensures
        (OutboxView { occ_current: occ_code(occupied), ..v }).occupancy_item() is None,
{
}

} // verus!
