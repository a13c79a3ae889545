use bath_monitor::outbox::{Outbox, Outgoing};

#[test]
fn fresh_outbox_owes_nothing() {
    let o = Outbox::new();
    assert_eq!(o.next(), None);
    assert_eq!(o.pending_intents(), [None; 5]);
}

#[test]
fn press_is_owed_until_completed() {
    let mut o = Outbox::new();
    o.mark_press(1);
    assert_eq!(o.pending_intent(1), Some(true));
    let item = o.next();
    assert_eq!(item, Some(Outgoing::Press { person_idx: 1, state: 2 }));
    // Not consumed by looking at it.
    assert_eq!(o.next(), item);
    o.complete(&item.unwrap());
    assert_eq!(o.next(), None);
    assert_eq!(o.pending_intent(1), None);
}

#[test]
fn press_then_cancel_collapses_into_one_cancel() {
    let mut o = Outbox::new();
    o.mark_press(2);
    o.mark_cancel(2);
    assert_eq!(o.pending_intent(2), Some(false));
    let item = o.next().unwrap();
    assert_eq!(item, Outgoing::Cancel { person_idx: 2, state: 5 });
    o.complete(&item);
    assert_eq!(o.next(), None);
}

#[test]
fn action_during_delivery_is_not_lost() {
    let mut o = Outbox::new();
    o.mark_press(4);
    let in_flight = o.next().unwrap();
    // A cancel lands while the press is being delivered.
    o.mark_cancel(4);
    o.complete(&in_flight);
    assert_eq!(o.pending_intent(4), Some(false));
    assert_eq!(o.next(), Some(Outgoing::Cancel { person_idx: 4, state: 5 }));
}

#[test]
fn presses_come_before_occupancy_in_person_order() {
    let mut o = Outbox::new();
    o.set_occupancy(true);
    o.mark_press(3);
    o.mark_press(0);
    assert_eq!(o.next(), Some(Outgoing::Press { person_idx: 0, state: 2 }));
    o.complete(&o.next().unwrap());
    assert_eq!(o.next(), Some(Outgoing::Press { person_idx: 3, state: 2 }));
    o.complete(&o.next().unwrap());
    assert_eq!(o.next(), Some(Outgoing::Occupancy { occupied: true }));
    o.complete(&o.next().unwrap());
    assert_eq!(o.next(), None);
}

#[test]
fn occupancy_sent_only_when_changed() {
    let mut o = Outbox::new();
    o.set_occupancy(false);
    let item = o.next().unwrap();
    assert_eq!(item, Outgoing::Occupancy { occupied: false });
    o.complete(&item);
    // A change that reverts before it could be sent is not replayed.
    o.set_occupancy(true);
    o.set_occupancy(false);
    assert_eq!(o.next(), None);
    o.set_occupancy(true);
    assert_eq!(o.next(), Some(Outgoing::Occupancy { occupied: true }));
}

#[test]
fn state_word_counts_actions_with_cancel_flag() {
    let mut o = Outbox::new();
    o.mark_press(0);
    o.mark_press(0);
    o.mark_cancel(0);
    // Three actions: counter 3, cancel flag set.
    assert_eq!(o.next(), Some(Outgoing::Cancel { person_idx: 0, state: 7 }));
    o.mark_press(0);
    assert_eq!(o.next(), Some(Outgoing::Press { person_idx: 0, state: 8 }));
}

#[test]
fn pending_intents_cover_everyone() {
    let mut o = Outbox::new();
    o.mark_press(0);
    o.mark_cancel(3);
    assert_eq!(o.pending_intents(), [Some(true), None, None, Some(false), None]);
}

#[test]
fn many_actions_during_delivery_keep_the_latest_owed() {
    let mut o = Outbox::new();
    o.mark_press(0);
    let in_flight = o.next().unwrap();
    assert_eq!(in_flight, Outgoing::Press { person_idx: 0, state: 2 });
    // Several actions land while the press is being delivered, the last a press.
    o.mark_cancel(0);
    o.mark_press(0);
    o.mark_cancel(0);
    o.mark_press(0);
    o.complete(&in_flight);
    assert_eq!(o.pending_intent(0), Some(true));
    assert_eq!(o.next(), Some(Outgoing::Press { person_idx: 0, state: 10 }));
    // A second in-flight item, taken before one more cancel, does not clear it.
    let second = o.next().unwrap();
    o.mark_cancel(0);
    o.complete(&second);
    assert_eq!(o.pending_intent(0), Some(false));
    assert_eq!(o.next(), Some(Outgoing::Cancel { person_idx: 0, state: 13 }));
}
