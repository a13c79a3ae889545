use bath_monitor::http_client::{outcome_for, request_for, Outcome};
use bath_monitor::outbox::{Outbox, Outgoing};
use bath_monitor::status_poll::led_state_url;

const BASE: &str = "http://192.168.1.20:8080";

#[test]
fn press_request() {
    let r = request_for(BASE, &Outgoing::Press { person_idx: 0, state: 2 });
    assert_eq!(r.url.text.as_str(), "http://192.168.1.20:8080/api/press");
    assert_eq!(r.body.text.as_str(), "{\"person\":\"alice\"}");
}

#[test]
fn cancel_request() {
    let r = request_for(BASE, &Outgoing::Cancel { person_idx: 2, state: 5 });
    assert_eq!(r.url.text.as_str(), "http://192.168.1.20:8080/api/cancel");
    assert_eq!(r.body.text.as_str(), "{\"person\":\"carol\"}");
}

#[test]
fn occupancy_requests() {
    let r = request_for(BASE, &Outgoing::Occupancy { occupied: true });
    assert_eq!(r.url.text.as_str(), "http://192.168.1.20:8080/api/occupancy");
    assert_eq!(r.body.text.as_str(), "{\"occupied\":true}");
    let r = request_for(BASE, &Outgoing::Occupancy { occupied: false });
    assert_eq!(r.body.text.as_str(), "{\"occupied\":false}");
}

#[test]
fn every_person_has_an_id() {
    let ids = ["alice", "bob", "carol", "dave", "eve"];
    for (i, id) in ids.iter().enumerate() {
        let r = request_for(BASE, &Outgoing::Press { person_idx: i, state: 2 });
        assert_eq!(r.body.text.as_str(), format!("{{\"person\":\"{}\"}}", id));
    }
}

#[test]
fn url_that_does_not_fit_stops_at_the_last_whole_piece() {
    let long_base = "h".repeat(120);
    let r = request_for(&long_base, &Outgoing::Press { person_idx: 1, state: 2 });
    assert_eq!(r.url.text.as_str(), long_base.as_str());
    let too_long = "h".repeat(129);
    let r = request_for(&too_long, &Outgoing::Press { person_idx: 1, state: 2 });
    assert_eq!(r.url.text.as_str(), "");
    let exact = "h".repeat(118);
    let r = request_for(&exact, &Outgoing::Press { person_idx: 1, state: 2 });
    assert_eq!(r.url.text.as_str().len(), 128);
}

#[test]
fn led_state_url_appends_path() {
    assert_eq!(led_state_url(BASE).text.as_str(), "http://192.168.1.20:8080/api/led-state");
}

#[test]
fn outcomes_by_status() {
    assert_eq!(outcome_for(Some(200)), Outcome::Delivered);
    assert_eq!(outcome_for(Some(299)), Outcome::Delivered);
    assert_eq!(outcome_for(Some(400)), Outcome::Rejected);
    assert_eq!(outcome_for(Some(499)), Outcome::Rejected);
    assert_eq!(outcome_for(Some(500)), Outcome::Retry);
    assert_eq!(outcome_for(Some(302)), Outcome::Retry);
    assert_eq!(outcome_for(Some(199)), Outcome::Retry);
    assert_eq!(outcome_for(None), Outcome::Retry);
}

#[test]
fn settle_completes_or_keeps() {
    let mut o = Outbox::new();
    o.mark_press(1);
    let item = o.next().unwrap();
    assert!(o.settle(&item, Outcome::Retry));
    assert_eq!(o.next(), Some(item));
    assert!(!o.settle(&item, Outcome::Rejected));
    assert_eq!(o.next(), None);
    o.mark_press(1);
    let item = o.next().unwrap();
    assert!(!o.settle(&item, Outcome::Delivered));
    assert_eq!(o.next(), None);
}
