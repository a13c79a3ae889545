//! The decisions of delivering the outbox to the server: which request an
//! item becomes, what a response means, and what happens to the item
//! afterwards. Requests are made one at a time and only while Wi-Fi is
//! connected; a delivery that got no usable answer stays owed and is
//! retried after `SEND_RETRY_INTERVAL_SECS`.
use vstd::prelude::*;
use vstd::string::StringSliceAdditionalSpecFns;

use crate::config::{person_id, person_name};
use crate::outbox::{item_ok, item_person, Outbox, Outgoing};
use crate::text::{body_bytes, body_from, fill, url_bytes, url_from, JsonBody, Url, BODY_CAPACITY, URL_CAPACITY};

verus! {

/// What happened to one delivery attempt.
#[derive(Clone, Copy, Debug, PartialEq, Eq, Structural)]
pub enum Outcome {
    /// The server accepted it (2xx).
    Delivered,
    /// The server refused it (4xx, e.g. an unknown person id): retrying the
    /// same request cannot succeed, so it is dropped.
    Rejected,
    /// No usable answer (could not connect, timed out, 5xx, ...): try again.
    Retry,
}

/// The outcome for a response status, or for no response at all.
pub open spec fn outcome_spec(status: Option<u16>) -> Outcome {
    match status {
        Some(code) => if 200 <= code <= 299 {
            Outcome::Delivered
        } else if 400 <= code <= 499 {
            Outcome::Rejected
        } else {
            Outcome::Retry
        },
        None => Outcome::Retry,
    }
}

/// What a delivery attempt came to: `status` is the response's status
/// code, or `None` when there was no response (connection failure, send
/// failure or time-out).
pub fn outcome_for(status: Option<u16>) -> (o: Outcome)
    ensures
        o == outcome_spec(status),
{
    match status {
        Some(code) => if 200 <= code && code <= 299 {
            Outcome::Delivered
        } else if 400 <= code && code <= 499 {
            Outcome::Rejected
        } else {
            Outcome::Retry
        },
        None => Outcome::Retry,
    }
}

/// The server path an item is posted to.
pub open spec fn path_of(item: Outgoing) -> Seq<char> {
    match item {
        Outgoing::Press { .. } => "/api/press"@,
        Outgoing::Cancel { .. } => "/api/cancel"@,
        Outgoing::Occupancy { .. } => "/api/occupancy"@,
    }
}

/// The pieces of an item's JSON body, in order:
/// `{"person":"<id>"}` or `{"occupied":<true|false>}`.
pub open spec fn body_pieces(item: Outgoing) -> Seq<Seq<char>> {
    match item {
        Outgoing::Press { person_idx, .. } => seq![
            "{\"person\":\""@,
            person_name(person_idx as int),
            "\"}"@,
        ],
        Outgoing::Cancel { person_idx, .. } => seq![
            "{\"person\":\""@,
            person_name(person_idx as int),
            "\"}"@,
        ],
        Outgoing::Occupancy { occupied } => seq![
            "{\"occupied\":"@,
            if occupied { "true"@ } else { "false"@ },
            "}"@,
        ],
    }
}

/// The UTF-8 bytes of each piece.
pub open spec fn utf8_pieces(pieces: Seq<Seq<char>>) -> Seq<Seq<u8>> {
    pieces.map_values(|p: Seq<char>| vstd::utf8::encode_utf8(p))
}

/// One POST to the server.
pub struct Request {
    pub url: Url,
    pub body: JsonBody,
}

/// The URL and body to POST for `item` to the server at `base_url`.
pub fn request_for(base_url: &str, item: &Outgoing) -> (r: Request)
    requires
        item_ok(*item),
    ensures
        url_bytes(r.url) == fill(
            Seq::empty(),
            utf8_pieces(seq![base_url@, path_of(*item)]),
            URL_CAPACITY as nat,
        ),
        body_bytes(r.body) == fill(
            Seq::empty(),
            utf8_pieces(body_pieces(*item)),
            BODY_CAPACITY as nat,
        ),
{
    let path: &str = match *item {
        Outgoing::Press { .. } => "/api/press",
        Outgoing::Cancel { .. } => "/api/cancel",
        Outgoing::Occupancy { .. } => "/api/occupancy",
    };
    let url_pieces: Vec<&str> = vec![base_url, path];
    let (first, middle, last): (&str, &str, &str) = match *item {
        Outgoing::Press { person_idx, .. } => ("{\"person\":\"", person_id(person_idx), "\"}"),
        Outgoing::Cancel { person_idx, .. } => ("{\"person\":\"", person_id(person_idx), "\"}"),
        Outgoing::Occupancy { occupied } => (
            "{\"occupied\":",
            if occupied { "true" } else { "false" },
            "}",
        ),
    };
    let body_pieces_v: Vec<&str> = vec![first, middle, last];
    let url = url_from(&url_pieces);
    let body = body_from(&body_pieces_v);
    proof {
        assert(url_pieces@.map_values(|p: &str| p.spec_bytes()) =~= utf8_pieces(
            seq![base_url@, path_of(*item)],
        ));
        assert(body_pieces_v@.map_values(|p: &str| p.spec_bytes()) =~= utf8_pieces(
            body_pieces(*item),
        ));
    }
    Request { url, body }
}

impl Outbox {
    /// Settles a delivery attempt of `item`: delivered or rejected items
    /// are acknowledged (a rejected one is dropped rather than retried
    /// forever); anything else stays owed. Returns whether to wait
    /// `SEND_RETRY_INTERVAL_SECS` before the next attempt.
    pub fn settle(&mut self, item: &Outgoing, outcome: Outcome) -> (wait_before_retry: bool)
        requires
            old(self)@.wf(),
            item_ok(*item),
        ensures
            final(self)@.wf(),
            wait_before_retry == (outcome == Outcome::Retry),
            outcome == Outcome::Retry ==> final(self)@ == old(self)@,
            outcome != Outcome::Retry ==> final(self)@ == old(self)@.completed(*item),
    {
        match outcome {
            Outcome::Delivered | Outcome::Rejected => {
                self.complete(item);
                false
            },
            Outcome::Retry => true,
        }
    }
}

} // verus!

verus! {

proof fn lemma_ascii_utf8(s: Seq<char>)
    requires
        vstd::utf8::is_ascii_chars(s),
    ensures
        vstd::utf8::encode_utf8(s).len() == s.len(),
{
    vstd::utf8::is_ascii_chars_encode_utf8(s);
}

/// Writing three pieces that fit together leaves all three, in order.
proof fn lemma_fill3(a: Seq<u8>, b: Seq<u8>, c: Seq<u8>, cap: nat)
    requires
        a.len() + b.len() + c.len() <= cap,
    ensures
        fill(Seq::empty(), seq![a, b, c], cap) == a + b + c,
{
    let p = seq![a, b, c];
    assert(p.drop_first() =~= seq![b, c]);
    assert(seq![b, c].drop_first() =~= seq![c]);
    assert(seq![c].drop_first() =~= Seq::<Seq<u8>>::empty());
    assert(Seq::<u8>::empty() + a =~= a);
    assert(fill(a + b + c, Seq::empty(), cap) == a + b + c);
    assert(fill(a + b, seq![c], cap) == fill(a + b + c, Seq::empty(), cap));
    assert(fill(a, seq![b, c], cap) == fill(a + b, seq![c], cap));
    assert(fill(Seq::empty(), seq![a, b, c], cap) == fill(a, seq![b, c], cap));
}

/// The request bodies are exactly the protocol's JSON: `{"person":"<id>"}`
/// for a press or a cancel, `{"occupied":true}` or `{"occupied":false}`
/// for occupancy; none is ever cut short by the body's capacity.
pub proof fn law_bodies_are_whole_json(item: Outgoing)
    requires
        item_ok(item),
    ensures
        fill(Seq::empty(), utf8_pieces(body_pieces(item)), BODY_CAPACITY as nat)
            == vstd::utf8::encode_utf8(body_pieces(item)[0]) + vstd::utf8::encode_utf8(
            body_pieces(item)[1],
        ) + vstd::utf8::encode_utf8(body_pieces(item)[2]),
{
    reveal_strlit("{\"person\":\"");
    reveal_strlit("\"}");
    reveal_strlit("{\"occupied\":");
    reveal_strlit("true");
    reveal_strlit("false");
    reveal_strlit("}");
    reveal_strlit("alice");
    reveal_strlit("bob");
    reveal_strlit("carol");
    reveal_strlit("dave");
    reveal_strlit("eve");
    let ps = body_pieces(item);
    assert(vstd::utf8::is_ascii_chars(ps[0]));
    assert(vstd::utf8::is_ascii_chars(ps[1]));
    assert(vstd::utf8::is_ascii_chars(ps[2]));
    lemma_ascii_utf8(ps[0]);
    lemma_ascii_utf8(ps[1]);
    lemma_ascii_utf8(ps[2]);
    assert(utf8_pieces(ps) =~= seq![
        vstd::utf8::encode_utf8(ps[0]),
        vstd::utf8::encode_utf8(ps[1]),
        vstd::utf8::encode_utf8(ps[2]),
    ]);
    lemma_fill3(
        vstd::utf8::encode_utf8(ps[0]),
        vstd::utf8::encode_utf8(ps[1]),
        vstd::utf8::encode_utf8(ps[2]),
        BODY_CAPACITY as nat,
    );
}

/// Each kind of item has its own server path, whatever else it carries:
/// presses go to `/api/press`, cancels to `/api/cancel` and occupancy
/// readings, free or occupied, to `/api/occupancy`; two items share a
/// path exactly when they are of the same kind.
pub proof fn law_path_by_kind(a: Outgoing, b: Outgoing)
    ensures
        a is Press ==> path_of(a) == "/api/press"@,
        a is Cancel ==> path_of(a) == "/api/cancel"@,
        a is Occupancy ==> path_of(a) == "/api/occupancy"@,
        (path_of(a) == path_of(b)) <==> ((a is Press && b is Press) || (a is Cancel && b is Cancel)
            || (a is Occupancy && b is Occupancy)),
{
    reveal_strlit("/api/press");
    reveal_strlit("/api/cancel");
    reveal_strlit("/api/occupancy");
    assert("/api/press"@[5] != "/api/cancel"@[5]);
    assert("/api/press"@[5] != "/api/occupancy"@[5]);
    assert("/api/cancel"@[5] != "/api/occupancy"@[5]);
}

/// The request URL is the base URL followed directly by the item's path,
/// whenever the two fit in the URL's capacity together.
pub proof fn law_url_is_base_then_path(base_url: Seq<char>, item: Outgoing)
    requires
        vstd::utf8::encode_utf8(base_url).len() + vstd::utf8::encode_utf8(path_of(item)).len()
            <= URL_CAPACITY,
    ensures
        fill(Seq::empty(), utf8_pieces(seq![base_url, path_of(item)]), URL_CAPACITY as nat)
            == vstd::utf8::encode_utf8(base_url) + vstd::utf8::encode_utf8(path_of(item)),
{
    let a = vstd::utf8::encode_utf8(base_url);
    let b = vstd::utf8::encode_utf8(path_of(item));
    let ps = seq![base_url, path_of(item)];
    assert(utf8_pieces(ps) =~= seq![a, b]);
    assert(seq![a, b].drop_first() =~= seq![b]);
    assert(seq![b].drop_first() =~= Seq::<Seq<u8>>::empty());
    assert(Seq::<u8>::empty() + a =~= a);
    assert(fill(a + b, Seq::empty(), URL_CAPACITY as nat) == a + b);
    assert(fill(a, seq![b], URL_CAPACITY as nat) == fill(a + b, Seq::empty(), URL_CAPACITY as nat));
    assert(fill(Seq::empty(), seq![a, b], URL_CAPACITY as nat) == fill(a, seq![b], URL_CAPACITY as nat));
}

/// Different people have different server ids.
proof fn lemma_person_names_distinct(i: int, j: int)
    requires
        0 <= i < 5,
        0 <= j < 5,
        person_name(i) == person_name(j),
    ensures
        i == j,
{
    reveal_strlit("alice");
    reveal_strlit("bob");
    reveal_strlit("carol");
    reveal_strlit("dave");
    reveal_strlit("eve");
    assert(person_name(i)[0] == person_name(j)[0]);
    assert(i == 0 ==> person_name(i)[0] == 'a');
    assert(i == 1 ==> person_name(i)[0] == 'b');
    assert(i == 2 ==> person_name(i)[0] == 'c');
    assert(i == 3 ==> person_name(i)[0] == 'd');
    assert(i == 4 ==> person_name(i)[0] == 'e');
    assert(j == 0 ==> person_name(j)[0] == 'a');
    assert(j == 1 ==> person_name(j)[0] == 'b');
    assert(j == 2 ==> person_name(j)[0] == 'c');
    assert(j == 3 ==> person_name(j)[0] == 'd');
    assert(j == 4 ==> person_name(j)[0] == 'e');
}

/// A body says whom or what it is about: a press or a cancel names its
/// person's id, an occupancy reading says `true` exactly when occupied.
/// Two items get the same body exactly when they are about the same
/// person (a press and a cancel of one person share it; the path tells
/// them apart) or carry the same occupancy reading.
pub proof fn law_bodies_name_their_subject(a: Outgoing, b: Outgoing)
    requires
        item_ok(a),
        item_ok(b),
    ensures
        !(a is Occupancy) ==> body_pieces(a)[1] == person_name(item_person(a).unwrap() as int),
        a is Occupancy ==> (body_pieces(a)[1] == "true"@ <==> a->occupied),
        (body_pieces(a) == body_pieces(b)) <==> ((a is Occupancy && b is Occupancy && a->occupied
            == b->occupied) || (!(a is Occupancy) && !(b is Occupancy) && item_person(a)
            == item_person(b))),
{
    reveal_strlit("{\"person\":\"");
    reveal_strlit("\"}");
    reveal_strlit("{\"occupied\":");
    reveal_strlit("true");
    reveal_strlit("false");
    reveal_strlit("}");
    assert("true"@.len() != "false"@.len());
    assert("{\"person\":\""@.len() != "{\"occupied\":"@.len());
    if body_pieces(a) == body_pieces(b) {
        assert(body_pieces(a)[0] == body_pieces(b)[0]);
        assert(body_pieces(a)[1] == body_pieces(b)[1]);
        if !(a is Occupancy) && !(b is Occupancy) {
            lemma_person_names_distinct(
                item_person(a).unwrap() as int,
                item_person(b).unwrap() as int,
            );
        }
    }
    if (a is Occupancy && b is Occupancy && a->occupied == b->occupied) || (!(a is Occupancy)
        && !(b is Occupancy) && item_person(a) == item_person(b)) {
        assert(body_pieces(a) =~= body_pieces(b));
    }
}

/// Responses: 2xx delivers, 4xx rejects (the item is dropped, not retried
/// forever), anything else, and no response at all, retries later.
pub proof fn law_outcomes(code: u16)
    ensures
        200 <= code <= 299 ==> outcome_spec(Some(code)) == Outcome::Delivered,
        400 <= code <= 499 ==> outcome_spec(Some(code)) == Outcome::Rejected,
        (code < 200 || (300 <= code < 400) || code >= 500) ==> outcome_spec(Some(code))
            == Outcome::Retry,
        outcome_spec(None) == Outcome::Retry,
{
}

} // verus!
