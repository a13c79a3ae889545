//! Fixed-capacity text for HTTP requests, held in `heapless` strings: the
//! request URL (128 bytes) and the JSON body (64 bytes). Appending a piece
//! that does not fit leaves the text unchanged, as formatting into a
//! `heapless::String` does.
use vstd::prelude::*;
use vstd::string::StringSliceAdditionalSpecFns;

verus! {

/// `heapless`'s error for a piece that does not fit.
#[verifier::external_type_specification]
#[verifier::external_body]
pub struct ExCapacityError(heapless::CapacityError);

/// Capacity of a request URL, in bytes.
pub const URL_CAPACITY: usize = 128;
/// Capacity of a request body, in bytes.
pub const BODY_CAPACITY: usize = 64;

/// A request URL of at most `URL_CAPACITY` bytes.
#[verifier::external_body]
pub struct Url {
    pub text: heapless::String<128>,
}

/// A request body of at most `BODY_CAPACITY` bytes.
#[verifier::external_body]
pub struct JsonBody {
    pub text: heapless::String<64>,
}

/// The bytes held by a URL.
pub uninterp spec fn url_bytes(u: Url) -> Seq<u8>;

/// The bytes held by a body.
pub uninterp spec fn body_bytes(b: JsonBody) -> Seq<u8>;

/// `heapless::String::<128>::new`: an empty string.
#[verifier::external_body]
fn url_new() -> (u: Url)
    ensures
        url_bytes(u) == Seq::<u8>::empty(),
{
    Url { text: heapless::String::new() }
}

/// `heapless::String::<128>::push_str`: appends `piece` if the result fits
/// in 128 bytes, otherwise fails and leaves the string unchanged.
#[verifier::external_body]
fn url_push_str(u: &mut Url, piece: &str) -> (r: Result<(), heapless::CapacityError>)
    ensures
        (r is Ok) == (url_bytes(*old(u)).len() + piece.spec_bytes().len() <= URL_CAPACITY),
        r is Ok ==> url_bytes(*final(u)) == url_bytes(*old(u)) + piece.spec_bytes(),
        r is Err ==> url_bytes(*final(u)) == url_bytes(*old(u)),
{
    u.text.push_str(piece)
}

/// `heapless::String::<64>::new`: an empty string.
#[verifier::external_body]
fn body_new() -> (b: JsonBody)
    ensures
        body_bytes(b) == Seq::<u8>::empty(),
{
    JsonBody { text: heapless::String::new() }
}

/// `heapless::String::<64>::push_str`: appends `piece` if the result fits
/// in 64 bytes, otherwise fails and leaves the string unchanged.
#[verifier::external_body]
fn body_push_str(b: &mut JsonBody, piece: &str) -> (r: Result<(), heapless::CapacityError>)
    ensures
        (r is Ok) == (body_bytes(*old(b)).len() + piece.spec_bytes().len() <= BODY_CAPACITY),
        r is Ok ==> body_bytes(*final(b)) == body_bytes(*old(b)) + piece.spec_bytes(),
        r is Err ==> body_bytes(*final(b)) == body_bytes(*old(b)),
{
    b.text.push_str(piece)
}

/// Appending `pieces` in order to `acc` within `cap` bytes, stopping at
/// the first piece that does not fit (what writing a format string into a
/// fixed-capacity string leaves behind).
pub open spec fn fill(acc: Seq<u8>, pieces: Seq<Seq<u8>>, cap: nat) -> Seq<u8>
    decreases pieces.len(),
{
    if pieces.len() == 0 {
        acc
    } else if acc.len() + pieces[0].len() <= cap {
        fill(acc + pieces[0], pieces.drop_first(), cap)
    } else {
        acc
    }
}

/// The URL made of `pieces`, written one after the other.
pub fn url_from(pieces: &Vec<&str>) -> (u: Url)
    ensures
        url_bytes(u) == fill(
            Seq::empty(),
            pieces@.map_values(|p: &str| p.spec_bytes()),
            URL_CAPACITY as nat,
        ),
{
    let ghost all = pieces@.map_values(|p: &str| p.spec_bytes());
    let mut u = url_new();
    let mut i: usize = 0;
    assert(all.skip(0) =~= all);
    while i < pieces.len()
        invariant
            0 <= i <= pieces@.len(),
            all == pieces@.map_values(|p: &str| p.spec_bytes()),
            fill(Seq::empty(), all, URL_CAPACITY as nat) == fill(
                url_bytes(u),
                all.skip(i as int),
                URL_CAPACITY as nat,
            ),
        decreases pieces.len() - i,
    {
        assert(all.skip(i as int)[0] == pieces@[i as int].spec_bytes());
        assert(all.skip(i as int).drop_first() =~= all.skip(i + 1));
        match url_push_str(&mut u, pieces[i]) {
            Ok(()) => {},
            Err(_) => {
                return u;
            },
        }
        i = i + 1;
    }
    assert(all.skip(i as int) =~= Seq::<Seq<u8>>::empty());
    u
}

/// The body made of `pieces`, written one after the other.
pub fn body_from(pieces: &Vec<&str>) -> (b: JsonBody)
    ensures
        body_bytes(b) == fill(
            Seq::empty(),
            pieces@.map_values(|p: &str| p.spec_bytes()),
            BODY_CAPACITY as nat,
        ),
{
    let ghost all = pieces@.map_values(|p: &str| p.spec_bytes());
    let mut b = body_new();
    let mut i: usize = 0;
    assert(all.skip(0) =~= all);
    while i < pieces.len()
        invariant
            0 <= i <= pieces@.len(),
            all == pieces@.map_values(|p: &str| p.spec_bytes()),
            fill(Seq::empty(), all, BODY_CAPACITY as nat) == fill(
                body_bytes(b),
                all.skip(i as int),
                BODY_CAPACITY as nat,
            ),
        decreases pieces.len() - i,
    {
        assert(all.skip(i as int)[0] == pieces@[i as int].spec_bytes());
        assert(all.skip(i as int).drop_first() =~= all.skip(i + 1));
        match body_push_str(&mut b, pieces[i]) {
            Ok(()) => {},
            Err(_) => {
                return b;
            },
        }
        i = i + 1;
    }
    assert(all.skip(i as int) =~= Seq::<Seq<u8>>::empty());
    b
}

} // verus!
