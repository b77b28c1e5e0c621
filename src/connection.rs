use vstd::prelude::*;

use crate::in_memory_db::get::{after_get, get, lookup, opt_view};
use crate::in_memory_db::set::{after_set, timer_for, ExpiryTimer};
use crate::in_memory_db::{EntryModel, KeyValueStore, Request};

verus! {

/// The answer to one request. `value` holds the value found by a read, and
/// is `None` for a write and for a read that finds nothing.
pub struct Response {
    pub status: String,
    pub value: Option<String>,
}

/// The status every answered request carries.
pub open spec fn ok_status() -> Seq<char> {
    seq!['o', 'k']
}

/// What one read from the peer brought.
pub enum Event {
    /// The bytes read decoded into a request.
    Received(Request),
    /// The bytes read are not a well-formed request.
    Malformed,
    /// The read returned no bytes: the peer closed its side.
    EndOfStream,
}

/// What the connection does next.
pub enum Action {
    /// Send `response`, start `timer` if there is one, and read again.
    Reply { response: Response, timer: Option<ExpiryTimer> },
    /// Close the connection cleanly.
    Finish,
    /// Close the connection and report the request as undecodable.
    Abort,
}

/// Serving `req` at `now` takes the store from `before` to `after`, answers
/// `response` and schedules `timer`.
pub open spec fn serves(
    before: Map<Seq<char>, EntryModel>,
    after: Map<Seq<char>, EntryModel>,
    req: Request,
    response: Response,
    timer: Option<ExpiryTimer>,
    now: u64,
) -> bool {
    &&& response.status@ == ok_status()
    &&& match req {
        Request::SetValue(s) => {
            &&& after == after_set(before, s.key@, s.value@, s.ttl, now)
            &&& response.value is None
            &&& timer_for(timer, s.key@, s.ttl, now)
        },
        Request::GetValue(g) => {
            &&& after == after_get(before, g.key@, now)
            &&& opt_view(response.value) == lookup(before, g.key@, now)
            &&& timer is None
        },
    }
}

fn ok_response(value: Option<String>) -> (r: Response)
    ensures
        r.status@ == ok_status(),
        r.value == value,
{
    proof {
        reveal_strlit("ok");
    }
    Response { status: "ok".to_owned(), value }
}

/// Serves one request against the store at instant `now`.
pub fn handle_request(store: &mut KeyValueStore, req: Request, now: u64) -> (r: (
    Response,
    Option<ExpiryTimer>,
))
    requires
        old(store).wf(),
    ensures
        final(store).wf(),
        serves(old(store)@, final(store)@, req, r.0, r.1, now),
{
    match req {
        Request::SetValue(s) => {
            let timer = crate::in_memory_db::set::set(store, s.key, s.value, s.ttl, now);
            (ok_response(None), timer)
        },
        Request::GetValue(g) => {
            let value = get(store, g.key, now);
            (ok_response(value), None)
        },
    }
}

/// One turn of a connection: decides what follows a read at instant `now`.
/// A request is served; the end of the stream closes the connection cleanly
/// and a malformed request aborts it, neither touching the store.
pub fn on_event(store: &mut KeyValueStore, event: Event, now: u64) -> (r: Action)
    requires
        old(store).wf(),
    ensures
        final(store).wf(),
        match event {
            Event::Received(req) => r matches Action::Reply { response, timer } && serves(
                old(store)@,
                final(store)@,
                req,
                response,
                timer,
                now,
            ),
            Event::Malformed => r is Abort && final(store)@ == old(store)@,
            Event::EndOfStream => r is Finish && final(store)@ == old(store)@,
        },
{
    match event {
        Event::Received(req) => {
            let (response, timer) = handle_request(store, req, now);
            Action::Reply { response, timer }
        },
        Event::Malformed => Action::Abort,
        Event::EndOfStream => Action::Finish,
    }
}

} // verus!
