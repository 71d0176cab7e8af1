//! Sampling: from what the two queries brought back to the daemon's state.
//!
//! The host runs `service_status_query` and `thread_listing_query` and hands
//! over the exit code of the first and the standard output of the second. A
//! query that could not be run at all is handed over as `None`.

use vstd::prelude::*;
use vstd::string::StringSliceAdditionalSpecFns;
use crate::state::SunshineState;

verus! {

/// The number of seconds between two samples.
pub const POLL_INTERVAL_SECS: u64 = 2;

/// The name of the daemon's thread that streams to a client. The thread exists
/// exactly while a client is connected.
pub const STREAM_THREAD: &'static str = "threaded-ml";

/// `token` stands in `text` at offset `at`.
pub open spec fn occurs_at(text: Seq<u8>, token: Seq<u8>, at: int) -> bool {
    &&& 0 <= at
    &&& at + token.len() <= text.len()
    &&& text.subrange(at, at + token.len()) == token
}

/// `token` stands somewhere in `text`.
pub open spec fn occurs_in(text: Seq<u8>, token: Seq<u8>) -> bool {
    exists|at: int| occurs_at(text, token, at)
}

/// The service manager reports the unit as active by exit code zero. Any
/// other code, or no code at all, means that it is not.
pub open spec fn service_active(service_status: Option<i32>) -> bool {
    service_status == Some(0i32)
}

/// A thread listing shows a connected client when the name of the stream
/// thread stands anywhere in it.
pub open spec fn has_stream_thread(thread_listing: Seq<u8>) -> bool {
    occurs_in(thread_listing, STREAM_THREAD.spec_bytes())
}

/// The state that the two observations amount to. Without an active service
/// the daemon counts as stopped, whatever the listing holds. An active
/// service whose threads could not be listed counts as stopped too: what
/// cannot be observed is taken not to run. Otherwise the stream thread
/// decides between `ClientConnected` and `Running`.
pub open spec fn sampled_state(
    service_status: Option<i32>,
    thread_listing: Option<Seq<u8>>,
) -> SunshineState {
    if !service_active(service_status) {
        SunshineState::Stopped
    } else {
        match thread_listing {
            None => SunshineState::Stopped,
            Some(listing) => if has_stream_thread(listing) {
                SunshineState::ClientConnected
            } else {
                SunshineState::Running
            },
        }
    }
}

/// The view of a listing that may be missing.
pub open spec fn listing_view(thread_listing: Option<&[u8]>) -> Option<Seq<u8>> {
    match thread_listing {
        None => None,
        Some(listing) => Some(listing@),
    }
}

/// A token is found wherever it stands: whatever comes before it and after
/// it, `token` occurs in `before + token + after`.
pub proof fn lemma_occurs_in_between(before: Seq<u8>, token: Seq<u8>, after: Seq<u8>)
    ensures
        occurs_in(before + token + after, token),
{
    let text = before + token + after;
    let at = before.len() as int;
    assert(text.subrange(at, at + token.len()) =~= token);
    assert(occurs_at(text, token, at));
}

/// A text shorter than the token does not hold it.
pub proof fn lemma_short_text_lacks_token(text: Seq<u8>, token: Seq<u8>)
    requires
        text.len() < token.len(),
    ensures
        !occurs_in(text, token),
{
}

/// Tells whether `token` stands in `text` at offset `at`.
fn token_at(text: &[u8], token: &[u8], at: usize) -> (found: bool)
    requires
        at + token@.len() <= text@.len(),
    ensures
        found == occurs_at(text@, token@, at as int),
{
    let len: usize = token.len();
    let end: usize = text.len();
    let mut i: usize = 0;
    while i < len
        invariant
            len == token@.len(),
            end == text@.len(),
            i <= len,
            at + len <= end,
            forall|k: int| 0 <= k < i ==> text@[at + k] == token@[k],
        decreases len - i,
    {
        if text[at + i] != token[i] {
            assert(text@.subrange(at as int, at + len)[i as int] == text@[at + i]);
            return false;
        }
        i += 1;
    }
    assert(text@.subrange(at as int, at + token@.len()) =~= token@);
    true
}

/// Tells whether `token` stands somewhere in `text`.
fn contains_token(text: &[u8], token: &[u8]) -> (found: bool)
    ensures
        found == occurs_in(text@, token@),
{
    if token.len() > text.len() {
        return false;
    }
    if token.len() == 0 {
        assert(text@.subrange(0, 0) =~= token@);
        assert(occurs_at(text@, token@, 0));
        return true;
    }
    let last: usize = text.len() - token.len();
    let mut at: usize = 0;
    while at <= last
        invariant
            last == text@.len() - token@.len(),
            last < usize::MAX,
            at <= last + 1,
            forall|k: int| 0 <= k < at ==> !occurs_at(text@, token@, k),
        decreases last + 1 - at,
    {
        if token_at(text, token, at) {
            return true;
        }
        at += 1;
    }
    false
}

/// Check if the Sunshine daemon is running, from the exit code of the service
/// status query. `None` stands for a query that gave no exit code: it could
/// not be run, or a signal ended it.
pub fn check_systemctl(service_status: Option<i32>) -> (active: bool)
    ensures
        active == service_active(service_status),
{
    match service_status {
        Some(code) => code == 0,
        None => false,
    }
}

/// Checks if a client is currently connected to the Sunshine daemon.
///
/// This is accomplished by checking if sunshine has a thread running with the
/// name 'threaded-ml', that is, whether the name occurs in the output of the
/// thread listing query. The name is plain ASCII, so it stands in the raw
/// bytes exactly where it stands in the text that they encode.
pub fn check_for_stream_thread(thread_listing: &[u8]) -> (connected: bool)
    ensures
        connected == has_stream_thread(thread_listing@),
{
    contains_token(thread_listing, STREAM_THREAD.as_bytes())
}

/// Poll the current state of the Sunshine daemon: maps the two observations
/// to the state they amount to.
pub fn poll_status(
    service_status: Option<i32>,
    thread_listing: Option<&[u8]>,
) -> (state: SunshineState)
    ensures
        state == sampled_state(service_status, listing_view(thread_listing)),
        !service_active(service_status) ==> state == SunshineState::Stopped,
        state == SunshineState::ClientConnected <==> service_active(service_status) && (
        thread_listing matches Some(listing) && has_stream_thread(listing@)),
        state == SunshineState::Running <==> service_active(service_status) && (
        thread_listing matches Some(listing) && !has_stream_thread(listing@)),
{
    if check_systemctl(service_status) == false {
        return SunshineState::Stopped;
    }
    match thread_listing {
        None => SunshineState::Stopped,
        Some(listing) => {
            if check_for_stream_thread(listing) {
                SunshineState::ClientConnected
            } else {
                SunshineState::Running
            }
        },
    }
}

} // verus!
