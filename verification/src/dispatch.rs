//! Subscriber dispatch rules: how one subscriber's HTTP outcome is judged,
//! how the status URL of an asynchronous subscriber is derived from its POST
//! URL, and how its polled status strings are classified.
//!
//! The transport itself runs outside the core; these functions take what the
//! transport reported and decide what follows.

use vstd::prelude::*;
use vstd::string::*;

use crate::config::SubscriberDef;

verus! {

/// Payload posted to subscribers of the borrow event.
pub struct BorrowEventPayload {
    pub item: String,
    pub params: Option<String>,
}

/// Payload posted to subscribers of the return and submit events.
pub struct ReturnEventPayload {
    pub item: String,
    pub params: Option<String>,
}

/// The acknowledgment body an asynchronous subscriber answers with.
pub struct AckBody {
    pub operation_id: String,
    pub status: String,
}

/// The body a polled status endpoint answers with.
pub struct PollBody {
    pub status: String,
    pub message: Option<String>,
}

/// What the transport reported for one subscriber POST: either a response
/// with its status code and the acknowledgment parsed from its body (`None`
/// when the body was not of that shape), or a transport failure.
pub enum PostResult {
    Delivered(u16, Option<AckBody>),
    TransportError(String),
}

/// What the transport reported for one poll of a status endpoint.
pub enum PollResponse {
    Delivered(u16, Option<PollBody>),
    TransportError(String),
}

/// What follows from one subscriber's POST outcome.
pub enum SubscriberVerdict {
    /// Go on to the next subscriber.
    Done,
    /// A must-succeed subscriber failed: abort the dispatch with this message.
    Abort(String),
    /// A must-succeed asynchronous subscriber acknowledged: poll this status
    /// URL for this operation id.
    Poll(String, String),
}

/// What follows from one poll of an asynchronous subscriber.
pub enum PollVerdict {
    /// The subscriber reported a terminal success: its processing is done.
    Completed,
    /// The subscriber failed, or could not be polled: abort with this message.
    Failure(String),
    /// Not terminal yet: poll again after the interval.
    ContinuePolling,
}

/// Classification of a polled status string.
#[derive(Clone, Copy, Debug, PartialEq, Eq, Structural)]
pub enum PollClass {
    Done,
    Failed,
    Pending,
}

/// Seconds between two polls of an asynchronous subscriber.
pub const POLL_INTERVAL_SECS: u64 = 2;

/// How many polls are attempted before the subscriber counts as failed
/// (about one hour at the poll interval).
pub const MAX_POLL_ATTEMPTS: u64 = 1800;

/// An HTTP status code that counts as success.
pub open spec fn spec_is_success(code: u16) -> bool {
    200 <= code < 300
}

/// The failure message recorded for a subscriber: it names the subscriber.
pub open spec fn spec_failure_message(name: Seq<char>, detail: Seq<char>) -> Seq<char> {
    "subscriber `"@ + name + "` failed: "@ + detail
}

pub open spec fn char_is_upper(c: char) -> bool {
    65 <= c as int <= 90
}

/// ASCII-case-insensitive character equality.
pub open spec fn char_eq_ci(x: char, y: char) -> bool {
    ||| x == y
    ||| (char_is_upper(x) && y as int == x as int + 32)
    ||| (char_is_upper(y) && x as int == y as int + 32)
}

/// ASCII-case-insensitive string equality.
pub open spec fn seq_eq_ci(a: Seq<char>, b: Seq<char>) -> bool {
    a.len() == b.len() && (forall|i: int| 0 <= i < a.len() ==> char_eq_ci(a[i], b[i]))
}

fn char_eq_ignore_case(x: char, y: char) -> (r: bool)
    ensures
        r == char_eq_ci(x, y),
{
    let ux = x as u32;
    let uy = y as u32;
    let fx = if 65 <= ux && ux <= 90 {
        ux + 32
    } else {
        ux
    };
    let fy = if 65 <= uy && uy <= 90 {
        uy + 32
    } else {
        uy
    };
    fx == fy
}

fn str_eq_ignore_case(a: &str, b: &str) -> (r: bool)
    ensures
        r == seq_eq_ci(a@, b@),
{
    let na = a.unicode_len();
    let nb = b.unicode_len();
    if na != nb {
        return false;
    }
    let mut i: usize = 0;
    while i < na
        invariant
            i <= na,
            na == a@.len(),
            nb == b@.len(),
            na == nb,
            forall|j: int| 0 <= j < i ==> char_eq_ci(a@[j], b@[j]),
        decreases na - i,
    {
        if !char_eq_ignore_case(a.get_char(i), b.get_char(i)) {
            return false;
        }
        i += 1;
    }
    true
}

/// A status that reads (ignoring ASCII case) succeeded, success or ok is
/// terminal success; failed or error is terminal failure; anything else
/// means the subscriber is still working.
pub open spec fn spec_poll_class(status: Seq<char>) -> PollClass {
    if seq_eq_ci(status, "succeeded"@) || seq_eq_ci(status, "success"@) || seq_eq_ci(
        status,
        "ok"@,
    ) {
        PollClass::Done
    } else if seq_eq_ci(status, "failed"@) || seq_eq_ci(status, "error"@) {
        PollClass::Failed
    } else {
        PollClass::Pending
    }
}

/// Classify a polled status string.
pub fn classify_poll_status(status: &String) -> (r: PollClass)
    ensures
        r == spec_poll_class(status@),
{
    let s = status.as_str();
    if str_eq_ignore_case(s, "succeeded") || str_eq_ignore_case(s, "success")
        || str_eq_ignore_case(s, "ok") {
        PollClass::Done
    } else if str_eq_ignore_case(s, "failed") || str_eq_ignore_case(s, "error") {
        PollClass::Failed
    } else {
        PollClass::Pending
    }
}

/// Index of the first scheme separator "://" at or after `i`; `url.len()`
/// when there is none.
pub open spec fn spec_find_scheme_sep(url: Seq<char>, i: int) -> int
    decreases url.len() - i,
{
    if i + 3 > url.len() {
        url.len() as int
    } else if url[i] == ':' && url[i + 1] == '/' && url[i + 2] == '/' {
        i
    } else {
        spec_find_scheme_sep(url, i + 1)
    }
}

/// Index of the first path character ('/', '?' or '#') at or after `i`;
/// `url.len()` when there is none.
pub open spec fn spec_find_path_start(url: Seq<char>, i: int) -> int
    decreases url.len() - i,
{
    if i >= url.len() {
        url.len() as int
    } else if url[i] == '/' || url[i] == '?' || url[i] == '#' {
        i
    } else {
        spec_find_path_start(url, i + 1)
    }
}

/// Where the authority part of `url` ends: the first path character after
/// the scheme separator, or after the start when there is no scheme.
pub open spec fn spec_authority_end(url: Seq<char>) -> int {
    let sep = spec_find_scheme_sep(url, 0);
    if sep == url.len() {
        spec_find_path_start(url, 0)
    } else {
        spec_find_path_start(url, sep + 3)
    }
}

/// The status URL of an asynchronous subscriber: its POST URL with the path
/// replaced by /operations/status and the query set to the operation id.
pub open spec fn spec_status_url(post: Seq<char>, operation_id: Seq<char>) -> Seq<char> {
    post.subrange(0, spec_authority_end(post)) + "/operations/status?id="@ + operation_id
}

/// Derive the status URL from a subscriber's POST URL and the operation id
/// it acknowledged with.
pub fn status_url(post: &str, operation_id: &str) -> (r: String)
    ensures
        r@ == spec_status_url(post@, operation_id@),
{
    let n = post.unicode_len();
    let mut i: usize = 0;
    let mut sep: usize = n;
    while sep == n && n >= 3 && i <= n - 3
        invariant
            i <= n,
            n == post@.len(),
            sep <= n,
            sep == n ==> spec_find_scheme_sep(post@, 0) == spec_find_scheme_sep(post@, i as int),
            sep < n ==> spec_find_scheme_sep(post@, 0) == sep && sep + 3 <= n,
        decreases n - i,
    {
        if post.get_char(i) == ':' && post.get_char(i + 1) == '/' && post.get_char(i + 2) == '/' {
            sep = i;
        }
        i += 1;
    }
    proof {
        if sep == n {
            assert(spec_find_scheme_sep(post@, i as int) == n);
        }
    }
    let start2: usize = if sep < n {
        sep + 3
    } else {
        0
    };
    let mut j: usize = start2;
    let mut pend: usize = n;
    while pend == n && j < n
        invariant
            start2 <= j <= n || pend < n,
            j <= n,
            n == post@.len(),
            pend <= n,
            pend == n ==> spec_find_path_start(post@, start2 as int) == spec_find_path_start(
                post@,
                j as int,
            ),
            pend < n ==> spec_find_path_start(post@, start2 as int) == pend,
        decreases n - j,
    {
        let c = post.get_char(j);
        if c == '/' || c == '?' || c == '#' {
            pend = j;
        }
        j += 1;
    }
    proof {
        if pend == n {
            assert(spec_find_path_start(post@, j as int) == n);
        }
        assert(pend == spec_authority_end(post@));
    }
    let prefix = post.substring_char(0, pend);
    let mut r = prefix.to_owned();
    r.append("/operations/status?id=");
    r.append(operation_id);
    proof {
        assert(r@ =~= spec_status_url(post@, operation_id@));
    }
    r
}

/// Build the message recorded when a subscriber fails: it names the
/// subscriber and carries the failure detail.
pub fn failure_message(name: &String, detail: &str) -> (r: String)
    ensures
        r@ == spec_failure_message(name@, detail@),
{
    let mut r = "subscriber `".to_owned();
    r.append(name.as_str());
    r.append("` failed: ");
    r.append(detail);
    proof {
        assert(r@ =~= spec_failure_message(name@, detail@));
    }
    r
}

/// The message recorded when an asynchronous subscriber was polled to the
/// attempt bound without reaching a terminal status.
pub fn poll_timeout_message(name: &String) -> (r: String)
    ensures
        r@ == spec_failure_message(name@, "polling timed out"@),
{
    failure_message(name, "polling timed out")
}

/// Judge one subscriber's POST outcome.
///
/// A transport error, a non-success status, a malformed acknowledgment body
/// or an empty operation id is a subscriber failure; failures of subscribers
/// not marked must-succeed are ignored. A must-succeed synchronous
/// subscriber is done on any success status; a must-succeed asynchronous
/// subscriber moves on to polling the derived status URL.
pub fn subscriber_outcome(def: &SubscriberDef, result: &PostResult) -> (r: SubscriberVerdict)
    ensures
        !def.must_succeed ==> r is Done,
        def.must_succeed ==> match *result {
            PostResult::TransportError(ref m) => r matches SubscriberVerdict::Abort(ref msg)
                && msg@ == spec_failure_message(def.name@, m@),
            PostResult::Delivered(code, ref ack) => {
                if !spec_is_success(code) {
                    r matches SubscriberVerdict::Abort(ref msg) && msg@ == spec_failure_message(
                        def.name@,
                        "unexpected http status"@,
                    )
                } else if !def.is_async {
                    r is Done
                } else {
                    match *ack {
                        None => r matches SubscriberVerdict::Abort(ref msg) && msg@
                            == spec_failure_message(def.name@, "invalid acknowledgment body"@),
                        Some(ref a) => {
                            if a.operation_id@.len() == 0 {
                                r matches SubscriberVerdict::Abort(ref msg) && msg@
                                    == spec_failure_message(
                                    def.name@,
                                    "empty operation id in acknowledgment"@,
                                )
                            } else {
                                r matches SubscriberVerdict::Poll(ref url, ref opid) && url@
                                    == spec_status_url(def.post@, a.operation_id@) && opid@
                                    == a.operation_id@
                            }
                        },
                    }
                }
            },
        },
{
    match result {
        PostResult::TransportError(m) => {
            if def.must_succeed {
                SubscriberVerdict::Abort(failure_message(&def.name, m.as_str()))
            } else {
                SubscriberVerdict::Done
            }
        },
        PostResult::Delivered(code, ack) => {
            let ok = 200 <= *code && *code < 300;
            if !ok {
                if def.must_succeed {
                    SubscriberVerdict::Abort(failure_message(&def.name, "unexpected http status"))
                } else {
                    SubscriberVerdict::Done
                }
            } else if !def.must_succeed || !def.is_async {
                SubscriberVerdict::Done
            } else {
                match ack {
                    None => SubscriberVerdict::Abort(
                        failure_message(&def.name, "invalid acknowledgment body"),
                    ),
                    Some(a) => {
                        if a.operation_id.as_str().unicode_len() == 0 {
                            SubscriberVerdict::Abort(
                                failure_message(&def.name, "empty operation id in acknowledgment"),
                            )
                        } else {
                            let url = status_url(def.post.as_str(), a.operation_id.as_str());
                            SubscriberVerdict::Poll(url, a.operation_id.clone())
                        }
                    },
                }
            }
        },
    }
}

/// Judge one poll of an asynchronous subscriber's status endpoint.
///
/// Transport errors, non-success statuses and malformed bodies abort at
/// once. A body whose status classifies as done completes the subscriber;
/// one that classifies as failed aborts with the reported message (or the
/// status text when none was reported); anything else continues polling.
pub fn poll_outcome(name: &String, response: &PollResponse) -> (r: PollVerdict)
    ensures
        match *response {
            PollResponse::TransportError(ref m) => r matches PollVerdict::Failure(ref msg) && msg@
                == spec_failure_message(name@, m@),
            PollResponse::Delivered(code, ref body) => {
                if !spec_is_success(code) {
                    r matches PollVerdict::Failure(ref msg) && msg@ == spec_failure_message(
                        name@,
                        "unexpected http status while polling"@,
                    )
                } else {
                    match *body {
                        None => r matches PollVerdict::Failure(ref msg) && msg@
                            == spec_failure_message(name@, "invalid status body"@),
                        Some(ref b) => match spec_poll_class(b.status@) {
                            PollClass::Done => r is Completed,
                            PollClass::Failed => r matches PollVerdict::Failure(ref msg) && msg@
                                == spec_failure_message(
                                name@,
                                match b.message {
                                    Some(ref m) => m@,
                                    None => b.status@,
                                },
                            ),
                            PollClass::Pending => r is ContinuePolling,
                        },
                    }
                }
            },
        },
{
    match response {
        PollResponse::TransportError(m) => PollVerdict::Failure(
            failure_message(name, m.as_str()),
        ),
        PollResponse::Delivered(code, body) => {
            let ok = 200 <= *code && *code < 300;
            if !ok {
                PollVerdict::Failure(failure_message(name, "unexpected http status while polling"))
            } else {
                match body {
                    None => PollVerdict::Failure(failure_message(name, "invalid status body")),
                    Some(b) => {
                        match classify_poll_status(&b.status) {
                            PollClass::Done => PollVerdict::Completed,
                            PollClass::Failed => {
                                match &b.message {
                                    Some(m) => PollVerdict::Failure(
                                        failure_message(name, m.as_str()),
                                    ),
                                    None => PollVerdict::Failure(
                                        failure_message(name, b.status.as_str()),
                                    ),
                                }
                            },
                            PollClass::Pending => PollVerdict::ContinuePolling,
                        }
                    },
                }
            }
        },
    }
}

} // verus!
