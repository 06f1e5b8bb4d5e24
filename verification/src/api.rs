//! The event types the engine consumes and the route decision for the
//! host boundary.
//!
//! The host boundary (HTTP framing, status codes, serialization) is an
//! external collaborator; only the routing decision itself — which
//! endpoint a request addresses and whether it must be upgraded — is
//! logic, and it is decided here from plain values.

use vstd::prelude::*;

use crate::text::contains_seq;
use crate::text::chars_of;
use crate::text::vec_contains_eq;

verus! {

/// One normalized log event, produced by an external ingestion
/// boundary and consumed exactly once by the detection engine.
pub struct LogEntry {
    pub message: String,
    pub timestamp: u64,
    pub source: String,
}

/// A minimal event: a message attributed to a source. The full event
/// form adds a timestamp.
pub struct ThreatInput {
    pub source: String,
    pub message: String,
}

impl ThreatInput {
    /// Completes this input into a full event with the given timestamp.
    pub fn into_log_entry(self, timestamp: u64) -> (r: LogEntry)
        ensures
            r.message@ == self.message@,
            r.source@ == self.source@,
            r.timestamp == timestamp,
    {
        LogEntry { message: self.message, timestamp, source: self.source }
    }
}

/// A token identifying the continuation of a streamed response body.
pub struct HttpResponseStreamingCallbackToken {
    pub token: String,
}

/// What the host boundary should do with one request.
#[derive(Clone, Copy, PartialEq, Eq, Structural, Debug)]
pub enum RouteAction {
    /// The threat endpoint was addressed by a read-only call; the host
    /// must re-issue it as a state-changing call.
    UpgradeRequired,
    /// Classify the events carried in the request body.
    ClassifyLogs,
    /// Authenticate the caller's wallet.
    WalletAuthenticate,
    /// No route matches.
    NotFound,
}

/// The request path: the URL up to, and not including, its first `?`.
pub open spec fn spec_path_of(url: Seq<char>) -> Seq<char>
    decreases url.len(),
{
    if url.len() == 0 {
        url
    } else if url[0] == '?' {
        Seq::empty()
    } else {
        seq![url[0]] + spec_path_of(url.drop_first())
    }
}

/// The route decision for a request: the threat endpoint answers a
/// `POST` whose path contains `/threat_endpoint`, and requires an
/// upgrade when reached by a read-only call; the wallet endpoint
/// answers a `POST` whose path contains `/wallet_authenticate`;
/// everything else is not found.
pub open spec fn spec_route(url: Seq<char>, method: Seq<char>, is_update: bool) -> RouteAction {
    let path = spec_path_of(url);
    if contains_seq(path, "/threat_endpoint"@) && method == "POST"@ {
        if is_update {
            RouteAction::ClassifyLogs
        } else {
            RouteAction::UpgradeRequired
        }
    } else if contains_seq(path, "/wallet_authenticate"@) && method == "POST"@ {
        RouteAction::WalletAuthenticate
    } else {
        RouteAction::NotFound
    }
}

/// The characters of the request path: the URL up to its first `?`.
fn path_chars(url: &str) -> (r: Vec<char>)
    ensures
        r@ == spec_path_of(url@),
{
    let cs = chars_of(url);
    let n = cs.len();
    let mut r: Vec<char> = Vec::new();
    let mut i: usize = 0;
    while i < n
        invariant
            n == cs@.len(),
            cs@ == url@,
            i <= n,
            r@ == cs@.subrange(0, i as int),
            forall|j: int| 0 <= j < i ==> cs@[j] != '?',
        decreases n - i,
    {
        if cs[i] == '?' {
            proof {
                lemma_path_of_prefix(url@, i as int);
            }
            return r;
        }
        r.push(cs[i]);
        i = i + 1;
        proof {
            assert(r@ =~= cs@.subrange(0, i as int));
        }
    }
    proof {
        lemma_path_of_whole(url@);
        assert(r@ =~= url@);
    }
    r
}

/// When `url` holds no `?` before position `i` and one at `i`, the
/// path is the prefix of length `i`.
proof fn lemma_path_of_prefix(url: Seq<char>, i: int)
    requires
        0 <= i < url.len(),
        url[i] == '?',
        forall|j: int| 0 <= j < i ==> url[j] != '?',
    ensures
        spec_path_of(url) == url.subrange(0, i),
    decreases i,
{
    if i == 0 {
        assert(spec_path_of(url) =~= url.subrange(0, 0));
    } else {
        lemma_path_of_prefix(url.drop_first(), i - 1);
        assert(spec_path_of(url) =~= seq![url[0]] + url.drop_first().subrange(0, i - 1));
        assert(seq![url[0]] + url.drop_first().subrange(0, i - 1) =~= url.subrange(0, i));
    }
}

/// When `url` holds no `?` at all, the path is the whole URL.
proof fn lemma_path_of_whole(url: Seq<char>)
    requires
        forall|j: int| 0 <= j < url.len() ==> url[j] != '?',
    ensures
        spec_path_of(url) == url,
    decreases url.len(),
{
    if url.len() > 0 {
        lemma_path_of_whole(url.drop_first());
        assert(spec_path_of(url) =~= seq![url[0]] + url.drop_first());
        assert(seq![url[0]] + url.drop_first() =~= url);
    }
}

/// Decides how the host boundary should dispatch one request.
pub fn route_request(url: &str, method: &str, is_update: bool) -> (r: RouteAction)
    ensures
        r == spec_route(url@, method@, is_update),
{
    let path = path_chars(url);
    let is_post = method_is_post(method);
    let threat = chars_of("/threat_endpoint");
    if vec_contains_eq(&path, &threat) && is_post {
        if is_update {
            RouteAction::ClassifyLogs
        } else {
            RouteAction::UpgradeRequired
        }
    } else {
        let wallet = chars_of("/wallet_authenticate");
        if vec_contains_eq(&path, &wallet) && is_post {
            RouteAction::WalletAuthenticate
        } else {
            RouteAction::NotFound
        }
    }
}

/// True when the request method is `POST`.
fn method_is_post(method: &str) -> (r: bool)
    ensures
        r == (method@ == "POST"@),
{
    let owned = method.to_owned();
    let post = "POST".to_owned();
    owned == post
}

} // verus!
