//! Deploying a bundle on a node: the archive's object key, the link's lifetime,
//! the request sent to the node, and how often a refusal is retried.
use vstd::prelude::*;
use vstd::string::*;

use crate::ids::{hex_digit, uuid_text, uuid_to_text, UuidBytes};
use crate::text::str_eq;
use crate::errors::RouteError;
use crate::types::{node_kind_name, Node, NodeKind};

verus! {

/// How long a presigned archive link stays valid, in seconds (one hour).
pub const FILES_AVAILABLE_SECS: u32 = 3600;

/// How many times a refused deployment is sent again before giving up.
pub const MAX_RETRY_COUNT: u8 = 5;

/// Path, on the node, of the bundle resource.
pub const NODE_BUNDLE_PATH: &'static str = "/bundle";

/// The object key of a bundle's archive: `<id>.zip`.
pub open spec fn archive_key_of(id: Seq<u8>) -> Seq<char> {
    uuid_text(id) + ".zip"@
}

/// The object key of the archive of the bundle `id`.
pub fn archive_key(id: UuidBytes) -> (res: String)
    ensures
        res@ == archive_key_of(id@),
{
    let text = uuid_to_text(id);
    text.concat(".zip")
}

/// How JSON writes the character `c` inside a string.
pub open spec fn json_escape(c: char) -> Seq<char> {
    if c == '"' {
        seq!['\\', '"']
    } else if c == '\\' {
        seq!['\\', '\\']
    } else if c == '\x08' {
        seq!['\\', 'b']
    } else if c == '\t' {
        seq!['\\', 't']
    } else if c == '\n' {
        seq!['\\', 'n']
    } else if c == '\x0C' {
        seq!['\\', 'f']
    } else if c == '\r' {
        seq!['\\', 'r']
    } else if (c as int) < 32 {
        seq!['\\', 'u', '0', '0', hex_digit((c as int) / 16), hex_digit((c as int) % 16)]
    } else {
        seq![c]
    }
}

/// The characters of `s`, each written as JSON writes it inside a string.
pub open spec fn json_escaped(s: Seq<char>) -> Seq<char>
    decreases s.len(),
{
    if s.len() == 0 {
        seq![]
    } else {
        json_escape(s[0]) + json_escaped(s.drop_first())
    }
}

/// The JSON string literal for `s`.
pub open spec fn json_string(s: Seq<char>) -> Seq<char> {
    seq!['"'] + json_escaped(s) + seq!['"']
}

/// `serde_json::to_string` of a string: its JSON string literal (quotes,
/// backslashes and control characters escaped; serialising a string cannot fail).
#[verifier::external_body]
fn json_string_literal(s: &str) -> (res: String)
    ensures
        res@ == json_string(s@),
{
    serde_json::to_string(s).unwrap_or_default()
}

/// The body of the request that hands a bundle to a node: a JSON object with the
/// archive link and the node's kind, keys in order.
pub open spec fn deploy_request_body_of(link: Seq<char>, kind: NodeKind) -> Seq<char> {
    "{\"bundle_link\":"@ + json_string(link) + ",\"kind\":\""@ + node_kind_name(kind) + "\"}"@
}

/// The body of the request that hands the archive at `link` to a node of kind `kind`.
pub fn deploy_request_body(link: &str, kind: NodeKind) -> (res: String)
    ensures
        res@ == deploy_request_body_of(link@, kind),
{
    let start = String::from_str("{\"bundle_link\":");
    let literal = json_string_literal(link);
    let with_link = start.concat(literal.as_str());
    let with_key = with_link.concat(",\"kind\":\"");
    let with_kind = with_key.concat(kind.name());
    with_kind.concat("\"}")
}

/// What joining the reference `path` to the address `base` gives: the joined
/// address, or none where `base` is not an absolute address or the join fails.
pub uninterp spec fn url_join_of(base: Seq<char>, path: Seq<char>) -> Option<Seq<char>>;

/// `reqwest::Url::parse(base)` then `join(path)`, written back as text: its
/// result is named by `url_join_of`.
#[verifier::external_body]
fn url_join(base: &str, path: &str) -> (res: Option<String>)
    ensures
        match res {
            Some(e) => url_join_of(base@, path@) == Some(e@),
            None => url_join_of(base@, path@) is None,
        },
{
    let parsed = match reqwest::Url::parse(base) {
        Ok(parsed) => parsed,
        Err(_) => return None,
    };
    match parsed.join(path) {
        Ok(joined) => Some(joined.to_string()),
        Err(_) => None,
    }
}

/// The address of the bundle resource of `node`, to which deployments are sent
/// and from which they are removed; none where the node's address cannot be a base.
pub fn node_bundle_endpoint(node: &Node) -> (res: Option<String>)
    ensures
        match res {
            Some(e) => url_join_of(node.url@, "/bundle"@) == Some(e@),
            None => url_join_of(node.url@, "/bundle"@) is None,
        },
{
    url_join(node.url.as_str(), NODE_BUNDLE_PATH)
}

/// The address of the bundle resource of a connected node; a node whose
/// address cannot take the bundle path is answered as corrupted data.
pub fn connected_node_endpoint(node: &Node) -> (res: Result<String, RouteError>)
    ensures
        match url_join_of(node.url@, "/bundle"@) {
            Some(e) => res matches Ok(r) && r@ == e,
            None => res matches Err(RouteError::Unexpected(m)) && m@ == "invalid node address"@,
        },
{
    match url_join(node.url.as_str(), NODE_BUNDLE_PATH) {
        Some(e) => Ok(e),
        None => Err(RouteError::Unexpected(String::from_str("invalid node address"))),
    }
}

/// The error with which handing a bundle over stops after too many refusals.
pub fn give_up_error() -> (res: RouteError)
    ensures
        res matches RouteError::Any(m) && m@ == "exceeded max retries for checking deployment status"@,
{
    RouteError::Any(String::from_str("exceeded max retries for checking deployment status"))
}

/// What to do after a node answered a deployment request.
#[derive(Debug, Clone, Copy, PartialEq, Eq, Structural)]
pub enum RetryDecision {
    /// The node took the bundle
    Deployed,
    /// Send the request again
    Retry,
    /// Stop: too many refusals
    GiveUp,
}

/// The decision after the `attempt`-th request was answered with `status`.
pub open spec fn decide(attempt: nat, status: Seq<char>) -> RetryDecision {
    if status == "success"@ {
        RetryDecision::Deployed
    } else if attempt > MAX_RETRY_COUNT {
        RetryDecision::GiveUp
    } else {
        RetryDecision::Retry
    }
}

/// The requests sent so far while handing a bundle to a node.
pub struct Retries {
    sent: u8,
}

impl Retries {
    /// How many requests have been sent.
    pub closed spec fn sent(&self) -> nat {
        self.sent as nat
    }

    /// Nothing sent yet.
    pub fn new() -> (res: Retries)
        ensures
            res.sent() == 0,
    {
        Retries { sent: 0 }
    }

    /// How many requests have been sent.
    pub fn attempts(&self) -> (res: u8)
        ensures
            res == self.sent(),
    {
        self.sent
    }

    /// Counts a request about to be sent; more than `MAX_RETRY_COUNT + 1` are never sent.
    pub fn start_attempt(&mut self)
        requires
            old(self).sent() <= MAX_RETRY_COUNT,
        ensures
            final(self).sent() == old(self).sent() + 1,
    {
        self.sent = self.sent + 1;
    }

    /// What to do after the last request sent was answered with `status`.
    pub fn decide(&self, status: &str) -> (res: RetryDecision)
        ensures
            res == decide(self.sent(), status@),
    {
        if str_eq(status, "success") {
            RetryDecision::Deployed
        } else if self.sent > MAX_RETRY_COUNT {
            RetryDecision::GiveUp
        } else {
            RetryDecision::Retry
        }
    }
}

/// How handing a bundle over ends when the node answers with `statuses`, in
/// order, after `sent` requests: the number of requests sent and the last decision.
pub open spec fn hand_over(sent: nat, statuses: Seq<Seq<char>>) -> (nat, RetryDecision)
    decreases statuses.len(),
{
    if statuses.len() == 0 {
        (sent, RetryDecision::Retry)
    } else {
        let d = decide(sent + 1, statuses[0]);
        if d == RetryDecision::Retry {
            hand_over(sent + 1, statuses.drop_first())
        } else {
            (sent + 1, d)
        }
    }
}

/// Whether none of the first `n` answers is `success`.
pub open spec fn refused_first(statuses: Seq<Seq<char>>, n: int) -> bool {
    forall|i: int| 0 <= i < n ==> statuses[i] != "success"@
}

/// A bundle is handed to a node in at most six requests: the first `success`
/// among the first six answers ends it as deployed, right after the request it
/// answers; six refusals in a row end it by giving up.
pub proof fn lemma_hand_over_bounded(statuses: Seq<Seq<char>>)
    requires
        statuses.len() >= 6,
    ensures
        hand_over(0, statuses).0 <= 6,
        hand_over(0, statuses).1 == RetryDecision::GiveUp <==> refused_first(statuses, 6),
        forall|k: int|
            0 <= k < 6 && refused_first(statuses, k) && statuses[k] == "success"@ ==> hand_over(0, statuses).0
                == k + 1 && hand_over(0, statuses).1 == RetryDecision::Deployed,
{
    let s1 = statuses.drop_first();
    let s2 = s1.drop_first();
    let s3 = s2.drop_first();
    let s4 = s3.drop_first();
    let s5 = s4.drop_first();
    assert(s1[0] == statuses[1]);
    assert(s2[0] == statuses[2]);
    assert(s3[0] == statuses[3]);
    assert(s4[0] == statuses[4]);
    assert(s5[0] == statuses[5]);
    assert(hand_over(5, s5) == (6nat, decide(6, statuses[5])));
    assert(hand_over(4, s4) == if decide(5, statuses[4]) == RetryDecision::Retry {
        hand_over(5, s5)
    } else {
        (5nat, decide(5, statuses[4]))
    });
    assert(hand_over(3, s3) == if decide(4, statuses[3]) == RetryDecision::Retry {
        hand_over(4, s4)
    } else {
        (4nat, decide(4, statuses[3]))
    });
    assert(hand_over(2, s2) == if decide(3, statuses[2]) == RetryDecision::Retry {
        hand_over(3, s3)
    } else {
        (3nat, decide(3, statuses[2]))
    });
    assert(hand_over(1, s1) == if decide(2, statuses[1]) == RetryDecision::Retry {
        hand_over(2, s2)
    } else {
        (2nat, decide(2, statuses[1]))
    });
    assert(hand_over(0, statuses) == if decide(1, statuses[0]) == RetryDecision::Retry {
        hand_over(1, s1)
    } else {
        (1nat, decide(1, statuses[0]))
    });
}

} // verus!
