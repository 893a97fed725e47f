//! The values the service exchanges: bundles and their kinds, nodes, and the
//! bodies and queries of its routes.
use vstd::prelude::*;
use vstd::string::*;

use crate::ids::UuidBytes;
use crate::text::str_eq;

verus! {

/// What a bundle holds, which decides how a node serves it.
#[derive(Debug, Clone, Copy, PartialEq, Eq, Structural, PartialOrd, Ord)]
pub enum BundleKind {
    /// A static website (`static`)
    Static,
    /// A Node.js application (`nodejs`)
    NodeJS,
}

/// The name of a bundle kind, as stored and as parsed.
pub open spec fn bundle_kind_name(kind: BundleKind) -> Seq<char> {
    match kind {
        BundleKind::Static => "static"@,
        BundleKind::NodeJS => "nodejs"@,
    }
}

/// The bundle kind a name stands for: exactly `static` or `nodejs`.
pub open spec fn parse_bundle_kind(s: Seq<char>) -> Option<BundleKind> {
    if s == "static"@ {
        Some(BundleKind::Static)
    } else if s == "nodejs"@ {
        Some(BundleKind::NodeJS)
    } else {
        None
    }
}

impl BundleKind {
    /// The name of this kind: `static` or `nodejs`.
    pub fn as_ref(&self) -> (res: &'static str)
        ensures
            res@ == bundle_kind_name(*self),
    {
        match self {
            BundleKind::Static => "static",
            BundleKind::NodeJS => "nodejs",
        }
    }

    /// The kind named `s`, if any (names are matched exactly).
    pub fn from_str(s: &str) -> (res: Option<BundleKind>)
        ensures
            res == parse_bundle_kind(s@),
    {
        if str_eq(s, "static") {
            Some(BundleKind::Static)
        } else if str_eq(s, "nodejs") {
            Some(BundleKind::NodeJS)
        } else {
            None
        }
    }

    /// The kind named `value`; any other text is refused with `invalid kind`.
    pub fn try_from(value: String) -> (res: Result<BundleKind, &'static str>)
        ensures
            match parse_bundle_kind(value@) {
                Some(kind) => res == Ok::<BundleKind, &'static str>(kind),
                None => res matches Err(m) && m@ == "invalid kind"@,
            },
    {
        match BundleKind::from_str(value.as_str()) {
            Some(kind) => Ok(kind),
            None => Err("invalid kind"),
        }
    }
}

/// Reading the name of a bundle kind gives the kind back, and different kinds
/// have different names.
pub proof fn lemma_bundle_kind_name_roundtrip(kind: BundleKind)
    ensures
        parse_bundle_kind(bundle_kind_name(kind)) == Some(kind),
{
    reveal_strlit("static");
    reveal_strlit("nodejs");
    assert("static"@[0] != "nodejs"@[0]);
}

/// Kind names are matched exactly: a text is read as a kind only when it is
/// that kind's name, character for character, so `static` and `nodejs` are
/// the only names read and any text that starts with an upper-case letter
/// (`Static`, `STATIC`, `NodeJS`) or differs in length is refused.
pub proof fn lemma_bundle_kind_parse_exact(s: Seq<char>)
    ensures
        parse_bundle_kind(s) matches Some(k) ==> s == bundle_kind_name(k),
        parse_bundle_kind(s) is Some ==> s == "static"@ || s == "nodejs"@,
        s.len() > 0 && 'A' <= s[0] <= 'Z' ==> parse_bundle_kind(s) is None,
        s.len() != 6 ==> parse_bundle_kind(s) is None,
{
    reveal_strlit("static");
    reveal_strlit("nodejs");
}

/// The kind of device a node runs on.
#[derive(Debug, Clone, Copy, PartialEq, Eq, Structural)]
pub enum NodeKind {
    Mobile,
    Web,
    Dekstop,
}

/// The name under which a node kind is written in JSON.
pub open spec fn node_kind_name(kind: NodeKind) -> Seq<char> {
    match kind {
        NodeKind::Mobile => "Mobile"@,
        NodeKind::Web => "Web"@,
        NodeKind::Dekstop => "Dekstop"@,
    }
}

impl NodeKind {
    /// The name under which this kind is written in JSON.
    pub fn name(&self) -> (res: &'static str)
        ensures
            res@ == node_kind_name(*self),
    {
        match self {
            NodeKind::Mobile => "Mobile",
            NodeKind::Web => "Web",
            NodeKind::Dekstop => "Dekstop",
        }
    }
}

/// A node: a device that serves bundles, reachable at `url`.
pub struct Node {
    pub id: UuidBytes,
    pub url: String,
    pub kind: NodeKind,
}

/// The caller of a node route, once it has shown the node manager password.
#[derive(Debug, Clone, Copy, PartialEq, Eq, Structural, PartialOrd, Ord)]
pub struct NodeManager;

/// A request to deploy a bundle again.
pub struct RedeployTask {
    pub bundle_id: UuidBytes,
}

/// Body of a deployment request: which bundle goes to which node.
pub struct DeployBundleModel {
    pub bundle_id: UuidBytes,
    pub node_id: UuidBytes,
}

/// Query that names a bundle, a node or a deployment by its identifier.
pub struct UuidQuery {
    pub id: UuidBytes,
}

/// Query that names a bundle.
pub struct BundleQuery {
    pub bundle_id: UuidBytes,
}

/// Body of a request that creates a bundle.
pub struct CreateBundleRequest {
    pub kind: BundleKind,
}

/// Answer to a request that creates a bundle: the new bundle's identifier.
pub struct CreateBundleResponse {
    pub id: UuidBytes,
}

/// A bundle as listed to its owner.
pub struct Bundle {
    pub is_uploaded: bool,
    pub is_deployed: bool,
    pub kind: BundleKind,
}

/// Answer to a request that lists the caller's bundles.
pub struct ListResponse {
    pub items: Vec<Bundle>,
}

/// Body of a request that disconnects a node.
pub struct DisconnectNode {
    pub id: UuidBytes,
}

/// Extracted claims
pub struct UserCredentials {
    pub user_id: String,
}

/// A request body read as JSON.
pub struct Json<T>(pub T);

/// Config for client
pub struct AwsClientConfig {
    /// Custom endpoint
    pub endpoint: Option<String>,
    /// Custom region
    pub region: String,
}

} // verus!
