//! A service that deploys bundles (static sites and Node.js applications) to
//! nodes: the rules it follows, proved with Verus. Bundles are archives kept in
//! object storage; connected nodes and the index of which bundle is deployed on
//! which node are kept in a key-value cache; the network, the database and the
//! storage are reached by the program around this library.
use vstd::prelude::*;
use vstd::string::*;

pub mod auth;
pub mod cache;
pub mod content;
pub mod deploy;
pub mod errors;
pub mod ids;
pub mod keys;
pub mod storage;
pub mod text;
pub mod types;
pub mod uuid_as_base64;

verus! {

/// Name of the header that carries the application password on requests to nodes.
pub const KEY_HEADER_NAME: &'static str = "SALLAR_AUTH";

/// The answer of the health route.
pub fn health() -> (res: String)
    ensures
        res@ == "Healthy"@,
{
    String::from_str("Healthy")
}

} // verus!
