//! The records the service keeps in its key-value cache: connected nodes, and
//! the deployment index that maps each deployed bundle to its node and each
//! node to its bundle.
//!
//! The cache is reached over the network, so this module decides what to send
//! and what a reply means; the caller sends the commands. The cache itself is
//! modelled as a map from keys to values (`Store`), with the meaning that the
//! commands `GET`, `SET`, `DEL` and `GETDEL` have on it.
use vstd::prelude::*;
use vstd::string::*;

use crate::errors::RouteError;
use crate::types::{Node, RedeployTask};
use crate::ids::{lemma_uuid_parse_text, uuid_from_text, uuid_parse, uuid_text, uuid_to_text, UuidBytes};

verus! {

/// Prefix of the keys under which connected nodes are stored.
pub const KEY_PREFIX: &'static str = "node";

/// Prefix of the keys that map a deployed bundle to its node.
pub const DEPLOYED_BUNDLE_CACHE_PREFIX: &'static str = "bundle_deployment";

/// Prefix of the keys that map a node to the bundle deployed on it.
pub const DEPLOYED_NODE_CACHE_PREFIX: &'static str = "node_deployment";

/// `prefix:uuid`, the key of a record about the identifier `id`.
pub open spec fn key_for(prefix: Seq<char>, id: Seq<u8>) -> Seq<char> {
    prefix + ":"@ + uuid_text(id)
}

/// Key of the node with identifier `id`.
pub open spec fn node_key_of(id: Seq<u8>) -> Seq<char> {
    key_for("node"@, id)
}

/// Key that maps the bundle `id` to the node it is deployed on.
pub open spec fn deployed_bundle_key_of(id: Seq<u8>) -> Seq<char> {
    key_for("bundle_deployment"@, id)
}

/// Key that maps the node `id` to the bundle deployed on it.
pub open spec fn deployed_node_key_of(id: Seq<u8>) -> Seq<char> {
    key_for("node_deployment"@, id)
}

fn key(prefix: &str, id: UuidBytes) -> (res: String)
    ensures
        res@ == key_for(prefix@, id@),
{
    let text = uuid_to_text(id);
    let start = String::from_str(prefix);
    let with_colon = start.concat(":");
    with_colon.concat(text.as_str())
}

/// Key of the node with identifier `id`: `node:<id>`.
pub fn node_key(id: UuidBytes) -> (res: String)
    ensures
        res@ == node_key_of(id@),
{
    key(KEY_PREFIX, id)
}

/// Key that maps the bundle `id` to its node: `bundle_deployment:<id>`.
pub fn deployed_bundle_key(id: UuidBytes) -> (res: String)
    ensures
        res@ == deployed_bundle_key_of(id@),
{
    key(DEPLOYED_BUNDLE_CACHE_PREFIX, id)
}

/// Key that maps the node `id` to its bundle: `node_deployment:<id>`.
pub fn deployed_node_key(id: UuidBytes) -> (res: String)
    ensures
        res@ == deployed_node_key_of(id@),
{
    key(DEPLOYED_NODE_CACHE_PREFIX, id)
}

/// Which side of a deployment a lookup starts from.
#[derive(Clone, Copy)]
pub enum FindBy {
    /// The deployment of this bundle
    Bundle(UuidBytes),
    /// The deployment on this node
    Node(UuidBytes),
}

/// The key a lookup by `by` reads.
pub open spec fn find_key(by: FindBy) -> Seq<char> {
    match by {
        FindBy::Bundle(id) => deployed_bundle_key_of(id@),
        FindBy::Node(id) => deployed_node_key_of(id@),
    }
}

/// The key of the other side of a deployment found by `by` to be with `found`.
pub open spec fn counterpart_key(by: FindBy, found: Seq<u8>) -> Seq<char> {
    match by {
        FindBy::Bundle(_) => deployed_node_key_of(found),
        FindBy::Node(_) => deployed_bundle_key_of(found),
    }
}

/// The key a lookup by `by` reads: `bundle_deployment:<id>` or `node_deployment:<id>`.
pub fn find_by_key(by: FindBy) -> (res: String)
    ensures
        res@ == find_key(by),
{
    match by {
        FindBy::Bundle(id) => deployed_bundle_key(id),
        FindBy::Node(id) => deployed_node_key(id),
    }
}

/// A command to the cache.
pub enum CacheCommand {
    /// Read the value of a key
    Get(String),
    /// Write the value of a key, replacing any value it had
    Put(String, String),
    /// Remove a key
    Del(String),
    /// Read the value of a key and remove the key
    GetDel(String),
}

/// A command to the cache, over the text of keys and values.
pub enum Command {
    Get(Seq<char>),
    Put(Seq<char>, Seq<char>),
    Del(Seq<char>),
    GetDel(Seq<char>),
}

impl View for CacheCommand {
    type V = Command;

    open spec fn view(&self) -> Command {
        match self {
            CacheCommand::Get(k) => Command::Get(k@),
            CacheCommand::Put(k, v) => Command::Put(k@, v@),
            CacheCommand::Del(k) => Command::Del(k@),
            CacheCommand::GetDel(k) => Command::GetDel(k@),
        }
    }
}

/// The contents of the cache: a value for each key that is present.
pub type Store = Map<Seq<char>, Seq<char>>;

/// The value the cache holds under `k`, if any.
pub open spec fn read(store: Store, k: Seq<char>) -> Option<Seq<char>> {
    if store.dom().contains(k) {
        Some(store[k])
    } else {
        None
    }
}

/// What a command does to the cache and what it replies: `GET` and `GETDEL`
/// reply with the value held (or none), `SET` and `DEL` with none.
pub open spec fn apply(store: Store, cmd: Command) -> (Store, Option<Seq<char>>) {
    match cmd {
        Command::Get(k) => (store, read(store, k)),
        Command::Put(k, v) => (store.insert(k, v), None),
        Command::Del(k) => (store.remove(k), None),
        Command::GetDel(k) => (store.remove(k), read(store, k)),
    }
}

/// The cache after the commands `cmds`, sent in order.
pub open spec fn apply_all(store: Store, cmds: Seq<Command>) -> Store
    decreases cmds.len(),
{
    if cmds.len() == 0 {
        store
    } else {
        apply_all(apply(store, cmds[0]).0, cmds.subrange(1, cmds.len() as int))
    }
}

/// The view of an optional reply.
pub open spec fn reply_view(reply: Option<String>) -> Option<Seq<char>> {
    match reply {
        Some(s) => Some(s@),
        None => None,
    }
}

/// What a stored deployment record means.
pub enum Outcome {
    /// The record names this identifier
    Found(Seq<u8>),
    /// There is no record
    Missing,
    /// The record does not hold an identifier
    Corrupted,
}

/// What the reply to a read of a deployment record means.
pub open spec fn outcome(reply: Option<Seq<char>>) -> Outcome {
    match reply {
        None => Outcome::Missing,
        Some(s) => match uuid_parse(s) {
            Some(b) => Outcome::Found(b),
            None => Outcome::Corrupted,
        },
    }
}

/// Reads the reply to a read of a deployment record: none where there is no
/// record, else the identifier the record holds, if it holds one.
pub fn parse_deployment_record(reply: Option<String>) -> (res: Option<Option<UuidBytes>>)
    ensures
        match outcome(reply_view(reply)) {
            Outcome::Missing => res is None,
            Outcome::Corrupted => res == Some(None::<UuidBytes>),
            Outcome::Found(b) => res matches Some(Some(id)) && id@ == b,
        },
{
    match reply {
        None => None,
        Some(text) => Some(uuid_from_text(text.as_str())),
    }
}

// --- node records ---------------------------------------------------------

/// The command that reads the node `id`.
pub fn node_lookup_command(id: UuidBytes) -> (res: CacheCommand)
    ensures
        res@ == Command::Get(node_key_of(id@)),
{
    CacheCommand::Get(node_key(id))
}

/// The command that stores the node `id` as the serialized record `record`.
pub fn node_store_command(id: UuidBytes, record: String) -> (res: CacheCommand)
    ensures
        res@ == Command::Put(node_key_of(id@), record@),
{
    CacheCommand::Put(node_key(id), record)
}

/// The command that removes the node `id`.
pub fn node_remove_command(id: UuidBytes) -> (res: CacheCommand)
    ensures
        res@ == Command::Del(node_key_of(id@)),
{
    CacheCommand::Del(node_key(id))
}

/// What the reply to a node lookup means: the serialized record, or that no
/// node with the identifier is connected.
pub fn node_lookup_result(reply: Option<String>) -> (res: Result<String, RouteError>)
    ensures
        match reply {
            Some(record) => res matches Ok(r) && r@ == record@,
            None => res matches Err(RouteError::NotFound(m)) && m@ == "node with specified id"@,
        },
{
    match reply {
        Some(record) => Ok(record),
        None => Err(RouteError::NotFound(String::from_str("node with specified id"))),
    }
}

/// The node from the result of reading its stored record as a node (none where
/// the record is not a node's JSON): such a record is answered as corrupted data.
pub fn node_from_record(parsed: Option<Node>) -> (res: Result<Node, RouteError>)
    ensures
        match parsed {
            Some(node) => res == Ok::<Node, RouteError>(node),
            None => res matches Err(RouteError::Unexpected(m)) && m@ == "corrupted data"@,
        },
{
    match parsed {
        Some(node) => Ok(node),
        None => Err(RouteError::Unexpected(String::from_str("corrupted data"))),
    }
}

/// What disconnecting a node does once its deployment record has been taken
/// away (`removed`: the bundle that was deployed on it, or the error): the
/// bundle is queued to be deployed again; a node without a deployment is
/// disconnected all the same; any other error is passed on.
pub fn disconnect_outcome(removed: Result<UuidBytes, RouteError>) -> (res: Result<Option<RedeployTask>, RouteError>)
    ensures
        match removed {
            Ok(bundle_id) => res matches Ok(Some(task)) && task.bundle_id == bundle_id,
            Err(RouteError::NotFound(_)) => res matches Ok(None),
            Err(e) => res == Err::<Option<RedeployTask>, RouteError>(e),
        },
{
    match removed {
        Ok(bundle_id) => Ok(Some(RedeployTask { bundle_id })),
        Err(RouteError::NotFound(_)) => Ok(None),
        Err(e) => Err(e),
    }
}

// --- deployment index -----------------------------------------------------

/// The command that reads the deployment record found by `by`.
pub fn deployment_lookup_command(by: FindBy) -> (res: CacheCommand)
    ensures
        res@ == Command::Get(find_key(by)),
{
    CacheCommand::Get(find_by_key(by))
}

/// What the reply to a deployment lookup means: the identifier on the other
/// side, or, where there is no record or it holds no identifier, that there
/// is no such deployment.
pub fn deployment_lookup_result(reply: Option<String>) -> (res: Result<UuidBytes, RouteError>)
    ensures
        match outcome(reply_view(reply)) {
            Outcome::Found(b) => res matches Ok(id) && id@ == b,
            _ => res matches Err(RouteError::NotFound(m)) && m@ == "node with this bundle"@,
        },
{
    deployment_lookup_verdict(parse_deployment_record(reply))
}

/// The commands that record that the bundle `bundle_id` is deployed on the
/// node `node_id`: one record from the bundle to the node, one back.
pub open spec fn record_commands(bundle_id: Seq<u8>, node_id: Seq<u8>) -> Seq<Command> {
    seq![
        Command::Put(deployed_bundle_key_of(bundle_id), uuid_text(node_id)),
        Command::Put(deployed_node_key_of(node_id), uuid_text(bundle_id)),
    ]
}

/// The commands that record that the bundle `bundle_id` is deployed on the
/// node `node_id`, in the order they are sent.
pub fn deployment_record_commands(bundle_id: UuidBytes, node_id: UuidBytes) -> (res: Vec<CacheCommand>)
    ensures
        res@.len() == 2,
        res@[0]@ == record_commands(bundle_id@, node_id@)[0],
        res@[1]@ == record_commands(bundle_id@, node_id@)[1],
{
    let mut commands: Vec<CacheCommand> = Vec::new();
    commands.push(CacheCommand::Put(deployed_bundle_key(bundle_id), uuid_to_text(node_id)));
    commands.push(CacheCommand::Put(deployed_node_key(node_id), uuid_to_text(bundle_id)));
    commands
}

/// The command that takes away the deployment record found by `by`.
pub fn deployment_remove_command(by: FindBy) -> (res: CacheCommand)
    ensures
        res@ == Command::GetDel(find_key(by)),
{
    CacheCommand::GetDel(find_by_key(by))
}

/// What the reply to taking away the deployment record found by `by` means:
/// the identifier on the other side, with the command that removes the record
/// back; or that there was no record; or that the record held no identifier.
pub fn deployment_remove_result(by: FindBy, reply: Option<String>) -> (res: Result<(UuidBytes, CacheCommand), RouteError>)
    ensures
        match outcome(reply_view(reply)) {
            Outcome::Found(b) => res matches Ok((id, cmd)) && id@ == b && cmd@ == Command::Del(counterpart_key(by, b)),
            Outcome::Missing => res matches Err(RouteError::NotFound(m))
                && m@ == "node or bundle deployment record"@,
            Outcome::Corrupted => res matches Err(RouteError::Unexpected(m))
                && m@ == "corrupted data for deployment records in cache"@,
        },
{
    deployment_remove_verdict(by, parse_deployment_record(reply))
}

/// What a read deployment record (none, a record without an identifier, or
/// the identifier it holds) means to a lookup.
pub fn deployment_lookup_verdict(parsed: Option<Option<UuidBytes>>) -> (res: Result<UuidBytes, RouteError>)
    ensures
        match parsed {
            Some(Some(id)) => res == Ok::<UuidBytes, RouteError>(id),
            _ => res matches Err(RouteError::NotFound(m)) && m@ == "node with this bundle"@,
        },
{
    match parsed {
        Some(Some(id)) => Ok(id),
        _ => Err(RouteError::NotFound(String::from_str("node with this bundle"))),
    }
}

/// What a deployment record taken away by `by` (none, a record without an
/// identifier, or the identifier it holds) means: the identifier with the
/// command that removes the record back, or the error.
pub fn deployment_remove_verdict(by: FindBy, parsed: Option<Option<UuidBytes>>) -> (res: Result<(UuidBytes, CacheCommand), RouteError>)
    ensures
        match parsed {
            Some(Some(b)) => res matches Ok((id, cmd)) && id == b && cmd@ == Command::Del(counterpart_key(by, b@)),
            None => res matches Err(RouteError::NotFound(m))
                && m@ == "node or bundle deployment record"@,
            Some(None) => res matches Err(RouteError::Unexpected(m))
                && m@ == "corrupted data for deployment records in cache"@,
        },
{
    match parsed {
        None => Err(RouteError::NotFound(String::from_str("node or bundle deployment record"))),
        Some(None) => Err(
            RouteError::Unexpected(String::from_str("corrupted data for deployment records in cache")),
        ),
        Some(Some(id)) => {
            let other = match by {
                FindBy::Bundle(_) => deployed_node_key(id),
                FindBy::Node(_) => deployed_bundle_key(id),
            };
            Ok((id, CacheCommand::Del(other)))
        },
    }
}

// --- laws -----------------------------------------------------------------

/// Records of different kinds never share a key: node keys, bundle deployment
/// keys and node deployment keys are pairwise different, whatever the identifiers.
pub proof fn lemma_key_kinds_disjoint(a: Seq<u8>, b: Seq<u8>)
    ensures
        deployed_bundle_key_of(a) != deployed_node_key_of(b),
        deployed_bundle_key_of(a) != node_key_of(b),
        deployed_node_key_of(a) != node_key_of(b),
{
    reveal_strlit("node");
    reveal_strlit("bundle_deployment");
    reveal_strlit("node_deployment");
    reveal_strlit(":");
    assert(deployed_bundle_key_of(a)[0] == 'b');
    assert(deployed_node_key_of(b)[0] == 'n');
    assert(node_key_of(b)[0] == 'n');
    assert(deployed_node_key_of(a)[4] == '_');
    assert(node_key_of(b)[4] == ':');
}

/// Keys of one kind are different for different identifiers.
pub proof fn lemma_key_injective(prefix: Seq<char>, a: Seq<u8>, b: Seq<u8>)
    requires
        a.len() == 16,
        b.len() == 16,
        key_for(prefix, a) == key_for(prefix, b),
    ensures
        a == b,
{
    let head = prefix + ":"@;
    assert(key_for(prefix, a).subrange(head.len() as int, key_for(prefix, a).len() as int) =~= uuid_text(a));
    assert(key_for(prefix, b).subrange(head.len() as int, key_for(prefix, b).len() as int) =~= uuid_text(b));
    crate::ids::lemma_uuid_text_injective(a, b);
}

/// After recording that `bundle_id` is deployed on `node_id`, a lookup by the
/// bundle finds the node and a lookup by the node finds the bundle, whatever
/// the cache held before.
pub proof fn lemma_lookup_after_record(store: Store, bundle_id: Seq<u8>, node_id: Seq<u8>)
    requires
        bundle_id.len() == 16,
        node_id.len() == 16,
    ensures
        ({
            let after = apply_all(store, record_commands(bundle_id, node_id));
            &&& outcome(read(after, deployed_bundle_key_of(bundle_id))) == Outcome::Found(node_id)
            &&& outcome(read(after, deployed_node_key_of(node_id))) == Outcome::Found(bundle_id)
        }),
{
    lemma_record_store(store, bundle_id, node_id);
    lemma_key_kinds_disjoint(bundle_id, node_id);
    lemma_uuid_parse_text(node_id);
    lemma_uuid_parse_text(bundle_id);
}

/// The cache after recording a deployment: the two records written, every
/// other key unchanged.
pub proof fn lemma_record_store(store: Store, bundle_id: Seq<u8>, node_id: Seq<u8>)
    ensures
        apply_all(store, record_commands(bundle_id, node_id)) == store.insert(
            deployed_bundle_key_of(bundle_id),
            uuid_text(node_id),
        ).insert(deployed_node_key_of(node_id), uuid_text(bundle_id)),
{
    let cmds = record_commands(bundle_id, node_id);
    let s1 = store.insert(deployed_bundle_key_of(bundle_id), uuid_text(node_id));
    let s2 = s1.insert(deployed_node_key_of(node_id), uuid_text(bundle_id));
    let rest = cmds.subrange(1, 2);
    assert(rest =~= seq![cmds[1]]);
    assert(rest.subrange(1, 1) =~= Seq::<Command>::empty());
    assert(apply(store, cmds[0]).0 == s1);
    assert(apply(s1, rest[0]).0 == s2);
    assert(apply_all(s2, rest.subrange(1, 1)) == s2);
    assert(apply_all(s1, rest) == s2);
}

/// After recording that `bundle_id` is deployed on `node_id`, taking the
/// record away from either side finds the other side, and removing the record
/// back leaves neither record: later lookups by the bundle or by the node find
/// nothing, and every other key keeps its value.
pub proof fn lemma_remove_after_record(store: Store, bundle_id: UuidBytes, node_id: UuidBytes, by: FindBy)
    requires
        by == FindBy::Bundle(bundle_id) || by == FindBy::Node(node_id),
    ensures
        ({
            let recorded = apply_all(store, record_commands(bundle_id@, node_id@));
            let other = if by is Bundle { node_id@ } else { bundle_id@ };
            let (taken, reply) = apply(recorded, Command::GetDel(find_key(by)));
            let cleared = apply(taken, Command::Del(counterpart_key(by, other))).0;
            &&& outcome(reply) == Outcome::Found(other)
            &&& cleared == recorded.remove(deployed_bundle_key_of(bundle_id@)).remove(
                deployed_node_key_of(node_id@),
            )
            &&& outcome(read(cleared, deployed_bundle_key_of(bundle_id@))) == Outcome::Missing
            &&& outcome(read(cleared, deployed_node_key_of(node_id@))) == Outcome::Missing
        }),
{
    lemma_lookup_after_record(store, bundle_id@, node_id@);
    let recorded = apply_all(store, record_commands(bundle_id@, node_id@));
    let bk = deployed_bundle_key_of(bundle_id@);
    let nk = deployed_node_key_of(node_id@);
    lemma_key_kinds_disjoint(bundle_id@, node_id@);
    if by is Bundle {
        assert(recorded.remove(bk).remove(nk) =~= recorded.remove(bk).remove(nk));
    } else {
        assert(recorded.remove(nk).remove(bk) =~= recorded.remove(bk).remove(nk));
    }
}

/// Storing a node and then reading it gives back the record stored; removing it
/// and then reading it finds nothing; neither touches the deployment index.
pub proof fn lemma_node_store_then_lookup(store: Store, id: UuidBytes, record: Seq<char>, other: Seq<u8>)
    ensures
        ({
            let stored = apply(store, Command::Put(node_key_of(id@), record)).0;
            let removed = apply(stored, Command::Del(node_key_of(id@))).0;
            &&& apply(stored, Command::Get(node_key_of(id@))).1 == Some(record)
            &&& apply(removed, Command::Get(node_key_of(id@))).1 == None::<Seq<char>>
            &&& read(stored, deployed_bundle_key_of(other)) == read(store, deployed_bundle_key_of(other))
            &&& read(stored, deployed_node_key_of(other)) == read(store, deployed_node_key_of(other))
            &&& read(removed, deployed_bundle_key_of(other)) == read(store, deployed_bundle_key_of(other))
            &&& read(removed, deployed_node_key_of(other)) == read(store, deployed_node_key_of(other))
        }),
{
    lemma_key_kinds_disjoint(other, id@);
}

/// The deployment index is consistent when its two directions agree: the
/// bundle `b` is recorded on the node `n` exactly when `n` is recorded with `b`.
pub open spec fn index_consistent(store: Store) -> bool {
    forall|b: Seq<u8>, n: Seq<u8>|
        #![trigger deployed_bundle_key_of(b), deployed_node_key_of(n)]
        b.len() == 16 && n.len() == 16 ==> (read(store, deployed_bundle_key_of(b)) == Some(uuid_text(n))
            <==> read(store, deployed_node_key_of(n)) == Some(uuid_text(b)))
}

proof fn lemma_texts_differ(a: Seq<u8>, b: Seq<u8>)
    requires
        a.len() == 16,
        b.len() == 16,
        a != b,
    ensures
        uuid_text(a) != uuid_text(b),
        deployed_bundle_key_of(a) != deployed_bundle_key_of(b),
        deployed_node_key_of(a) != deployed_node_key_of(b),
{
    if uuid_text(a) == uuid_text(b) {
        crate::ids::lemma_uuid_text_injective(a, b);
    }
    if deployed_bundle_key_of(a) == deployed_bundle_key_of(b) {
        lemma_key_injective("bundle_deployment"@, a, b);
    }
    if deployed_node_key_of(a) == deployed_node_key_of(b) {
        lemma_key_injective("node_deployment"@, a, b);
    }
}

/// What a consistent index says around the pair (`b`, `n`) that an update
/// touches, seen from another pair (`b2`, `n2`): the keys involved differ
/// wherever the identifiers do, and the index agrees in both directions for
/// each mixed pair.
proof fn lemma_index_around(store: Store, b: Seq<u8>, n: Seq<u8>, b2: Seq<u8>, n2: Seq<u8>)
    requires
        index_consistent(store),
        b.len() == 16,
        n.len() == 16,
        b2.len() == 16,
        n2.len() == 16,
    ensures
        deployed_bundle_key_of(b) != deployed_node_key_of(n),
        deployed_bundle_key_of(b) != deployed_node_key_of(n2),
        deployed_bundle_key_of(b2) != deployed_node_key_of(n),
        deployed_bundle_key_of(b2) != deployed_node_key_of(n2),
        b2 != b ==> uuid_text(b2) != uuid_text(b) && deployed_bundle_key_of(b2) != deployed_bundle_key_of(b),
        n2 != n ==> uuid_text(n2) != uuid_text(n) && deployed_node_key_of(n2) != deployed_node_key_of(n),
        read(store, deployed_bundle_key_of(b)) == Some(uuid_text(n2))
            <==> read(store, deployed_node_key_of(n2)) == Some(uuid_text(b)),
        read(store, deployed_bundle_key_of(b2)) == Some(uuid_text(n))
            <==> read(store, deployed_node_key_of(n)) == Some(uuid_text(b2)),
        read(store, deployed_bundle_key_of(b2)) == Some(uuid_text(n2))
            <==> read(store, deployed_node_key_of(n2)) == Some(uuid_text(b2)),
{
    lemma_key_kinds_disjoint(b2, n);
    lemma_key_kinds_disjoint(b, n2);
    lemma_key_kinds_disjoint(b2, n2);
    lemma_key_kinds_disjoint(b, n);
    if b2 != b {
        lemma_texts_differ(b2, b);
    }
    if n2 != n {
        lemma_texts_differ(n2, n);
    }
}

/// Recording a deployment of a bundle that is not deployed on a node that has
/// no bundle keeps the deployment index consistent.
pub proof fn lemma_record_keeps_index_consistent(store: Store, bundle_id: UuidBytes, node_id: UuidBytes)
    requires
        index_consistent(store),
        read(store, deployed_bundle_key_of(bundle_id@)) is None,
        read(store, deployed_node_key_of(node_id@)) is None,
    ensures
        index_consistent(apply_all(store, record_commands(bundle_id@, node_id@))),
{
    let b = bundle_id@;
    let n = node_id@;
    lemma_record_store(store, b, n);
    let after = store.insert(deployed_bundle_key_of(b), uuid_text(n)).insert(deployed_node_key_of(n), uuid_text(b));
    assert forall|b2: Seq<u8>, n2: Seq<u8>|
        #![trigger deployed_bundle_key_of(b2), deployed_node_key_of(n2)]
        b2.len() == 16 && n2.len() == 16 implies (read(after, deployed_bundle_key_of(b2)) == Some(uuid_text(n2))
            <==> read(after, deployed_node_key_of(n2)) == Some(uuid_text(b2))) by {
        lemma_index_around(store, b, n, b2, n2);
    }
}

/// Taking away the deployment record found by `by`, which names `other` (in the
/// form the index writes), and removing the record of `other` keeps the
/// deployment index consistent.
pub proof fn lemma_remove_keeps_index_consistent(store: Store, by: FindBy, other: Seq<u8>)
    requires
        index_consistent(store),
        other.len() == 16,
        read(store, find_key(by)) == Some(uuid_text(other)),
    ensures
        index_consistent(
            apply(
                apply(store, Command::GetDel(find_key(by))).0,
                Command::Del(counterpart_key(by, other)),
            ).0,
        ),
{
    let after = store.remove(find_key(by)).remove(counterpart_key(by, other));
    let (b, n) = match by {
        FindBy::Bundle(id) => (id@, other),
        FindBy::Node(id) => (other, id@),
    };
    assert(find_key(by) == deployed_bundle_key_of(b) || find_key(by) == deployed_node_key_of(n));
    assert(read(store, deployed_bundle_key_of(b)) == Some(uuid_text(n)) <==> read(
        store,
        deployed_node_key_of(n),
    ) == Some(uuid_text(b)));
    assert(after == store.remove(deployed_bundle_key_of(b)).remove(deployed_node_key_of(n))
        || after == store.remove(deployed_node_key_of(n)).remove(deployed_bundle_key_of(b)));
    assert forall|b2: Seq<u8>, n2: Seq<u8>|
        #![trigger deployed_bundle_key_of(b2), deployed_node_key_of(n2)]
        b2.len() == 16 && n2.len() == 16 implies (read(after, deployed_bundle_key_of(b2)) == Some(uuid_text(n2))
            <==> read(after, deployed_node_key_of(n2)) == Some(uuid_text(b2))) by {
        lemma_index_around(store, b, n, b2, n2);
    }
}

/// Storing or removing a node keeps the deployment index consistent.
pub proof fn lemma_node_commands_keep_index_consistent(store: Store, id: UuidBytes, record: Seq<char>)
    requires
        index_consistent(store),
    ensures
        index_consistent(apply(store, Command::Put(node_key_of(id@), record)).0),
        index_consistent(apply(store, Command::Del(node_key_of(id@))).0),
{
    let stored = apply(store, Command::Put(node_key_of(id@), record)).0;
    let removed = apply(store, Command::Del(node_key_of(id@))).0;
    assert forall|b: Seq<u8>, n: Seq<u8>|
        #![trigger deployed_bundle_key_of(b), deployed_node_key_of(n)]
        b.len() == 16 && n.len() == 16 implies (read(stored, deployed_bundle_key_of(b)) == Some(uuid_text(n))
            <==> read(stored, deployed_node_key_of(n)) == Some(uuid_text(b))) && (read(
            removed,
            deployed_bundle_key_of(b),
        ) == Some(uuid_text(n)) <==> read(removed, deployed_node_key_of(n)) == Some(uuid_text(b))) by {
        lemma_key_kinds_disjoint(b, id@);
        lemma_key_kinds_disjoint(n, id@);
        assert(read(store, deployed_bundle_key_of(b)) == Some(uuid_text(n)) <==> read(
            store,
            deployed_node_key_of(n),
        ) == Some(uuid_text(b)));
    }
}

} // verus!
