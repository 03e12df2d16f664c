//! The Merkle-Patricia trie that backs one file, as the `sp-trie` and `trie-db`
//! crates implement it over a `memory-db` node store.
//!
//! Nothing in this module is proved: every function here hands its work to those
//! crates and states, as its contract, what their sources show of the call. The
//! rest of the library is verified against these contracts.
use vstd::prelude::*;
use sp_core::{Blake2Hasher, H256};
use sp_trie::recorder::Recorder;
use sp_trie::{CompactProof, LayoutV1, MemoryDB, StorageProof, Trie, TrieDBBuilder, TrieDBMutBuilder, TrieMut};

verus! {

/// The node store of a trie: a `memory_db::MemoryDB` keyed by Blake2-256 node
/// hashes. The verifier sees nothing inside it; what it holds is spoken of
/// through [`trie_entries`].
#[verifier::external_body]
pub struct NodeStore {
    db: MemoryDB<Blake2Hasher>,
}

/// The key-value pairs of the trie that is rooted at `root` in `store`.
pub uninterp spec fn trie_entries(store: NodeStore, root: Seq<u8>) -> Map<Seq<u8>, Seq<u8>>;

/// The encoded trie nodes that one lookup of `key` touches in the trie rooted at
/// `root` in `store`, in ascending byte order.
pub uninterp spec fn lookup_nodes(store: NodeStore, root: Seq<u8>, key: Seq<u8>) -> Seq<Seq<u8>>;

/// The compact encoding of the partial trie made of `nodes` under `root`, or
/// `None` where the nodes do not form one.
pub uninterp spec fn compact_nodes(nodes: Seq<Seq<u8>>, root: Seq<u8>) -> Option<Seq<Seq<u8>>>;

/// What a lookup of `key` gives in the trie that the compact proof `nodes`
/// decodes to, provided that trie has root `root`: `None` where the proof does
/// not decode to that root or misses a node on the way to `key`.
pub uninterp spec fn proven_value(nodes: Seq<Seq<u8>>, root: Seq<u8>, key: Seq<u8>) -> Option<Option<Seq<u8>>>;

/// What a lookup of `key` gives in the trie rooted at `root` in `store`: the
/// value bound to the key or nothing, or `None` where the lookup fails (a node
/// is missing from the store or cannot be decoded).
pub uninterp spec fn trie_lookup(store: NodeStore, root: Seq<u8>, key: Seq<u8>) -> Option<Option<Seq<u8>>>;

/// The keys that a walk of the trie rooted at `root` in `store` yields, in the
/// order of the walk, or `None` where the walk fails.
pub uninterp spec fn trie_key_list(store: NodeStore, root: Seq<u8>) -> Option<Seq<Seq<u8>>>;

/// Whether the trie rooted at `root` in `store` takes the pair of `key` and
/// `value` when it is inserted.
pub uninterp spec fn trie_accepts(store: NodeStore, root: Seq<u8>, key: Seq<u8>, value: Seq<u8>) -> bool;

/// Whether the trie rooted at `root` in `store` is whole: every node that a
/// walk from the root reaches is in the store and can be decoded, as it is in
/// a trie that was made empty and filled by insertions.
pub uninterp spec fn trie_sound(store: NodeStore, root: Seq<u8>) -> bool;

/// The root of the trie that holds exactly `pairs`.
pub uninterp spec fn trie_root(pairs: Map<Seq<u8>, Seq<u8>>) -> Seq<u8>;

/// The contents of a trie that holds nothing.
pub open spec fn no_entries() -> Map<Seq<u8>, Seq<u8>> {
    Map::empty()
}

/// The outcome of a lookup as a mathematical value.
pub open spec fn lookup_view(found: Option<Option<Vec<u8>>>) -> Option<Option<Seq<u8>>> {
    match found {
        Some(Some(value)) => Some(Some(value@)),
        Some(None) => Some(None),
        None => None,
    }
}

/// The outcome of a walk as a mathematical value.
pub open spec fn keys_view(keys: Option<Vec<Vec<u8>>>) -> Option<Seq<Seq<u8>>> {
    match keys {
        Some(list) => Some(list.deep_view()),
        None => None,
    }
}

/// Makes an empty trie with `TrieDBMutBuilder::new` over a fresh `MemoryDB`
/// and writes its root to `root`.
///
/// Trusted: the builder sets the root to the hash of the empty node, which the
/// fresh store resolves, so the trie holds no pair, is whole, and has the root
/// of no pairs.
#[verifier::external_body]
pub(crate) fn trie_empty(root: &mut [u8; 32]) -> (store: NodeStore)
    ensures
        trie_entries(store, final(root)@) == no_entries(),
        trie_sound(store, final(root)@),
        final(root)@ == trie_root(no_entries()),
{
    let mut db: MemoryDB<Blake2Hasher> = MemoryDB::default();
    let mut hash = H256::default();
    drop(TrieDBMutBuilder::<LayoutV1<Blake2Hasher>>::new(&mut db, &mut hash).build());
    *root = hash.0;
    NodeStore { db }
}

/// Looks `key` up with `Trie::get` on a `TrieDB` over the store.
///
/// Trusted: the outcome depends on the store, the root and the key alone.
/// When the lookup succeeds it returns the value stored under `key`, or
/// nothing where the trie has no such key. `None` stands for a lookup that the
/// crate reports as failed (a node missing from the store or undecodable),
/// which does not happen in a whole trie.
#[verifier::external_body]
pub(crate) fn trie_get(store: &NodeStore, root: &[u8; 32], key: &[u8]) -> (r: Option<Option<Vec<u8>>>)
    ensures
        lookup_view(r) == trie_lookup(*store, root@, key@),
        trie_sound(*store, root@) ==> r is Some,
        r matches Some(found) ==> (match found {
            Some(value) => trie_entries(*store, root@).contains_key(key@)
                && trie_entries(*store, root@)[key@] == value@,
            None => !trie_entries(*store, root@).contains_key(key@),
        }),
{
    let root = H256(*root);
    let trie = TrieDBBuilder::<LayoutV1<Blake2Hasher>>::new(&store.db, &root).build();
    trie.get(key).ok()
}

/// Inserts a pair with `TrieMut::insert` on a `TrieDBMut` opened over the
/// existing root with commit on drop disabled, and commits with
/// `TrieDBMut::commit` only when the insertion succeeded.
///
/// Trusted: whether the insertion succeeds depends on the store, the root
/// and the pair alone. When it succeeds the trie holds the pairs it held
/// before, with `key` now bound to `value` (this layout stores empty values as
/// they are). An insertion only reads the store until it is committed, so a
/// failed one leaves store and root as they were. An insertion fails only on
/// a node that is missing or undecodable, so a whole trie takes every pair;
/// the commit writes every new node, so the trie stays whole, and its root is
/// then the root of the pairs it holds, whatever the order they came in.
#[verifier::external_body]
pub(crate) fn trie_insert(store: &mut NodeStore, root: &mut [u8; 32], key: &[u8], value: &[u8]) -> (ok: bool)
    ensures
        ok == trie_accepts(*old(store), old(root)@, key@, value@),
        trie_sound(*old(store), old(root)@) ==> ok && trie_sound(*final(store), final(root)@) && final(root)@
            == trie_root(trie_entries(*final(store), final(root)@)),
        ok ==> trie_entries(*final(store), final(root)@) == trie_entries(*old(store), old(root)@).insert(
            key@,
            value@,
        ),
        !ok ==> *final(store) == *old(store) && final(root)@ == old(root)@,
{
    let mut hash = H256(*root);
    let ok = {
        let mut trie = TrieDBMutBuilder::<LayoutV1<Blake2Hasher>>::from_existing(&mut store.db, &mut hash)
            .disable_commit_on_drop()
            .build();
        let ok = trie.insert(key, value).is_ok();
        if ok {
            trie.commit();
        }
        ok
    };
    *root = hash.0;
    ok
}

/// Lists the keys of the trie with `Trie::key_iter`.
///
/// Trusted: the outcome depends on the store and the root alone. When the
/// walk succeeds it yields every key of the trie exactly once. `None` stands
/// for a walk that the crate reports as failed, which does not happen in a
/// whole trie.
#[verifier::external_body]
pub(crate) fn trie_keys(store: &NodeStore, root: &[u8; 32]) -> (r: Option<Vec<Vec<u8>>>)
    ensures
        keys_view(r) == trie_key_list(*store, root@),
        trie_sound(*store, root@) ==> r is Some,
        r matches Some(keys) ==> keys.deep_view().no_duplicates()
            && keys.deep_view().to_set() == trie_entries(*store, root@).dom(),
{
    let root = H256(*root);
    let trie = TrieDBBuilder::<LayoutV1<Blake2Hasher>>::new(&store.db, &root).build();
    let keys = trie.key_iter().ok()?;
    keys.collect::<Result<Vec<Vec<u8>>, _>>().ok()
}

/// Looks `key` up as [`trie_get`] does, with a fresh `sp_trie` `Recorder`
/// attached, and drains the recorder into `nodes`, the list of nodes it saw.
///
/// Trusted: the outcome is the one that [`trie_get`] describes, since a
/// recorder only takes note of the nodes that pass, and the nodes are those of
/// this one lookup. `None` stands for a failed lookup, which leaves `nodes` as
/// it was.
#[verifier::external_body]
pub(crate) fn trie_get_recorded(store: &NodeStore, root: &[u8; 32], key: &[u8], nodes: &mut Vec<Vec<u8>>) -> (r:
    Option<Option<Vec<u8>>>)
    ensures
        lookup_view(r) == trie_lookup(*store, root@, key@),
        trie_sound(*store, root@) ==> r is Some,
        r is None ==> *final(nodes) == *old(nodes),
        r matches Some(found) ==> final(nodes).deep_view() == lookup_nodes(*store, root@, key@) && (match found {
            Some(value) => trie_entries(*store, root@).contains_key(key@)
                && trie_entries(*store, root@)[key@] == value@,
            None => !trie_entries(*store, root@).contains_key(key@),
        }),
{
    let root = H256(*root);
    let recorder: Recorder<Blake2Hasher> = Recorder::default();
    let found = {
        let mut trie_recorder = recorder.as_trie_recorder(root);
        let trie = TrieDBBuilder::<LayoutV1<Blake2Hasher>>::new(&store.db, &root)
            .with_recorder(&mut trie_recorder)
            .build();
        trie.get(key).ok()?
    };
    *nodes = recorder.drain_storage_proof().into_iter_nodes().collect();
    Some(found)
}

/// Encodes recorded nodes as a compact proof with
/// `StorageProof::to_compact_proof`.
///
/// Trusted: the outcome depends on the nodes and the root alone.
#[verifier::external_body]
pub(crate) fn trie_compact(nodes: &Vec<Vec<u8>>, root: &[u8; 32]) -> (r: Option<Vec<Vec<u8>>>)
    ensures
        match r {
            Some(encoded) => compact_nodes(nodes.deep_view(), root@) == Some(encoded.deep_view()),
            None => compact_nodes(nodes.deep_view(), root@) is None,
        },
{
    let proof = StorageProof::new(nodes.iter().cloned());
    proof.to_compact_proof::<Blake2Hasher>(H256(*root)).ok().map(|compact| compact.encoded_nodes)
}

/// Decodes a compact proof with `CompactProof::to_memory_db`, which checks the
/// decoded root against `root`, and looks `key` up in the decoded trie.
///
/// Trusted: the outcome depends on the proof, the root and the key alone.
#[verifier::external_body]
pub(crate) fn trie_proof_lookup(nodes: &Vec<Vec<u8>>, root: &[u8; 32], key: &[u8]) -> (r: Option<
    Option<Vec<u8>>,
>)
    ensures
        match r {
            Some(Some(value)) => proven_value(nodes.deep_view(), root@, key@) == Some(Some(value@)),
            Some(None) => proven_value(nodes.deep_view(), root@, key@) == Some(None::<Seq<u8>>),
            None => proven_value(nodes.deep_view(), root@, key@) is None,
        },
{
    let expected = H256(*root);
    let compact = CompactProof { encoded_nodes: nodes.clone() };
    let (db, decoded) = compact.to_memory_db::<Blake2Hasher>(&expected).ok()?;
    let trie = TrieDBBuilder::<LayoutV1<Blake2Hasher>>::new(&db, &decoded).build();
    trie.get(key).ok()
}

} // verus!
