//! File storage held in memory: a registry of files, each with its metadata and
//! the trie of its chunks.
use vstd::prelude::*;
use crate::traits::{spec_completion, FileStorageError, FileStorageWriteStatus};
use crate::trie::{
    compact_nodes, lookup_nodes, lookup_view, no_entries, proven_value, trie_accepts, trie_compact, trie_empty,
    trie_entries, trie_get, trie_get_recorded, trie_insert, trie_key_list, trie_keys, trie_lookup,
    trie_proof_lookup, trie_root, trie_sound, NodeStore,
};
use crate::bytes::{bytes_equal, digest_bytes, same_digest};
use crate::keyed::KeyedList;
use crate::types::{
    chunk_key, spec_chunk_count, spec_chunk_key, Chunk, ChunkId, FileProof, Key, Leaf, Metadata, MetadataView,
};

verus! {

/// The mathematical value of one stored file.
pub struct FileView {
    /// The file's metadata.
    pub metadata: MetadataView,
    /// Root of the file's trie.
    pub root: Seq<u8>,
    /// Node store of the file's trie.
    pub store: NodeStore,
}

impl FileView {
    /// The trie's pairs: chunk keys to chunk bytes.
    pub open spec fn entries(self) -> Map<Seq<u8>, Seq<u8>> {
        trie_entries(self.store, self.root)
    }

    /// Whether chunk `id` is stored.
    pub open spec fn has_chunk(self, id: u64) -> bool {
        self.entries().contains_key(spec_chunk_key(id))
    }

    /// The bytes of chunk `id`.
    pub open spec fn chunk(self, id: u64) -> Seq<u8> {
        self.entries()[spec_chunk_key(id)]
    }

    /// How many chunks are stored.
    pub open spec fn stored(self) -> nat {
        self.entries().dom().len()
    }

    /// How many chunks the metadata announces.
    pub open spec fn expected(self) -> nat {
        spec_chunk_count(self.metadata.size)
    }

    /// Every announced chunk is stored and the trie has the announced root.
    pub open spec fn complete(self) -> bool {
        self.stored() == self.expected() && self.root == self.metadata.fingerprint
    }

    /// The trie nodes that a lookup of chunk `id` touches.
    pub open spec fn path(self, id: u64) -> Seq<Seq<u8>> {
        lookup_nodes(self.store, self.root, spec_chunk_key(id))
    }

    /// The file's trie is whole, and its root is the root of its pairs.
    pub open spec fn valid(self) -> bool {
        trie_sound(self.store, self.root) && self.root == trie_root(self.entries())
    }

    /// What the lookup of chunk `id` gives in the trie: `None` where the
    /// lookup fails.
    pub open spec fn found(self, id: u64) -> Option<Option<Seq<u8>>> {
        trie_lookup(self.store, self.root, spec_chunk_key(id))
    }

    /// The keys that a walk of the trie yields: `None` where the walk fails.
    pub open spec fn keys(self) -> Option<Seq<Seq<u8>>> {
        trie_key_list(self.store, self.root)
    }

    /// Whether the trie takes chunk `id` with bytes `data`.
    pub open spec fn accepts(self, id: u64, data: Seq<u8>) -> bool {
        trie_accepts(self.store, self.root, spec_chunk_key(id), data)
    }
}

/// The trie of one file: its root and the store of its nodes.
pub struct FileData {
    root: [u8; 32],
    store: NodeStore,
}

impl FileData {
    /// The trie's pairs.
    pub closed spec fn entries(&self) -> Map<Seq<u8>, Seq<u8>> {
        trie_entries(self.store, self.root@)
    }

    /// The trie's root.
    pub closed spec fn spec_root(&self) -> Seq<u8> {
        self.root@
    }

    /// The trie's node store.
    pub closed spec fn spec_store(&self) -> NodeStore {
        self.store
    }

    /// The trie is whole, and its root is the root of its pairs.
    pub closed spec fn valid(&self) -> bool {
        trie_sound(self.store, self.root@) && self.root@ == trie_root(trie_entries(self.store, self.root@))
    }

    /// The two parts of a trie decide its pairs and whether it is valid.
    pub proof fn lemma_entries(&self)
        ensures
            self.entries() == trie_entries(self.spec_store(), self.spec_root()),
            self.valid() == (trie_sound(self.spec_store(), self.spec_root()) && self.spec_root() == trie_root(
                self.entries(),
            )),
    {
    }

    /// An empty trie.
    pub fn new() -> (data: Self)
        ensures
            data.entries() == no_entries(),
            data.valid(),
    {
        let mut root: [u8; 32] = [0u8;32];
        let store = trie_empty(&mut root);
        FileData { root, store }
    }

    /// The root of the trie.
    pub fn get_root(&self) -> (root: [u8; 32])
        ensures
            root@ == self.spec_root(),
    {
        self.root
    }

    /// Counts the stored chunks by walking the trie's keys: the count is the
    /// number of keys that the walk yields, which is the number of pairs in the
    /// trie. `None` reports that the trie could not be walked.
    pub fn stored_chunks_count(&self) -> (count: Option<u64>)
        ensures
            match trie_key_list(self.spec_store(), self.spec_root()) {
                Some(keys) => count == Some(keys.len() as u64) && keys.len() <= u64::MAX,
                None => count is None,
            },
            count matches Some(n) ==> self.entries().dom().finite() && n == self.entries().dom().len(),
            self.valid() ==> count is Some,
    {
        match trie_keys(&self.store, &self.root) {
            None => None,
            Some(keys) => {
                proof {
                    keys.deep_view().unique_seq_to_set();
                }
                Some(keys.len() as u64)
            },
        }
    }

    /// Looks a chunk up by its trie key: the answer is what the lookup of the
    /// key gives in the trie. The outer `None` reports that the lookup failed in
    /// the trie.
    pub fn get(&self, key: &[u8]) -> (found: Option<Option<Vec<u8>>>)
        ensures
            lookup_view(found) == trie_lookup(self.spec_store(), self.spec_root(), key@),
            found matches Some(hit) ==> (match hit {
                Some(value) => self.entries().contains_key(key@) && self.entries()[key@] == value@,
                None => !self.entries().contains_key(key@),
            }),
            self.valid() ==> found is Some,
    {
        trie_get(&self.store, &self.root, key)
    }

    /// Binds `key` to `value` in the trie and tells whether the trie accepted
    /// the pair. A refusal leaves the trie as it was.
    pub fn insert(&mut self, key: &[u8], value: &[u8]) -> (ok: bool)
        ensures
            ok == trie_accepts(old(self).spec_store(), old(self).spec_root(), key@, value@),
            old(self).valid() ==> ok && final(self).valid(),
            ok ==> final(self).entries() == old(self).entries().insert(key@, value@),
            !ok ==> final(self).spec_store() == old(self).spec_store() && final(self).spec_root() == old(
                self,
            ).spec_root() && final(self).entries() == old(self).entries(),
    {
        trie_insert(&mut self.store, &mut self.root, key, value)
    }

    /// Looks a chunk up as [`FileData::get`] does and writes to `nodes` the
    /// trie nodes that the lookup touched. A lookup that fails leaves `nodes` as
    /// it was.
    pub fn get_recorded(&self, key: &[u8], nodes: &mut Vec<Vec<u8>>) -> (found: Option<Option<Vec<u8>>>)
        ensures
            lookup_view(found) == trie_lookup(self.spec_store(), self.spec_root(), key@),
            self.valid() ==> found is Some,
            found is None ==> *final(nodes) == *old(nodes),
            found matches Some(hit) ==> final(nodes).deep_view() == lookup_nodes(
                self.spec_store(),
                self.spec_root(),
                key@,
            ) && (match hit {
                Some(value) => self.entries().contains_key(key@) && self.entries()[key@] == value@,
                None => !self.entries().contains_key(key@),
            }),
    {
        trie_get_recorded(&self.store, &self.root, key, nodes)
    }
}

/// Decides what a write reports once the chunk is in the trie.
pub fn completion_status(expected: u64, stored: u64, root: &[u8; 32], fingerprint: &[u8; 32]) -> (r: Result<
    FileStorageWriteStatus,
    FileStorageError,
>)
    ensures
        r == spec_completion(expected as nat, stored as nat, root@, fingerprint@),
{
    if stored != expected {
        Ok(FileStorageWriteStatus::FileIncomplete)
    } else if !same_digest(root, fingerprint) {
        Err(FileStorageError::FingerprintAndStoredFileMismatch)
    } else {
        Ok(FileStorageWriteStatus::FileComplete)
    }
}

/// Turns the outcome of a trie lookup into the answer of a chunk read: the
/// chunk where one was found, `FileChunkDoesNotExist` where the trie has none,
/// `FailedToGetFileChunk` where the lookup itself failed.
pub fn chunk_from_lookup(found: Option<Option<Vec<u8>>>) -> (r: Result<Chunk, FileStorageError>)
    ensures
        match found {
            Some(Some(value)) => r == Ok::<Chunk, FileStorageError>(value),
            Some(None) => r == Err::<Chunk, FileStorageError>(FileStorageError::FileChunkDoesNotExist),
            None => r == Err::<Chunk, FileStorageError>(FileStorageError::FailedToGetFileChunk),
        },
{
    match found {
        Some(Some(value)) => Ok(value),
        Some(None) => Err(FileStorageError::FileChunkDoesNotExist),
        None => Err(FileStorageError::FailedToGetFileChunk),
    }
}

/// Tells whether the lookup of a proven chunk in a decoded proof gave exactly
/// the chunk's bytes.
pub fn lookup_confirms(found: Option<Option<Vec<u8>>>, data: &Chunk) -> (ok: bool)
    ensures
        ok == (found matches Some(Some(value)) && value@ == data@),
{
    match found {
        Some(Some(value)) => bytes_equal(value.as_slice(), data.as_slice()),
        _ => false,
    }
}

impl FileProof {
    /// A proof holds when its compact nodes decode to a trie with the stated
    /// root in which the proven chunk's key leads to the proven chunk's bytes.
    pub open spec fn holds(&self) -> bool {
        proven_value(self.proof.deep_view(), self.root@, spec_chunk_key(self.proven.key)) == Some(
            Some(self.proven.data@),
        )
    }

    /// Recomputes the root from the compact nodes and checks the proven chunk
    /// against the decoded trie.
    pub fn verify(&self) -> (ok: bool)
        ensures
            ok == self.holds(),
    {
        let key = chunk_key(self.proven.key);
        let found = trie_proof_lookup(&self.proof, &self.root, key.as_slice());
        lookup_confirms(found, &self.proven.data)
    }
}

/// One file of the registry: its metadata and its trie.
pub struct FileEntry {
    metadata: Metadata,
    data: FileData,
}

impl View for FileEntry {
    type V = FileView;

    closed spec fn view(&self) -> FileView {
        FileView { metadata: self.metadata@, root: self.data.root@, store: self.data.store }
    }
}

/// The registry as a map from file key to file.
pub closed spec fn files_view(files: Map<Seq<u8>, FileEntry>) -> Map<Seq<u8>, FileView> {
    Map::new(|key: Seq<u8>| files.contains_key(key), |key: Seq<u8>| files[key]@)
}

/// The chunk `id` with bytes `data` was added to `pre`, giving `post`, and
/// nothing else of the file changed.
pub open spec fn chunk_added(pre: FileView, post: FileView, id: u64, data: Seq<u8>) -> bool {
    &&& !pre.has_chunk(id)
    &&& post.metadata == pre.metadata
    &&& post.entries() == pre.entries().insert(spec_chunk_key(id), data)
}

/// What a chunk write does to the registry `pre`, and what it reports.
///
/// A write to an unknown file or of a chunk that is already stored changes
/// nothing. Otherwise the chunk is added and the report is the completion
/// status of the file as it then stands. The trie may refuse a lookup, a
/// walk or an insertion: `FailedToGetFileChunk` and `FailedToInsertFileChunk`
/// report that, and nothing is changed.
pub open spec fn write_chunk_post(
    pre: Map<Seq<u8>, FileView>,
    key: Seq<u8>,
    id: u64,
    data: Seq<u8>,
    r: Result<FileStorageWriteStatus, FileStorageError>,
    post: Map<Seq<u8>, FileView>,
) -> bool {
    &&& post.dom() == pre.dom()
    &&& forall|k: Seq<u8>| k != key && pre.contains_key(k) ==> #[trigger] post[k] == pre[k]
    &&& pre.contains_key(key) ==> post[key].metadata == pre[key].metadata
    &&& match r {
        Err(FileStorageError::FileDoesNotExist) => !pre.contains_key(key) && post == pre,
        Err(FileStorageError::FileChunkAlreadyExists) => pre.contains_key(key) && pre[key].has_chunk(id) && post
            == pre,
        Err(FileStorageError::FailedToGetFileChunk) => pre.contains_key(key) && post == pre,
        Err(FileStorageError::FailedToInsertFileChunk) => pre.contains_key(key) && !pre[key].has_chunk(id) && post
            == pre,
        Ok(_) | Err(FileStorageError::FingerprintAndStoredFileMismatch) => pre.contains_key(key) && chunk_added(
            pre[key],
            post[key],
            id,
            data,
        ) && post[key].entries().dom().finite() && r == spec_completion(
            post[key].expected(),
            post[key].stored(),
            post[key].root,
            post[key].metadata.fingerprint,
        ),
        Err(_) => false,
    }
}

/// What a chunk read reports of the file `file`, if the registry has it.
pub open spec fn get_chunk_post(file: Option<FileView>, id: u64, r: Result<Chunk, FileStorageError>) -> bool {
    match r {
        Ok(chunk) => file matches Some(f) && f.has_chunk(id) && chunk@ == f.chunk(id),
        Err(FileStorageError::FileDoesNotExist) => file is None,
        Err(FileStorageError::FileChunkDoesNotExist) => file matches Some(f) && !f.has_chunk(id),
        Err(FileStorageError::FailedToGetFileChunk) => file is Some,
        Err(_) => false,
    }
}

/// What a proof request reports of the file `file`, if the registry has it.
///
/// A proof is issued only for a stored chunk of a complete file; it carries
/// the chunk, the file's root, and the compact encoding of the nodes that the
/// lookup of that one chunk touched, and it holds. Each refusal names its
/// reason; `FailedToGetFileChunk` reports that the trie refused a walk or a
/// lookup, `FailedToGenerateCompactProof` that no proof that holds could be
/// made of the nodes.
pub open spec fn generate_proof_post(file: Option<FileView>, id: u64, r: Result<FileProof, FileStorageError>) -> bool {
    match r {
        Ok(p) => file matches Some(f) && f.complete() && f.has_chunk(id) && p.proven.key == id && p.proven.data@
            == f.chunk(id) && p.root@ == f.root && compact_nodes(f.path(id), f.root) == Some(p.proof.deep_view())
            && p.holds(),
        Err(FileStorageError::FileDoesNotExist) => file is None,
        Err(FileStorageError::IncompleteFile) => file matches Some(f) && f.stored() != f.expected(),
        Err(FileStorageError::FingerprintAndStoredFileMismatch) => file matches Some(f) && f.stored() == f.expected()
            && f.root != f.metadata.fingerprint,
        Err(FileStorageError::FileChunkDoesNotExist) => file matches Some(f) && f.complete() && !f.has_chunk(id),
        Err(FileStorageError::FailedToGenerateCompactProof) => file matches Some(f) && f.complete() && f.has_chunk(
            id,
        ),
        Err(FileStorageError::FailedToGetFileChunk) => file is Some,
        Err(_) => false,
    }
}

/// What a chunk read answers for the file `file`, if the registry has it: the
/// answer follows the lookup of the chunk in the file's trie, which does not
/// fail in a valid file.
pub open spec fn get_chunk_exact(file: Option<FileView>, id: u64, r: Result<Chunk, FileStorageError>) -> bool {
    match file {
        None => r == Err::<Chunk, FileStorageError>(FileStorageError::FileDoesNotExist),
        Some(f) => {
            &&& f.valid() ==> f.found(id) is Some
            &&& match f.found(id) {
                Some(Some(bytes)) => r matches Ok(chunk) && chunk@ == bytes && f.has_chunk(id) && f.chunk(id) == bytes,
                Some(None) => r == Err::<Chunk, FileStorageError>(FileStorageError::FileChunkDoesNotExist)
                    && !f.has_chunk(id),
                None => r == Err::<Chunk, FileStorageError>(FileStorageError::FailedToGetFileChunk),
            }
        },
    }
}

/// What a count of the stored chunks answers for the file `file`, if the
/// registry has it: the number of keys that the walk of the file's trie
/// yields, which does not fail in a valid file.
pub open spec fn stored_count_exact(file: Option<FileView>, r: Result<u64, FileStorageError>) -> bool {
    match file {
        None => r == Err::<u64, FileStorageError>(FileStorageError::FileDoesNotExist),
        Some(f) => {
            &&& f.valid() ==> f.keys() is Some
            &&& match f.keys() {
                Some(keys) => r == Ok::<u64, FileStorageError>(keys.len() as u64) && keys.len() <= u64::MAX
                    && f.entries().dom().finite() && keys.len() == f.stored(),
                None => r == Err::<u64, FileStorageError>(FileStorageError::FailedToGetFileChunk),
            }
        },
    }
}

/// The refusal that a write of chunk `id` with bytes `data` to the file `f`
/// meets, if any, in the order in which the conditions are tested: the lookup
/// of the chunk fails; the chunk is stored already; the walk that counts the
/// chunks fails; the count is at the end of its range; the trie does not take
/// the pair.
pub open spec fn write_refusal(f: FileView, id: u64, data: Seq<u8>) -> Option<FileStorageError> {
    if f.found(id) is None {
        Some(FileStorageError::FailedToGetFileChunk)
    } else if f.found(id) != Some(None::<Seq<u8>>) {
        Some(FileStorageError::FileChunkAlreadyExists)
    } else if f.keys() is None {
        Some(FileStorageError::FailedToGetFileChunk)
    } else if f.keys()->0.len() == u64::MAX {
        Some(FileStorageError::FailedToInsertFileChunk)
    } else if !f.accepts(id, data) {
        Some(FileStorageError::FailedToInsertFileChunk)
    } else {
        None
    }
}

/// What a chunk write does to the registry `pre`, and what it reports, input
/// by input.
///
/// A write to an unknown file is `FileDoesNotExist`. A write that meets a
/// refusal reports it and changes nothing. Any other write adds the chunk to
/// the file, leaves every other file alone, and reports the completion status
/// of the file as it then stands. In a valid file the lookup and the walk do
/// not fail and the trie takes the pair, and the file stays valid.
pub open spec fn write_chunk_exact(
    pre: Map<Seq<u8>, FileView>,
    key: Seq<u8>,
    id: u64,
    data: Seq<u8>,
    r: Result<FileStorageWriteStatus, FileStorageError>,
    post: Map<Seq<u8>, FileView>,
) -> bool {
    if !pre.contains_key(key) {
        r == Err::<FileStorageWriteStatus, FileStorageError>(FileStorageError::FileDoesNotExist) && post == pre
    } else {
        let f = pre[key];
        &&& f.found(id) matches Some(Some(bytes)) ==> f.has_chunk(id) && f.chunk(id) == bytes
        &&& f.found(id) == Some(None::<Seq<u8>>) ==> !f.has_chunk(id)
        &&& f.found(id) == Some(None::<Seq<u8>>) && f.keys() is Some ==> f.entries().dom().finite()
            && f.keys()->0.len() == f.stored() && f.stored() <= u64::MAX
        &&& f.valid() ==> f.found(id) is Some
        &&& f.valid() && f.found(id) == Some(None::<Seq<u8>>) ==> f.keys() is Some
        &&& f.valid() && f.found(id) == Some(None::<Seq<u8>>) && f.keys()->0.len() != u64::MAX ==> f.accepts(id, data)
        &&& match write_refusal(f, id, data) {
            Some(refusal) => r == Err::<FileStorageWriteStatus, FileStorageError>(refusal) && post == pre,
            None => {
                &&& post == pre.insert(key, post[key])
                &&& chunk_added(f, post[key], id, data)
                &&& post[key].entries().dom().finite()
                &&& post[key].stored() == f.stored() + 1
                &&& r == spec_completion(
                    post[key].expected(),
                    post[key].stored(),
                    post[key].root,
                    post[key].metadata.fingerprint,
                )
                &&& f.valid() ==> post[key].valid()
            },
        }
    }
}

/// What a proof request answers for the file `file`, if the registry has it,
/// input by input, in the order in which the conditions are tested.
///
/// The walk that counts the chunks fails; the count is not the announced one;
/// the root is not the fingerprint; the lookup of the chunk fails; the chunk
/// is not stored; the nodes of the lookup have no compact encoding, or the
/// encoded proof does not lead back to the chunk. Otherwise the proof is
/// issued: it carries the chunk, the file's root and the compact encoding of
/// the nodes of that one lookup, and it holds. In a valid file neither the
/// walk nor the lookup fails.
pub open spec fn generate_proof_exact(file: Option<FileView>, id: u64, r: Result<FileProof, FileStorageError>) -> bool {
    match file {
        None => r == Err::<FileProof, FileStorageError>(FileStorageError::FileDoesNotExist),
        Some(f) => {
            &&& f.valid() ==> f.keys() is Some
            &&& f.keys() matches Some(keys) ==> f.entries().dom().finite() && keys.len() == f.stored()
            &&& if f.keys() is None {
                r == Err::<FileProof, FileStorageError>(FileStorageError::FailedToGetFileChunk)
            } else if f.keys()->0.len() != f.expected() {
                r == Err::<FileProof, FileStorageError>(FileStorageError::IncompleteFile)
            } else if f.root != f.metadata.fingerprint {
                r == Err::<FileProof, FileStorageError>(FileStorageError::FingerprintAndStoredFileMismatch)
            } else {
                &&& f.valid() ==> f.found(id) is Some
                &&& match f.found(id) {
                    None => r == Err::<FileProof, FileStorageError>(FileStorageError::FailedToGetFileChunk),
                    Some(None) => r == Err::<FileProof, FileStorageError>(FileStorageError::FileChunkDoesNotExist)
                        && !f.has_chunk(id),
                    Some(Some(bytes)) => {
                        &&& f.has_chunk(id)
                        &&& f.chunk(id) == bytes
                        &&& match compact_nodes(f.path(id), f.root) {
                            Some(encoded) => if proven_value(encoded, f.root, spec_chunk_key(id)) == Some(
                                Some(bytes),
                            ) {
                                &&& r matches Ok(p)
                                &&& p.proven.key == id
                                &&& p.proven.data@ == bytes
                                &&& p.root@ == f.root
                                &&& p.proof.deep_view() == encoded
                                &&& p.holds()
                            } else {
                                r == Err::<FileProof, FileStorageError>(
                                    FileStorageError::FailedToGenerateCompactProof,
                                )
                            },
                            None => r == Err::<FileProof, FileStorageError>(
                                FileStorageError::FailedToGenerateCompactProof,
                            ),
                        }
                    },
                }
            }
        },
    }
}

/// The file under `key` in `files`, if there is one.
pub open spec fn file_of(files: Map<Seq<u8>, FileView>, key: Seq<u8>) -> Option<FileView> {
    if files.contains_key(key) {
        Some(files[key])
    } else {
        None
    }
}

/// File storage that keeps every file in memory.
pub struct InMemoryFileStorage {
    files: KeyedList<FileEntry>,
}

impl View for InMemoryFileStorage {
    type V = Map<Seq<u8>, FileView>;

    closed spec fn view(&self) -> Map<Seq<u8>, FileView> {
        files_view(self.files@)
    }
}

impl InMemoryFileStorage {
    /// Every file has its metadata and its trie, under one key that no other
    /// file has, and every trie is valid.
    pub closed spec fn wf(&self) -> bool {
        &&& self.files.wf()
        &&& forall|key: Seq<u8>| #[trigger] self.files@.contains_key(key) ==> self.files@[key].data.valid()
    }

    /// The file under `key`, if there is one.
    pub open spec fn file(&self, key: Seq<u8>) -> Option<FileView> {
        file_of(self@, key)
    }

    /// Every file of a storage is valid.
    pub proof fn lemma_valid(&self, key: Seq<u8>)
        requires
            self.wf(),
            self@.contains_key(key),
        ensures
            self@[key].valid(),
    {
        assert(self.files@.contains_key(key));
    }

    /// A storage without files.
    pub fn new() -> (storage: Self)
        ensures
            storage.wf(),
            storage@ == Map::<Seq<u8>, FileView>::empty(),
    {
        let storage = InMemoryFileStorage { files: KeyedList::new() };
        assert(storage@ =~= Map::<Seq<u8>, FileView>::empty());
        storage
    }

    fn entry(&self, key: &Key) -> (found: Option<&FileEntry>)
        requires
            self.wf(),
        ensures
            match found {
                Some(entry) => self@.contains_key(key@) && entry@ == self@[key@] && self.files@.contains_key(key@)
                    && *entry == self.files@[key@] && entry.data.valid() && entry@.valid(),
                None => !self@.contains_key(key@),
            },
    {
        let name = digest_bytes(key);
        self.files.get(name.as_slice())
    }

    /// Removes a file from storage. Removing a file that is not stored changes
    /// nothing.
    pub fn delete_file(&mut self, key: &Key)
        requires
            old(self).wf(),
        ensures
            final(self).wf(),
            final(self)@ == old(self)@.remove(key@),
    {
        let name = digest_bytes(key);
        let _ = self.files.remove(name.as_slice());
        assert(self@ =~= old(self)@.remove(key@));
    }

    /// Gets the metadata of a file.
    pub fn get_metadata(&self, key: &Key) -> (r: Result<Metadata, FileStorageError>)
        requires
            self.wf(),
        ensures
            match r {
                Ok(metadata) => self@.contains_key(key@) && metadata@ == self@[key@].metadata,
                Err(e) => e == FileStorageError::FileDoesNotExist && !self@.contains_key(key@),
            },
    {
        match self.entry(key) {
            Some(entry) => Ok(entry.metadata.clone()),
            None => Err(FileStorageError::FileDoesNotExist),
        }
    }

    /// Sets the metadata of a file and gives it an empty trie. A file already
    /// stored under `key` is replaced: its chunks are gone.
    pub fn set_metadata(&mut self, key: Key, metadata: Metadata)
        requires
            old(self).wf(),
        ensures
            final(self).wf(),
            final(self)@.dom() == old(self)@.dom().insert(key@),
            final(self)@.remove(key@) == old(self)@.remove(key@),
            final(self)@[key@].metadata == metadata@,
            final(self)@[key@].entries() == no_entries(),
            final(self)@[key@].valid(),
    {
        let entry = FileEntry { metadata, data: FileData::new() };
        let _ = self.files.insert(digest_bytes(&key), entry);
        assert(self@.remove(key@) =~= old(self)@.remove(key@));
        assert(self@.dom() =~= old(self)@.dom().insert(key@));
    }

    /// The root of a file's trie as it stands.
    pub fn get_root(&self, key: &Key) -> (r: Result<[u8; 32], FileStorageError>)
        requires
            self.wf(),
        ensures
            match r {
                Ok(root) => self@.contains_key(key@) && root@ == self@[key@].root,
                Err(e) => e == FileStorageError::FileDoesNotExist && !self@.contains_key(key@),
            },
    {
        match self.entry(key) {
            Some(entry) => Ok(entry.data.get_root()),
            None => Err(FileStorageError::FileDoesNotExist),
        }
    }

    /// How many chunks of a file are stored. `FailedToGetFileChunk` reports
    /// that the file's trie could not be walked.
    pub fn stored_chunks_count(&self, key: &Key) -> (r: Result<u64, FileStorageError>)
        requires
            self.wf(),
        ensures
            stored_count_exact(self.file(key@), r),
            r is Ok || r == Err::<u64, FileStorageError>(FileStorageError::FileDoesNotExist),
    {
        match self.entry(key) {
            Some(entry) => match entry.data.stored_chunks_count() {
                Some(n) => Ok(n),
                None => Err(FileStorageError::FailedToGetFileChunk),
            },
            None => Err(FileStorageError::FileDoesNotExist),
        }
    }

    /// Gets a chunk of a file.
    pub fn get_chunk(&self, key: &Key, chunk_id: &ChunkId) -> (r: Result<Chunk, FileStorageError>)
        requires
            self.wf(),
        ensures
            get_chunk_exact(self.file(key@), *chunk_id, r),
            get_chunk_post(self.file(key@), *chunk_id, r),
            !(r == Err::<Chunk, FileStorageError>(FileStorageError::FailedToGetFileChunk)),
    {
        match self.entry(key) {
            None => Err(FileStorageError::FileDoesNotExist),
            Some(entry) => {
                let trie_key = chunk_key(*chunk_id);
                chunk_from_lookup(entry.data.get(trie_key.as_slice()))
            },
        }
    }

    /// Writes a chunk of a file. A chunk that is already stored is refused, not
    /// overwritten. Once the trie holds as many chunks as the metadata
    /// announces, the write reports `FileComplete` if the trie's root is the
    /// announced fingerprint and `FingerprintAndStoredFileMismatch` if not.
    pub fn write_chunk(&mut self, key: &Key, chunk_id: &ChunkId, data: &Chunk) -> (r: Result<
        FileStorageWriteStatus,
        FileStorageError,
    >)
        requires
            old(self).wf(),
        ensures
            final(self).wf(),
            write_chunk_exact(old(self)@, key@, *chunk_id, data@, r, final(self)@),
            write_chunk_post(old(self)@, key@, *chunk_id, data@, r, final(self)@),
            !(r == Err::<FileStorageWriteStatus, FileStorageError>(FileStorageError::FailedToGetFileChunk)),
    {
        let trie_key = chunk_key(*chunk_id);
        let held: u64 = match self.entry(key) {
            None => {
                return Err(FileStorageError::FileDoesNotExist);
            },
            Some(entry) => {
                match entry.data.get(trie_key.as_slice()) {
                    None => {
                        return Err(FileStorageError::FailedToGetFileChunk);
                    },
                    Some(Some(_)) => {
                        return Err(FileStorageError::FileChunkAlreadyExists);
                    },
                    Some(None) => {},
                }
                match entry.data.stored_chunks_count() {
                    None => {
                        return Err(FileStorageError::FailedToGetFileChunk);
                    },
                    Some(n) => n,
                }
            },
        };
        if held == u64::MAX {
            return Err(FileStorageError::FailedToInsertFileChunk);
        }
        let name = digest_bytes(key);
        let ghost before = self.files@;
        match self.files.remove(name.as_slice()) {
            None => Err(FileStorageError::FileDoesNotExist),
            Some(found) => {
                let mut entry = found;
                let ghost pre = entry@;
                let inserted = entry.data.insert(trie_key.as_slice(), data.as_slice());
                let r = if !inserted {
                    Err(FileStorageError::FailedToInsertFileChunk)
                } else {
                    proof {
                        let domain = pre.entries().dom();
                        assert(entry@.entries().dom() =~= domain.insert(trie_key@));
                        assert(domain.insert(trie_key@).len() == domain.len() + 1);
                    }
                    completion_status(
                        entry.metadata.chunk_count(),
                        held + 1,
                        &entry.data.get_root(),
                        &entry.metadata.fingerprint,
                    )
                };
                let _ = self.files.insert(name, entry);
                proof {
                    assert(self.files@ =~= before.insert(key@, entry));
                    assert(self@ =~= old(self)@.insert(key@, entry@));
                    if !inserted {
                        assert(entry@ == pre);
                        assert(self@ =~= old(self)@);
                    }
                }
                r
            },
        }
    }

    /// Generates a proof for a chunk of a file. No proof is issued unless the
    /// file is complete and its trie has the announced fingerprint as root, and
    /// no proof is issued that does not hold: the proof is checked before it is
    /// given out.
    pub fn generate_proof(&self, key: &Key, chunk_id: &ChunkId) -> (r: Result<FileProof, FileStorageError>)
        requires
            self.wf(),
        ensures
            generate_proof_exact(self.file(key@), *chunk_id, r),
            generate_proof_post(self.file(key@), *chunk_id, r),
            !(r matches Err(FileStorageError::FailedToGetFileChunk)),
    {
        let entry = match self.entry(key) {
            None => {
                return Err(FileStorageError::FileDoesNotExist);
            },
            Some(entry) => entry,
        };
        let stored = match entry.data.stored_chunks_count() {
            None => {
                return Err(FileStorageError::FailedToGetFileChunk);
            },
            Some(n) => n,
        };
        if entry.metadata.chunk_count() != stored {
            return Err(FileStorageError::IncompleteFile);
        }
        let root = entry.data.get_root();
        if !same_digest(&root, &entry.metadata.fingerprint) {
            return Err(FileStorageError::FingerprintAndStoredFileMismatch);
        }
        let trie_key = chunk_key(*chunk_id);
        let mut nodes: Vec<Vec<u8>> = Vec::new();
        let chunk = match entry.data.get_recorded(trie_key.as_slice(), &mut nodes) {
            None => {
                return Err(FileStorageError::FailedToGetFileChunk);
            },
            Some(None) => {
                return Err(FileStorageError::FileChunkDoesNotExist);
            },
            Some(Some(chunk)) => chunk,
        };
        match trie_compact(&nodes, &root) {
            None => Err(FileStorageError::FailedToGenerateCompactProof),
            Some(proof) => {
                let issued = FileProof { proven: Leaf { key: *chunk_id, data: chunk }, proof, root };
                if issued.verify() {
                    Ok(issued)
                } else {
                    Err(FileStorageError::FailedToGenerateCompactProof)
                }
            },
        }
    }
}

/// A write of a chunk that a valid file does not hold reports `FileComplete`
/// exactly when the file then holds as many chunks as announced and the root
/// of its pairs with the chunk added is the announced fingerprint; the file
/// is then complete.
pub proof fn lemma_complete_iff(
    pre: Map<Seq<u8>, FileView>,
    key: Seq<u8>,
    id: u64,
    data: Seq<u8>,
    r: Result<FileStorageWriteStatus, FileStorageError>,
    post: Map<Seq<u8>, FileView>,
)
    requires
        pre.contains_key(key),
        pre[key].valid(),
        !pre[key].has_chunk(id),
        write_chunk_exact(pre, key, id, data, r, post),
    ensures
        r == Ok::<FileStorageWriteStatus, FileStorageError>(FileStorageWriteStatus::FileComplete) <==> (
        pre[key].stored() + 1 == pre[key].expected() && trie_root(
            pre[key].entries().insert(spec_chunk_key(id), data),
        ) == pre[key].metadata.fingerprint),
        r == Ok::<FileStorageWriteStatus, FileStorageError>(FileStorageWriteStatus::FileComplete)
            ==> post[key].complete(),
{
}

/// A write of a chunk that a valid file does not hold, which leaves the count
/// of chunks other than the announced one, reports `FileIncomplete`; the
/// count has risen by one and the file holds the chunk. Only a count at the
/// end of its range stands in the way.
pub proof fn lemma_incomplete(
    pre: Map<Seq<u8>, FileView>,
    key: Seq<u8>,
    id: u64,
    data: Seq<u8>,
    r: Result<FileStorageWriteStatus, FileStorageError>,
    post: Map<Seq<u8>, FileView>,
)
    requires
        pre.contains_key(key),
        pre[key].valid(),
        !pre[key].has_chunk(id),
        pre[key].stored() + 1 != pre[key].expected(),
        pre[key].stored() < u64::MAX,
        write_chunk_exact(pre, key, id, data, r, post),
    ensures
        r == Ok::<FileStorageWriteStatus, FileStorageError>(FileStorageWriteStatus::FileIncomplete),
        post[key].stored() == pre[key].stored() + 1,
        post[key].has_chunk(id),
        post[key].chunk(id) == data,
        post[key].valid(),
{
}

/// A write that fills a valid file under a root other than the announced
/// fingerprint reports `FingerprintAndStoredFileMismatch`; the chunk is stored
/// all the same.
pub proof fn lemma_mismatch(
    pre: Map<Seq<u8>, FileView>,
    key: Seq<u8>,
    id: u64,
    data: Seq<u8>,
    r: Result<FileStorageWriteStatus, FileStorageError>,
    post: Map<Seq<u8>, FileView>,
)
    requires
        pre.contains_key(key),
        pre[key].valid(),
        !pre[key].has_chunk(id),
        pre[key].stored() + 1 == pre[key].expected(),
        trie_root(pre[key].entries().insert(spec_chunk_key(id), data)) != pre[key].metadata.fingerprint,
        write_chunk_exact(pre, key, id, data, r, post),
    ensures
        r == Err::<FileStorageWriteStatus, FileStorageError>(FileStorageError::FingerprintAndStoredFileMismatch),
        post[key].has_chunk(id),
        post[key].chunk(id) == data,
{
}

/// Writing a chunk that a valid file already holds is refused as
/// `FileChunkAlreadyExists` and changes nothing, whatever bytes it brings.
pub proof fn lemma_duplicate_write_refused(
    pre: Map<Seq<u8>, FileView>,
    key: Seq<u8>,
    id: u64,
    data: Seq<u8>,
    r: Result<FileStorageWriteStatus, FileStorageError>,
    post: Map<Seq<u8>, FileView>,
)
    requires
        pre.contains_key(key),
        pre[key].valid(),
        pre[key].has_chunk(id),
        write_chunk_exact(pre, key, id, data, r, post),
    ensures
        r == Err::<FileStorageWriteStatus, FileStorageError>(FileStorageError::FileChunkAlreadyExists),
        post == pre,
{
}

/// After a write that added a chunk to a valid file, a second write of the
/// same chunk id to the same file, whatever bytes it brings, is refused as
/// `FileChunkAlreadyExists` and leaves the stored bytes as the first write
/// made them.
pub proof fn lemma_no_duplicate_chunks(
    before: Map<Seq<u8>, FileView>,
    key: Seq<u8>,
    id: u64,
    first: Seq<u8>,
    r1: Result<FileStorageWriteStatus, FileStorageError>,
    between: Map<Seq<u8>, FileView>,
    second: Seq<u8>,
    r2: Result<FileStorageWriteStatus, FileStorageError>,
    after: Map<Seq<u8>, FileView>,
)
    requires
        before.contains_key(key),
        before[key].valid(),
        write_chunk_exact(before, key, id, first, r1, between),
        r1 is Ok,
        write_chunk_exact(between, key, id, second, r2, after),
    ensures
        r2 == Err::<FileStorageWriteStatus, FileStorageError>(FileStorageError::FileChunkAlreadyExists),
        after == between,
        after[key].chunk(id) == first,
{
    assert(write_refusal(before[key], id, first) is None);
    assert(between.contains_key(key));
    assert(between[key].has_chunk(id));
    lemma_duplicate_write_refused(between, key, id, second, r2, after);
}

/// After a write that added a chunk to a valid file, a read of that chunk
/// gives the bytes written, and a read of another chunk that the file did not
/// hold is refused as `FileChunkDoesNotExist`.
pub proof fn lemma_read_back(
    pre: Map<Seq<u8>, FileView>,
    key: Seq<u8>,
    id: u64,
    data: Seq<u8>,
    r: Result<FileStorageWriteStatus, FileStorageError>,
    post: Map<Seq<u8>, FileView>,
    other: u64,
    same: Result<Chunk, FileStorageError>,
    elsewhere: Result<Chunk, FileStorageError>,
)
    requires
        pre.contains_key(key),
        pre[key].valid(),
        write_chunk_exact(pre, key, id, data, r, post),
        write_refusal(pre[key], id, data) is None,
        other != id,
        !pre[key].has_chunk(other),
        get_chunk_exact(file_of(post, key), id, same),
        get_chunk_exact(file_of(post, key), other, elsewhere),
    ensures
        same matches Ok(chunk) && chunk@ == data,
        elsewhere == Err::<Chunk, FileStorageError>(FileStorageError::FileChunkDoesNotExist),
{
    assert(post.contains_key(key));
    if spec_chunk_key(other) == spec_chunk_key(id) {
        crate::types::lemma_chunk_key_injective(other, id);
    }
}

/// A valid file without chunks answers every read with
/// `FileChunkDoesNotExist`.
pub proof fn lemma_fresh_file_has_no_chunk(f: FileView, id: u64, r: Result<Chunk, FileStorageError>)
    requires
        f.valid(),
        f.entries() == no_entries(),
        get_chunk_exact(Some(f), id, r),
    ensures
        r == Err::<Chunk, FileStorageError>(FileStorageError::FileChunkDoesNotExist),
{
}

/// The root of a file depends on the chunks it holds, not on the order in
/// which they were written: two valid files with the same chunks, to which
/// the same two chunks are written in either order, end with the same chunks,
/// the same count and the same root.
pub proof fn lemma_insertion_order(
    left: Map<Seq<u8>, FileView>,
    right: Map<Seq<u8>, FileView>,
    key: Seq<u8>,
    a: u64,
    bytes_a: Seq<u8>,
    b: u64,
    bytes_b: Seq<u8>,
    left_mid: Map<Seq<u8>, FileView>,
    left_end: Map<Seq<u8>, FileView>,
    right_mid: Map<Seq<u8>, FileView>,
    right_end: Map<Seq<u8>, FileView>,
    r: Seq<Result<FileStorageWriteStatus, FileStorageError>>,
)
    requires
        left.contains_key(key),
        right.contains_key(key),
        left[key].valid(),
        right[key].valid(),
        left[key].entries() == right[key].entries(),
        a != b,
        r.len() == 4,
        write_chunk_exact(left, key, a, bytes_a, r[0], left_mid),
        write_refusal(left[key], a, bytes_a) is None,
        write_chunk_exact(left_mid, key, b, bytes_b, r[1], left_end),
        write_refusal(left_mid[key], b, bytes_b) is None,
        write_chunk_exact(right, key, b, bytes_b, r[2], right_mid),
        write_refusal(right[key], b, bytes_b) is None,
        write_chunk_exact(right_mid, key, a, bytes_a, r[3], right_end),
        write_refusal(right_mid[key], a, bytes_a) is None,
    ensures
        left_end[key].entries() == right_end[key].entries(),
        left_end[key].stored() == right_end[key].stored(),
        left_end[key].root == right_end[key].root,
{
    assert(left_mid.contains_key(key) && right_mid.contains_key(key));
    assert(left_mid[key].valid() && right_mid[key].valid());
    if spec_chunk_key(a) == spec_chunk_key(b) {
        crate::types::lemma_chunk_key_injective(a, b);
    }
    assert(left_end[key].entries() =~= right_end[key].entries());
}

/// Two requests for a proof of the same chunk of the same file agree: both
/// are refused for the same reason, or both issue the same proof.
pub proof fn lemma_proofs_agree(
    file: Option<FileView>,
    id: u64,
    r1: Result<FileProof, FileStorageError>,
    r2: Result<FileProof, FileStorageError>,
)
    requires
        generate_proof_exact(file, id, r1),
        generate_proof_exact(file, id, r2),
    ensures
        r1 is Ok <==> r2 is Ok,
        r1 is Err ==> r1->Err_0 == r2->Err_0,
        r1 is Ok ==> r1->Ok_0.proven.key == r2->Ok_0.proven.key && r1->Ok_0.proven.data@ == r2->Ok_0.proven.data@
            && r1->Ok_0.proof.deep_view() == r2->Ok_0.proof.deep_view() && r1->Ok_0.root@ == r2->Ok_0.root@,
{
}

/// A proof that was issued holds, and it holds for the chunk it carries alone:
/// the same nodes under the same root with other bytes for the chunk do not
/// hold.
pub proof fn lemma_issued_proof_holds(
    file: Option<FileView>,
    id: u64,
    r: Result<FileProof, FileStorageError>,
    tampered: FileProof,
)
    requires
        generate_proof_exact(file, id, r),
        r is Ok,
        tampered.proof.deep_view() == r->Ok_0.proof.deep_view(),
        tampered.root@ == r->Ok_0.root@,
        tampered.proven.key == r->Ok_0.proven.key,
        tampered.proven.data@ != r->Ok_0.proven.data@,
    ensures
        r->Ok_0.holds(),
        file->0.metadata.fingerprint == r->Ok_0.root@,
        !tampered.holds(),
{
}

/// A valid file of one chunk, whose fingerprint is the root of that chunk
/// alone, is complete once the chunk is written. A proof for the chunk, where
/// one is issued, has the fingerprint as root, carries the chunk and holds; a
/// proof for the chunk after it is refused as `FileChunkDoesNotExist`.
pub proof fn lemma_single_chunk_file(
    pre: Map<Seq<u8>, FileView>,
    key: Seq<u8>,
    bytes: Seq<u8>,
    r: Result<FileStorageWriteStatus, FileStorageError>,
    post: Map<Seq<u8>, FileView>,
    first: Result<FileProof, FileStorageError>,
    second: Result<FileProof, FileStorageError>,
)
    requires
        pre.contains_key(key),
        pre[key].valid(),
        pre[key].entries() == no_entries(),
        pre[key].expected() == 1,
        pre[key].metadata.fingerprint == trie_root(no_entries().insert(spec_chunk_key(0), bytes)),
        write_chunk_exact(pre, key, 0, bytes, r, post),
        generate_proof_exact(file_of(post, key), 0, first),
        generate_proof_exact(file_of(post, key), 1, second),
    ensures
        r == Ok::<FileStorageWriteStatus, FileStorageError>(FileStorageWriteStatus::FileComplete),
        first is Ok || first == Err::<FileProof, FileStorageError>(FileStorageError::FailedToGenerateCompactProof),
        first matches Ok(p) ==> p.root@ == pre[key].metadata.fingerprint && p.proven.key == 0 && p.proven.data@
            == bytes && p.holds(),
        second == Err::<FileProof, FileStorageError>(FileStorageError::FileChunkDoesNotExist),
{
    assert(no_entries().dom() =~= Set::<Seq<u8>>::empty());
    assert(pre[key].stored() == 0);
    lemma_complete_iff(pre, key, 0, bytes, r, post);
    assert(post.contains_key(key));
    if spec_chunk_key(1) == spec_chunk_key(0) {
        crate::types::lemma_chunk_key_injective(1, 0);
    }
}

/// Storage interface to be implemented by the storage providers.
pub trait FileStorage {
    /// The storage is in a state that its operations can start from.
    spec fn valid(&self) -> bool;

    /// The files of the storage, by file key.
    spec fn files(&self) -> Map<Seq<u8>, FileView>;

    /// Generate proof for a chunk of a file. If the file does not exist or
    /// any chunk is missing, no proof will be returned.
    fn generate_proof(&self, key: &Key, chunk_id: &ChunkId) -> (r: Result<FileProof, FileStorageError>)
        requires
            self.valid(),
        ensures
            generate_proof_post(file_of(self.files(), key@), *chunk_id, r),
    ;

    /// Remove a file from storage.
    fn delete_file(&mut self, key: &Key)
        requires
            old(self).valid(),
        ensures
            final(self).valid(),
            final(self).files() == old(self).files().remove(key@),
    ;

    /// Get metadata for a file.
    fn get_metadata(&self, key: &Key) -> (r: Result<Metadata, FileStorageError>)
        requires
            self.valid(),
        ensures
            match r {
                Ok(metadata) => self.files().contains_key(key@) && metadata@ == self.files()[key@].metadata,
                Err(e) => e == FileStorageError::FileDoesNotExist && !self.files().contains_key(key@),
            },
    ;

    /// Set metadata for a file. This should be called before you start adding
    /// chunks since it will overwrite any previous metadata and delete already
    /// stored file chunks.
    fn set_metadata(&mut self, key: Key, metadata: Metadata)
        requires
            old(self).valid(),
        ensures
            final(self).valid(),
            final(self).files().dom() == old(self).files().dom().insert(key@),
            final(self).files().remove(key@) == old(self).files().remove(key@),
            final(self).files()[key@].metadata == metadata@,
            final(self).files()[key@].entries() == no_entries(),
    ;

    /// Get a file chunk from storage.
    fn get_chunk(&self, key: &Key, chunk_id: &ChunkId) -> (r: Result<Chunk, FileStorageError>)
        requires
            self.valid(),
        ensures
            get_chunk_post(file_of(self.files(), key@), *chunk_id, r),
    ;

    /// Write a file chunk in storage. It is expected that you verify the
    /// associated proof that the chunk is part of the file before writing it.
    fn write_chunk(&mut self, key: &Key, chunk_id: &ChunkId, data: &Chunk) -> (r: Result<
        FileStorageWriteStatus,
        FileStorageError,
    >)
        requires
            old(self).valid(),
        ensures
            final(self).valid(),
            write_chunk_post(old(self).files(), key@, *chunk_id, data@, r, final(self).files()),
    ;
}

impl FileStorage for InMemoryFileStorage {
    open spec fn valid(&self) -> bool {
        self.wf()
    }

    open spec fn files(&self) -> Map<Seq<u8>, FileView> {
        self@
    }

    fn generate_proof(&self, key: &Key, chunk_id: &ChunkId) -> (r: Result<FileProof, FileStorageError>) {
        InMemoryFileStorage::generate_proof(self, key, chunk_id)
    }

    fn delete_file(&mut self, key: &Key) {
        InMemoryFileStorage::delete_file(self, key)
    }

    fn get_metadata(&self, key: &Key) -> (r: Result<Metadata, FileStorageError>) {
        InMemoryFileStorage::get_metadata(self, key)
    }

    fn set_metadata(&mut self, key: Key, metadata: Metadata) {
        InMemoryFileStorage::set_metadata(self, key, metadata)
    }

    fn get_chunk(&self, key: &Key, chunk_id: &ChunkId) -> (r: Result<Chunk, FileStorageError>) {
        InMemoryFileStorage::get_chunk(self, key, chunk_id)
    }

    fn write_chunk(&mut self, key: &Key, chunk_id: &ChunkId, data: &Chunk) -> (r: Result<
        FileStorageWriteStatus,
        FileStorageError,
    >) {
        InMemoryFileStorage::write_chunk(self, key, chunk_id, data)
    }
}

} // verus!
