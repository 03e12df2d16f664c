//! Plain data shared by the storage engine: keys, chunk addressing, file
//! metadata and proofs.
use vstd::prelude::*;

verus! {

/// A 32-byte digest that names a file.
pub type Key = [u8; 32];

/// A 32-byte digest: the trie root that a complete file must have.
pub type Fingerprint = [u8; 32];

/// Index of a chunk inside its file, counted from zero.
pub type ChunkId = u64;

/// The bytes of one chunk.
pub type Chunk = Vec<u8>;

/// Width of a chunk in bytes.
pub const FILE_CHUNK_SIZE: u64 = 1024;

/// Number of chunks that a file of `size` bytes is cut into: the size divided
/// by the chunk width, rounded up.
pub open spec fn spec_chunk_count(size: u64) -> nat {
    if size % FILE_CHUNK_SIZE == 0 {
        (size / FILE_CHUNK_SIZE) as nat
    } else {
        (size / FILE_CHUNK_SIZE + 1) as nat
    }
}

/// The trie key of chunk `id`: its eight bytes, most significant first.
pub open spec fn spec_chunk_key(id: u64) -> Seq<u8> {
    seq![
        ((id >> 56) & 0xff) as u8,
        ((id >> 48) & 0xff) as u8,
        ((id >> 40) & 0xff) as u8,
        ((id >> 32) & 0xff) as u8,
        ((id >> 24) & 0xff) as u8,
        ((id >> 16) & 0xff) as u8,
        ((id >> 8) & 0xff) as u8,
        (id & 0xff) as u8,
    ]
}

/// Two chunk ids with the same trie key are the same id.
pub proof fn lemma_chunk_key_injective(a: u64, b: u64)
    requires
        spec_chunk_key(a) == spec_chunk_key(b),
    ensures
        a == b,
{
    let ka = spec_chunk_key(a);
    let kb = spec_chunk_key(b);
    assert(ka[0] == kb[0] && ka[1] == kb[1] && ka[2] == kb[2] && ka[3] == kb[3]);
    assert(ka[4] == kb[4] && ka[5] == kb[5] && ka[6] == kb[6] && ka[7] == kb[7]);
    assert(((a >> 56) & 0xff) as u8 == ((b >> 56) & 0xff) as u8 && ((a >> 48) & 0xff) as u8 == ((b >> 48)
        & 0xff) as u8 && ((a >> 40) & 0xff) as u8 == ((b >> 40) & 0xff) as u8 && ((a >> 32) & 0xff) as u8
        == ((b >> 32) & 0xff) as u8 && ((a >> 24) & 0xff) as u8 == ((b >> 24) & 0xff) as u8 && ((a >> 16)
        & 0xff) as u8 == ((b >> 16) & 0xff) as u8 && ((a >> 8) & 0xff) as u8 == ((b >> 8) & 0xff) as u8
        && (a & 0xff) as u8 == (b & 0xff) as u8 ==> a == b) by (bit_vector);
}

/// Encodes a chunk id as its trie key.
pub fn chunk_key(id: ChunkId) -> (key: Vec<u8>)
    ensures
        key@ == spec_chunk_key(id),
{
    let mut key: Vec<u8> = Vec::with_capacity(8);
    key.push(((id >> 56) & 0xff) as u8);
    key.push(((id >> 48) & 0xff) as u8);
    key.push(((id >> 40) & 0xff) as u8);
    key.push(((id >> 32) & 0xff) as u8);
    key.push(((id >> 24) & 0xff) as u8);
    key.push(((id >> 16) & 0xff) as u8);
    key.push(((id >> 8) & 0xff) as u8);
    key.push((id & 0xff) as u8);
    assert(key@ =~= spec_chunk_key(id));
    key
}

/// What is known of a file before its content arrives.
#[derive(Debug, PartialEq, Eq)]
pub struct Metadata {
    /// Account that owns the file.
    pub owner: String,
    /// Path of the file in the owner's namespace.
    pub location: Vec<u8>,
    /// Length of the file in bytes.
    pub size: u64,
    /// Root that the file's trie must have once every chunk is stored.
    pub fingerprint: Fingerprint,
    /// Addresses of peers that may serve the file's content.
    pub peer_ids: Vec<Vec<u8>>,
}

/// The mathematical value of a [`Metadata`].
pub struct MetadataView {
    pub owner: Seq<char>,
    pub location: Seq<u8>,
    pub size: u64,
    pub fingerprint: Seq<u8>,
    pub peer_ids: Seq<Seq<u8>>,
}

impl View for Metadata {
    type V = MetadataView;

    open spec fn view(&self) -> MetadataView {
        MetadataView {
            owner: self.owner@,
            location: self.location@,
            size: self.size,
            fingerprint: self.fingerprint@,
            peer_ids: self.peer_ids.deep_view(),
        }
    }
}

impl Metadata {
    /// Number of chunks the file is expected to have.
    pub fn chunk_count(&self) -> (n: u64)
        ensures
            n == spec_chunk_count(self.size),
    {
        let full: u64 = self.size / FILE_CHUNK_SIZE;
        if self.size % FILE_CHUNK_SIZE != 0 {
            full + 1
        } else {
            full
        }
    }
}

impl Clone for Metadata {
    fn clone(&self) -> (copy: Self)
        ensures
            copy@ == self@,
    {
        let peer_ids = self.peer_ids.clone();
        assert(peer_ids.deep_view() =~= self.peer_ids.deep_view()) by {
            assert forall|i: int| 0 <= i < peer_ids.len() implies peer_ids[i]@ == self.peer_ids[i]@ by {
                assert(cloned::<Vec<u8>>(self.peer_ids[i], peer_ids[i]));
            }
        }
        Metadata {
            owner: self.owner.clone(),
            location: self.location.clone(),
            size: self.size,
            fingerprint: self.fingerprint,
            peer_ids,
        }
    }
}

/// A chunk together with its place in the file.
#[derive(Debug, Clone, PartialEq, Eq)]
pub struct Leaf {
    pub key: ChunkId,
    pub data: Chunk,
}

/// Evidence that a chunk belongs to a file: the chunk, the trie nodes on the
/// way to it in compact encoding, and the root they lead to.
#[derive(Debug, Clone, PartialEq, Eq)]
pub struct FileProof {
    /// The chunk that is proven.
    pub proven: Leaf,
    /// Compact encoding of the trie nodes that the lookup of the chunk touched.
    pub proof: Vec<Vec<u8>>,
    /// Root of the file's trie.
    pub root: Fingerprint,
}

} // verus!
