//! The content store: documents kept under the digest of their text.
use crate::codec::{decode_record, encode_record, record_decoding, sha256_of_text, text_digest};
use crate::error::StoreError;
use crate::tree::{
    bytes_of, lookup, open_db, open_tree, tree_contains_key, tree_contents, tree_get, tree_insert,
    tree_origin, tree_remove,
};
use vstd::prelude::*;

verus! {

/// Whether the store's database compresses what it writes.
pub const USE_COMPRESSION: bool = true;

/// The zstd level the store is opened with.
pub const COMPRESSION_FACTOR: i32 = 10;

/// The name of the tree that holds the documents.
pub const TABLE_NAME: &'static str = "documents";

/// Nanoseconds past a second stay below this bound; the second half of the
/// range marks a leap second.
pub const NANOS_LIMIT: u32 = 2_000_000_000;

/// A point in time, UTC: whole seconds since the Unix epoch and the
/// nanoseconds past that second.
#[derive(Debug, Clone, Copy, PartialEq, Eq, Hash)]
pub struct Timestamp {
    pub secs: i64,
    pub nanos: u32,
}

impl Timestamp {
    /// The nanoseconds fit a second, a leap second included.
    pub open spec fn wf(self) -> bool {
        self.nanos < NANOS_LIMIT
    }

    /// The timestamp of `secs` seconds and `nanos` nanoseconds; `None` where
    /// the nanoseconds do not fit a second.
    pub fn new(secs: i64, nanos: u32) -> (r: Option<Timestamp>)
        ensures
            r is Some <==> nanos < NANOS_LIMIT,
            r matches Some(t) ==> t.wf() && t.secs == secs && t.nanos == nanos,
    {
        if nanos < NANOS_LIMIT {
            Some(Timestamp { secs, nanos })
        } else {
            None
        }
    }
}

/// The identifier of a document: the SHA-256 digest of its text.
#[derive(Debug, Clone, Copy, PartialEq, Eq, Hash)]
pub struct DocumentId(pub [u8; 32]);

/// A stored document: its text and the time it was inserted.
#[derive(Debug, Clone, PartialEq)]
pub struct DocumentRecord {
    pub content: String,
    pub created: Timestamp,
}

/// The body of an error reply at the service boundary.
#[derive(Debug, Clone)]
pub struct JsonError {
    pub message: String,
}

/// What a store keeps under a key: the record that its bytes decode to, or
/// `None` where they do not decode.
pub type Slot = Option<(Seq<char>, Timestamp)>;

/// The key under which a text is stored.
pub open spec fn document_key(content: Seq<char>) -> Seq<u8> {
    text_digest(content)
}

/// The record that stored bytes decode to.
pub open spec fn decoded(b: Seq<u8>) -> Slot {
    match record_decoding(b) {
        Some((c, s, n)) => Some((c, Timestamp { secs: s, nanos: n })),
        None => None,
    }
}

/// Raw key-value pairs, read as records.
pub open spec fn records(m: Map<Seq<u8>, Seq<u8>>) -> Map<Seq<u8>, Slot> {
    Map::new(|k: Seq<u8>| m.dom().contains(k), |k: Seq<u8>| decoded(m[k]))
}

/// What a read at `k` finds: `None` where the key is absent.
pub open spec fn slot(m: Map<Seq<u8>, Slot>, k: Seq<u8>) -> Option<Slot> {
    if m.dom().contains(k) {
        Some(m[k])
    } else {
        None
    }
}

/// What a read that returned `o` found.
pub open spec fn fetched(o: Option<DocumentRecord>) -> Option<Slot> {
    match o {
        Some(rec) => Some(Some(rec@)),
        None => None,
    }
}

/// What optional stored bytes hold, read as a record.
pub open spec fn slot_of_bytes(raw: Option<Seq<u8>>) -> Option<Slot> {
    match raw {
        Some(b) => Some(decoded(b)),
        None => None,
    }
}

/// The store after `rec` is inserted under the key of its text.
pub open spec fn stored_after_insert(m: Map<Seq<u8>, Slot>, rec: (Seq<char>, Timestamp)) -> Map<
    Seq<u8>,
    Slot,
> {
    m.insert(document_key(rec.0), Some(rec))
}

impl View for DocumentRecord {
    type V = (Seq<char>, Timestamp);

    open spec fn view(&self) -> (Seq<char>, Timestamp) {
        (self.content@, self.created)
    }
}

impl AsRef<[u8; 32]> for DocumentId {
    fn as_ref(&self) -> (r: &[u8; 32])
        ensures
            *r == self.0,
    {
        &self.0
    }
}

proof fn lemma_records_insert(m: Map<Seq<u8>, Seq<u8>>, k: Seq<u8>, v: Seq<u8>)
    ensures
        records(m.insert(k, v)) == records(m).insert(k, decoded(v)),
{
    assert(records(m.insert(k, v)) =~= records(m).insert(k, decoded(v)));
}

proof fn lemma_records_remove(m: Map<Seq<u8>, Seq<u8>>, k: Seq<u8>)
    ensures
        records(m.remove(k)) == records(m).remove(k),
{
    assert(records(m.remove(k)) =~= records(m).remove(k));
}

proof fn lemma_slot_of_records(m: Map<Seq<u8>, Seq<u8>>, k: Seq<u8>)
    ensures
        slot(records(m), k) == slot_of_bytes(lookup(m, k)),
{
}

/// Decodes a value read from the store, if there is one.
fn decode_stored(raw: Option<Vec<u8>>) -> (r: Result<Option<DocumentRecord>, StoreError>)
    ensures
        match r {
            Ok(o) => fetched(o) == slot_of_bytes(bytes_of(raw)),
            Err(e) => e is Bincode && slot_of_bytes(bytes_of(raw)) == Some(None::<
                (Seq<char>, Timestamp),
            >),
        },
{
    match raw {
        None => Ok(None),
        Some(bytes) => match decode_record(bytes.as_slice()) {
            Ok((content, secs, nanos)) => Ok(
                Some(DocumentRecord { content, created: Timestamp { secs, nanos } }),
            ),
            Err(e) => Err(StoreError::Bincode(e)),
        },
    }
}

/// The content store, backed by one tree of an embedded database.
pub struct Database {
    documents: sled::Tree,
}

impl View for Database {
    type V = Map<Seq<u8>, Slot>;

    closed spec fn view(&self) -> Map<Seq<u8>, Slot> {
        records(tree_contents(self.documents))
    }
}

impl Database {
    /// The settings of the database the store's tree belongs to, and the
    /// tree's name.
    pub closed spec fn origin(&self) -> ((Seq<char>, bool, i32), Seq<char>) {
        tree_origin(self.documents)
    }

    /// Opens, creating it if absent, the store rooted at `path`: a database
    /// there with zstd compression, and its tree of documents.
    pub fn new(path: &str) -> (r: Result<Self, sled::Error>)
        ensures
            r matches Ok(d) ==> d.origin() == ((path@, USE_COMPRESSION, COMPRESSION_FACTOR), TABLE_NAME@),
    {
        let db = match open_db(path, USE_COMPRESSION, COMPRESSION_FACTOR) {
            Ok(db) => db,
            Err(e) => return Err(e),
        };
        match open_tree(&db, TABLE_NAME) {
            Ok(documents) => Ok(Database { documents }),
            Err(e) => Err(e),
        }
    }

    /// The identifier of a text: the digest of its UTF-8 bytes.
    pub fn calculate_document_id(content: &str) -> (r: DocumentId)
        ensures
            r.0@ == document_key(content@),
    {
        DocumentId(sha256_of_text(content))
    }

    /// Stores `doc` under the key of its text, replacing whatever was there,
    /// and returns its identifier. Only a fault of the storage engine makes
    /// it fail.
    pub fn insert_document(&mut self, doc: &DocumentRecord) -> (r: Result<DocumentId, StoreError>)
        ensures
            r matches Ok(id) ==> {
                &&& id.0@ == document_key(doc.content@)
                &&& final(self)@ == stored_after_insert(old(self)@, doc@)
            },
            r is Err ==> r matches Err(StoreError::Sled(_)),
            final(self).origin() == old(self).origin(),
    {
        let id = Self::calculate_document_id(doc.content.as_str());
        let bytes = match encode_record(doc.content.as_str(), doc.created.secs, doc.created.nanos) {
            Ok(b) => b,
            Err(e) => return Err(StoreError::Bincode(e)),
        };
        let ghost before = tree_contents(self.documents);
        let ghost value = bytes@;
        match tree_insert(&mut self.documents, id.0.as_slice(), bytes) {
            Ok(_) => {},
            Err(e) => return Err(StoreError::Sled(e)),
        }
        proof {
            lemma_records_insert(before, id.0@, value);
        }
        Ok(id)
    }

    /// Reads the record stored under `id`.
    pub fn get_document(&self, id: &DocumentId) -> (r: Result<Option<DocumentRecord>, StoreError>)
        ensures
            r matches Ok(o) ==> fetched(o) == slot(self@, id.0@),
            r matches Err(StoreError::Bincode(_)) ==> slot(self@, id.0@) == Some(
                None::<(Seq<char>, Timestamp)>,
            ),
    {
        self.get_and_transform(id)
    }

    /// Deletes the record stored under `id` and returns it. A value that does
    /// not decode is left in place, and a codec error returned.
    pub fn remove_document(&mut self, id: &DocumentId) -> (r: Result<
        Option<DocumentRecord>,
        StoreError,
    >)
        ensures
            match r {
                Ok(o) => {
                    &&& fetched(o) == slot(old(self)@, id.0@)
                    &&& final(self)@ == old(self)@.remove(id.0@)
                },
                Err(StoreError::Bincode(_)) => {
                    &&& slot(old(self)@, id.0@) == Some(None::<(Seq<char>, Timestamp)>)
                    &&& final(self)@ == old(self)@
                },
                Err(StoreError::Sled(_)) => true,
            },
            final(self).origin() == old(self).origin(),
    {
        self.remove(id)
    }

    /// Whether a record is stored under `id`, without decoding it.
    pub fn contains_document(&self, id: &DocumentId) -> (r: Result<bool, StoreError>)
        ensures
            r matches Ok(b) ==> b == self@.dom().contains(id.0@),
            !(r matches Err(StoreError::Bincode(_))),
    {
        self.contains_key(id)
    }

    /// Reads and decodes the value stored under `id`.
    fn get_and_transform(&self, id: &DocumentId) -> (r: Result<Option<DocumentRecord>, StoreError>)
        ensures
            r matches Ok(o) ==> fetched(o) == slot(self@, id.0@),
            r matches Err(StoreError::Bincode(_)) ==> slot(self@, id.0@) == Some(
                None::<(Seq<char>, Timestamp)>,
            ),
    {
        let raw = match tree_get(&self.documents, id.0.as_slice()) {
            Ok(v) => v,
            Err(e) => return Err(StoreError::Sled(e)),
        };
        proof {
            lemma_slot_of_records(tree_contents(self.documents), id.0@);
        }
        decode_stored(raw)
    }

    /// Decodes the value stored under `id` and, where that succeeds, deletes
    /// it.
    fn remove(&mut self, id: &DocumentId) -> (r: Result<Option<DocumentRecord>, StoreError>)
        ensures
            match r {
                Ok(o) => {
                    &&& fetched(o) == slot(old(self)@, id.0@)
                    &&& final(self)@ == old(self)@.remove(id.0@)
                },
                Err(StoreError::Bincode(_)) => {
                    &&& slot(old(self)@, id.0@) == Some(None::<(Seq<char>, Timestamp)>)
                    &&& final(self)@ == old(self)@
                },
                Err(StoreError::Sled(_)) => true,
            },
            final(self).origin() == old(self).origin(),
    {
        let found = match self.get_and_transform(id) {
            Ok(o) => o,
            Err(e) => return Err(e),
        };
        let ghost before = tree_contents(self.documents);
        match tree_remove(&mut self.documents, id.0.as_slice()) {
            Ok(_) => {},
            Err(e) => return Err(StoreError::Sled(e)),
        }
        proof {
            lemma_records_remove(before, id.0@);
        }
        Ok(found)
    }

    /// Whether a value is stored under `id`.
    fn contains_key(&self, id: &DocumentId) -> (r: Result<bool, StoreError>)
        ensures
            r matches Ok(b) ==> b == self@.dom().contains(id.0@),
            !(r matches Err(StoreError::Bincode(_))),
    {
        match tree_contains_key(&self.documents, id.0.as_slice()) {
            Ok(b) => Ok(b),
            Err(e) => Err(StoreError::Sled(e)),
        }
    }
}

} // verus!
