//! Laws that relate the store's operations, stated over its model: a map from
//! key bytes to what each key holds.
use crate::db::{document_key, slot, stored_after_insert, Slot, Timestamp};
use vstd::prelude::*;

verus! {

/// An identifier depends on the text alone: byte-identical texts get the
/// same identifier, whatever their timestamps, and inserting either leaves
/// its record under that one key.
pub proof fn lemma_identifier_deterministic(
    m: Map<Seq<u8>, Slot>,
    t1: Seq<char>,
    t2: Seq<char>,
    ts1: Timestamp,
    ts2: Timestamp,
)
    requires
        t1 == t2,
    ensures
        document_key(t1) == document_key(t2),
        stored_after_insert(m, (t1, ts1)).dom() == stored_after_insert(m, (t2, ts2)).dom(),
{
}

/// Reading an identifier right after inserting a text with a timestamp finds
/// that very text and timestamp.
pub proof fn lemma_round_trip(m: Map<Seq<u8>, Slot>, c: Seq<char>, ts: Timestamp)
    ensures
        slot(stored_after_insert(m, (c, ts)), document_key(c)) == Some(Some((c, ts))),
{
}

/// Inserting the same text twice: the second insert finds, as the record it
/// replaces, the one that the first wrote, and the store ends as if only the
/// second had been made.
pub proof fn lemma_reinsert_finds_first(
    m: Map<Seq<u8>, Slot>,
    c: Seq<char>,
    ts1: Timestamp,
    ts2: Timestamp,
)
    ensures
        slot(stored_after_insert(m, (c, ts1)), document_key(c)) == Some(Some((c, ts1))),
        stored_after_insert(stored_after_insert(m, (c, ts1)), (c, ts2)) == stored_after_insert(
            m,
            (c, ts2),
        ),
{
    assert(stored_after_insert(stored_after_insert(m, (c, ts1)), (c, ts2)) =~= stored_after_insert(
        m,
        (c, ts2),
    ));
}

/// After a removal the key is absent, so a read finds nothing; removing an
/// absent key finds nothing and leaves the store as it was.
pub proof fn lemma_remove_then_absent(m: Map<Seq<u8>, Slot>, k: Seq<u8>)
    ensures
        !m.remove(k).dom().contains(k),
        slot(m.remove(k), k) is None,
        !m.dom().contains(k) ==> slot(m, k) is None && m.remove(k) == m,
{
    if !m.dom().contains(k) {
        assert(m.remove(k) =~= m);
    }
}

/// Every value in the store decodes, as a record with a well-formed
/// timestamp that sits under the key of its own text.
pub open spec fn content_addressed(m: Map<Seq<u8>, Slot>) -> bool {
    forall|k: Seq<u8>|
        #[trigger] m.dom().contains(k) ==> (m[k] matches Some(rec) && k == document_key(rec.0)
            && rec.1.wf())
}

/// Inserting a record with a well-formed timestamp under the key of its
/// text, and removing any key, keep the store content-addressed.
pub proof fn lemma_content_addressing_kept(
    m: Map<Seq<u8>, Slot>,
    rec: (Seq<char>, Timestamp),
    k: Seq<u8>,
)
    requires
        content_addressed(m),
        rec.1.wf(),
    ensures
        content_addressed(stored_after_insert(m, rec)),
        content_addressed(m.remove(k)),
{
}

} // verus!
