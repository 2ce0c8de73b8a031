//! The embedded ordered key-value tree that holds the documents, seen as a
//! map from key bytes to value bytes.
use vstd::prelude::*;

verus! {

/// An open sled database.
#[verifier::external_type_specification]
#[verifier::external_body]
pub struct ExDb(sled::Db);

/// One named tree of a sled database.
#[verifier::external_type_specification]
#[verifier::external_body]
pub struct ExTree(sled::Tree);

/// The key-value pairs that a tree holds. A store opens its tree itself,
/// never clones the handle and writes only through `&mut`, so what the
/// handle holds changes only through the calls below.
pub uninterp spec fn tree_contents(t: sled::Tree) -> Map<Seq<u8>, Seq<u8>>;

/// The path, compression switch and compression factor that a database was
/// opened with.
pub uninterp spec fn db_settings(d: sled::Db) -> (Seq<char>, bool, i32);

/// The settings of the database that a tree belongs to, and the tree's name.
pub uninterp spec fn tree_origin(t: sled::Tree) -> ((Seq<char>, bool, i32), Seq<char>);

/// The value stored under `k`, if any.
pub open spec fn lookup(m: Map<Seq<u8>, Seq<u8>>, k: Seq<u8>) -> Option<Seq<u8>> {
    if m.dom().contains(k) {
        Some(m[k])
    } else {
        None
    }
}

/// The bytes of an optional value.
pub open spec fn bytes_of(v: Option<Vec<u8>>) -> Option<Seq<u8>> {
    match v {
        Some(b) => Some(b@),
        None => None,
    }
}

/// Relies on sled::Config::open: opens, creating it if absent, the database
/// rooted at `path`, with zstd compression switched as given, at the given
/// factor.
#[verifier::external_body]
pub(crate) fn open_db(path: &str, use_compression: bool, compression_factor: i32) -> (r: Result<
    sled::Db,
    sled::Error,
>)
    ensures
        r matches Ok(d) ==> db_settings(d) == (path@, use_compression, compression_factor),
{
    sled::Config::default().use_compression(use_compression).compression_factor(
        compression_factor,
    ).path(path).open()
}

/// Relies on sled::Db::open_tree: opens, creating it if absent, the tree of
/// that name.
#[verifier::external_body]
pub(crate) fn open_tree(db: &sled::Db, name: &str) -> (r: Result<sled::Tree, sled::Error>)
    ensures
        r matches Ok(t) ==> tree_origin(t) == (db_settings(*db), name@),
{
    db.open_tree(name)
}

/// Relies on sled::Tree::insert: sets `key` to `value` and returns the value
/// it replaced.
#[verifier::external_body]
pub(crate) fn tree_insert(tree: &mut sled::Tree, key: &[u8], value: Vec<u8>) -> (r: Result<
    Option<Vec<u8>>,
    sled::Error,
>)
    ensures
        r matches Ok(prev) ==> {
            &&& bytes_of(prev) == lookup(tree_contents(*old(tree)), key@)
            &&& tree_contents(*final(tree)) == tree_contents(*old(tree)).insert(key@, value@)
        },
        tree_origin(*final(tree)) == tree_origin(*old(tree)),
{
    tree.insert(key, value).map(|prev| prev.map(|v| v.to_vec()))
}

/// Relies on sled::Tree::get: the value stored under `key`, if any.
#[verifier::external_body]
pub(crate) fn tree_get(tree: &sled::Tree, key: &[u8]) -> (r: Result<Option<Vec<u8>>, sled::Error>)
    ensures
        r matches Ok(v) ==> bytes_of(v) == lookup(tree_contents(*tree), key@),
{
    tree.get(key).map(|v| v.map(|v| v.to_vec()))
}

/// Relies on sled::Tree::remove: deletes `key` and returns the value it held.
#[verifier::external_body]
pub(crate) fn tree_remove(tree: &mut sled::Tree, key: &[u8]) -> (r: Result<
    Option<Vec<u8>>,
    sled::Error,
>)
    ensures
        r matches Ok(prev) ==> {
            &&& bytes_of(prev) == lookup(tree_contents(*old(tree)), key@)
            &&& tree_contents(*final(tree)) == tree_contents(*old(tree)).remove(key@)
        },
        tree_origin(*final(tree)) == tree_origin(*old(tree)),
{
    tree.remove(key).map(|prev| prev.map(|v| v.to_vec()))
}

/// Relies on sled::Tree::contains_key: whether a value is stored under `key`.
#[verifier::external_body]
pub(crate) fn tree_contains_key(tree: &sled::Tree, key: &[u8]) -> (r: Result<bool, sled::Error>)
    ensures
        r matches Ok(b) ==> b == tree_contents(*tree).dom().contains(key@),
{
    tree.contains_key(key)
}

} // verus!
