//! A model of a bucket's contents and of what the requests that the facade
//! sends do to it, and the laws that the facade's decisions keep over it.
use vstd::prelude::*;
use vstd::seq_lib::group_to_multiset_ensures;
use crate::listing::{keys_sorted, listed_keys, texts};
use crate::s3_facade::{copy_source_of, transform_outcome, MoveAction};
use crate::storage_facade::FacadeError;

verus! {

/// A bucket's contents: the bytes stored under each key.
pub type Objects = Map<Seq<char>, Seq<u8>>;

/// An upload of `body` to `key`: any earlier object there is replaced.
pub open spec fn put_object(s: Objects, key: Seq<char>, body: Seq<u8>) -> Objects {
    s.insert(key, body)
}

/// A delete of `key`; an absent key leaves the bucket as it was.
pub open spec fn delete_object(s: Objects, key: Seq<char>) -> Objects {
    s.remove(key)
}

/// Whether `source` is a copy-source reference into `bucket`.
pub open spec fn names_bucket(bucket: Seq<char>, source: Seq<char>) -> bool {
    source.len() > bucket.len() && source.subrange(0, bucket.len() + 1int) == bucket + seq!['/']
}

/// The key that a copy-source reference into `bucket` names.
pub open spec fn source_key(bucket: Seq<char>, source: Seq<char>) -> Seq<char> {
    source.subrange(bucket.len() + 1int, source.len() as int)
}

/// A server-side copy within `bucket` from the object that `source` names to
/// `key`; a source that names no object of the bucket changes nothing.
pub open spec fn copy_object(s: Objects, bucket: Seq<char>, source: Seq<char>, key: Seq<char>) -> Objects {
    let from = source_key(bucket, source);
    if names_bucket(bucket, source) && s.contains_key(from) {
        s.insert(key, s[from])
    } else {
        s
    }
}

/// Whether a metadata probe of `key` succeeds.
pub open spec fn head_succeeds(s: Objects, key: Seq<char>) -> bool {
    s.contains_key(key)
}

/// The keys of the bucket that start with `prefix`.
pub open spec fn keys_under(s: Objects, prefix: Seq<char>) -> Set<Seq<char>> {
    s.dom().filter(|k: Seq<char>| prefix.is_prefix_of(k))
}

/// A copy-source reference built for `key` names `key` again.
pub proof fn lemma_copy_source_names_key(bucket: Seq<char>, key: Seq<char>)
    ensures
        names_bucket(bucket, copy_source_of(bucket, key)),
        source_key(bucket, copy_source_of(bucket, key)) == key,
{
    let src = copy_source_of(bucket, key);
    assert(src.subrange(0, bucket.len() + 1int) =~= bucket + seq!['/']);
    assert(source_key(bucket, src) =~= key);
}

/// Writing bytes without a transform and reading them back without one gives
/// the same bytes.
pub proof fn lemma_write_read_round_trip<F: Fn(&[u8]) -> Result<Vec<u8>, String>>(
    s: Objects,
    key: Seq<char>,
    data: &[u8],
    payload: Result<Vec<u8>, FacadeError>,
    raw: &[u8],
    read: Result<Vec<u8>, FacadeError>,
)
    requires
        transform_outcome(None::<F>, data, payload),
        payload is Ok ==> raw@ == put_object(s, key, payload->Ok_0@)[key],
        transform_outcome(None::<F>, raw, read),
    ensures
        read is Ok && read->Ok_0@ == data@,
{
}

/// With a decrypt function that undoes the encrypt function, data written
/// encrypted and read back decrypted is the data written; read without the
/// decrypt function it is what the encrypt function made of it.
pub proof fn lemma_encrypted_round_trip<E, D>(
    enc: E,
    dec: D,
    s: Objects,
    key: Seq<char>,
    data: &[u8],
    payload: Result<Vec<u8>, FacadeError>,
    raw: &[u8],
    read: Result<Vec<u8>, FacadeError>,
    plain: Result<Vec<u8>, FacadeError>,
) where
    E: Fn(&[u8]) -> Result<Vec<u8>, String>,
    D: Fn(&[u8]) -> Result<Vec<u8>, String>,

    requires
        forall|x: &[u8], y: Vec<u8>, z: &[u8], w: Result<Vec<u8>, String>|
            #![trigger enc.ensures((x,), Ok::<Vec<u8>, String>(y)), dec.ensures((z,), w)]
            enc.ensures((x,), Ok::<Vec<u8>, String>(y)) && z@ == y@ && dec.ensures((z,), w)
                ==> w is Ok && w->Ok_0@ == x@,
        transform_outcome(Some(enc), data, payload),
        payload is Ok,
        raw@ == put_object(s, key, payload->Ok_0@)[key],
        transform_outcome(Some(dec), raw, read),
        transform_outcome(None::<D>, raw, plain),
    ensures
        read is Ok && read->Ok_0@ == data@,
        plain is Ok && plain->Ok_0@ == payload->Ok_0@,
{
    let out = choose|out: Result<Vec<u8>, String>|
        #[trigger] enc.ensures((data,), out) && match out {
            Ok(v) => payload is Ok && payload->Ok_0@ == v@,
            Err(m) => payload == Err::<Vec<u8>, FacadeError>(FacadeError::Transform(m)),
        };
    let y = out->Ok_0;
    let back = choose|back: Result<Vec<u8>, String>|
        #[trigger] dec.ensures((raw,), back) && match back {
            Ok(v) => read is Ok && read->Ok_0@ == v@,
            Err(m) => read == Err::<Vec<u8>, FacadeError>(FacadeError::Transform(m)),
        };
    assert(enc.ensures((data,), Ok::<Vec<u8>, String>(y)));
    assert(raw@ == y@);
    assert(dec.ensures((raw,), back));
}

/// Before any write of `key` its probe fails, right after a write it
/// succeeds, and right after a delete it fails again.
pub proof fn lemma_existence_lifecycle(s: Objects, key: Seq<char>, body: Seq<u8>)
    requires
        !s.contains_key(key),
    ensures
        !head_succeeds(s, key),
        head_succeeds(put_object(s, key, body), key),
        !head_succeeds(delete_object(put_object(s, key, body), key), key),
{
}

/// When the pages hold each key under the prefix exactly once, the listing
/// holds exactly the keys under the prefix, each once, in ascending order, in
/// whatever order the pages gave them.
pub proof fn lemma_listing_complete(
    s: Objects,
    prefix: Seq<char>,
    pages: Seq<Vec<Option<String>>>,
    listing: Seq<String>,
)
    requires
        listed_keys(pages).no_duplicates(),
        listed_keys(pages).to_set() == keys_under(s, prefix),
        keys_sorted(texts(listing)),
        texts(listing).to_multiset() == listed_keys(pages).to_multiset(),
    ensures
        texts(listing).to_set() == keys_under(s, prefix),
        texts(listing).no_duplicates(),
        keys_sorted(texts(listing)),
{
    broadcast use group_to_multiset_ensures;
    let l = listed_keys(pages);
    let t = texts(listing);
    assert forall|k: Seq<char>| t.contains(k) <==> l.contains(k) by {
        assert(t.contains(k) <==> t.to_multiset().count(k) > 0);
        assert(l.contains(k) <==> l.to_multiset().count(k) > 0);
    }
    assert(t.to_set() =~= l.to_set());
    l.lemma_multiset_has_no_duplicates();
    t.lemma_multiset_has_no_duplicates_conv();
}

/// After a move of an existing object to another key, carried out as the
/// actions of `move_step` ask (the copy, then the delete), the source is gone
/// and the destination holds what the source held.
pub proof fn lemma_move_semantics(
    s: Objects,
    bucket: &str,
    from: &str,
    to: &str,
    copy: MoveAction,
    delete: MoveAction,
)
    requires
        s.contains_key(from@),
        from@ != to@,
        copy matches MoveAction::Copy { source, key } && source@ == copy_source_of(bucket@, from@)
            && key@ == to@,
        delete matches MoveAction::Delete { key } && key@ == from@,
    ensures
        ({
            let copied = copy_object(s, bucket@, copy->Copy_source@, copy->Copy_key@);
            let moved = delete_object(copied, delete->Delete_key@);
            &&& !head_succeeds(moved, from@)
            &&& head_succeeds(moved, to@)
            &&& moved[to@] == s[from@]
        }),
{
    lemma_copy_source_names_key(bucket@, from@);
}

/// After a copy of an existing object both keys exist and hold the same bytes.
pub proof fn lemma_copy_semantics(s: Objects, bucket: Seq<char>, from: Seq<char>, to: Seq<char>)
    requires
        s.contains_key(from),
    ensures
        ({
            let copied = copy_object(s, bucket, copy_source_of(bucket, from), to);
            &&& head_succeeds(copied, from)
            &&& head_succeeds(copied, to)
            &&& copied[from] == copied[to]
            &&& copied[to] == s[from]
        }),
{
    lemma_copy_source_names_key(bucket, from);
}

/// Deleting an absent key, once or twice, leaves the bucket as it was.
pub proof fn lemma_delete_idempotent(s: Objects, key: Seq<char>)
    requires
        !s.contains_key(key),
    ensures
        delete_object(s, key) == s,
        delete_object(delete_object(s, key), key) == s,
{
    assert(delete_object(s, key) =~= s);
}

} // verus!
