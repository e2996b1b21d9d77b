//! Decision logic of the S3 facade: everything the facade decides or computes
//! between the requests that it sends to a bucket.
use vstd::prelude::*;
use crate::storage_facade::{DataStoreId, FacadeError, StoreMetadata};

verus! {

/// The prefix of every S3 bucket ARN; the bucket name follows it.
pub open spec fn arn_prefix() -> Seq<char> {
    seq!['a', 'r', 'n', ':', 'a', 'w', 's', ':', 's', '3', ':', ':', ':']
}

/// The ARN synthesised for a bucket whose probe did not report one.
pub open spec fn synthesized_arn(name: Seq<char>) -> Seq<char> {
    arn_prefix() + name
}

/// The ARN of a bucket: the one the backend reported, else one built from its name.
pub fn resolve_arn(name: &str, reported: Option<String>) -> (r: String)
    ensures
        match reported {
            Some(arn) => r@ == arn@,
            None => r@ == synthesized_arn(name@),
        },
{
    match reported {
        Some(arn) => arn,
        None => {
            let prefix = String::from_str("arn:aws:s3:::");
            proof { reveal_strlit("arn:aws:s3:::"); }
            prefix.concat(name)
        },
    }
}


/// What applying an optional transform to `data` may give: `data` itself when
/// there is no transform, otherwise what the transform returned, its failure
/// reported as a `Transform` error.
pub open spec fn transform_outcome<F: Fn(&[u8]) -> Result<Vec<u8>, String>>(
    transform: Option<F>,
    data: &[u8],
    r: Result<Vec<u8>, FacadeError>,
) -> bool {
    match transform {
        None => r is Ok && r->Ok_0@ == data@,
        Some(f) => exists|out: Result<Vec<u8>, String>|
            #[trigger] f.ensures((data,), out) && match out {
                Ok(v) => r is Ok && r->Ok_0@ == v@,
                Err(m) => r == Err::<Vec<u8>, FacadeError>(FacadeError::Transform(m)),
            },
    }
}

/// Runs the optional transform once over `data`, which it never changes, and
/// returns the bytes that are to be stored or handed back.
pub fn apply_transform<F: Fn(&[u8]) -> Result<Vec<u8>, String>>(
    data: &[u8],
    transform: Option<F>,
) -> (r: Result<Vec<u8>, FacadeError>)
    requires
        transform matches Some(f) ==> f.requires((data,)),
    ensures
        transform_outcome(transform, data, r),
{
    match transform {
        None => Ok(vstd::slice::slice_to_vec(data)),
        Some(f) => {
            let out = f(data);
            match out {
                Ok(v) => Ok(v),
                Err(m) => Err(FacadeError::Transform(m)),
            }
        },
    }
}


/// The copy-source reference of object `key` in bucket `bucket`: `{bucket}/{key}`.
pub open spec fn copy_source_of(bucket: Seq<char>, key: Seq<char>) -> Seq<char> {
    bucket + seq!['/'] + key
}

/// Builds the copy-source reference that a server-side copy names.
pub fn copy_source(bucket: &str, from: &str) -> (r: String)
    ensures
        r@ == copy_source_of(bucket@, from@),
{
    let with_slash = String::from_str(bucket).concat("/");
    proof { reveal_strlit("/"); }
    with_slash.concat(from)
}

/// Whether an object exists, judged from the outcome of a metadata probe:
/// any success means present, any failure means absent.
pub fn exists_from_probe<T>(probe: &Result<T, FacadeError>) -> (r: bool)
    ensures
        r == probe is Ok,
{
    match probe {
        Ok(_) => true,
        Err(_) => false,
    }
}

/// The metadata of a bucket facade, built from the outcome of the bucket
/// probe: `Ok` carries the ARN that the backend reported, if any, and `Err`
/// the cause of the failure.
///
/// A facade needs a name and a description; without either, or when the
/// probe failed, construction fails.
pub fn bucket_metadata(name: &str, description: &str, probe: Result<Option<String>, String>) -> (r:
    Result<StoreMetadata, FacadeError>)
    ensures
        r is Ok <==> (probe is Ok && name@.len() > 0 && description@.len() > 0),
        r matches Err(e) ==> e is Construction,
        r matches Ok(m) ==> {
            &&& m.wf()
            &&& m.name@ == name@
            &&& m.description@ == description@
            &&& m.id matches DataStoreId::S3(arn) && match probe {
                Ok(Some(reported)) => arn@ == reported@,
                _ => arn@ == synthesized_arn(name@),
            }
        },
{
    if name.unicode_len() == 0 {
        return Err(FacadeError::Construction(String::from_str("a store needs a name")));
    }
    if description.unicode_len() == 0 {
        return Err(FacadeError::Construction(String::from_str("a store needs a description")));
    }
    match probe {
        Err(cause) => Err(FacadeError::Construction(cause)),
        Ok(reported) => {
            let arn = resolve_arn(name, reported);
            Ok(StoreMetadata {
                id: DataStoreId::S3(arn),
                name: String::from_str(name),
                description: String::from_str(description),
            })
        },
    }
}

/// Where a move stands: not begun, the copy answered, or the delete answered.
pub enum MoveStage {
    Start,
    Copied(Result<(), FacadeError>),
    Deleted(Result<(), FacadeError>),
}

/// What a move asks for next.
pub enum MoveAction {
    /// Copy the object named by `source` (a copy-source reference) to `key`.
    Copy { source: String, key: String },
    /// Delete the object at `key`.
    Delete { key: String },
    /// The move is over, with this outcome.
    Finish(Result<(), FacadeError>),
}

/// One step of moving `from` to `to` in `bucket`: copy first, delete the source
/// only once the copy succeeded, and report the first failure unchanged,
/// without undoing a copy that succeeded.
pub fn move_step(bucket: &str, from: &str, to: &str, stage: MoveStage) -> (r: MoveAction)
    ensures
        match stage {
            MoveStage::Start => r matches MoveAction::Copy { source, key } && source@
                == copy_source_of(bucket@, from@) && key@ == to@,
            MoveStage::Copied(Ok(())) => r matches MoveAction::Delete { key } && key@ == from@,
            MoveStage::Copied(Err(e)) => r == MoveAction::Finish(Err(e)),
            MoveStage::Deleted(outcome) => r == MoveAction::Finish(outcome),
        },
{
    match stage {
        MoveStage::Start => MoveAction::Copy {
            source: copy_source(bucket, from),
            key: String::from_str(to),
        },
        MoveStage::Copied(Ok(())) => MoveAction::Delete { key: String::from_str(from) },
        MoveStage::Copied(Err(e)) => MoveAction::Finish(Err(e)),
        MoveStage::Deleted(outcome) => MoveAction::Finish(outcome),
    }
}

} // verus!
