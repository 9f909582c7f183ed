use crate::codec::{brotli_decoded, decode, encode, encoded, CodecError};
use crate::digest::{digest, hash};
use crate::op::Operation;
use vstd::prelude::*;

verus! {

/// Why the task of one candidate failed.
#[derive(Clone, Debug, PartialEq, Eq)]
pub enum TaskError {
    /// The existing sidecar is not a valid Brotli stream.
    Decode(CodecError),
    /// The encoder failed on the source. The encoder used here does not fail
    /// on bytes in memory, so `process` never returns this.
    Encode(CodecError),
}

/// What the task of one candidate decided, and the bytes it produced.
pub struct Outcome {
    /// The classification, which is also what is reported.
    pub operation: Operation,
    /// The new sidecar bytes, for `Create` and `Update`.
    pub encoded: Option<Vec<u8>>,
    /// Whether `encoded` is to be written next to the source; false in a
    /// dry run, where the bytes are produced and then dropped.
    pub persist: bool,
}

/// The bytes behind an optional slice.
pub open spec fn bytes_of(b: Option<&[u8]>) -> Option<Seq<u8>> {
    match b {
        Some(s) => Some(s@),
        None => None,
    }
}

/// The classification of a source against what an existing sidecar decodes
/// to: `Noop` when both the lengths and the digests agree.
pub open spec fn compare_spec(source: Seq<u8>, decoded: Seq<u8>) -> Operation {
    if source.len() == decoded.len() && digest(source) == digest(decoded) {
        Operation::Noop
    } else {
        Operation::Update
    }
}

/// The classification of a source given the bytes of its sidecar, if one
/// exists; `None` where the sidecar must be decoded and is no Brotli stream.
pub open spec fn classification(source: Seq<u8>, sidecar: Option<Seq<u8>>, force: bool) -> Option<Operation> {
    match sidecar {
        None => Some(Operation::Create),
        Some(c) => if force {
            Some(Operation::Update)
        } else {
            match brotli_decoded(c) {
                Some(d) => Some(compare_spec(source, d)),
                None => None,
            }
        },
    }
}

/// Whether a task with operation `op` writes its sidecar.
pub open spec fn persists(op: Operation, dry_run: bool) -> bool {
    op.encodes() && !dry_run
}

/// The name of the sidecar of a file named `filename`.
pub fn sidecar_name(filename: &str) -> (r: String)
    ensures
        r@ == filename@ + ".br"@,
{
    let mut r = String::from_str(filename);
    r.append(".br");
    r
}

/// Compares a source with what its existing sidecar decodes to.
pub fn compare(source: &[u8], decoded: &[u8]) -> (r: Operation)
    ensures
        r == compare_spec(source@, decoded@),
{
    if decoded.len() == source.len() && hash(source) == hash(decoded) {
        Operation::Noop
    } else {
        Operation::Update
    }
}

/// Classifies a source against its existing sidecar, if any. Without
/// `force`, an existing sidecar is decoded, and one that does not decode
/// fails the task.
pub fn classify(source: &[u8], sidecar: Option<&[u8]>, force: bool) -> (r: Result<Operation, TaskError>)
    ensures
        r is Ok <==> classification(source@, bytes_of(sidecar), force) is Some,
        r matches Ok(op) ==> classification(source@, bytes_of(sidecar), force) == Some(op),
        r matches Err(e) ==> e is Decode,
{
    match sidecar {
        None => Ok(Operation::Create),
        Some(compressed) => {
            if force {
                Ok(Operation::Update)
            } else {
                match decode(compressed) {
                    Ok(decoded) => Ok(compare(source, decoded.as_slice())),
                    Err(e) => Err(TaskError::Decode(e)),
                }
            }
        },
    }
}

/// The whole decision of one task: classify, then encode unless `Noop`.
/// The sidecar is to be written only outside a dry run, but the encoding
/// is produced either way.
pub fn process(source: &[u8], sidecar: Option<&[u8]>, force: bool, dry_run: bool) -> (r: Result<Outcome, TaskError>)
    ensures
        r is Ok <==> classification(source@, bytes_of(sidecar), force) is Some,
        r matches Err(e) ==> e is Decode,
        r matches Ok(o) ==> classification(source@, bytes_of(sidecar), force) == Some(o.operation),
        r matches Ok(o) ==> o.persist == persists(o.operation, dry_run),
        r matches Ok(o) ==> (o.encoded is Some <==> o.operation.encodes()),
        r matches Ok(o) ==> (o.encoded matches Some(c) ==> c@ == encoded(source@)),
        r matches Ok(o) ==> (o.encoded matches Some(c) ==> brotli_decoded(c@) == Some(source@)),
{
    let operation = match classify(source, sidecar, force) {
        Ok(op) => op,
        Err(e) => return Err(e),
    };
    if operation == Operation::Noop {
        return Ok(Outcome { operation, encoded: None, persist: false });
    }
    match encode(source) {
        Ok(c) => Ok(Outcome { operation, encoded: Some(c), persist: !dry_run }),
        Err(e) => Err(TaskError::Encode(e)),
    }
}

/// Running again on an unchanged tree does nothing: a sidecar that decodes
/// to its source, as every sidecar that `process` produces does, is
/// classified `Noop` without `force`, and is therefore not rewritten.
pub proof fn lemma_rerun_is_noop(source: Seq<u8>, sidecar: Seq<u8>, dry_run: bool)
    requires
        brotli_decoded(sidecar) == Some(source),
    ensures
        classification(source, Some(sidecar), false) == Some(Operation::Noop),
        !persists(Operation::Noop, dry_run),
{
}

/// With `force`, a source whose sidecar exists is classified `Update`,
/// whatever the sidecar holds.
pub proof fn lemma_force_updates(source: Seq<u8>, sidecar: Seq<u8>)
    ensures
        classification(source, Some(sidecar), true) == Some(Operation::Update),
{
}

/// A dry run classifies, and so reports, as a real run does (the
/// classification does not depend on it), and writes nothing; a real run
/// writes exactly what it encodes.
pub proof fn lemma_dry_run_writes_nothing(source: Seq<u8>, sidecar: Option<Seq<u8>>, force: bool)
    ensures
        classification(source, sidecar, force) matches Some(op) ==> !persists(op, true)
            && persists(op, false) == op.encodes(),
{
}

} // verus!
