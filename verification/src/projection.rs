//! List-result projection: maps the storage layer's raw listing — keys and
//! common prefixes as raw bytes, content identifiers in binary form — to the
//! stable wire shape, without ever failing: user-chosen keys are decoded
//! lossily so they are always displayable, and a malformed stored content
//! identifier projects to the empty sentinel text rather than failing the
//! whole listing.

use vstd::prelude::*;

use crate::text::lossy_decoded;
use crate::text::lossy_utf8_to_string;

verus! {

/// One object as the store returns it: the raw key bytes, the binary content
/// identifier, and its metadata.
pub struct ObjectRecord {
    pub key: Vec<u8>,
    pub cid_bytes: Vec<u8>,
    pub resolved: bool,
    pub size: u64,
    pub metadata: Vec<(String, String)>,
}

/// A listing as the store returns it. The core only projects it; it never
/// mutates it, and imposes no order of its own.
pub struct ListResult {
    pub objects: Vec<ObjectRecord>,
    pub common_prefixes: Vec<Vec<u8>>,
}

/// One object in the wire shape: decoded key, canonical content-identifier
/// text, the rest passed through unchanged.
pub struct ProjectedObject {
    pub key: String,
    pub cid: String,
    pub resolved: bool,
    pub size: u64,
    pub metadata: Vec<(String, String)>,
}

/// A listing in the wire shape.
pub struct ProjectedList {
    pub objects: Vec<ProjectedObject>,
    pub common_prefixes: Vec<String>,
}

/// What `cid::Cid::try_from` followed by its canonical text rendering
/// returns: a function of the binary form alone; absent when the bytes are
/// not a valid binary content identifier.
pub uninterp spec fn cid_text_of(bytes: Seq<u8>) -> Option<Seq<char>>;

/// Relies on `cid::Cid::try_from(&[u8])` and the `Display` impl of
/// `cid::Cid`: whether the bytes parse, and the canonical multibase text of
/// the parsed identifier, depend on the bytes alone.
#[verifier::external_body]
fn cid_to_text(bytes: &[u8]) -> (r: Option<String>)
    ensures
        r is Some <==> cid_text_of(bytes@) is Some,
        r matches Some(s) ==> cid_text_of(bytes@) == Some(s@),
{
    match cid::Cid::try_from(bytes) {
        Ok(c) => Some(c.to_string()),
        Err(_) => None,
    }
}

/// The canonical text a stored binary content identifier projects to: its
/// canonical form, or the empty sentinel when the stored bytes are
/// malformed.
pub open spec fn cid_text_or_empty(bytes: Seq<u8>) -> Seq<char> {
    match cid_text_of(bytes) {
        Some(t) => t,
        None => Seq::empty(),
    }
}

/// How one projected object relates to the stored record it came from: the
/// key decoded lossily, the content identifier in canonical text (or the
/// empty sentinel), and `resolved`, `size` and `metadata` passed through
/// unchanged.
pub open spec fn object_projected(src: ObjectRecord, dst: ProjectedObject) -> bool {
    &&& dst.key@ == lossy_decoded(src.key@)
    &&& dst.cid@ == cid_text_or_empty(src.cid_bytes@)
    &&& dst.resolved == src.resolved
    &&& dst.size == src.size
    &&& dst.metadata == src.metadata
}

/// Project one stored record to the wire shape.
pub fn project_object(src: ObjectRecord) -> (dst: ProjectedObject)
    ensures
        object_projected(src, dst),
{
    let ObjectRecord { key, cid_bytes, resolved, size, metadata } = src;
    let key_text = lossy_utf8_to_string(key.as_slice());
    let cid_text = match cid_to_text(cid_bytes.as_slice()) {
        Some(t) => t,
        None => String::new(),
    };
    ProjectedObject { key: key_text, cid: cid_text, resolved, size, metadata }
}

/// Project a whole listing: one projected object per stored object, in the
/// store's order, and one decoded common prefix per stored one, in order.
/// Projection is total — it never fails, whatever bytes the store returns.
#[verifier::loop_isolation(false)]
pub fn project_list_result(r: ListResult) -> (p: ProjectedList)
    ensures
        p.objects@.len() == r.objects@.len(),
        forall|i: int|
            0 <= i < r.objects@.len() ==> object_projected(r.objects@[i], #[trigger] p.objects@[i]),
        p.common_prefixes@.len() == r.common_prefixes@.len(),
        forall|i: int|
            0 <= i < r.common_prefixes@.len() ==> (#[trigger] p.common_prefixes@[i])@
                == lossy_decoded(r.common_prefixes@[i]@),
{
    let ListResult { objects, common_prefixes } = r;
    let ghost all_objects = objects@;
    let ghost all_prefixes = common_prefixes@;

    let mut objects = objects;
    let mut out_objects: Vec<ProjectedObject> = Vec::new();
    while objects.len() > 0
        invariant
            out_objects@.len() + objects@.len() == all_objects.len(),
            objects@ == all_objects.subrange(out_objects@.len() as int, all_objects.len() as int),
            forall|i: int|
                0 <= i < out_objects@.len() ==> object_projected(
                    all_objects[i],
                    #[trigger] out_objects@[i],
                ),
        decreases objects@.len(),
    {
        let ghost done: int = out_objects@.len() as int;
        let src = objects.remove(0);
        proof {
            assert(src == all_objects[done]);
            assert(objects@ =~= all_objects.subrange(done + 1, all_objects.len() as int));
        }
        let dst = project_object(src);
        out_objects.push(dst);
    }

    let mut common_prefixes = common_prefixes;
    let mut out_prefixes: Vec<String> = Vec::new();
    while common_prefixes.len() > 0
        invariant
            out_prefixes@.len() + common_prefixes@.len() == all_prefixes.len(),
            common_prefixes@ == all_prefixes.subrange(
                out_prefixes@.len() as int,
                all_prefixes.len() as int,
            ),
            forall|i: int|
                0 <= i < out_prefixes@.len() ==> (#[trigger] out_prefixes@[i])@ == lossy_decoded(
                    all_prefixes[i]@,
                ),
        decreases common_prefixes@.len(),
    {
        let ghost done: int = out_prefixes@.len() as int;
        let raw = common_prefixes.remove(0);
        proof {
            assert(raw == all_prefixes[done]);
            assert(common_prefixes@ =~= all_prefixes.subrange(done + 1, all_prefixes.len() as int));
        }
        let text = lossy_utf8_to_string(raw.as_slice());
        out_prefixes.push(text);
    }

    ProjectedList { objects: out_objects, common_prefixes: out_prefixes }
}

} // verus!
