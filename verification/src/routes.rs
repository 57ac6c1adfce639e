//! Route-dispatch decisions: the content-type gate of the `/set` endpoint
//! and the acceptance of a whole upload. The HTTP server binds methods and
//! paths and reads the transport; every accept-or-reject decision is taken
//! here.

use vstd::prelude::*;
use vstd::string::StrSliceExecFns;
use vstd::string::StringExecFns;

use crate::errors::GatewayError;
use crate::multipart::IngestEvent;
use crate::multipart::StepModel;
use crate::multipart::UploadIntent;
use crate::multipart::events_view;
use crate::multipart::ingest;
use crate::multipart::spec_init;
use crate::multipart::spec_run;
use crate::multipart::wf_intent;

verus! {

/// The content type the `/set` endpoint requires: `multipart/form-data`,
/// possibly followed by parameters such as the boundary.
pub open spec fn is_multipart_content_type(ct: Seq<char>) -> bool {
    &&& ct.len() >= "multipart/form-data"@.len()
    &&& ct.subrange(0, "multipart/form-data"@.len() as int) == "multipart/form-data"@
}

/// Whether a `Content-Type` header value announces a multipart form: it must
/// start with `multipart/form-data`.
pub fn content_type_is_multipart(ct: &str) -> (r: bool)
    ensures
        r == is_multipart_content_type(ct@),
{
    let p: &str = "multipart/form-data";
    let plen = p.unicode_len();
    let clen = ct.unicode_len();
    if clen < plen {
        return false;
    }
    let mut i: usize = 0;
    while i < plen
        invariant
            i <= plen,
            p@ == "multipart/form-data"@,
            plen as nat == p@.len(),
            p@.len() <= ct@.len(),
            forall|j: int| 0 <= j < i ==> ct@[j] == p@[j],
        decreases plen - i,
    {
        if ct.get_char(i) != p.get_char(i) {
            proof {
                assert(p@ == "multipart/form-data"@);
                if is_multipart_content_type(ct@) {
                    assert(ct@.subrange(0, p@.len() as int) == p@);
                    assert(ct@.subrange(0, p@.len() as int)[i as int] == ct@[i as int]);
                    assert(false);
                }
            }
            return false;
        }
        i = i + 1;
    }
    proof {
        assert(ct@.subrange(0, p@.len() as int) =~= p@);
    }
    true
}

/// Accept or reject one `/set` request: any content type other than a
/// multipart form is rejected outright as a client fault with the message
/// `Invalid Content-Type`; a multipart body is ingested and yields either a
/// validated upload intent or the ingestion failure.
pub fn accept_set_request(content_type: &str, events: Vec<IngestEvent>) -> (r: Result<
    UploadIntent,
    GatewayError,
>)
    ensures
        !is_multipart_content_type(content_type@) ==> (r matches Err(e) && e.is_bad_request()
            && e.spec_message() == "Invalid Content-Type"@),
        is_multipart_content_type(content_type@) ==> match spec_run(
            spec_init(),
            events_view(events@),
        ) {
            StepModel::Complete(u) => r matches Ok(intent) && intent@ == u && wf_intent(u),
            StepModel::Failed(msg) => r matches Err(e) && e.is_bad_request() && e.spec_message()
                == msg,
            StepModel::Reading(_) => r matches Err(e) && e.is_bad_request(),
        },
{
    if !content_type_is_multipart(content_type) {
        return Err(GatewayError::BadRequest(String::from_str("Invalid Content-Type")));
    }
    ingest(events)
}

} // verus!
