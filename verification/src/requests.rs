//! The request shapes the endpoints work with, and how a finished upload
//! intent becomes a `/set` request.

use vstd::prelude::*;
use vstd::string::StringExecFns;

use crate::address::Address;
use crate::multipart::UploadIntent;
use crate::multipart::opt_string_view;

verus! {

/// What every request carries: the object key it concerns.
pub struct BaseRequest {
    /// The key to get or set.
    pub key: String,
}

/// Get request (essentially, equivalent to [`BaseRequest`]).
pub struct GetRequest {
    pub base: BaseRequest,
}

impl GetRequest {
    /// The key the request concerns.
    pub fn key(&self) -> (k: &String)
        ensures
            k@ == self.base.key@,
    {
        &self.base.key
    }
}

/// The value to set at a key: the declared filename (empty when the upload
/// declared none) and the raw content.
pub struct FileData {
    pub filename: String,
    pub content: Vec<u8>,
}

/// Set request (a [`BaseRequest`] plus the requesting address and the value).
pub struct SetRequest {
    pub base: BaseRequest,
    /// The address of the account making the request.
    pub address: Address,
    /// The value to set at the given key (string or file).
    pub value: FileData,
}

impl SetRequest {
    /// The key the request concerns.
    pub fn key(&self) -> (k: &String)
        ensures
            k@ == self.base.key@,
    {
        &self.base.key
    }
}

/// The filename a finished upload declares on the wire: the declared one, or
/// empty when none was declared.
pub open spec fn wire_filename(o: Option<Seq<char>>) -> Seq<char> {
    match o {
        Some(f) => f,
        None => Seq::<char>::empty(),
    }
}

/// Turn a finished upload intent into the `/set` request the submission path
/// consumes: every field carried over, an absent filename becoming empty.
pub fn set_request_from_intent(intent: UploadIntent) -> (r: SetRequest)
    ensures
        r.base.key@ == intent.key@,
        r.address@ == intent.address@,
        r.value.filename@ == wire_filename(opt_string_view(intent.filename)),
        r.value.content@ == intent.payload@,
{
    let UploadIntent { address, key, filename, payload } = intent;
    let filename = match filename {
        Some(f) => f,
        None => String::new(),
    };
    SetRequest {
        base: BaseRequest { key },
        address,
        value: FileData { filename, content: payload },
    }
}

} // verus!
