//! The model of the per-request mutable state that the interceptor touches:
//! an ordered header list with append semantics, and the typed state slot
//! that carries the identifier to downstream handlers.

use vstd::prelude::*;

verus! {

/// The name of the header entry that carries the request identifier.
pub const REQUEST_ID_HEADER: &'static str = "x-request-id";

/// Request ID wrapper: the distinguishing type under which the interceptor
/// stores the identifier in the request's typed state slot, and which
/// downstream handlers extract.
pub struct RequestID(pub String);

impl View for RequestID {
    type V = Seq<char>;

    open spec fn view(&self) -> Seq<char> {
        self.0@
    }
}

/// A request, as far as this library observes it: the ordered list of header
/// entries (name, value), and the typed state slot for the identifier.
pub struct Request {
    pub headers: Vec<(String, String)>,
    pub request_id: Option<RequestID>,
}

/// The mathematical content of a request: header entries and the identifier
/// slot, as sequences of characters.
#[verifier::ext_equal]
pub ghost struct RequestView {
    pub headers: Seq<(Seq<char>, Seq<char>)>,
    pub request_id: Option<Seq<char>>,
}

impl View for Request {
    type V = RequestView;

    open spec fn view(&self) -> RequestView {
        RequestView {
            headers: self.headers@.map_values(|h: (String, String)| (h.0@, h.1@)),
            request_id: match self.request_id {
                Some(id) => Some(id@),
                None => None,
            },
        }
    }
}

/// What the interceptor does to a request when it attaches identifier `id`:
/// one header entry `(x-request-id, id)` is appended after all existing
/// entries, and the typed state slot is set to `id`.
pub open spec fn spec_attach(req: RequestView, id: Seq<char>) -> RequestView {
    RequestView {
        headers: req.headers.push((REQUEST_ID_HEADER@, id)),
        request_id: Some(id),
    }
}

/// The interceptor's attachment step: append the identifier as a header entry
/// (keeping any entries the request already carried, including ones with the
/// same name) and fill the typed state slot.
pub fn attach_request_id(req: &mut Request, id: RequestID)
    ensures
        final(req)@ == spec_attach(old(req)@, id@),
{
    let name = REQUEST_ID_HEADER.to_owned();
    let value = id.0.clone();
    req.headers.push((name, value));
    req.request_id = Some(id);
    proof {
        assert(req@.headers =~= spec_attach(old(req)@, id@).headers);
        assert(req@ =~= spec_attach(old(req)@, id@));
    }
}

/// The accessor's single error kind: the request never passed through the
/// interceptor, so no identifier is present.
#[derive(Debug, PartialEq, Eq, Structural)]
pub enum ExtractError {
    MissingRequestId,
}

impl ExtractError {
    /// The human-readable description of the error.
    pub fn message(&self) -> (m: String)
        ensures
            m@ == "request id is missing"@,
    {
        "request id is missing".to_owned()
    }
}

impl RequestID {
    /// Accessor: retrieve the identifier the interceptor stored on this
    /// request. Succeeds exactly when the typed state slot is filled, and
    /// returns a copy of the stored identifier; on a request the interceptor
    /// never saw, fails with the missing-identifier error.
    pub fn from_request(req: &Request) -> (r: Result<RequestID, ExtractError>)
        ensures
            match req.request_id {
                Some(id) => r matches Ok(got) && got@ == id@,
                None => r matches Err(e) && e == ExtractError::MissingRequestId,
            },
    {
        match &req.request_id {
            Some(id) => Ok(RequestID(id.0.clone())),
            None => Err(ExtractError::MissingRequestId),
        }
    }
}

} // verus!
