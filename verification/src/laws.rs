//! Laws of the interceptor's attachment step, stated over the request model:
//! what one pass of the interceptor does to the header list and to the typed
//! state slot, and how the two read paths agree.

use vstd::prelude::*;

use crate::generator::valid_request_id;
use crate::request::{spec_attach, RequestView, REQUEST_ID_HEADER};

verus! {

/// How many header entries of `headers` carry the name `name`.
pub open spec fn count_named(headers: Seq<(Seq<char>, Seq<char>)>, name: Seq<char>) -> nat
    decreases headers.len(),
{
    if headers.len() == 0 {
        0
    } else {
        (if headers.last().0 == name {
            1nat
        } else {
            0nat
        }) + count_named(headers.drop_last(), name)
    }
}

/// Law: one pass of the interceptor appends exactly one header entry named
/// `x-request-id` — the count of entries with that name grows by exactly one,
/// every entry the request already carried is kept in place, and the appended
/// entry is the last one and carries the identifier, a well-formed value of
/// ten ASCII letters and digits.
pub proof fn lemma_one_header_appended(req: RequestView, id: Seq<char>)
    requires
        valid_request_id(id),
    ensures
        spec_attach(req, id).headers.len() == req.headers.len() + 1,
        count_named(spec_attach(req, id).headers, REQUEST_ID_HEADER@) == count_named(
            req.headers,
            REQUEST_ID_HEADER@,
        ) + 1,
        forall|i: int|
            0 <= i < req.headers.len() ==> spec_attach(req, id).headers[i] == req.headers[i],
        spec_attach(req, id).headers.last() == (REQUEST_ID_HEADER@, id),
        valid_request_id(spec_attach(req, id).headers.last().1),
{
    let attached = spec_attach(req, id).headers;
    assert(attached.last() == (REQUEST_ID_HEADER@, id));
    assert(attached.drop_last() =~= req.headers);
}

/// Law: on a request the interceptor has processed, the typed state slot and
/// the appended header entry carry the same identifier, so the accessor and
/// the header are two read paths fed by the same write.
pub proof fn lemma_accessor_matches_header(req: RequestView, id: Seq<char>)
    ensures
        spec_attach(req, id).request_id == Some(id),
        spec_attach(req, id).headers.last().1 == id,
        spec_attach(req, id).headers.last().0 == REQUEST_ID_HEADER@,
{
}

} // verus!
