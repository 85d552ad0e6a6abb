use vstd::prelude::*;

use crate::reply::Reply;

verus! {

/// Not served yet: always 404 with no body.
pub fn handle_get() -> (reply: Reply)
    ensures
        reply.status == 404,
        reply.body is Empty,
{
    Reply::empty_404()
}

/// Not served yet: always 404 with no body.
pub fn handle_post() -> (reply: Reply)
    ensures
        reply.status == 404,
        reply.body is Empty,
{
    Reply::empty_404()
}

} // verus!
