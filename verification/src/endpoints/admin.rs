//! The endpoints of administrators.

use crate::endpoints::{reply_of, write_reply, Reply, OK_JSON};
use vstd::prelude::*;

verus! {

/// The reply to a request that creates a class.
pub fn create_class(created: bool) -> (r: Reply)
    ensures
        r@ == if created {
            reply_of(200, OK_JSON)
        } else {
            reply_of(500, "Internal Error.")
        },
{
    write_reply(created)
}

} // verus!
