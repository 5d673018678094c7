//! What an operation in progress needs from the file system before it can go on.
//!
//! An operation never calls the file system itself. It says by a [`Pending`] value which call
//! comes next, and takes the reply of that call to move on. Whoever drives it makes the calls, one
//! at a time and in the order in which they are asked for.
use crate::nfs::fileid3;
use crate::user::UserContext;
use vstd::prelude::*;

verus! {

/// The arguments of the call that gets the attributes of `id` on behalf of `user_ctx`.
#[derive(Clone, Copy, Debug, PartialEq, Eq)]
pub struct AttrCall<'a> {
    pub id: fileid3,
    pub user_ctx: &'a UserContext,
}

/// The next step of an operation whose own call has the arguments `C`.
#[derive(Debug, PartialEq, Eq)]
pub enum Pending<'a, C> {
    /// Ask for the attributes of a file.
    GetAttr(AttrCall<'a>),
    /// Make the operation's own call.
    Perform(C),
    /// Nothing is left to do: the result is there.
    Finished,
}

impl<'a, C> Pending<'a, C> {
    /// Whether the next step is to ask for the attributes of `id` on behalf of `user_ctx`.
    pub open spec fn asks_attr(self, id: fileid3, user_ctx: &'a UserContext) -> bool {
        self is GetAttr && self->GetAttr_0 == AttrCall { id, user_ctx }
    }
}

/// To ask for the attributes of a file on behalf of a user is to make that very call.
pub proof fn asks_for_that_file<'a, C>(
    next: Pending<'a, C>,
    id: fileid3,
    user_ctx: &'a UserContext,
)
    ensures
        next.asks_attr(id, user_ctx) <==> {
            &&& next matches Pending::GetAttr(call)
            &&& call.id == id
            &&& call.user_ctx == user_ctx
        },
{
}

} // verus!
