//! The user on whose behalf a request is served.
use crate::nfs::auth_unix;
use vstd::prelude::*;

verus! {

/// The user id, group id and supplementary group ids of a request.
#[derive(Debug, PartialEq, Eq)]
pub struct UserContext {
    _uid: u32,
    _gid: u32,
    _gids: Vec<u32>,
}

impl UserContext {
    /// The user id.
    pub closed spec fn uid(&self) -> u32 {
        self._uid
    }

    /// The primary group id.
    pub closed spec fn gid(&self) -> u32 {
        self._gid
    }

    /// The supplementary group ids.
    pub closed spec fn gids(&self) -> Seq<u32> {
        self._gids@
    }

    /// The context of the given user and groups.
    pub fn new(uid: u32, gid: u32, gids: Vec<u32>) -> (user_ctx: Self)
        ensures
            user_ctx.uid() == uid,
            user_ctx.gid() == gid,
            user_ctx.gids() == gids@,
    {
        UserContext { _uid: uid, _gid: gid, _gids: gids }
    }
}

impl Clone for UserContext {
    fn clone(&self) -> (copy: Self)
        ensures
            copy.uid() == self.uid(),
            copy.gid() == self.gid(),
            copy.gids() == self.gids(),
    {
        let copy = UserContext { _uid: self._uid, _gid: self._gid, _gids: self._gids.clone() };
        assert(copy.gids() =~= self.gids());
        copy
    }
}

impl Default for UserContext {
    fn default() -> (user_ctx: Self)
        ensures
            user_ctx.uid() == 0,
            user_ctx.gid() == 0,
            user_ctx.gids() == Seq::<u32>::empty(),
    {
        UserContext { _uid: 0, _gid: 0, _gids: Vec::new() }
    }
}

impl From<&auth_unix> for UserContext {
    /// The context of the user and groups that the credentials name.
    fn from(auth: &auth_unix) -> (user_ctx: Self)
        ensures
            user_ctx.uid() == auth.uid,
            user_ctx.gid() == auth.gid,
            user_ctx.gids() == auth.gids@,
    {
        let user_ctx = UserContext { _uid: auth.uid, _gid: auth.gid, _gids: auth.gids.clone() };
        assert(user_ctx.gids() =~= auth.gids@);
        user_ctx
    }
}

impl vstd::std_specs::convert::FromSpecImpl<&auth_unix> for UserContext {
    open spec fn obeys_from_spec() -> bool {
        false
    }

    open spec fn from_spec(auth: &auth_unix) -> Self {
        arbitrary()
    }
}

/// A context tells the user id, the group id and the supplementary group ids that it holds.
proof fn context_tells_what_it_holds(user_ctx: UserContext)
    ensures
        user_ctx.uid() == user_ctx._uid,
        user_ctx.gid() == user_ctx._gid,
        user_ctx.gids() == user_ctx._gids@,
{
}

} // verus!
