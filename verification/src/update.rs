//! Operations that change the entries of one directory: `create`, `create_exclusive`, `mkdir`,
//! `remove` and `symlink`.
use crate::attr::{post_attr, post_attr_of, pre_attr, pre_attr_of, AttrPolicy, AttrReply};
use crate::nfs::{
    fattr3, fileid3, filename3, nfspath3, nfsstat3, post_op_attr, pre_op_attr, sattr3,
    wcc_attr,
};
use crate::pending::{AttrCall, Pending};
use crate::user::UserContext;
use vstd::pervasive::unreached;
use vstd::prelude::*;

verus! {

/// How far an update has come.
#[derive(Debug, PartialEq, Eq)]
pub enum UpdatePhase<T> {
    /// The directory's attributes from before are awaited.
    PreAttr,
    /// The change itself is awaited.
    Perform,
    /// The directory's attributes from after are awaited.
    PostAttr(Result<T, nfsstat3>),
    /// The update has ended.
    Finished(Result<T, nfsstat3>),
}

/// An update in progress, with the directory attributes reported so far. Its own call has the
/// arguments `C` and returns a `T`.
#[derive(Debug, PartialEq, Eq)]
pub struct DirUpdate<'a, C, T> {
    pub dirid: fileid3,
    pub call: C,
    pub policy: AttrPolicy,
    pub user_ctx: &'a UserContext,
    pub pre_attr: pre_op_attr,
    pub post_attr: post_op_attr,
    pub phase: UpdatePhase<T>,
}

impl<'a, C, T> DirUpdate<'a, C, T> {
    /// Whether this is the update of `dirid` with the given parameters of which nothing has been
    /// done yet.
    pub open spec fn is_fresh(
        self,
        dirid: fileid3,
        call: C,
        policy: AttrPolicy,
        user_ctx: &'a UserContext,
        pre_attr: pre_op_attr,
        post_attr: post_op_attr,
    ) -> bool {
        self == DirUpdate {
            dirid,
            call,
            policy,
            user_ctx,
            pre_attr,
            post_attr,
            phase: UpdatePhase::<T>::PreAttr,
        }
    }

    /// The step that comes next.
    pub open spec fn awaiting(self) -> Pending<'a, C> {
        match self.phase {
            UpdatePhase::PreAttr | UpdatePhase::PostAttr(_) => Pending::GetAttr(
                AttrCall { id: self.dirid, user_ctx: self.user_ctx },
            ),
            UpdatePhase::Perform => Pending::Perform(self.call),
            UpdatePhase::Finished(_) => Pending::Finished,
        }
    }

    /// The operation once its request for attributes was answered by `reply`.
    pub open spec fn after_attr(self, reply: AttrReply) -> Self {
        match self.phase {
            UpdatePhase::PreAttr => if self.policy.refuses(reply) {
                DirUpdate { phase: UpdatePhase::Finished(Err(reply->Err_0)), ..self }
            } else {
                DirUpdate { pre_attr: pre_attr_of(reply), phase: UpdatePhase::Perform, ..self }
            },
            UpdatePhase::PostAttr(result) => DirUpdate {
                post_attr: post_attr_of(reply),
                phase: UpdatePhase::Finished(result),
                ..self
            },
            _ => self,
        }
    }

    /// The operation once the change itself has ended with `result`.
    pub open spec fn after_performed(self, result: Result<T, nfsstat3>) -> Self {
        DirUpdate { phase: UpdatePhase::PostAttr(result), ..self }
    }

    /// Makes an update of `dirid` of which nothing has been done yet.
    fn new(
        dirid: fileid3,
        call: C,
        policy: AttrPolicy,
        user_ctx: &'a UserContext,
        pre_attr: pre_op_attr,
        post_attr: post_op_attr,
    ) -> (op: Self)
        ensures
            op.is_fresh(dirid, call, policy, user_ctx, pre_attr, post_attr),
    {
        DirUpdate {
            dirid,
            call,
            policy,
            user_ctx,
            pre_attr,
            post_attr,
            phase: UpdatePhase::PreAttr,
        }
    }

    /// Takes the reply to the request for attributes that is pending.
    pub fn attr(self, reply: AttrReply) -> (next: Self)
        requires
            self.awaiting() is GetAttr,
        ensures
            next == self.after_attr(reply),
    {
        match self.phase {
            UpdatePhase::PreAttr => match (self.policy, reply) {
                (AttrPolicy::Required, Err(stat)) => DirUpdate {
                    phase: UpdatePhase::Finished(Err(stat)),
                    ..self
                },
                _ => DirUpdate {
                    pre_attr: pre_attr(reply),
                    phase: UpdatePhase::Perform,
                    ..self
                },
            },
            UpdatePhase::PostAttr(result) => DirUpdate {
                post_attr: post_attr(reply),
                phase: UpdatePhase::Finished(result),
                ..self
            },
            _ => unreached(),
        }
    }

    /// Takes the result of the change itself, which is pending.
    pub fn performed(self, result: Result<T, nfsstat3>) -> (next: Self)
        requires
            self.awaiting() is Perform,
        ensures
            next == self.after_performed(result),
    {
        DirUpdate { phase: UpdatePhase::PostAttr(result), ..self }
    }

    /// The result of the update, once it has ended.
    pub fn into_result(self) -> (result: Result<T, nfsstat3>)
        requires
            self.awaiting() is Finished,
        ensures
            self.phase == UpdatePhase::Finished(result),
    {
        match self.phase {
            UpdatePhase::Finished(result) => result,
            _ => unreached(),
        }
    }
}

impl<'a, C: Copy, T> DirUpdate<'a, C, T> {
    /// Says which step comes next.
    pub fn pending(&self) -> (next: Pending<'a, C>)
        ensures
            next == self.awaiting(),
    {
        match self.phase {
            UpdatePhase::PreAttr | UpdatePhase::PostAttr(_) => Pending::GetAttr(
                AttrCall { id: self.dirid, user_ctx: self.user_ctx },
            ),
            UpdatePhase::Perform => Pending::Perform(self.call),
            UpdatePhase::Finished(_) => Pending::Finished,
        }
    }
}

/// The arguments of the call that creates a file.
#[derive(Clone, Copy, Debug, PartialEq, Eq)]
pub struct CreateCall<'a> {
    pub dirid: fileid3,
    pub filename: &'a filename3,
    pub attr: sattr3,
}

/// The arguments of the call that creates a file which must not exist yet.
#[derive(Clone, Copy, Debug, PartialEq, Eq)]
pub struct CreateExclusiveCall<'a> {
    pub dirid: fileid3,
    pub filename: &'a filename3,
}

/// The arguments of the call that makes a directory.
#[derive(Clone, Copy, Debug, PartialEq, Eq)]
pub struct MkdirCall<'a> {
    pub dirid: fileid3,
    pub dirname: &'a filename3,
}

/// The arguments of the call that removes a file.
#[derive(Clone, Copy, Debug, PartialEq, Eq)]
pub struct RemoveCall<'a> {
    pub dirid: fileid3,
    pub filename: &'a filename3,
}

/// The arguments of the call that makes a symbolic link.
#[derive(Clone, Copy, Debug, PartialEq, Eq)]
pub struct SymlinkCall<'a> {
    pub dirid: fileid3,
    pub linkname: &'a filename3,
    pub symlink: &'a nfspath3,
    pub attr: &'a sattr3,
}

/// Starts the creation of a file. The attributes given are those that stay in place where the
/// operation reports none.
pub fn create<'a>(
    dirid: fileid3,
    filename: &'a filename3,
    attr: sattr3,
    user_ctx: &'a UserContext,
    pre_dir_attr: pre_op_attr,
    post_dir_attr: post_op_attr,
) -> (op: DirUpdate<'a, CreateCall<'a>, (fileid3, fattr3)>)
    ensures
        op.is_fresh(
            dirid,
            CreateCall { dirid, filename, attr },
            AttrPolicy::Optional,
            user_ctx,
            pre_dir_attr,
            post_dir_attr,
        ),
        op.dirid == dirid,
        op.call == (CreateCall { dirid, filename, attr }),
        op.policy == AttrPolicy::Optional,
        op.user_ctx == user_ctx,
        op.pre_attr == pre_dir_attr,
        op.post_attr == post_dir_attr,
        op.phase is PreAttr,
{
    DirUpdate::new(
        dirid,
        CreateCall { dirid, filename, attr },
        AttrPolicy::Optional,
        user_ctx,
        pre_dir_attr,
        post_dir_attr,
    )
}

/// Starts the creation of a file that must not exist yet. The attributes given are those that
/// stay in place where the operation reports none.
pub fn create_exclusive<'a>(
    dirid: fileid3,
    filename: &'a filename3,
    user_ctx: &'a UserContext,
    pre_dir_attr: pre_op_attr,
    post_dir_attr: post_op_attr,
) -> (op: DirUpdate<'a, CreateExclusiveCall<'a>, fileid3>)
    ensures
        op.is_fresh(
            dirid,
            CreateExclusiveCall { dirid, filename },
            AttrPolicy::Required,
            user_ctx,
            pre_dir_attr,
            post_dir_attr,
        ),
        op.dirid == dirid,
        op.call == (CreateExclusiveCall { dirid, filename }),
        op.policy == AttrPolicy::Required,
        op.user_ctx == user_ctx,
        op.pre_attr == pre_dir_attr,
        op.post_attr == post_dir_attr,
        op.phase is PreAttr,
{
    DirUpdate::new(
        dirid,
        CreateExclusiveCall { dirid, filename },
        AttrPolicy::Required,
        user_ctx,
        pre_dir_attr,
        post_dir_attr,
    )
}

/// Starts the making of a directory. The attributes given are those that stay in place where the
/// operation reports none.
pub fn mkdir<'a>(
    dirid: fileid3,
    dirname: &'a filename3,
    user_ctx: &'a UserContext,
    pre_dir_attr: pre_op_attr,
    post_dir_attr: post_op_attr,
) -> (op: DirUpdate<'a, MkdirCall<'a>, (fileid3, fattr3)>)
    ensures
        op.is_fresh(
            dirid,
            MkdirCall { dirid, dirname },
            AttrPolicy::Required,
            user_ctx,
            pre_dir_attr,
            post_dir_attr,
        ),
        op.dirid == dirid,
        op.call == (MkdirCall { dirid, dirname }),
        op.policy == AttrPolicy::Required,
        op.user_ctx == user_ctx,
        op.pre_attr == pre_dir_attr,
        op.post_attr == post_dir_attr,
        op.phase is PreAttr,
{
    DirUpdate::new(
        dirid,
        MkdirCall { dirid, dirname },
        AttrPolicy::Required,
        user_ctx,
        pre_dir_attr,
        post_dir_attr,
    )
}

/// Starts the removal of a file. The attributes given are those that stay in place where the
/// operation reports none.
pub fn remove<'a>(
    dirid: fileid3,
    filename: &'a filename3,
    user_ctx: &'a UserContext,
    pre_dir_attr: pre_op_attr,
    post_dir_attr: post_op_attr,
) -> (op: DirUpdate<'a, RemoveCall<'a>, ()>)
    ensures
        op.is_fresh(
            dirid,
            RemoveCall { dirid, filename },
            AttrPolicy::Required,
            user_ctx,
            pre_dir_attr,
            post_dir_attr,
        ),
        op.dirid == dirid,
        op.call == (RemoveCall { dirid, filename }),
        op.policy == AttrPolicy::Required,
        op.user_ctx == user_ctx,
        op.pre_attr == pre_dir_attr,
        op.post_attr == post_dir_attr,
        op.phase is PreAttr,
{
    DirUpdate::new(
        dirid,
        RemoveCall { dirid, filename },
        AttrPolicy::Required,
        user_ctx,
        pre_dir_attr,
        post_dir_attr,
    )
}

/// Starts the making of a symbolic link. The attributes given are those that stay in place where
/// the operation reports none.
pub fn symlink<'a>(
    dirid: fileid3,
    linkname: &'a filename3,
    target: &'a nfspath3,
    attr: &'a sattr3,
    user_ctx: &'a UserContext,
    pre_obj_attr: pre_op_attr,
    post_obj_attr: post_op_attr,
) -> (op: DirUpdate<'a, SymlinkCall<'a>, (fileid3, fattr3)>)
    ensures
        op.is_fresh(
            dirid,
            SymlinkCall { dirid, linkname, symlink: target, attr },
            AttrPolicy::Required,
            user_ctx,
            pre_obj_attr,
            post_obj_attr,
        ),
        op.dirid == dirid,
        op.call == (SymlinkCall { dirid, linkname, symlink: target, attr }),
        op.policy == AttrPolicy::Required,
        op.user_ctx == user_ctx,
        op.pre_attr == pre_obj_attr,
        op.post_attr == post_obj_attr,
        op.phase is PreAttr,
{
    DirUpdate::new(
        dirid,
        SymlinkCall { dirid, linkname, symlink: target, attr },
        AttrPolicy::Required,
        user_ctx,
        pre_obj_attr,
        post_obj_attr,
    )
}

/// An update goes on when the directory's attributes were answered, whatever they are, and where
/// it can do without them also when they were not. It asks, on behalf of its user, for the
/// attributes, makes its own call once with the arguments it was given, and asks for the attributes
/// again. It ends with the result of its own call, whatever became of the last request. Of the
/// attributes from before it reports size, modification time and change time, of those from after
/// all that were answered.
pub proof fn update_completes<'a, C, T>(
    op: DirUpdate<'a, C, T>,
    before: AttrReply,
    result: Result<T, nfsstat3>,
    after: AttrReply,
)
    requires
        op.phase is PreAttr,
        before is Ok || op.policy == AttrPolicy::Optional,
    ensures
        ({
            let ask = AttrCall { id: op.dirid, user_ctx: op.user_ctx };
            let one = op.after_attr(before);
            let two = one.after_performed(result);
            let three = two.after_attr(after);
            &&& op.awaiting() matches Pending::GetAttr(call) && call == ask
            &&& one.awaiting() == Pending::Perform(op.call)
            &&& two.awaiting() matches Pending::GetAttr(call) && call == ask
            &&& three.awaiting() is Finished
            &&& match before {
                Ok(attr) => one.pre_attr == pre_op_attr::attributes(
                    wcc_attr { size: attr.size, mtime: attr.mtime, ctime: attr.ctime },
                ),
                Err(_) => one.pre_attr is Void,
            }
            &&& match after {
                Ok(attr) => three.post_attr == post_op_attr::attributes(attr),
                Err(_) => three.post_attr is Void,
            }
            &&& one == DirUpdate {
                pre_attr: one.pre_attr,
                phase: UpdatePhase::<T>::Perform,
                ..op
            }
            &&& two == DirUpdate { phase: UpdatePhase::PostAttr(result), ..one }
            &&& three == DirUpdate {
                post_attr: three.post_attr,
                phase: UpdatePhase::Finished(result),
                ..two
            }
        }),
{
}

/// An update that needs the directory's attributes and cannot have them ends at once with the
/// status that was given for them. Its own call is never made and no attributes are reported.
pub proof fn update_refused<'a, C, T>(op: DirUpdate<'a, C, T>, stat: nfsstat3)
    requires
        op.phase is PreAttr,
        op.policy == AttrPolicy::Required,
    ensures
        op.after_attr(Err(stat)).awaiting() is Finished,
        op.after_attr(Err(stat)) == (DirUpdate { phase: UpdatePhase::Finished(Err(stat)), ..op }),
{
}

} // verus!
