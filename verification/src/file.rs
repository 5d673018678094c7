//! Operations on one file: `read`, `readlink` and `write`.
use crate::attr::{post_attr, post_attr_of, pre_attr, pre_attr_of, AttrPolicy, AttrReply};
use crate::nfs::{fattr3, fileid3, nfspath3, nfsstat3, post_op_attr, pre_op_attr, wcc_attr};
use crate::pending::{AttrCall, Pending};
use crate::user::UserContext;
use vstd::pervasive::unreached;
use vstd::prelude::*;

verus! {

/// How far an operation on a file has come.
#[derive(Debug, PartialEq, Eq)]
pub enum FilePhase<T> {
    /// The file's attributes are awaited.
    Attr,
    /// The operation itself is awaited.
    Perform,
    /// The operation has ended.
    Finished(Result<T, nfsstat3>),
}

/// An operation in progress that gets something out of a file, with the attributes reported so
/// far. Its own call has the arguments `C` and returns a `T`.
#[derive(Debug, PartialEq, Eq)]
pub struct FileQuery<'a, C, T> {
    pub id: fileid3,
    pub call: C,
    pub policy: AttrPolicy,
    pub user_ctx: &'a UserContext,
    pub obj_attr: post_op_attr,
    pub phase: FilePhase<T>,
}

impl<'a, C, T> FileQuery<'a, C, T> {
    /// Whether this is the query with the given parameters of which nothing has been done yet.
    pub open spec fn is_fresh(
        self,
        id: fileid3,
        call: C,
        policy: AttrPolicy,
        user_ctx: &'a UserContext,
        obj_attr: post_op_attr,
    ) -> bool {
        self == FileQuery { id, call, policy, user_ctx, obj_attr, phase: FilePhase::<T>::Attr }
    }

    /// The step that comes next.
    pub open spec fn awaiting(self) -> Pending<'a, C> {
        match self.phase {
            FilePhase::Attr => Pending::GetAttr(AttrCall { id: self.id, user_ctx: self.user_ctx }),
            FilePhase::Perform => Pending::Perform(self.call),
            FilePhase::Finished(_) => Pending::Finished,
        }
    }

    /// The operation once its request for attributes was answered by `reply`.
    pub open spec fn after_attr(self, reply: AttrReply) -> Self {
        if self.policy.refuses(reply) {
            FileQuery { phase: FilePhase::Finished(Err(reply->Err_0)), ..self }
        } else {
            FileQuery { obj_attr: post_attr_of(reply), phase: FilePhase::Perform, ..self }
        }
    }

    /// The operation once its own call has ended with `result`.
    pub open spec fn after_performed(self, result: Result<T, nfsstat3>) -> Self {
        FileQuery { phase: FilePhase::Finished(result), ..self }
    }

    /// Takes the reply to the request for attributes that is pending.
    pub fn attr(self, reply: AttrReply) -> (next: Self)
        requires
            self.awaiting() is GetAttr,
        ensures
            next == self.after_attr(reply),
    {
        match (self.policy, reply) {
            (AttrPolicy::Required, Err(stat)) => FileQuery {
                phase: FilePhase::Finished(Err(stat)),
                ..self
            },
            _ => FileQuery { obj_attr: post_attr(reply), phase: FilePhase::Perform, ..self },
        }
    }

    /// Takes the result of the operation's own call, which is pending.
    pub fn performed(self, result: Result<T, nfsstat3>) -> (next: Self)
        requires
            self.awaiting() is Perform,
        ensures
            next == self.after_performed(result),
    {
        FileQuery { phase: FilePhase::Finished(result), ..self }
    }

    /// The result of the operation, once it has ended.
    pub fn into_result(self) -> (result: Result<T, nfsstat3>)
        requires
            self.awaiting() is Finished,
        ensures
            self.phase == FilePhase::Finished(result),
    {
        match self.phase {
            FilePhase::Finished(result) => result,
            _ => unreached(),
        }
    }
}

impl<'a, C: Copy, T> FileQuery<'a, C, T> {
    /// Says which step comes next.
    pub fn pending(&self) -> (next: Pending<'a, C>)
        ensures
            next == self.awaiting(),
    {
        match self.phase {
            FilePhase::Attr => Pending::GetAttr(AttrCall { id: self.id, user_ctx: self.user_ctx }),
            FilePhase::Perform => Pending::Perform(self.call),
            FilePhase::Finished(_) => Pending::Finished,
        }
    }
}

/// The arguments of the call that reads a file's contents.
#[derive(Clone, Copy, Debug, PartialEq, Eq)]
pub struct ReadCall {
    pub id: fileid3,
    pub offset: u64,
    pub count: u32,
}

/// The arguments of the call that reads a symbolic link.
#[derive(Clone, Copy, Debug, PartialEq, Eq)]
pub struct ReadlinkCall {
    pub id: fileid3,
}

/// Starts the reading of a file's contents, which come with a flag that says whether the end of
/// the file was reached. The attributes given are those that stay in place where the operation
/// reports none.
pub fn read<'a>(
    id: fileid3,
    offset: u64,
    count: u32,
    user_ctx: &'a UserContext,
    obj_attr: post_op_attr,
) -> (op: FileQuery<'a, ReadCall, (Vec<u8>, bool)>)
    ensures
        op.is_fresh(
            id,
            ReadCall { id, offset, count },
            AttrPolicy::Optional,
            user_ctx,
            obj_attr,
        ),
        op.id == id,
        op.call == (ReadCall { id, offset, count }),
        op.policy == AttrPolicy::Optional,
        op.user_ctx == user_ctx,
        op.obj_attr == obj_attr,
        op.phase is Attr,
{
    FileQuery {
        id,
        call: ReadCall { id, offset, count },
        policy: AttrPolicy::Optional,
        user_ctx,
        obj_attr,
        phase: FilePhase::Attr,
    }
}

/// Starts the reading of a symbolic link. The attributes given are those that stay in place where
/// the operation reports none.
pub fn readlink<'a>(id: fileid3, user_ctx: &'a UserContext, symlink_attr: post_op_attr) -> (op:
    FileQuery<'a, ReadlinkCall, nfspath3>)
    ensures
        op.is_fresh(id, ReadlinkCall { id }, AttrPolicy::Required, user_ctx, symlink_attr),
        op.id == id,
        op.call == (ReadlinkCall { id }),
        op.policy == AttrPolicy::Required,
        op.user_ctx == user_ctx,
        op.obj_attr == symlink_attr,
        op.phase is Attr,
{
    FileQuery {
        id,
        call: ReadlinkCall { id },
        policy: AttrPolicy::Required,
        user_ctx,
        obj_attr: symlink_attr,
        phase: FilePhase::Attr,
    }
}

/// A query goes on when the file's attributes were answered, whatever they are, and where it can
/// do without them also when they were not. It asks, on behalf of its user, for the attributes and
/// then makes its own call once with the arguments it was given. It ends with the result of that
/// call and reports the attributes that were answered.
pub proof fn query_completes<'a, C, T>(
    op: FileQuery<'a, C, T>,
    reply: AttrReply,
    result: Result<T, nfsstat3>,
)
    requires
        op.phase is Attr,
        reply is Ok || op.policy == AttrPolicy::Optional,
    ensures
        ({
            let ask = AttrCall { id: op.id, user_ctx: op.user_ctx };
            let one = op.after_attr(reply);
            let two = one.after_performed(result);
            &&& op.awaiting() matches Pending::GetAttr(call) && call == ask
            &&& one.awaiting() == Pending::Perform(op.call)
            &&& two.awaiting() is Finished
            &&& match reply {
                Ok(attr) => one.obj_attr == post_op_attr::attributes(attr),
                Err(_) => one.obj_attr is Void,
            }
            &&& one == FileQuery { obj_attr: one.obj_attr, phase: FilePhase::<T>::Perform, ..op }
            &&& two == FileQuery { phase: FilePhase::Finished(result), ..one }
        }),
{
}

/// A query that needs the file's attributes and cannot have them ends at once with the status
/// that was given for them. Its own call is never made and no attributes are reported.
pub proof fn query_refused<'a, C, T>(op: FileQuery<'a, C, T>, stat: nfsstat3)
    requires
        op.phase is Attr,
        op.policy == AttrPolicy::Required,
    ensures
        op.after_attr(Err(stat)).awaiting() is Finished,
        op.after_attr(Err(stat)) == (FileQuery { phase: FilePhase::Finished(Err(stat)), ..op }),
{
}

/// The arguments of the call that writes to a file.
#[derive(Clone, Copy, Debug, PartialEq, Eq)]
pub struct WriteCall<'a> {
    pub id: fileid3,
    pub offset: u64,
    pub data: &'a [u8],
}

/// A write in progress, with the attributes reported so far.
#[derive(Debug, PartialEq, Eq)]
pub struct Write<'a> {
    pub call: WriteCall<'a>,
    pub user_ctx: &'a UserContext,
    pub obj_attr: pre_op_attr,
    pub phase: FilePhase<fattr3>,
}

/// Starts a write to a file, which ends with the file's new attributes. The attributes given are
/// those that stay in place where the operation reports none.
pub fn write<'a>(
    id: fileid3,
    offset: u64,
    data: &'a [u8],
    user_ctx: &'a UserContext,
    obj_attr: pre_op_attr,
) -> (op: Write<'a>)
    ensures
        op == (Write {
            call: WriteCall { id, offset, data },
            user_ctx,
            obj_attr,
            phase: FilePhase::Attr,
        }),
{
    Write { call: WriteCall { id, offset, data }, user_ctx, obj_attr, phase: FilePhase::Attr }
}

impl<'a> Write<'a> {
    /// The step that comes next.
    pub open spec fn awaiting(self) -> Pending<'a, WriteCall<'a>> {
        match self.phase {
            FilePhase::Attr => Pending::GetAttr(
                AttrCall { id: self.call.id, user_ctx: self.user_ctx },
            ),
            FilePhase::Perform => Pending::Perform(self.call),
            FilePhase::Finished(_) => Pending::Finished,
        }
    }

    /// The operation once its request for attributes was answered by `reply`.
    pub open spec fn after_attr(self, reply: AttrReply) -> Self {
        Write { obj_attr: pre_attr_of(reply), phase: FilePhase::Perform, ..self }
    }

    /// The operation once the writing itself has ended with `result`.
    pub open spec fn after_performed(self, result: AttrReply) -> Self {
        Write { phase: FilePhase::Finished(result), ..self }
    }

    /// Says which step comes next.
    pub fn pending(&self) -> (next: Pending<'a, WriteCall<'a>>)
        ensures
            next == self.awaiting(),
    {
        match self.phase {
            FilePhase::Attr => Pending::GetAttr(
                AttrCall { id: self.call.id, user_ctx: self.user_ctx },
            ),
            FilePhase::Perform => Pending::Perform(self.call),
            FilePhase::Finished(_) => Pending::Finished,
        }
    }

    /// Takes the reply to the request for attributes that is pending.
    pub fn attr(self, reply: AttrReply) -> (next: Self)
        requires
            self.awaiting() is GetAttr,
        ensures
            next == self.after_attr(reply),
    {
        Write { obj_attr: pre_attr(reply), phase: FilePhase::Perform, ..self }
    }

    /// Takes the result of the writing itself, which is pending.
    pub fn performed(self, result: AttrReply) -> (next: Self)
        requires
            self.awaiting() is Perform,
        ensures
            next == self.after_performed(result),
    {
        Write { phase: FilePhase::Finished(result), ..self }
    }

    /// The result of the write, once it has ended.
    pub fn into_result(self) -> (result: AttrReply)
        requires
            self.awaiting() is Finished,
        ensures
            self.phase == FilePhase::Finished(result),
    {
        match self.phase {
            FilePhase::Finished(result) => result,
            _ => unreached(),
        }
    }
}

/// A write asks, on behalf of its user, for the file's attributes and then writes once with the
/// arguments it was given, whatever became of that request. It ends with the result of the
/// writing and reports of the attributes the size, the modification time and the change time, if
/// they were answered.
pub proof fn write_completes<'a>(op: Write<'a>, reply: AttrReply, result: AttrReply)
    requires
        op.phase is Attr,
    ensures
        ({
            let ask = AttrCall { id: op.call.id, user_ctx: op.user_ctx };
            let one = op.after_attr(reply);
            let two = one.after_performed(result);
            &&& op.awaiting() matches Pending::GetAttr(call) && call == ask
            &&& one.awaiting() == Pending::Perform(op.call)
            &&& two.awaiting() is Finished
            &&& match reply {
                Ok(attr) => one.obj_attr == pre_op_attr::attributes(
                    wcc_attr { size: attr.size, mtime: attr.mtime, ctime: attr.ctime },
                ),
                Err(_) => one.obj_attr is Void,
            }
            &&& one == Write { obj_attr: one.obj_attr, phase: FilePhase::Perform, ..op }
            &&& two == Write { phase: FilePhase::Finished(result), ..one }
        }),
{
}

} // verus!
