//! Renaming a file, within a directory or from one directory to another.
use crate::attr::{post_attr, post_attr_of, pre_attr, pre_attr_of, AttrReply};
use crate::nfs::{fattr3, fileid3, filename3, nfsstat3, post_op_attr, pre_op_attr, wcc_attr};
use crate::pending::{AttrCall, Pending};
use crate::user::UserContext;
use vstd::pervasive::unreached;
use vstd::prelude::*;

verus! {

/// The arguments of the call that renames the file.
#[derive(Clone, Copy, Debug, PartialEq, Eq)]
pub struct RenameCall<'a> {
    pub from_dirid: fileid3,
    pub from_filename: &'a filename3,
    pub to_dirid: fileid3,
    pub to_filename: &'a filename3,
}

/// How far a rename has come.
#[derive(Clone, Copy, Debug, PartialEq, Eq)]
pub enum RenamePhase {
    /// The source directory's attributes from before are awaited.
    PreFromAttr,
    /// The target directory's attributes from before are awaited.
    PreToAttr,
    /// The renaming itself is awaited.
    Perform,
    /// The source directory's attributes from after are awaited.
    PostFromAttr(Result<(), nfsstat3>),
    /// The target directory's attributes from after are awaited.
    PostToAttr(Result<(), nfsstat3>),
    /// The rename has ended.
    Finished(Result<(), nfsstat3>),
}

/// A rename in progress, with the directory attributes reported so far.
#[derive(Clone, Copy, Debug, PartialEq, Eq)]
pub struct Rename<'a> {
    pub call: RenameCall<'a>,
    pub user_ctx: &'a UserContext,
    pub pre_from_dir_attr: pre_op_attr,
    pub pre_to_dir_attr: pre_op_attr,
    pub post_from_dir_attr: post_op_attr,
    pub post_to_dir_attr: post_op_attr,
    pub phase: RenamePhase,
}

/// Starts a rename. The attributes given are those that stay in place where the operation
/// reports none.
pub fn rename<'a>(
    from_dirid: fileid3,
    from_filename: &'a filename3,
    to_dirid: fileid3,
    to_filename: &'a filename3,
    user_ctx: &'a UserContext,
    pre_from_dir_attr: pre_op_attr,
    pre_to_dir_attr: pre_op_attr,
    post_from_dir_attr: post_op_attr,
    post_to_dir_attr: post_op_attr,
) -> (op: Rename<'a>)
    ensures
        op == (Rename {
            call: RenameCall { from_dirid, from_filename, to_dirid, to_filename },
            user_ctx,
            pre_from_dir_attr,
            pre_to_dir_attr,
            post_from_dir_attr,
            post_to_dir_attr,
            phase: RenamePhase::PreFromAttr,
        }),
{
    Rename {
        call: RenameCall { from_dirid, from_filename, to_dirid, to_filename },
        user_ctx,
        pre_from_dir_attr,
        pre_to_dir_attr,
        post_from_dir_attr,
        post_to_dir_attr,
        phase: RenamePhase::PreFromAttr,
    }
}

impl<'a> Rename<'a> {
    /// The step that comes next.
    pub open spec fn awaiting(self) -> Pending<'a, RenameCall<'a>> {
        match self.phase {
            RenamePhase::PreFromAttr | RenamePhase::PostFromAttr(_) => Pending::GetAttr(
                AttrCall { id: self.call.from_dirid, user_ctx: self.user_ctx },
            ),
            RenamePhase::PreToAttr | RenamePhase::PostToAttr(_) => Pending::GetAttr(
                AttrCall { id: self.call.to_dirid, user_ctx: self.user_ctx },
            ),
            RenamePhase::Perform => Pending::Perform(self.call),
            RenamePhase::Finished(_) => Pending::Finished,
        }
    }

    /// The operation once its request for attributes was answered by `reply`: the attributes
    /// from before are needed to go on, those from after are reported if they are there.
    pub open spec fn after_attr(self, reply: AttrReply) -> Self {
        match (self.phase, reply) {
            (RenamePhase::PreFromAttr, Ok(_)) => Rename {
                pre_from_dir_attr: pre_attr_of(reply),
                phase: RenamePhase::PreToAttr,
                ..self
            },
            (RenamePhase::PreToAttr, Ok(_)) => Rename {
                pre_to_dir_attr: pre_attr_of(reply),
                phase: RenamePhase::Perform,
                ..self
            },
            (RenamePhase::PreFromAttr | RenamePhase::PreToAttr, Err(stat)) => Rename {
                phase: RenamePhase::Finished(Err(stat)),
                ..self
            },
            (RenamePhase::PostFromAttr(result), _) => Rename {
                post_from_dir_attr: post_attr_of(reply),
                phase: RenamePhase::PostToAttr(result),
                ..self
            },
            (RenamePhase::PostToAttr(result), _) => Rename {
                post_to_dir_attr: post_attr_of(reply),
                phase: RenamePhase::Finished(result),
                ..self
            },
            _ => self,
        }
    }

    /// The operation once the renaming itself has ended with `result`.
    pub open spec fn after_performed(self, result: Result<(), nfsstat3>) -> Self {
        Rename { phase: RenamePhase::PostFromAttr(result), ..self }
    }

    /// Says which step comes next.
    pub fn pending(&self) -> (next: Pending<'a, RenameCall<'a>>)
        ensures
            next == self.awaiting(),
    {
        match self.phase {
            RenamePhase::PreFromAttr | RenamePhase::PostFromAttr(_) => Pending::GetAttr(
                AttrCall { id: self.call.from_dirid, user_ctx: self.user_ctx },
            ),
            RenamePhase::PreToAttr | RenamePhase::PostToAttr(_) => Pending::GetAttr(
                AttrCall { id: self.call.to_dirid, user_ctx: self.user_ctx },
            ),
            RenamePhase::Perform => Pending::Perform(self.call),
            RenamePhase::Finished(_) => Pending::Finished,
        }
    }

    /// Takes the reply to the request for attributes that is pending.
    pub fn attr(self, reply: AttrReply) -> (next: Self)
        requires
            self.awaiting() is GetAttr,
        ensures
            next == self.after_attr(reply),
    {
        match (self.phase, reply) {
            (RenamePhase::PreFromAttr, Ok(_)) => Rename {
                pre_from_dir_attr: pre_attr(reply),
                phase: RenamePhase::PreToAttr,
                ..self
            },
            (RenamePhase::PreToAttr, Ok(_)) => Rename {
                pre_to_dir_attr: pre_attr(reply),
                phase: RenamePhase::Perform,
                ..self
            },
            (RenamePhase::PreFromAttr, Err(stat)) | (RenamePhase::PreToAttr, Err(stat)) => Rename {
                phase: RenamePhase::Finished(Err(stat)),
                ..self
            },
            (RenamePhase::PostFromAttr(result), _) => Rename {
                post_from_dir_attr: post_attr(reply),
                phase: RenamePhase::PostToAttr(result),
                ..self
            },
            (RenamePhase::PostToAttr(result), _) => Rename {
                post_to_dir_attr: post_attr(reply),
                phase: RenamePhase::Finished(result),
                ..self
            },
            _ => unreached(),
        }
    }

    /// Takes the result of the renaming itself, which is pending.
    pub fn performed(self, result: Result<(), nfsstat3>) -> (next: Self)
        requires
            self.awaiting() is Perform,
        ensures
            next == self.after_performed(result),
    {
        Rename { phase: RenamePhase::PostFromAttr(result), ..self }
    }

    /// The result of the rename, once it has ended.
    pub fn into_result(self) -> (result: Result<(), nfsstat3>)
        requires
            self.awaiting() is Finished,
        ensures
            self.phase == RenamePhase::Finished(result),
    {
        match self.phase {
            RenamePhase::Finished(result) => result,
            _ => unreached(),
        }
    }
}

/// A rename whose two directories can be examined asks, in this order and on behalf of its user,
/// for the attributes of the source and of the target directory, performs the renaming once with
/// the arguments it was given, and asks for both directories' attributes again. It ends with the
/// result of the renaming, whatever became of the last two requests. Of the attributes from before
/// it reports size, modification time and change time, of those from after all that were answered,
/// each as soon as it has them.
pub proof fn rename_completes<'a>(
    op: Rename<'a>,
    pre_from: fattr3,
    pre_to: fattr3,
    result: Result<(), nfsstat3>,
    post_from: AttrReply,
    post_to: AttrReply,
)
    requires
        op.phase == RenamePhase::PreFromAttr,
    ensures
        ({
            let ask_from = AttrCall { id: op.call.from_dirid, user_ctx: op.user_ctx };
            let ask_to = AttrCall { id: op.call.to_dirid, user_ctx: op.user_ctx };
            let one = op.after_attr(Ok(pre_from));
            let two = one.after_attr(Ok(pre_to));
            let three = two.after_performed(result);
            let four = three.after_attr(post_from);
            let five = four.after_attr(post_to);
            &&& op.awaiting() matches Pending::GetAttr(call) && call == ask_from
            &&& one.awaiting() matches Pending::GetAttr(call) && call == ask_to
            &&& two.awaiting() matches Pending::Perform(call) && call == op.call
            &&& three.awaiting() matches Pending::GetAttr(call) && call == ask_from
            &&& four.awaiting() matches Pending::GetAttr(call) && call == ask_to
            &&& five.awaiting() is Finished
            &&& one.pre_from_dir_attr == pre_op_attr::attributes(
                wcc_attr { size: pre_from.size, mtime: pre_from.mtime, ctime: pre_from.ctime },
            )
            &&& two.pre_to_dir_attr == pre_op_attr::attributes(
                wcc_attr { size: pre_to.size, mtime: pre_to.mtime, ctime: pre_to.ctime },
            )
            &&& match post_from {
                Ok(attr) => four.post_from_dir_attr == post_op_attr::attributes(attr),
                Err(_) => four.post_from_dir_attr is Void,
            }
            &&& match post_to {
                Ok(attr) => five.post_to_dir_attr == post_op_attr::attributes(attr),
                Err(_) => five.post_to_dir_attr is Void,
            }
            &&& one == Rename {
                pre_from_dir_attr: one.pre_from_dir_attr,
                phase: RenamePhase::PreToAttr,
                ..op
            }
            &&& two == Rename {
                pre_to_dir_attr: two.pre_to_dir_attr,
                phase: RenamePhase::Perform,
                ..one
            }
            &&& three == Rename { phase: RenamePhase::PostFromAttr(result), ..two }
            &&& four == Rename {
                post_from_dir_attr: four.post_from_dir_attr,
                phase: RenamePhase::PostToAttr(result),
                ..three
            }
            &&& five == Rename {
                post_to_dir_attr: five.post_to_dir_attr,
                phase: RenamePhase::Finished(result),
                ..four
            }
        }),
{
}

/// A rename one of whose directories cannot be examined beforehand ends at once with the status
/// that was given for it. Nothing is renamed, and of the attributes only those of the source
/// directory from before are reported, if it was the target directory that failed.
pub proof fn rename_refused<'a>(op: Rename<'a>, pre_from: fattr3, stat: nfsstat3)
    requires
        op.phase == RenamePhase::PreFromAttr,
    ensures
        op.after_attr(Err(stat)).awaiting() is Finished,
        op.after_attr(Err(stat)) == (Rename { phase: RenamePhase::Finished(Err(stat)), ..op }),
        op.after_attr(Ok(pre_from)).after_attr(Err(stat)).awaiting() is Finished,
        op.after_attr(Ok(pre_from)).after_attr(Err(stat)) == (Rename {
            pre_from_dir_attr: pre_op_attr::attributes(
                wcc_attr { size: pre_from.size, mtime: pre_from.mtime, ctime: pre_from.ctime },
            ),
            phase: RenamePhase::Finished(Err(stat)),
            ..op
        }),
{
}

} // verus!
