//! Looking a name up in a directory.
use crate::attr::{post_attr, post_attr_of, AttrReply};
use crate::nfs::{fileid3, filename3, nfsstat3, post_op_attr};
use crate::pending::{AttrCall, Pending};
use crate::user::UserContext;
use vstd::pervasive::unreached;
use vstd::prelude::*;

verus! {

/// The arguments of the call that finds the file.
#[derive(Clone, Copy, Debug, PartialEq, Eq)]
pub struct LookupCall<'a> {
    pub dirid: fileid3,
    pub filename: &'a filename3,
}

/// How far a lookup has come.
#[derive(Clone, Copy, Debug, PartialEq, Eq)]
pub enum LookupPhase {
    /// The directory's attributes are awaited.
    DirAttr,
    /// The finding of the file is awaited.
    Perform,
    /// The attributes of the file that was found are awaited.
    ObjAttr(fileid3),
    /// The lookup has ended.
    Finished(Result<fileid3, nfsstat3>),
}

/// A lookup in progress, with the attributes reported so far.
#[derive(Clone, Copy, Debug, PartialEq, Eq)]
pub struct Lookup<'a> {
    pub call: LookupCall<'a>,
    pub user_ctx: &'a UserContext,
    pub dir_attr: post_op_attr,
    pub obj_attr: post_op_attr,
    pub phase: LookupPhase,
}

/// Starts a lookup. The attributes given are those that stay in place where the operation
/// reports none.
pub fn lookup<'a>(
    dirid: fileid3,
    filename: &'a filename3,
    user_ctx: &'a UserContext,
    dir_attr: post_op_attr,
    obj_attr: post_op_attr,
) -> (op: Lookup<'a>)
    ensures
        op == (Lookup {
            call: LookupCall { dirid, filename },
            user_ctx,
            dir_attr,
            obj_attr,
            phase: LookupPhase::DirAttr,
        }),
{
    Lookup {
        call: LookupCall { dirid, filename },
        user_ctx,
        dir_attr,
        obj_attr,
        phase: LookupPhase::DirAttr,
    }
}

impl<'a> Lookup<'a> {
    /// The step that comes next.
    pub open spec fn awaiting(self) -> Pending<'a, LookupCall<'a>> {
        match self.phase {
            LookupPhase::DirAttr => Pending::GetAttr(
                AttrCall { id: self.call.dirid, user_ctx: self.user_ctx },
            ),
            LookupPhase::Perform => Pending::Perform(self.call),
            LookupPhase::ObjAttr(fid) => Pending::GetAttr(
                AttrCall { id: fid, user_ctx: self.user_ctx },
            ),
            LookupPhase::Finished(_) => Pending::Finished,
        }
    }

    /// The operation once its request for attributes was answered by `reply`.
    pub open spec fn after_attr(self, reply: AttrReply) -> Self {
        match self.phase {
            LookupPhase::DirAttr => Lookup {
                dir_attr: post_attr_of(reply),
                phase: LookupPhase::Perform,
                ..self
            },
            LookupPhase::ObjAttr(fid) => Lookup {
                obj_attr: post_attr_of(reply),
                phase: LookupPhase::Finished(Ok(fid)),
                ..self
            },
            _ => self,
        }
    }

    /// The operation once the finding of the file has ended with `result`.
    pub open spec fn after_performed(self, result: Result<fileid3, nfsstat3>) -> Self {
        let phase = match result {
            Ok(fid) => LookupPhase::ObjAttr(fid),
            Err(stat) => LookupPhase::Finished(Err(stat)),
        };
        Lookup { phase, ..self }
    }

    /// Says which step comes next.
    pub fn pending(&self) -> (next: Pending<'a, LookupCall<'a>>)
        ensures
            next == self.awaiting(),
    {
        match self.phase {
            LookupPhase::DirAttr => Pending::GetAttr(
                AttrCall { id: self.call.dirid, user_ctx: self.user_ctx },
            ),
            LookupPhase::Perform => Pending::Perform(self.call),
            LookupPhase::ObjAttr(fid) => Pending::GetAttr(
                AttrCall { id: fid, user_ctx: self.user_ctx },
            ),
            LookupPhase::Finished(_) => Pending::Finished,
        }
    }

    /// Takes the reply to the request for attributes that is pending.
    pub fn attr(self, reply: AttrReply) -> (next: Self)
        requires
            self.awaiting() is GetAttr,
        ensures
            next == self.after_attr(reply),
    {
        match self.phase {
            LookupPhase::DirAttr => Lookup {
                dir_attr: post_attr(reply),
                phase: LookupPhase::Perform,
                ..self
            },
            LookupPhase::ObjAttr(fid) => Lookup {
                obj_attr: post_attr(reply),
                phase: LookupPhase::Finished(Ok(fid)),
                ..self
            },
            _ => unreached(),
        }
    }

    /// Takes the result of the finding of the file, which is pending.
    pub fn performed(self, result: Result<fileid3, nfsstat3>) -> (next: Self)
        requires
            self.awaiting() is Perform,
        ensures
            next == self.after_performed(result),
    {
        let phase = match result {
            Ok(fid) => LookupPhase::ObjAttr(fid),
            Err(stat) => LookupPhase::Finished(Err(stat)),
        };
        Lookup { phase, ..self }
    }

    /// The result of the lookup, once it has ended.
    pub fn into_result(self) -> (result: Result<fileid3, nfsstat3>)
        requires
            self.awaiting() is Finished,
        ensures
            self.phase == LookupPhase::Finished(result),
    {
        match self.phase {
            LookupPhase::Finished(result) => result,
            _ => unreached(),
        }
    }
}

/// A lookup asks, on behalf of its user, for the directory's attributes and then makes the call
/// that finds the file, whatever became of that request. If a file is found it asks for that
/// file's attributes too and ends with the file's id. It reports the attributes that were answered.
pub proof fn lookup_finds<'a>(op: Lookup<'a>, dir: AttrReply, fid: fileid3, obj: AttrReply)
    requires
        op.phase == LookupPhase::DirAttr,
    ensures
        ({
            let ask_dir = AttrCall { id: op.call.dirid, user_ctx: op.user_ctx };
            let ask_obj = AttrCall { id: fid, user_ctx: op.user_ctx };
            let one = op.after_attr(dir);
            let two = one.after_performed(Ok(fid));
            let three = two.after_attr(obj);
            &&& op.awaiting() matches Pending::GetAttr(call) && call == ask_dir
            &&& one.awaiting() == Pending::Perform(op.call)
            &&& two.awaiting() matches Pending::GetAttr(call) && call == ask_obj
            &&& three.awaiting() is Finished
            &&& match dir {
                Ok(attr) => one.dir_attr == post_op_attr::attributes(attr),
                Err(_) => one.dir_attr is Void,
            }
            &&& match obj {
                Ok(attr) => three.obj_attr == post_op_attr::attributes(attr),
                Err(_) => three.obj_attr is Void,
            }
            &&& one == Lookup { dir_attr: one.dir_attr, phase: LookupPhase::Perform, ..op }
            &&& two == Lookup { phase: LookupPhase::ObjAttr(fid), ..one }
            &&& three == Lookup {
                obj_attr: three.obj_attr,
                phase: LookupPhase::Finished(Ok(fid)),
                ..two
            }
        }),
{
}

/// A lookup that finds no file ends with the status that was given for it; of the attributes only
/// the directory's are reported.
pub proof fn lookup_fails<'a>(op: Lookup<'a>, dir: AttrReply, stat: nfsstat3)
    requires
        op.phase == LookupPhase::DirAttr,
    ensures
        ({
            let one = op.after_attr(dir);
            let two = one.after_performed(Err(stat));
            &&& two.awaiting() is Finished
            &&& match dir {
                Ok(attr) => two.dir_attr == post_op_attr::attributes(attr),
                Err(_) => two.dir_attr is Void,
            }
            &&& two == Lookup {
                dir_attr: two.dir_attr,
                phase: LookupPhase::Finished(Err(stat)),
                ..op
            }
        }),
{
}

/// The end of a lookup whose own call gives `result` and whose requests for the attributes of the
/// directory and of the file are answered by `dir` and `obj`.
pub open spec fn lookup_end<'a>(
    op: Lookup<'a>,
    dir: AttrReply,
    result: Result<fileid3, nfsstat3>,
    obj: AttrReply,
) -> Lookup<'a> {
    let performed = op.after_attr(dir).after_performed(result);
    if performed.awaiting() is Finished {
        performed
    } else {
        performed.after_attr(obj)
    }
}

/// A lookup ends with what its own call gives, whatever becomes of the requests for attributes.
pub proof fn lookup_gives_what_its_call_gives<'a>(
    op: Lookup<'a>,
    dir: AttrReply,
    result: Result<fileid3, nfsstat3>,
    obj: AttrReply,
)
    requires
        op.phase == LookupPhase::DirAttr,
    ensures
        lookup_end(op, dir, result, obj).phase == LookupPhase::Finished(result),
{
}

} // verus!
