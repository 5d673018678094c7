//! Attributes as they are reported beside the result of an operation.
use crate::nfs::{fattr3, nfsstat3, post_op_attr, pre_op_attr, wcc_attr};
use vstd::prelude::*;

verus! {

/// The answer to a request for a file's attributes.
pub type AttrReply = Result<fattr3, nfsstat3>;

/// Whether an operation goes on when the attributes it asks for at its start cannot be had.
#[derive(Clone, Copy, Debug, PartialEq, Eq, Structural)]
pub enum AttrPolicy {
    /// The operation ends with the status that was given for them.
    Required,
    /// The operation goes on and reports none.
    Optional,
}

impl AttrPolicy {
    /// Whether an operation ends when the attributes are answered by `reply`.
    pub open spec fn refuses(self, reply: AttrReply) -> bool {
        self == AttrPolicy::Required && reply is Err
    }
}

/// The part of `attr` by which a client detects changes.
pub open spec fn wcc_of(attr: fattr3) -> wcc_attr {
    wcc_attr { size: attr.size, mtime: attr.mtime, ctime: attr.ctime }
}

/// What is reported from before an operation when the attributes were answered by `reply`.
pub open spec fn pre_attr_of(reply: AttrReply) -> pre_op_attr {
    match reply {
        Ok(attr) => pre_op_attr::attributes(wcc_of(attr)),
        Err(_) => pre_op_attr::Void,
    }
}

/// What is reported beside a result when the attributes were answered by `reply`.
pub open spec fn post_attr_of(reply: AttrReply) -> post_op_attr {
    match reply {
        Ok(attr) => post_op_attr::attributes(attr),
        Err(_) => post_op_attr::Void,
    }
}

/// Reduces attributes to what is reported from before an operation; a failure is reported as
/// the absence of attributes.
pub fn pre_attr(reply: AttrReply) -> (attr: pre_op_attr)
    ensures
        attr == pre_attr_of(reply),
        match reply {
            Ok(a) => {
                &&& attr matches pre_op_attr::attributes(w)
                &&& w.size == a.size
                &&& w.mtime == a.mtime
                &&& w.ctime == a.ctime
            },
            Err(_) => attr is Void,
        },
{
    match reply {
        Ok(v) => {
            let wccattr = wcc_attr { size: v.size, mtime: v.mtime, ctime: v.ctime };
            pre_op_attr::attributes(wccattr)
        },
        Err(_) => pre_op_attr::Void,
    }
}

/// Turns attributes into what is reported beside a result; a failure is reported as the absence
/// of attributes.
pub fn post_attr(reply: AttrReply) -> (attr: post_op_attr)
    ensures
        attr == post_attr_of(reply),
        match reply {
            Ok(a) => attr == post_op_attr::attributes(a),
            Err(_) => attr is Void,
        },
{
    match reply {
        Ok(v) => post_op_attr::attributes(v),
        Err(_) => post_op_attr::Void,
    }
}

/// What is reported from before an operation is the size, the modification time and the change
/// time of the file as they were answered, and nothing where there was no answer.
pub proof fn reported_before(reply: AttrReply)
    ensures
        reply matches Ok(a) ==> {
            &&& pre_attr_of(reply) matches pre_op_attr::attributes(w)
            &&& w.size == a.size
            &&& w.mtime == a.mtime
            &&& w.ctime == a.ctime
        },
        reply is Err ==> pre_attr_of(reply) is Void,
        forall|a: fattr3|
            {
                &&& (#[trigger] wcc_of(a)).size == a.size
                &&& wcc_of(a).mtime == a.mtime
                &&& wcc_of(a).ctime == a.ctime
            },
{
}

/// What is reported beside a result are the attributes of the file as they were answered, all of
/// them and unchanged, and nothing where there was no answer.
pub proof fn reported_beside(reply: AttrReply)
    ensures
        reply matches Ok(a) ==> post_attr_of(reply) == post_op_attr::attributes(a),
        reply is Err ==> post_attr_of(reply) is Void,
{
}

/// Attributes that were answered never end an operation, and nothing ends one that can do without
/// them; one that needs them ends whenever they cannot be had.
pub proof fn refused_only_without_attributes(attr: fattr3, stat: nfsstat3, reply: AttrReply)
    ensures
        !AttrPolicy::Required.refuses(Ok(attr)),
        !AttrPolicy::Optional.refuses(reply),
        AttrPolicy::Required.refuses(Err(stat)),
{
}

} // verus!
