//! Checking access permissions.
use crate::attr::{post_attr, post_attr_of, AttrReply};
use crate::nfs::{fattr3, fileid3, nfsstat3, post_op_attr, ACCESS3_LOOKUP, ACCESS3_READ};
use crate::pending::{AttrCall, Pending};
use crate::user::UserContext;
use vstd::pervasive::unreached;
use vstd::prelude::*;

verus! {

/// What a file system can do.
#[derive(Clone, Copy, Debug, PartialEq, Eq, Structural)]
pub enum VFSCapabilities {
    ReadOnly,
    ReadWrite,
}

impl VFSCapabilities {
    /// Those of the permissions `access` that a file system of these capabilities grants.
    pub open spec fn grants(self, access: u32) -> u32 {
        match self {
            VFSCapabilities::ReadWrite => access,
            VFSCapabilities::ReadOnly => access & (ACCESS3_READ | ACCESS3_LOOKUP),
        }
    }
}

/// The call that asks the file system for its capabilities.
#[derive(Clone, Copy, Debug, PartialEq, Eq, Structural)]
pub struct CapabilitiesCall;

/// How far an access check has come.
#[derive(Clone, Copy, Debug, PartialEq, Eq)]
pub enum AccessPhase {
    /// The file's attributes are awaited.
    Attr,
    /// The file system's capabilities are awaited.
    Capabilities,
    /// The check has ended.
    Finished(Result<u32, nfsstat3>),
}

/// An access check in progress, with the attributes reported so far.
#[derive(Clone, Copy, Debug, PartialEq, Eq)]
pub struct Access<'a> {
    pub id: fileid3,
    pub access: u32,
    pub user_ctx: &'a UserContext,
    pub obj_attr: post_op_attr,
    pub phase: AccessPhase,
}

/// Starts a check which of the permissions `requested` are granted on a file. The attributes given
/// are those that stay in place where the operation reports none.
pub fn access<'a>(
    id: fileid3,
    requested: u32,
    user_ctx: &'a UserContext,
    obj_attr: post_op_attr,
) -> (op: Access<'a>)
    ensures
        op == (Access { id, access: requested, user_ctx, obj_attr, phase: AccessPhase::Attr }),
{
    Access { id, access: requested, user_ctx, obj_attr, phase: AccessPhase::Attr }
}

impl<'a> Access<'a> {
    /// The step that comes next.
    pub open spec fn awaiting(self) -> Pending<'a, CapabilitiesCall> {
        match self.phase {
            AccessPhase::Attr => Pending::GetAttr(
                AttrCall { id: self.id, user_ctx: self.user_ctx },
            ),
            AccessPhase::Capabilities => Pending::Perform(CapabilitiesCall),
            AccessPhase::Finished(_) => Pending::Finished,
        }
    }

    /// The operation once its request for attributes was answered by `reply`.
    pub open spec fn after_attr(self, reply: AttrReply) -> Self {
        match reply {
            Ok(_) => Access {
                obj_attr: post_attr_of(reply),
                phase: AccessPhase::Capabilities,
                ..self
            },
            Err(stat) => Access { phase: AccessPhase::Finished(Err(stat)), ..self },
        }
    }

    /// The operation once the file system has told its capabilities.
    pub open spec fn after_performed(self, capabilities: VFSCapabilities) -> Self {
        Access { phase: AccessPhase::Finished(Ok(capabilities.grants(self.access))), ..self }
    }

    /// Says which step comes next.
    pub fn pending(&self) -> (next: Pending<'a, CapabilitiesCall>)
        ensures
            next == self.awaiting(),
    {
        match self.phase {
            AccessPhase::Attr => Pending::GetAttr(
                AttrCall { id: self.id, user_ctx: self.user_ctx },
            ),
            AccessPhase::Capabilities => Pending::Perform(CapabilitiesCall),
            AccessPhase::Finished(_) => Pending::Finished,
        }
    }

    /// Takes the reply to the request for attributes that is pending.
    pub fn attr(self, reply: AttrReply) -> (next: Self)
        requires
            self.awaiting() is GetAttr,
        ensures
            next == self.after_attr(reply),
    {
        match reply {
            Ok(_) => Access {
                obj_attr: post_attr(reply),
                phase: AccessPhase::Capabilities,
                ..self
            },
            Err(stat) => Access { phase: AccessPhase::Finished(Err(stat)), ..self },
        }
    }

    /// Takes the file system's capabilities, which are pending.
    pub fn performed(self, capabilities: VFSCapabilities) -> (next: Self)
        requires
            self.awaiting() is Perform,
        ensures
            next == self.after_performed(capabilities),
    {
        let mut new_access: u32 = self.access;
        if !matches!(capabilities, VFSCapabilities::ReadWrite) {
            new_access = new_access & (ACCESS3_READ | ACCESS3_LOOKUP);
        }
        Access { phase: AccessPhase::Finished(Ok(new_access)), ..self }
    }

    /// The result of the check, once it has ended.
    pub fn into_result(self) -> (result: Result<u32, nfsstat3>)
        requires
            self.awaiting() is Finished,
        ensures
            self.phase == AccessPhase::Finished(result),
    {
        match self.phase {
            AccessPhase::Finished(result) => result,
            _ => unreached(),
        }
    }
}

/// An access check asks, on behalf of its user, for the file's attributes, then for the file
/// system's capabilities, and ends with the permissions that are granted: all that were asked for
/// on a file system that can be written to, and of these only reading and looking up on one that
/// cannot. The attributes are reported.
pub proof fn access_completes<'a>(op: Access<'a>, attr: fattr3, capabilities: VFSCapabilities)
    requires
        op.phase == AccessPhase::Attr,
    ensures
        ({
            let one = op.after_attr(Ok(attr));
            let two = one.after_performed(capabilities);
            &&& op.awaiting().asks_attr(op.id, op.user_ctx)
            &&& op.awaiting() matches Pending::GetAttr(call) && call == AttrCall {
                id: op.id,
                user_ctx: op.user_ctx,
            }
            &&& one.awaiting() is Perform
            &&& two.awaiting() is Finished
            &&& one == Access {
                obj_attr: post_op_attr::attributes(attr),
                phase: AccessPhase::Capabilities,
                ..op
            }
            &&& two.phase matches AccessPhase::Finished(Ok(granted)) && match capabilities {
                VFSCapabilities::ReadWrite => granted == op.access,
                VFSCapabilities::ReadOnly => granted == op.access & 0x0003,
            }
            &&& two == Access { phase: two.phase, ..one }
        }),
{
    read_only_grants(op.access);
}

/// An access check on a file whose attributes cannot be had ends at once with the status that was
/// given for them, and reports no attributes.
pub proof fn access_refused<'a>(op: Access<'a>, stat: nfsstat3)
    requires
        op.phase == AccessPhase::Attr,
    ensures
        op.after_attr(Err(stat)).awaiting() is Finished,
        op.after_attr(Err(stat)) == (Access { phase: AccessPhase::Finished(Err(stat)), ..op }),
{
}

/// A file system that can be written to grants all that is asked for, whatever it is.
pub proof fn read_write_grants(access: u32)
    ensures
        VFSCapabilities::ReadWrite.grants(access) == access,
{
}

/// No permission is granted that was not asked for, and asking again for what was granted grants
/// the same.
pub proof fn grants_only_what_was_asked(capabilities: VFSCapabilities, access: u32)
    ensures
        capabilities.grants(access) & access == capabilities.grants(access),
        capabilities.grants(capabilities.grants(access)) == capabilities.grants(access),
{
    assert(access & access == access) by (bit_vector);
    let mask = ACCESS3_READ | ACCESS3_LOOKUP;
    assert((access & mask) & access == access & mask) by (bit_vector);
    assert((access & mask) & mask == access & mask) by (bit_vector);
}

/// A read-only file system grants nothing but reading and looking up, and grants both of these
/// where they are asked for.
pub proof fn read_only_grants(access: u32)
    ensures
        VFSCapabilities::ReadOnly.grants(access) & !(ACCESS3_READ | ACCESS3_LOOKUP) == 0,
        VFSCapabilities::ReadOnly.grants(access) & ACCESS3_READ == access & ACCESS3_READ,
        VFSCapabilities::ReadOnly.grants(access) & ACCESS3_LOOKUP == access & ACCESS3_LOOKUP,
        VFSCapabilities::ReadOnly.grants(access) == access & 0x0003,
{
    assert(access & (ACCESS3_READ | ACCESS3_LOOKUP) == access & 0x0003) by (bit_vector);
    assert((access & (ACCESS3_READ | ACCESS3_LOOKUP)) & !(ACCESS3_READ | ACCESS3_LOOKUP) == 0)
        by (bit_vector);
    assert((access & (ACCESS3_READ | ACCESS3_LOOKUP)) & ACCESS3_READ == access & ACCESS3_READ)
        by (bit_vector);
    assert((access & (ACCESS3_READ | ACCESS3_LOOKUP)) & ACCESS3_LOOKUP == access & ACCESS3_LOOKUP)
        by (bit_vector);
}

} // verus!
