//! Static information about the file system.
use crate::attr::{post_attr, post_attr_of, AttrReply};
use crate::nfs::{
    fileid3, fsinfo3, nfsstat3, nfstime3, post_op_attr, FSF_CANSETTIME, FSF_HOMOGENEOUS,
    FSF_SYMLINK,
};
use crate::pending::AttrCall;
use crate::user::UserContext;
use vstd::prelude::*;

verus! {

/// The largest size of a transfer, the size preferred for all but reads, and the multiple
/// preferred for any, in bytes.
pub const TRANSFER_SIZE: u32 = 1024 * 1024;

/// The preferred size of a read, in bytes.
pub const READ_PREFERRED: u32 = 1024 * 124;

/// The size that no file exceeds, in bytes.
pub const MAX_FILE_SIZE: u64 = 128 * 1024 * 1024 * 1024;

/// The precision of file times, in nanoseconds.
pub const TIME_PRECISION: u32 = 1000000;

/// A request for information, which waits for the root directory's attributes.
#[derive(Clone, Copy, Debug, PartialEq, Eq)]
pub struct FsInfo<'a> {
    pub call: AttrCall<'a>,
}

/// The information about a file system whose root directory has the attributes `dir_attr`.
pub open spec fn fsinfo_of(dir_attr: post_op_attr) -> fsinfo3 {
    fsinfo3 {
        obj_attributes: dir_attr,
        rtmax: TRANSFER_SIZE,
        rtpref: READ_PREFERRED,
        rtmult: TRANSFER_SIZE,
        wtmax: TRANSFER_SIZE,
        wtpref: TRANSFER_SIZE,
        wtmult: TRANSFER_SIZE,
        dtpref: TRANSFER_SIZE,
        maxfilesize: MAX_FILE_SIZE,
        time_delta: nfstime3 { seconds: 0, nseconds: TIME_PRECISION },
        properties: FSF_SYMLINK | FSF_HOMOGENEOUS | FSF_CANSETTIME,
    }
}

/// Starts a request for information about the file system.
pub fn fsinfo<'a>(root_fileid: fileid3, user_ctx: &'a UserContext) -> (op: FsInfo<'a>)
    ensures
        op == (FsInfo { call: AttrCall { id: root_fileid, user_ctx } }),
{
    FsInfo { call: AttrCall { id: root_fileid, user_ctx } }
}

impl<'a> FsInfo<'a> {
    /// Says which call is to be made.
    pub fn pending(&self) -> (call: AttrCall<'a>)
        ensures
            call == self.call,
    {
        self.call
    }

    /// Takes the reply to that call and gives the information, which is there even where the
    /// attributes are not.
    pub fn attr(self, reply: AttrReply) -> (result: Result<fsinfo3, nfsstat3>)
        ensures
            result == Ok::<fsinfo3, nfsstat3>(fsinfo_of(post_attr_of(reply))),
            result matches Ok(info) && match reply {
                Ok(attr) => info.obj_attributes == post_op_attr::attributes(attr),
                Err(_) => info.obj_attributes is Void,
            },
    {
        let res = fsinfo3 {
            obj_attributes: post_attr(reply),
            rtmax: TRANSFER_SIZE,
            rtpref: READ_PREFERRED,
            rtmult: TRANSFER_SIZE,
            wtmax: TRANSFER_SIZE,
            wtpref: TRANSFER_SIZE,
            wtmult: TRANSFER_SIZE,
            dtpref: TRANSFER_SIZE,
            maxfilesize: MAX_FILE_SIZE,
            time_delta: nfstime3 { seconds: 0, nseconds: TIME_PRECISION },
            properties: FSF_SYMLINK | FSF_HOMOGENEOUS | FSF_CANSETTIME,
        };
        Ok(res)
    }
}

/// The information gives the root directory's attributes as they are, and beside them always the
/// same: transfers of up to a mebibyte, preferably of 124 kibibytes where something is read and of
/// a mebibyte elsewhere, files of up to 128 gibibytes, times to the millisecond, symbolic links, a
/// homogeneous file system and times that can be set.
pub proof fn information_is_fixed(dir_attr: post_op_attr)
    ensures
        ({
            let info = fsinfo_of(dir_attr);
            &&& info.obj_attributes == dir_attr
            &&& info.rtmax == 1048576 && info.rtpref == 126976 && info.rtmult == 1048576
            &&& info.wtmax == 1048576 && info.wtpref == 1048576 && info.wtmult == 1048576
            &&& info.dtpref == 1048576
            &&& info.maxfilesize == 137438953472
            &&& info.time_delta.seconds == 0 && info.time_delta.nseconds == 1000000
            &&& info.properties == 0x001a
        }),
{
    assert(FSF_SYMLINK | FSF_HOMOGENEOUS | FSF_CANSETTIME == 0x001a) by (bit_vector);
}

} // verus!
