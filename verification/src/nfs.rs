//! The NFS version 3 data types that the file system layer handles.
use vstd::prelude::*;

verus! {

/// A number that identifies a file within the file system; zero is reserved.
pub type fileid3 = u64;

/// The name of a file within its directory.
pub type filename3 = nfsstring;

/// The target of a symbolic link.
pub type nfspath3 = nfsstring;

/// A verifier that tells one run of the server from another.
pub type cookieverf3 = [u8; 8];

/// A size in bytes.
pub type size3 = u64;

/// Permission bits.
pub type mode3 = u32;

/// A user id.
pub type uid3 = u32;

/// A group id.
pub type gid3 = u32;

/// Permission to read a file or list a directory.
pub const ACCESS3_READ: u32 = 0x0001;

/// Permission to look a name up in a directory.
pub const ACCESS3_LOOKUP: u32 = 0x0002;

/// The file system supports symbolic links.
pub const FSF_SYMLINK: u32 = 0x0002;

/// Path configuration is the same for all files of the file system.
pub const FSF_HOMOGENEOUS: u32 = 0x0008;

/// The server can set file times to the precision it announces.
pub const FSF_CANSETTIME: u32 = 0x0010;

/// The status with which a procedure ends.
#[derive(Clone, Copy, Debug, PartialEq, Eq, Structural)]
pub enum nfsstat3 {
    NFS3_OK,
    NFS3ERR_PERM,
    NFS3ERR_NOENT,
    NFS3ERR_IO,
    NFS3ERR_NXIO,
    NFS3ERR_ACCES,
    NFS3ERR_EXIST,
    NFS3ERR_XDEV,
    NFS3ERR_NODEV,
    NFS3ERR_NOTDIR,
    NFS3ERR_ISDIR,
    NFS3ERR_INVAL,
    NFS3ERR_FBIG,
    NFS3ERR_NOSPC,
    NFS3ERR_ROFS,
    NFS3ERR_MLINK,
    NFS3ERR_NAMETOOLONG,
    NFS3ERR_NOTEMPTY,
    NFS3ERR_DQUOT,
    NFS3ERR_STALE,
    NFS3ERR_REMOTE,
    NFS3ERR_BADHANDLE,
    NFS3ERR_NOT_SYNC,
    NFS3ERR_BAD_COOKIE,
    NFS3ERR_NOTSUPP,
    NFS3ERR_TOOSMALL,
    NFS3ERR_SERVERFAULT,
    NFS3ERR_BADTYPE,
    NFS3ERR_JUKEBOX,
}

/// A byte string; names and link targets need not be UTF-8.
#[derive(Debug, PartialEq, Eq)]
pub struct nfsstring(pub Vec<u8>);

impl View for nfsstring {
    type V = Seq<u8>;

    open spec fn view(&self) -> Seq<u8> {
        self.0@
    }
}

impl Clone for nfsstring {
    fn clone(&self) -> (copy: Self)
        ensures
            copy@ == self@,
            copy.0@ == self.0@,
    {
        let copy = nfsstring(self.0.clone());
        assert(copy@ =~= self@);
        copy
    }
}

impl Default for nfsstring {
    fn default() -> (empty: Self)
        ensures
            empty@ == Seq::<u8>::empty(),
            empty.0@.len() == 0,
    {
        nfsstring(Vec::new())
    }
}

/// An opaque file handle.
#[derive(Debug, PartialEq, Eq)]
pub struct nfs_fh3 {
    pub data: Vec<u8>,
}

impl View for nfs_fh3 {
    type V = Seq<u8>;

    open spec fn view(&self) -> Seq<u8> {
        self.data@
    }
}

/// A point in time, counted from the Unix epoch.
#[derive(Clone, Copy, Debug, PartialEq, Eq, Structural)]
pub struct nfstime3 {
    pub seconds: u32,
    pub nseconds: u32,
}

impl Default for nfstime3 {
    fn default() -> (time: Self)
        ensures
            time == (nfstime3 { seconds: 0, nseconds: 0 }),
    {
        nfstime3 { seconds: 0, nseconds: 0 }
    }
}

/// The kind of a file.
#[derive(Clone, Copy, Debug, PartialEq, Eq, Structural)]
pub enum ftype3 {
    NF3REG,
    NF3DIR,
    NF3BLK,
    NF3CHR,
    NF3LNK,
    NF3SOCK,
    NF3FIFO,
}

/// The numbers of a device file.
#[derive(Clone, Copy, Debug, PartialEq, Eq, Structural)]
pub struct specdata3 {
    pub specdata1: u32,
    pub specdata2: u32,
}

/// The attributes of a file.
#[derive(Clone, Copy, Debug, PartialEq, Eq, Structural)]
pub struct fattr3 {
    pub ftype: ftype3,
    pub mode: mode3,
    pub nlink: u32,
    pub uid: uid3,
    pub gid: gid3,
    pub size: size3,
    pub used: size3,
    pub rdev: specdata3,
    pub fsid: u64,
    pub fileid: fileid3,
    pub atime: nfstime3,
    pub mtime: nfstime3,
    pub ctime: nfstime3,
}

impl fattr3 {
    /// The attributes of an empty regular file whose every number is zero.
    pub open spec fn zeroed() -> fattr3 {
        let epoch = nfstime3 { seconds: 0, nseconds: 0 };
        fattr3 {
            ftype: ftype3::NF3REG,
            mode: 0,
            nlink: 0,
            uid: 0,
            gid: 0,
            size: 0,
            used: 0,
            rdev: specdata3 { specdata1: 0, specdata2: 0 },
            fsid: 0,
            fileid: 0,
            atime: epoch,
            mtime: epoch,
            ctime: epoch,
        }
    }
}

impl Default for fattr3 {
    fn default() -> (attr: Self)
        ensures
            attr == fattr3::zeroed(),
    {
        let epoch = nfstime3 { seconds: 0, nseconds: 0 };
        fattr3 {
            ftype: ftype3::NF3REG,
            mode: 0,
            nlink: 0,
            uid: 0,
            gid: 0,
            size: 0,
            used: 0,
            rdev: specdata3 { specdata1: 0, specdata2: 0 },
            fsid: 0,
            fileid: 0,
            atime: epoch,
            mtime: epoch,
            ctime: epoch,
        }
    }
}

/// The part of a file's attributes by which a client detects changes.
#[derive(Clone, Copy, Debug, PartialEq, Eq, Structural)]
pub struct wcc_attr {
    pub size: size3,
    pub mtime: nfstime3,
    pub ctime: nfstime3,
}

/// Attributes from before an operation, where they could be had.
#[derive(Clone, Copy, Debug, PartialEq, Eq, Structural)]
pub enum pre_op_attr {
    Void,
    attributes(wcc_attr),
}

/// Attributes that accompany a result, where they could be had.
#[derive(Clone, Copy, Debug, PartialEq, Eq, Structural)]
pub enum post_op_attr {
    Void,
    attributes(fattr3),
}

/// A change of the permission bits.
#[derive(Clone, Copy, Debug, PartialEq, Eq, Structural)]
pub enum set_mode3 {
    Void,
    mode(mode3),
}

/// A change of the owner.
#[derive(Clone, Copy, Debug, PartialEq, Eq, Structural)]
pub enum set_uid3 {
    Void,
    uid(uid3),
}

/// A change of the group.
#[derive(Clone, Copy, Debug, PartialEq, Eq, Structural)]
pub enum set_gid3 {
    Void,
    gid(gid3),
}

/// A change of the size.
#[derive(Clone, Copy, Debug, PartialEq, Eq, Structural)]
pub enum set_size3 {
    Void,
    size(size3),
}

/// A change of the access time.
#[derive(Clone, Copy, Debug, PartialEq, Eq, Structural)]
pub enum set_atime {
    DONT_CHANGE,
    SET_TO_SERVER_TIME,
    SET_TO_CLIENT_TIME(nfstime3),
}

/// A change of the modification time.
#[derive(Clone, Copy, Debug, PartialEq, Eq, Structural)]
pub enum set_mtime {
    DONT_CHANGE,
    SET_TO_SERVER_TIME,
    SET_TO_CLIENT_TIME(nfstime3),
}

/// The attributes that a client asks to be set.
#[derive(Clone, Copy, Debug, PartialEq, Eq, Structural)]
pub struct sattr3 {
    pub mode: set_mode3,
    pub uid: set_uid3,
    pub gid: set_gid3,
    pub size: set_size3,
    pub atime: set_atime,
    pub mtime: set_mtime,
}

/// Static information about a file system.
#[derive(Clone, Copy, Debug, PartialEq, Eq, Structural)]
pub struct fsinfo3 {
    pub obj_attributes: post_op_attr,
    pub rtmax: u32,
    pub rtpref: u32,
    pub rtmult: u32,
    pub wtmax: u32,
    pub wtpref: u32,
    pub wtmult: u32,
    pub dtpref: u32,
    pub maxfilesize: size3,
    pub time_delta: nfstime3,
    pub properties: u32,
}

/// The Unix credentials that accompany a request.
#[derive(Debug)]
pub struct auth_unix {
    pub stamp: u32,
    pub machinename: Vec<u8>,
    pub uid: uid3,
    pub gid: gid3,
    pub gids: Vec<u32>,
}

/// The contents of a byte string or of a handle are its bytes, all of them and in their order.
pub proof fn contents_are_the_bytes(string: nfsstring, fh: nfs_fh3)
    ensures
        string@ == string.0@,
        fh@ == fh.data@,
{
}

/// The attributes that stand for none are those of a regular file with zero in every number.
pub proof fn zeroed_attributes_hold_nothing()
    ensures
        ({
            let attr = fattr3::zeroed();
            &&& attr.ftype == ftype3::NF3REG
            &&& attr.mode == 0 && attr.nlink == 0 && attr.uid == 0 && attr.gid == 0
            &&& attr.size == 0 && attr.used == 0 && attr.fsid == 0 && attr.fileid == 0
            &&& attr.rdev.specdata1 == 0 && attr.rdev.specdata2 == 0
            &&& attr.atime.seconds == 0 && attr.atime.nseconds == 0
            &&& attr.mtime.seconds == 0 && attr.mtime.nseconds == 0
            &&& attr.ctime.seconds == 0 && attr.ctime.nseconds == 0
        }),
{
}

} // verus!
