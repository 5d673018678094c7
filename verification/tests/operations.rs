use nfs_vfs::access::{access, CapabilitiesCall, VFSCapabilities};
use nfs_vfs::file::{read, readlink, ReadCall, ReadlinkCall, WriteCall};
use nfs_vfs::fsinfo::fsinfo;
use nfs_vfs::lookup::{lookup, LookupCall};
use nfs_vfs::nfs::{
    fattr3, filename3, fsinfo3, ftype3, nfsstat3, nfsstring, nfstime3, post_op_attr, pre_op_attr,
    sattr3, set_atime, set_gid3, set_mode3, set_mtime, set_size3, set_uid3, wcc_attr,
};
use nfs_vfs::pending::{AttrCall, Pending};
use nfs_vfs::rename::{rename, RenameCall};
use nfs_vfs::update::{
    create, create_exclusive, mkdir, remove, symlink, CreateCall, CreateExclusiveCall, MkdirCall,
    RemoveCall, SymlinkCall,
};
use nfs_vfs::user::UserContext;

fn user() -> UserContext {
    UserContext::new(1000, 100, vec![4, 24])
}

fn name(bytes: &[u8]) -> filename3 {
    nfsstring(bytes.to_vec())
}

fn attr(fileid: u64) -> fattr3 {
    let mut attr = fattr3::default();
    attr.ftype = ftype3::NF3DIR;
    attr.fileid = fileid;
    attr.size = 10 * fileid;
    attr.mtime = nfstime3 { seconds: fileid as u32, nseconds: 1 };
    attr.ctime = nfstime3 { seconds: fileid as u32, nseconds: 2 };
    attr
}

fn wcc(fileid: u64) -> pre_op_attr {
    pre_op_attr::attributes(wcc_attr {
        size: 10 * fileid,
        mtime: nfstime3 { seconds: fileid as u32, nseconds: 1 },
        ctime: nfstime3 { seconds: fileid as u32, nseconds: 2 },
    })
}

fn sattr() -> sattr3 {
    sattr3 {
        mode: set_mode3::mode(0o644),
        uid: set_uid3::uid(7),
        gid: set_gid3::Void,
        size: set_size3::size(0),
        atime: set_atime::SET_TO_SERVER_TIME,
        mtime: set_mtime::DONT_CHANGE,
    }
}

#[test]
fn rename_between_directories() {
    let (user_ctx, from, to) = (user(), name(b"a"), name(b"b"));
    let ask = |id| Pending::GetAttr(AttrCall { id, user_ctx: &user_ctx });
    let void = (pre_op_attr::Void, post_op_attr::Void);
    let op = rename(1, &from, 2, &to, &user_ctx, void.0, void.0, void.1, void.1);
    assert_eq!(op.pending(), ask(1));
    let op = op.attr(Ok(attr(1)));
    assert_eq!(op.pending(), ask(2));
    let op = op.attr(Ok(attr(2)));
    let call =
        RenameCall { from_dirid: 1, from_filename: &from, to_dirid: 2, to_filename: &to };
    assert_eq!(op.pending(), Pending::Perform(call));
    let op = op.performed(Ok(()));
    assert_eq!(op.pending(), ask(1));
    let op = op.attr(Ok(attr(11)));
    assert_eq!(op.pending(), ask(2));
    let op = op.attr(Err(nfsstat3::NFS3ERR_IO));
    assert_eq!(op.pending(), Pending::Finished);
    assert_eq!(op.pre_from_dir_attr, wcc(1));
    assert_eq!(op.pre_to_dir_attr, wcc(2));
    assert_eq!(op.post_from_dir_attr, post_op_attr::attributes(attr(11)));
    assert_eq!(op.post_to_dir_attr, post_op_attr::Void);
    assert_eq!(op.into_result(), Ok(()));
}

#[test]
fn rename_that_fails_still_reports_attributes() {
    let (user_ctx, from, to) = (user(), name(b"a"), name(b"b"));
    let void = (pre_op_attr::Void, post_op_attr::Void);
    let op = rename(1, &from, 2, &to, &user_ctx, void.0, void.0, void.1, void.1)
        .attr(Ok(attr(1)))
        .attr(Ok(attr(2)))
        .performed(Err(nfsstat3::NFS3ERR_ROFS))
        .attr(Ok(attr(1)))
        .attr(Ok(attr(2)));
    assert_eq!(op.post_from_dir_attr, post_op_attr::attributes(attr(1)));
    assert_eq!(op.post_to_dir_attr, post_op_attr::attributes(attr(2)));
    assert_eq!(op.into_result(), Err(nfsstat3::NFS3ERR_ROFS));
}

#[test]
fn rename_refused_before_the_change() {
    let (user_ctx, from, to) = (user(), name(b"a"), name(b"b"));
    let old = post_op_attr::attributes(attr(77));
    let fresh = || rename(1, &from, 2, &to, &user_ctx, wcc(5), wcc(6), old, old);

    let op = fresh().attr(Err(nfsstat3::NFS3ERR_STALE));
    assert_eq!(op.pending(), Pending::Finished);
    assert_eq!((op.pre_from_dir_attr, op.pre_to_dir_attr), (wcc(5), wcc(6)));
    assert_eq!((op.post_from_dir_attr, op.post_to_dir_attr), (old, old));
    assert_eq!(op.into_result(), Err(nfsstat3::NFS3ERR_STALE));

    let op = fresh().attr(Ok(attr(1))).attr(Err(nfsstat3::NFS3ERR_ACCES));
    assert_eq!(op.pending(), Pending::Finished);
    assert_eq!((op.pre_from_dir_attr, op.pre_to_dir_attr), (wcc(1), wcc(6)));
    assert_eq!((op.post_from_dir_attr, op.post_to_dir_attr), (old, old));
    assert_eq!(op.into_result(), Err(nfsstat3::NFS3ERR_ACCES));
}

#[test]
fn create_goes_on_without_attributes() {
    let (user_ctx, file) = (user(), name(b"f"));
    let ask = || Pending::GetAttr(AttrCall { id: 3, user_ctx: &user_ctx });
    let op = create(3, &file, sattr(), &user_ctx, wcc(9), post_op_attr::Void);
    assert_eq!(op.pending(), ask());
    let op = op.attr(Err(nfsstat3::NFS3ERR_IO));
    let call = CreateCall { dirid: 3, filename: &file, attr: sattr() };
    assert_eq!(op.pending(), Pending::Perform(call));
    assert_eq!(op.pre_attr, pre_op_attr::Void);
    let op = op.performed(Ok((8, attr(8))));
    assert_eq!(op.pending(), ask());
    let op = op.attr(Ok(attr(3)));
    assert_eq!(op.pending(), Pending::Finished);
    assert_eq!(op.post_attr, post_op_attr::attributes(attr(3)));
    assert_eq!(op.into_result(), Ok((8, attr(8))));
}

#[test]
fn create_exclusive_of_an_existing_file() {
    let (user_ctx, file) = (user(), name(b"f"));
    let op = create_exclusive(3, &file, &user_ctx, pre_op_attr::Void, post_op_attr::Void);
    let op = op.attr(Ok(attr(3)));
    let call = CreateExclusiveCall { dirid: 3, filename: &file };
    assert_eq!(op.pending(), Pending::Perform(call));
    let op = op.performed(Err(nfsstat3::NFS3ERR_EXIST)).attr(Err(nfsstat3::NFS3ERR_IO));
    assert_eq!((op.pre_attr, op.post_attr), (wcc(3), post_op_attr::Void));
    assert_eq!(op.into_result(), Err(nfsstat3::NFS3ERR_EXIST));
}

#[test]
fn create_exclusive_needs_attributes() {
    let (user_ctx, file) = (user(), name(b"f"));
    let old = post_op_attr::attributes(attr(77));
    let op = create_exclusive(3, &file, &user_ctx, wcc(5), old);
    let op = op.attr(Err(nfsstat3::NFS3ERR_STALE));
    assert_eq!(op.pending(), Pending::Finished);
    assert_eq!((op.pre_attr, op.post_attr), (wcc(5), old));
    assert_eq!(op.into_result(), Err(nfsstat3::NFS3ERR_STALE));
}

#[test]
fn mkdir_makes_its_call_once() {
    let (user_ctx, dir) = (user(), name(b"d"));
    let op = mkdir(3, &dir, &user_ctx, pre_op_attr::Void, post_op_attr::Void);
    assert_eq!(op.pending(), Pending::GetAttr(AttrCall { id: 3, user_ctx: &user_ctx }));
    let op = op.attr(Ok(attr(3)));
    assert_eq!(op.pending(), Pending::Perform(MkdirCall { dirid: 3, dirname: &dir }));
    let op = op.performed(Ok((4, attr(4))));
    assert_eq!(op.pending(), Pending::GetAttr(AttrCall { id: 3, user_ctx: &user_ctx }));
    let op = op.attr(Ok(attr(30)));
    assert_eq!((op.pre_attr, op.post_attr), (wcc(3), post_op_attr::attributes(attr(30))));
    assert_eq!(op.into_result(), Ok((4, attr(4))));

    let op = mkdir(3, &dir, &user_ctx, pre_op_attr::Void, post_op_attr::Void);
    assert_eq!(op.attr(Err(nfsstat3::NFS3ERR_IO)).into_result(), Err(nfsstat3::NFS3ERR_IO));
}

#[test]
fn remove_makes_its_call_once() {
    let (user_ctx, file) = (user(), name(b"f"));
    let op = remove(3, &file, &user_ctx, pre_op_attr::Void, post_op_attr::Void);
    let op = op.attr(Ok(attr(3)));
    assert_eq!(op.pending(), Pending::Perform(RemoveCall { dirid: 3, filename: &file }));
    let op = op.performed(Ok(())).attr(Ok(attr(30)));
    assert_eq!((op.pre_attr, op.post_attr), (wcc(3), post_op_attr::attributes(attr(30))));
    assert_eq!(op.into_result(), Ok(()));

    let op = remove(3, &file, &user_ctx, pre_op_attr::Void, post_op_attr::Void);
    assert_eq!(op.attr(Err(nfsstat3::NFS3ERR_IO)).into_result(), Err(nfsstat3::NFS3ERR_IO));
}

#[test]
fn symlink_makes_its_call_once() {
    let (user_ctx, link, target, wanted) = (user(), name(b"l"), name(b"/x/y"), sattr());
    let start =
        || symlink(3, &link, &target, &wanted, &user_ctx, pre_op_attr::Void, post_op_attr::Void);
    let op = start().attr(Ok(attr(3)));
    let call = SymlinkCall { dirid: 3, linkname: &link, symlink: &target, attr: &wanted };
    assert_eq!(op.pending(), Pending::Perform(call));
    let op = op.performed(Ok((5, attr(5)))).attr(Ok(attr(30)));
    assert_eq!((op.pre_attr, op.post_attr), (wcc(3), post_op_attr::attributes(attr(30))));
    assert_eq!(op.into_result(), Ok((5, attr(5))));

    let op = start().attr(Err(nfsstat3::NFS3ERR_NOTDIR));
    assert_eq!(op.into_result(), Err(nfsstat3::NFS3ERR_NOTDIR));
}

#[test]
fn lookup_of_a_file() {
    let (user_ctx, file) = (user(), name(b"a.txt"));
    let op = lookup(2, &file, &user_ctx, post_op_attr::Void, post_op_attr::Void);
    assert_eq!(op.pending(), Pending::GetAttr(AttrCall { id: 2, user_ctx: &user_ctx }));
    let op = op.attr(Ok(attr(2)));
    assert_eq!(op.pending(), Pending::Perform(LookupCall { dirid: 2, filename: &file }));
    let op = op.performed(Ok(9));
    assert_eq!(op.pending(), Pending::GetAttr(AttrCall { id: 9, user_ctx: &user_ctx }));
    let op = op.attr(Ok(attr(9)));
    assert_eq!(op.pending(), Pending::Finished);
    assert_eq!(op.dir_attr, post_op_attr::attributes(attr(2)));
    assert_eq!(op.obj_attr, post_op_attr::attributes(attr(9)));
    assert_eq!(op.into_result(), Ok(9));
}

#[test]
fn lookup_without_attributes_still_finds() {
    let (user_ctx, file) = (user(), name(b"a.txt"));
    let old = post_op_attr::attributes(attr(77));
    let op = lookup(2, &file, &user_ctx, old, old)
        .attr(Err(nfsstat3::NFS3ERR_IO))
        .performed(Ok(9))
        .attr(Err(nfsstat3::NFS3ERR_IO));
    assert_eq!((op.dir_attr, op.obj_attr), (post_op_attr::Void, post_op_attr::Void));
    assert_eq!(op.into_result(), Ok(9));
}

#[test]
fn lookup_of_a_missing_file() {
    let (user_ctx, file) = (user(), name(b"a.txt"));
    let old = post_op_attr::attributes(attr(77));
    let op = lookup(2, &file, &user_ctx, post_op_attr::Void, old)
        .attr(Ok(attr(2)))
        .performed(Err(nfsstat3::NFS3ERR_NOENT));
    assert_eq!(op.pending(), Pending::Finished);
    assert_eq!((op.dir_attr, op.obj_attr), (post_op_attr::attributes(attr(2)), old));
    assert_eq!(op.into_result(), Err(nfsstat3::NFS3ERR_NOENT));
}

#[test]
fn access_on_a_writable_file_system() {
    let user_ctx = user();
    let op = access(4, 0x3f, &user_ctx, post_op_attr::Void);
    assert_eq!(op.pending(), Pending::GetAttr(AttrCall { id: 4, user_ctx: &user_ctx }));
    let op = op.attr(Ok(attr(4)));
    assert_eq!(op.pending(), Pending::Perform(CapabilitiesCall));
    let op = op.performed(VFSCapabilities::ReadWrite);
    assert_eq!(op.pending(), Pending::Finished);
    assert_eq!(op.obj_attr, post_op_attr::attributes(attr(4)));
    assert_eq!(op.into_result(), Ok(0x3f));
}

#[test]
fn access_on_a_read_only_file_system() {
    let user_ctx = user();
    let granted = |requested| {
        access(4, requested, &user_ctx, post_op_attr::Void)
            .attr(Ok(attr(4)))
            .performed(VFSCapabilities::ReadOnly)
            .into_result()
    };
    assert_eq!(granted(0x3f), Ok(0x03));
    assert_eq!(granted(0x3c), Ok(0x00));
    assert_eq!(granted(0x05), Ok(0x01));
    assert_eq!(granted(0x02), Ok(0x02));
}

#[test]
fn access_without_attributes_is_refused() {
    let user_ctx = user();
    let old = post_op_attr::attributes(attr(77));
    let op = access(4, 0x3f, &user_ctx, old).attr(Err(nfsstat3::NFS3ERR_STALE));
    assert_eq!(op.pending(), Pending::Finished);
    assert_eq!(op.obj_attr, old);
    assert_eq!(op.into_result(), Err(nfsstat3::NFS3ERR_STALE));
}

#[test]
fn read_goes_on_without_attributes() {
    let user_ctx = user();
    let old = post_op_attr::attributes(attr(77));
    let op = read(4, 100, 20, &user_ctx, old);
    assert_eq!(op.pending(), Pending::GetAttr(AttrCall { id: 4, user_ctx: &user_ctx }));
    let op = op.attr(Err(nfsstat3::NFS3ERR_IO));
    assert_eq!(op.pending(), Pending::Perform(ReadCall { id: 4, offset: 100, count: 20 }));
    assert_eq!(op.obj_attr, post_op_attr::Void);
    let op = op.performed(Ok((vec![1, 2, 3], true)));
    assert_eq!(op.pending(), Pending::Finished);
    assert_eq!(op.into_result(), Ok((vec![1, 2, 3], true)));

    let op = read(4, 100, 20, &user_ctx, old).attr(Ok(attr(4)));
    let op = op.performed(Err(nfsstat3::NFS3ERR_ISDIR));
    assert_eq!(op.obj_attr, post_op_attr::attributes(attr(4)));
    assert_eq!(op.into_result(), Err(nfsstat3::NFS3ERR_ISDIR));
}

#[test]
fn readlink_needs_attributes() {
    let user_ctx = user();
    let old = post_op_attr::attributes(attr(77));
    let op = readlink(4, &user_ctx, old).attr(Ok(attr(4)));
    assert_eq!(op.pending(), Pending::Perform(ReadlinkCall { id: 4 }));
    let op = op.performed(Ok(name(b"/x")));
    assert_eq!(op.obj_attr, post_op_attr::attributes(attr(4)));
    assert_eq!(op.into_result(), Ok(name(b"/x")));

    let op = readlink(4, &user_ctx, old).attr(Err(nfsstat3::NFS3ERR_IO));
    assert_eq!(op.pending(), Pending::Finished);
    assert_eq!(op.obj_attr, old);
    assert_eq!(op.into_result(), Err(nfsstat3::NFS3ERR_IO));
}

#[test]
fn write_reports_attributes_from_before() {
    let user_ctx = user();
    let op = nfs_vfs::file::write(4, 100, b"data", &user_ctx, pre_op_attr::Void);
    assert_eq!(op.pending(), Pending::GetAttr(AttrCall { id: 4, user_ctx: &user_ctx }));
    let op = op.attr(Ok(attr(4)));
    let call = WriteCall { id: 4, offset: 100, data: b"data" };
    assert_eq!(op.pending(), Pending::Perform(call));
    let op = op.performed(Ok(attr(40)));
    assert_eq!(op.pending(), Pending::Finished);
    assert_eq!(op.obj_attr, wcc(4));
    assert_eq!(op.into_result(), Ok(attr(40)));

    let op = nfs_vfs::file::write(4, 100, b"data", &user_ctx, wcc(5));
    let op = op.attr(Err(nfsstat3::NFS3ERR_IO)).performed(Err(nfsstat3::NFS3ERR_ROFS));
    assert_eq!(op.obj_attr, pre_op_attr::Void);
    assert_eq!(op.into_result(), Err(nfsstat3::NFS3ERR_ROFS));
}

#[test]
fn fsinfo_values() {
    let user_ctx = user();
    let expected = |obj_attributes| fsinfo3 {
        obj_attributes,
        rtmax: 1048576,
        rtpref: 126976,
        rtmult: 1048576,
        wtmax: 1048576,
        wtpref: 1048576,
        wtmult: 1048576,
        dtpref: 1048576,
        maxfilesize: 137438953472,
        time_delta: nfstime3 { seconds: 0, nseconds: 1000000 },
        properties: 0x1a,
    };
    let op = fsinfo(1, &user_ctx);
    assert_eq!(op.pending(), AttrCall { id: 1, user_ctx: &user_ctx });
    assert_eq!(op.attr(Ok(attr(1))), Ok(expected(post_op_attr::attributes(attr(1)))));
    let failed = fsinfo(1, &user_ctx).attr(Err(nfsstat3::NFS3ERR_IO));
    assert_eq!(failed, Ok(expected(post_op_attr::Void)));
}
