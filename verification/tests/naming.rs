use nfs_vfs::dir::{
    readdir_simple, DirEntry, DirEntrySimple, ReadDirCall, ReadDirResult, ReadDirSimpleResult,
};
use nfs_vfs::handle::{fh_to_id, generation_number, id_to_fh, serverid};
use nfs_vfs::lookup::LookupCall;
use nfs_vfs::nfs::{auth_unix, fattr3, ftype3, nfs_fh3, nfsstat3, nfsstring};
use nfs_vfs::path::{path_components, path_to_id};
use nfs_vfs::user::UserContext;

#[test]
fn handle_layout() {
    let fh = id_to_fh(0x0102030405060708, 0x1112131415161718);
    assert_eq!(
        fh.data,
        vec![
            0x08, 0x07, 0x06, 0x05, 0x04, 0x03, 0x02, 0x01, 0x18, 0x17, 0x16, 0x15, 0x14, 0x13,
            0x12, 0x11
        ]
    );
    assert_eq!(id_to_fh(u64::MAX, 0).data[..8], [0xff; 8]);
}

#[test]
fn handle_read_back() {
    for id in [0, 1, 255, 256, 0x1112131415161718, u64::MAX] {
        for generation in [0, 7, 1700000000000, u64::MAX] {
            assert_eq!(fh_to_id(generation, &id_to_fh(generation, id)), Ok(id));
        }
    }
}

#[test]
fn handle_of_another_generation() {
    assert_eq!(fh_to_id(6, &id_to_fh(5, 42)), Err(nfsstat3::NFS3ERR_STALE));
    assert_eq!(fh_to_id(4, &id_to_fh(5, 42)), Err(nfsstat3::NFS3ERR_BADHANDLE));
    let old = id_to_fh(generation_number(1700000000000), 42);
    assert_eq!(fh_to_id(generation_number(1700000000001), &old), Err(nfsstat3::NFS3ERR_STALE));
}

#[test]
fn handle_of_wrong_length() {
    for len in [0, 8, 15, 17, 64] {
        let fh = nfs_fh3 { data: vec![0; len] };
        assert_eq!(fh_to_id(0, &fh), Err(nfsstat3::NFS3ERR_BADHANDLE));
    }
    assert_eq!(fh_to_id(0, &nfs_fh3 { data: vec![0; 16] }), Ok(0));
}

#[test]
fn handles_differ() {
    assert_ne!(id_to_fh(1, 2).data, id_to_fh(2, 1).data);
    assert_ne!(id_to_fh(1, 2).data, id_to_fh(1, 3).data);
}

#[test]
fn server_verifier() {
    assert_eq!(serverid(0x0102030405060708), [8, 7, 6, 5, 4, 3, 2, 1]);
    assert_eq!(id_to_fh(1700000000000, 9).data[..8], serverid(1700000000000));
    assert_ne!(serverid(1), serverid(2));
}

#[test]
fn generation_number_of_a_start() {
    assert_eq!(generation_number(1700000000000), 1700000000000);
    assert_eq!(generation_number(u64::MAX as u128), u64::MAX);
    assert_eq!(generation_number(u64::MAX as u128 + 6), 5);
}

fn parts(path: &[u8]) -> Vec<Vec<u8>> {
    path_components(path).into_iter().map(|name| name.0).collect()
}

#[test]
fn names_along_a_path() {
    assert_eq!(parts(b"/usr/lib/x"), vec![b"usr".to_vec(), b"lib".to_vec(), b"x".to_vec()]);
    assert_eq!(parts(b"usr//lib/"), vec![b"usr".to_vec(), b"lib".to_vec()]);
    assert!(parts(b"").is_empty());
    assert!(parts(b"///").is_empty());
    assert_eq!(parts(b"."), vec![b".".to_vec()]);
    assert_eq!(parts(&[0xff, b'/', 0x00]), vec![vec![0xff], vec![0x00]]);
}

#[test]
fn names_along_two_paths() {
    let mut both = parts(b"a//b/");
    both.append(&mut parts(b"/c"));
    assert_eq!(parts(b"a//b///c"), both);
}

fn find(dirid: u64, name: &nfsstring) -> Result<u64, nfsstat3> {
    match (dirid, name.0.as_slice()) {
        (1, b"a") => Ok(2),
        (2, b"b") => Ok(3),
        (3, b"up") => Ok(1),
        (2, b"secret") => Err(nfsstat3::NFS3ERR_ACCES),
        _ => Err(nfsstat3::NFS3ERR_NOENT),
    }
}

fn walk(root: u64, path: &[u8]) -> (usize, Result<u64, nfsstat3>) {
    let mut op = path_to_id(root, path);
    let mut lookups = 0;
    loop {
        let reply = match op.pending() {
            Some(call) => find(call.dirid, call.filename),
            None => return (lookups, op.into_result()),
        };
        lookups += 1;
        op = op.performed(reply);
    }
}

#[test]
fn walk_along_a_path() {
    assert_eq!(walk(1, b"/a/b"), (2, Ok(3)));
    assert_eq!(walk(1, b"a//b/up/"), (3, Ok(1)));
    assert_eq!(walk(1, b"/"), (0, Ok(1)));
    assert_eq!(walk(1, b""), (0, Ok(1)));
    let (_, middle) = walk(1, b"/a");
    assert_eq!(walk(middle.unwrap(), b"b").1, walk(1, b"/a/b").1);
}

#[test]
fn walk_stops_at_the_first_failure() {
    assert_eq!(walk(1, b"/a/secret/b"), (2, Err(nfsstat3::NFS3ERR_ACCES)));
    assert_eq!(walk(1, b"/x/a"), (1, Err(nfsstat3::NFS3ERR_NOENT)));
}

#[test]
fn walk_asks_in_the_directory_found() {
    let op = path_to_id(1, b"/a/b");
    assert_eq!(
        op.pending(),
        Some(LookupCall { dirid: 1, filename: &nfsstring(b"a".to_vec()) })
    );
    let op = op.performed(Ok(20));
    assert_eq!(
        op.pending(),
        Some(LookupCall { dirid: 20, filename: &nfsstring(b"b".to_vec()) })
    );
}

fn listing() -> ReadDirResult {
    let entry = |fileid: u64, name: &[u8]| DirEntry {
        fileid,
        name: nfsstring(name.to_vec()),
        attr: fattr3::default(),
    };
    ReadDirResult { entries: vec![entry(6, b"f"), entry(2, b"b"), entry(11, b"k")], end: true }
}

fn ids_and_names(simple: &ReadDirSimpleResult) -> Vec<(u64, Vec<u8>)> {
    simple.entries.iter().map(|e| (e.fileid, e.name.0.clone())).collect()
}

#[test]
fn listing_without_attributes() {
    let simple = ReadDirSimpleResult::from_readdir_result(&listing());
    assert_eq!(
        ids_and_names(&simple),
        vec![(6, b"f".to_vec()), (2, b"b".to_vec()), (11, b"k".to_vec())]
    );
    assert!(simple.end);
    let open = ReadDirResult { entries: vec![], end: false };
    let simple = ReadDirSimpleResult::from_readdir_result(&open);
    assert!(simple.entries.is_empty());
    assert!(!simple.end);
}

#[test]
fn simple_listing_starts_at_the_beginning() {
    let user_ctx = UserContext::new(1, 2, vec![]);
    let op = readdir_simple(5, 100, &user_ctx);
    assert_eq!(
        op.pending(),
        ReadDirCall { dirid: 5, start_after: 0, max_entries: 100, user_ctx: &user_ctx }
    );
    let simple = op.performed(Ok(listing())).unwrap();
    assert_eq!(simple.entries.len(), 3);
    let failed = readdir_simple(5, 100, &user_ctx).performed(Err(nfsstat3::NFS3ERR_NOTDIR));
    assert_eq!(failed.err(), Some(nfsstat3::NFS3ERR_NOTDIR));
}

#[test]
fn default_values() {
    let entry = DirEntry::default();
    assert_eq!((entry.fileid, entry.name.0.len(), entry.attr.ftype), (0, 0, ftype3::NF3REG));
    let entry = DirEntrySimple::default();
    assert_eq!((entry.fileid, entry.name.0.len()), (0, 0));
    assert!(ReadDirResult::default().entries.is_empty() && !ReadDirResult::default().end);
    let simple = ReadDirSimpleResult::default();
    assert!(simple.entries.is_empty() && !simple.end);
    assert_eq!(UserContext::default(), UserContext::new(0, 0, vec![]));
}

#[test]
fn user_of_unix_credentials() {
    let auth = auth_unix {
        stamp: 1,
        machinename: b"host".to_vec(),
        uid: 1000,
        gid: 100,
        gids: vec![4, 24],
    };
    let user_ctx = UserContext::from(&auth);
    assert_eq!(user_ctx, UserContext::new(1000, 100, vec![4, 24]));
    assert_eq!(user_ctx.clone(), user_ctx);
    assert_ne!(user_ctx, UserContext::new(1000, 100, vec![4]));
    assert_eq!(
        format!("{:?}", user_ctx),
        "UserContext { _uid: 1000, _gid: 100, _gids: [4, 24] }"
    );
}
