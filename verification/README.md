# nfs_vfs

The file system layer of an NFS version 3 server, verified with Verus.

- `src/` is the verified library. The operations of the server (`lookup`, `access`, `read`,
  `write`, `create`, `create_exclusive`, `mkdir`, `remove`, `rename`, `symlink`, `readlink`,
  `readdir_simple`, `fsinfo`, `path_to_id`) are state machines that name the next call to the
  file system and take its reply. Opaque file handles are made and read in `src/handle.rs`.
  Proof functions beside the code state what holds of whole runs of an operation.
- `app/` holds `NFSFileSystem`, the asynchronous trait that a file system implements. Its
  provided methods drive the state machines.
- `tests/` runs the library on concrete values.
