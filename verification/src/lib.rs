//! The file system layer of an NFS version 3 server.
//!
//! The operations that a server offers on top of a file system are state machines: each says by
//! its `pending` method which call it needs next, and takes the reply of that call. They report
//! the attributes of the files they touch in the way the protocol asks for.
//!
//! * [`rename`], [`update`], [`lookup`], [`file`], [`access`], [`fsinfo`] and [`dir`] hold the
//!   operations, [`pending`] and [`attr`] what they share.
//! * [`path`] finds the file that a complete path leads to.
//! * [`handle`] makes and reads opaque file handles.
//! * [`user`] and [`nfs`] hold the data types.
#![allow(non_camel_case_types)]

pub mod access;
pub mod attr;
pub mod dir;
pub mod file;
pub mod fsinfo;
pub mod handle;
pub mod lookup;
pub mod nfs;
pub mod path;
pub mod pending;
pub mod rename;
pub mod update;
pub mod user;
