//! Listing directories.
use crate::nfs::{fattr3, fileid3, filename3, nfsstat3};
use crate::user::UserContext;
use vstd::prelude::*;

verus! {

/// An entry of a directory: the file's id and name.
#[derive(Debug)]
pub struct DirEntrySimple {
    pub fileid: fileid3,
    pub name: filename3,
}

/// Entries of a directory, and whether they reach to its end.
#[derive(Debug)]
pub struct ReadDirSimpleResult {
    pub entries: Vec<DirEntrySimple>,
    pub end: bool,
}

/// An entry of a directory with the file's attributes.
#[derive(Debug)]
pub struct DirEntry {
    pub fileid: fileid3,
    pub name: filename3,
    pub attr: fattr3,
}

/// Entries of a directory with their attributes, and whether they reach to its end.
#[derive(Debug)]
pub struct ReadDirResult {
    pub entries: Vec<DirEntry>,
    pub end: bool,
}

impl Default for DirEntrySimple {
    fn default() -> (entry: Self)
        ensures
            entry.fileid == 0,
            entry.name@ == Seq::<u8>::empty(),
    {
        DirEntrySimple { fileid: 0, name: filename3::default() }
    }
}

impl Default for ReadDirSimpleResult {
    fn default() -> (result: Self)
        ensures
            result.entries@ == Seq::<DirEntrySimple>::empty(),
            !result.end,
    {
        ReadDirSimpleResult { entries: Vec::new(), end: false }
    }
}

impl Default for DirEntry {
    fn default() -> (entry: Self)
        ensures
            entry.fileid == 0,
            entry.name@ == Seq::<u8>::empty(),
            entry.attr == fattr3::zeroed(),
    {
        DirEntry { fileid: 0, name: filename3::default(), attr: fattr3::default() }
    }
}

impl Default for ReadDirResult {
    fn default() -> (result: Self)
        ensures
            result.entries@ == Seq::<DirEntry>::empty(),
            !result.end,
    {
        ReadDirResult { entries: Vec::new(), end: false }
    }
}

/// Whether `simple` is the listing `full` without the attributes: the same files in the same
/// order, under the same ids and names, and the same mark of the end.
pub open spec fn is_simple_form(simple: ReadDirSimpleResult, full: ReadDirResult) -> bool {
    &&& simple.entries@.len() == full.entries@.len()
    &&& forall|i: int|
        #![trigger simple.entries@[i]]
        #![trigger full.entries@[i]]
        0 <= i < full.entries@.len() ==> {
            &&& simple.entries@[i].fileid == full.entries@[i].fileid
            &&& simple.entries@[i].name@ == full.entries@[i].name@
        }
    &&& simple.end == full.end
}

impl ReadDirSimpleResult {
    /// The listing `result` without the attributes.
    pub fn from_readdir_result(result: &ReadDirResult) -> (simple: ReadDirSimpleResult)
        ensures
            is_simple_form(simple, *result),
            simple.entries@.len() == result.entries@.len(),
            forall|i: int|
                #![trigger simple.entries@[i]]
                #![trigger result.entries@[i]]
                0 <= i < result.entries@.len() ==> {
                    &&& simple.entries@[i].fileid == result.entries@[i].fileid
                    &&& simple.entries@[i].name.0@ == result.entries@[i].name.0@
                },
            simple.end == result.end,
    {
        let mut entries: Vec<DirEntrySimple> = Vec::new();
        for i in 0..result.entries.len()
            invariant
                entries@.len() == i,
                forall|j: int|
                    #![trigger entries@[j]]
                    #![trigger result.entries@[j]]
                    0 <= j < i ==> {
                        &&& entries@[j].fileid == result.entries@[j].fileid
                        &&& entries@[j].name@ == result.entries@[j].name@
                    },
        {
            let e = &result.entries[i];
            entries.push(DirEntrySimple { fileid: e.fileid, name: e.name.clone() });
        }
        ReadDirSimpleResult { entries, end: result.end }
    }
}

/// The arguments of the call that lists a directory: at most `max_entries` entries, from the one
/// that follows `start_after`.
#[derive(Clone, Copy, Debug, PartialEq, Eq)]
pub struct ReadDirCall<'a> {
    pub dirid: fileid3,
    pub start_after: fileid3,
    pub max_entries: usize,
    pub user_ctx: &'a UserContext,
}

/// A request for a listing without attributes, which waits for the listing with attributes.
#[derive(Clone, Copy, Debug, PartialEq, Eq)]
pub struct ReadDirSimple<'a> {
    pub call: ReadDirCall<'a>,
}

/// Starts a listing of at most `count` entries without attributes. It begins with the directory's
/// first entry: the id zero, which it starts after, belongs to no file.
pub fn readdir_simple<'a>(dirid: fileid3, count: usize, user_ctx: &'a UserContext) -> (op:
    ReadDirSimple<'a>)
    ensures
        op == (ReadDirSimple {
            call: ReadDirCall { dirid, start_after: 0, max_entries: count, user_ctx },
        }),
{
    ReadDirSimple { call: ReadDirCall { dirid, start_after: 0, max_entries: count, user_ctx } }
}

impl<'a> ReadDirSimple<'a> {
    /// Says which call is to be made.
    pub fn pending(&self) -> (call: ReadDirCall<'a>)
        ensures
            call == self.call,
    {
        self.call
    }

    /// Takes the result of that call and gives the result of the listing: the same status where
    /// it failed, and else the same entries without their attributes.
    pub fn performed(self, result: Result<ReadDirResult, nfsstat3>) -> (simple: Result<
        ReadDirSimpleResult,
        nfsstat3,
    >)
        ensures
            match result {
                Ok(full) => simple is Ok && is_simple_form(simple->Ok_0, full),
                Err(stat) => simple == Err::<ReadDirSimpleResult, nfsstat3>(stat),
            },
    {
        match result {
            Ok(full) => Ok(ReadDirSimpleResult::from_readdir_result(&full)),
            Err(stat) => Err(stat),
        }
    }
}

/// The listing without attributes has an entry for every entry of the full one and no others, in
/// the same places, each with the same id and the same name byte for byte, and it reaches the end
/// exactly if the full one does.
pub proof fn simple_form_loses_nothing(
    simple: ReadDirSimpleResult,
    full: ReadDirResult,
    i: int,
)
    requires
        is_simple_form(simple, full),
    ensures
        simple.entries@.len() == full.entries@.len(),
        0 <= i < full.entries@.len() ==> simple.entries@[i].fileid == full.entries@[i].fileid,
        0 <= i < full.entries@.len() ==> simple.entries@[i].name.0@ == full.entries@[i].name.0@,
        simple.end == full.end,
{
}

} // verus!
