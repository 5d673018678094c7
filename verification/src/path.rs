//! Finding the file that a complete path leads to.
use crate::lookup::LookupCall;
use crate::nfs::{fileid3, filename3, nfsstat3, nfsstring};
use vstd::prelude::*;

verus! {

/// The byte that separates the names of a path.
pub const SEPARATOR: u8 = 0x2f;

/// The answer to a lookup of a name in a directory.
pub type LookupReply = Result<fileid3, nfsstat3>;

/// The stretches of `path` between its separators, empty ones among them.
pub open spec fn split_path(path: Seq<u8>) -> Seq<Seq<u8>>
    decreases path.len(),
{
    if path.len() == 0 {
        seq![Seq::empty()]
    } else {
        let pieces = split_path(path.drop_last());
        if path.last() == SEPARATOR {
            pieces.push(Seq::empty())
        } else {
            pieces.drop_last().push(pieces.last().push(path.last()))
        }
    }
}

/// Whether a stretch between separators names something.
pub open spec fn is_name() -> spec_fn(Seq<u8>) -> bool {
    |piece: Seq<u8>| piece.len() > 0
}

/// The names along `path`: the stretches between its separators that are not empty.
pub open spec fn components(path: Seq<u8>) -> Seq<Seq<u8>> {
    split_path(path).filter(is_name())
}

/// The contents of a sequence of names.
pub open spec fn names_of(names: Seq<filename3>) -> Seq<Seq<u8>> {
    names.map_values(|name: filename3| name@)
}

/// Takes a path apart into the names along it.
pub fn path_components(path: &[u8]) -> (names: Vec<filename3>)
    ensures
        names_of(names@) == components(path@),
        names@.len() == components(path@).len(),
        forall|i: int| 0 <= i < names@.len() ==> (#[trigger] names@[i]).0@ == components(path@)[i],
{
    let mut names: Vec<filename3> = Vec::new();
    let mut current: Vec<u8> = Vec::new();
    proof {
        reveal(Seq::filter);
        assert(path@.take(0) =~= Seq::empty());
        assert(split_path(path@.take(0)).drop_last() =~= Seq::empty());
        assert(names_of(names@) =~= Seq::empty());
    }
    for i in 0..path.len()
        invariant
            split_path(path@.take(i as int)).len() > 0,
            current@ == split_path(path@.take(i as int)).last(),
            names_of(names@) == split_path(path@.take(i as int)).drop_last().filter(is_name()),
    {
        let ghost pieces = split_path(path@.take(i as int));
        let ghost before = names@;
        proof {
            reveal(Seq::filter);
            assert(path@.take(i + 1).drop_last() =~= path@.take(i as int));
        }
        let byte = path[i];
        if byte == SEPARATOR {
            if current.len() > 0 {
                names.push(nfsstring(current));
                assert(names_of(names@) =~= names_of(before).push(pieces.last()));
            }
            current = Vec::new();
            assert(pieces.push(Seq::empty()).drop_last() =~= pieces);
        } else {
            current.push(byte);
            assert(split_path(path@.take(i + 1)).drop_last() =~= pieces.drop_last());
        }
    }
    let ghost before = names@;
    proof {
        reveal(Seq::filter);
        assert(path@.take(path@.len() as int) =~= path@);
    }
    if current.len() > 0 {
        names.push(nfsstring(current));
        assert(names_of(names@) =~= names_of(before).push(split_path(path@).last()));
    }
    assert forall|i: int| 0 <= i < names@.len() implies (#[trigger] names@[i]).0@ == components(
        path@,
    )[i] by {
        assert(names_of(names@)[i] == names@[i]@);
    }
    names
}

/// The state of a walk along a path: the directory it has come to, or the status with which it
/// failed, and the names that are still to be looked up.
#[verifier::ext_equal]
pub struct WalkView {
    pub at: LookupReply,
    pub remaining: Seq<Seq<u8>>,
}

impl WalkView {
    /// A walk along `path` that has not left `root` yet.
    pub open spec fn start(root: fileid3, path: Seq<u8>) -> WalkView {
        WalkView { at: Ok(root), remaining: components(path) }
    }

    /// Whether no lookup is left to make.
    pub open spec fn is_finished(self) -> bool {
        self.at is Err || self.remaining.len() == 0
    }

    /// The walk once the lookup of the next name was answered by `reply`.
    pub open spec fn after(self, reply: LookupReply) -> WalkView {
        WalkView { at: reply, remaining: self.remaining.drop_first() }
    }
}

/// A walk along a path in progress.
#[derive(Debug)]
pub struct PathToId {
    names: Vec<filename3>,
    next: usize,
    at: LookupReply,
}

impl View for PathToId {
    type V = WalkView;

    closed spec fn view(&self) -> WalkView {
        WalkView { at: self.at, remaining: names_of(self.names@.skip(self.next as int)) }
    }
}

/// Starts a walk along `path` from the directory `root`.
pub fn path_to_id(root: fileid3, path: &[u8]) -> (op: PathToId)
    ensures
        op@ == WalkView::start(root, path@),
        op@.at == Ok::<fileid3, nfsstat3>(root),
        op@.remaining == components(path@),
{
    let names = path_components(path);
    assert(names@.skip(0) =~= names@);
    PathToId { names, next: 0, at: Ok(root) }
}

impl PathToId {
    #[verifier::type_invariant]
    spec fn well_formed(self) -> bool {
        self.next <= self.names@.len()
    }

    /// Says which lookup comes next: that of the next name in the directory the walk has come to.
    pub fn pending(&self) -> (call: Option<LookupCall<'_>>)
        ensures
            match call {
                Some(call) => {
                    &&& !self@.is_finished()
                    &&& self@.at == Ok::<fileid3, nfsstat3>(call.dirid)
                    &&& self@.at is Ok && self@.remaining.len() > 0
                    &&& self@.remaining[0] == call.filename@
                    &&& self@.remaining[0] == call.filename.0@
                },
                None => self@.is_finished() && (self@.at is Err || self@.remaining.len() == 0),
            },
    {
        proof {
            use_type_invariant(self);
        }
        match self.at {
            Ok(fid) => if self.next < self.names.len() {
                Some(LookupCall { dirid: fid, filename: &self.names[self.next] })
            } else {
                None
            },
            Err(_) => None,
        }
    }

    /// Takes the reply to the lookup that is pending.
    pub fn performed(self, reply: LookupReply) -> (next: Self)
        requires
            !self@.is_finished(),
        ensures
            next@ == self@.after(reply),
            next@.at == reply,
            next@.remaining == self@.remaining.skip(1),
    {
        proof {
            use_type_invariant(&self);
            assert(self.next < self.names.len());
            assert(names_of(self.names@.skip(self.next + 1)) =~= self@.remaining.drop_first());
        }
        PathToId { names: self.names, next: self.next + 1, at: reply }
    }

    /// The file that the path leads to, once the walk has ended.
    pub fn into_result(self) -> (result: LookupReply)
        requires
            self@.is_finished(),
        ensures
            result == self@.at,
    {
        self.at
    }
}

/// The bytes of `pieces` with a separator between each two.
pub open spec fn join_path(pieces: Seq<Seq<u8>>) -> Seq<u8>
    decreases pieces.len(),
{
    if pieces.len() == 0 {
        Seq::empty()
    } else if pieces.len() == 1 {
        pieces[0]
    } else {
        join_path(pieces.drop_last()).push(SEPARATOR) + pieces.last()
    }
}

/// The stretches of a path hold no separator, and put together again they are the path.
pub proof fn split_path_is_exact(path: Seq<u8>)
    ensures
        split_path(path).len() > 0,
        forall|i: int|
            0 <= i < split_path(path).len() ==> !(#[trigger] split_path(path)[i]).contains(
                SEPARATOR,
            ),
        join_path(split_path(path)) == path,
    decreases path.len(),
{
    let pieces = split_path(path);
    if path.len() == 0 {
        assert(join_path(pieces) =~= path);
    } else {
        let init = path.drop_last();
        let front = split_path(init);
        split_path_is_exact(init);
        if path.last() == SEPARATOR {
            assert(pieces.drop_last() =~= front);
            assert(join_path(pieces) =~= path);
        } else {
            let last = front.last().push(path.last());
            assert(!last.contains(SEPARATOR)) by {
                assert(!front.last().contains(SEPARATOR));
                assert forall|k: int| 0 <= k < last.len() implies last[k] != SEPARATOR by {
                    if k < front.last().len() {
                        assert(front.last()[k] == last[k]);
                        assert(front.last().contains(last[k]));
                    }
                }
            }
            assert(pieces.drop_last() =~= front.drop_last());
            assert(join_path(pieces) =~= join_path(front).push(path.last()));
            assert(init.push(path.last()) =~= path);
        }
    }
}

/// Every name along a path has at least one byte and holds no separator.
pub proof fn components_are_names(path: Seq<u8>, i: int)
    requires
        0 <= i < components(path).len(),
    ensures
        components(path)[i].len() > 0,
        !components(path)[i].contains(SEPARATOR),
{
    split_path_is_exact(path);
    filter_keeps_members(split_path(path), i);
}

/// What `is_name` lets pass is a name and comes from `pieces`.
proof fn filter_keeps_members(pieces: Seq<Seq<u8>>, i: int)
    requires
        0 <= i < pieces.filter(is_name()).len(),
    ensures
        pieces.filter(is_name())[i].len() > 0,
        exists|j: int| 0 <= j < pieces.len() && pieces[j] == pieces.filter(is_name())[i],
    decreases pieces.len(),
{
    reveal(Seq::filter);
    let front = pieces.drop_last();
    if i < front.filter(is_name()).len() {
        filter_keeps_members(front, i);
        let j = choose|j: int| 0 <= j < front.len() && front[j] == front.filter(is_name())[i];
        assert(pieces[j] == pieces.filter(is_name())[i]);
    } else {
        assert(pieces[pieces.len() - 1] == pieces.filter(is_name())[i]);
    }
}

/// The stretches of two paths with a separator between them are those of the one followed by
/// those of the other.
proof fn split_path_append(a: Seq<u8>, b: Seq<u8>)
    ensures
        split_path(a.push(SEPARATOR) + b) == split_path(a) + split_path(b),
    decreases b.len(),
{
    let whole = a.push(SEPARATOR) + b;
    if b.len() == 0 {
        assert(whole.drop_last() =~= a);
        assert(split_path(whole) =~= split_path(a) + split_path(b));
    } else {
        assert(whole.drop_last() =~= a.push(SEPARATOR) + b.drop_last());
        split_path_append(a, b.drop_last());
        split_path_is_exact(b.drop_last());
        assert(split_path(whole) =~= split_path(a) + split_path(b));
    }
}

/// The names along two paths with a separator between them are those along the one followed by
/// those along the other.
pub proof fn components_append(a: Seq<u8>, b: Seq<u8>)
    ensures
        components(a.push(SEPARATOR) + b) == components(a) + components(b),
{
    split_path_append(a, b);
    Seq::filter_distributes_over_add(split_path(a), split_path(b), is_name());
}

/// The empty path has no names along it.
pub proof fn components_of_nothing()
    ensures
        components(Seq::empty()) == Seq::<Seq<u8>>::empty(),
{
    reveal(Seq::filter);
    let pieces = split_path(Seq::empty());
    assert(pieces.drop_last() =~= Seq::empty());
    assert(pieces.drop_last().filter(is_name()) =~= Seq::empty());
}

/// A separator in front of a path or behind it, and a second one beside another, changes nothing.
pub proof fn extra_separators_are_ignored(a: Seq<u8>, b: Seq<u8>)
    ensures
        components(seq![SEPARATOR] + a) == components(a),
        components(a.push(SEPARATOR)) == components(a),
        components(a.push(SEPARATOR).push(SEPARATOR) + b) == components(a.push(SEPARATOR) + b),
{
    let empty = Seq::<u8>::empty();
    components_of_nothing();
    components_append(empty, a);
    assert(empty.push(SEPARATOR) =~= seq![SEPARATOR]);
    assert(components(empty) + components(a) =~= components(a));
    components_append(a, empty);
    assert(a.push(SEPARATOR) + empty =~= a.push(SEPARATOR));
    assert(components(a) + components(empty) =~= components(a));
    components_append(a, b);
    components_append(a.push(SEPARATOR), b);
}

/// The walk once its lookups have found the files `found`, one after the other.
pub open spec fn walk_found(walk: WalkView, found: Seq<fileid3>) -> WalkView
    decreases found.len(),
{
    if found.len() == 0 {
        walk
    } else {
        walk_found(walk, found.drop_last()).after(Ok(found.last()))
    }
}

/// Where a walk has come to after its lookups have found the files `found`.
pub open spec fn last_found(root: fileid3, found: Seq<fileid3>) -> fileid3 {
    if found.len() == 0 {
        root
    } else {
        found.last()
    }
}

/// A walk looks the names along its path up one after the other, the first in the root directory
/// and each other in what the lookup before it has found. As long as lookups succeed it goes on,
/// until no name is left; its result is then what the last lookup has found, or the root directory
/// if there are no names.
pub proof fn walk_follows_the_names(root: fileid3, path: Seq<u8>, found: Seq<fileid3>)
    requires
        found.len() <= components(path).len(),
    ensures
        ({
            let walk = walk_found(WalkView::start(root, path), found);
            &&& walk.at == Ok::<fileid3, nfsstat3>(last_found(root, found))
            &&& walk.remaining == components(path).skip(found.len() as int)
            &&& walk.is_finished() <==> found.len() == components(path).len()
            &&& !walk.is_finished() ==> walk.remaining[0] == components(path)[found.len() as int]
        }),
    decreases found.len(),
{
    if found.len() == 0 {
        assert(components(path).skip(0) =~= components(path));
    } else {
        walk_follows_the_names(root, path, found.drop_last());
        assert(components(path).skip(found.len() - 1).drop_first() =~= components(path).skip(
            found.len() as int,
        ));
    }
}

/// A walk ends with the first lookup that fails, and with the status that was given for it.
pub proof fn walk_stops_at_failure(
    root: fileid3,
    path: Seq<u8>,
    found: Seq<fileid3>,
    stat: nfsstat3,
)
    requires
        found.len() < components(path).len(),
    ensures
        ({
            let walk = walk_found(WalkView::start(root, path), found);
            &&& !walk.is_finished()
            &&& walk.after(Err(stat)).is_finished()
            &&& walk.after(Err(stat)).at == Err::<fileid3, nfsstat3>(stat)
        }),
{
    walk_follows_the_names(root, path, found);
}

/// What looking `names` up one after the other leads to from the directory `dir`, in a file
/// system where `find` says what each lookup gives.
pub open spec fn resolve(
    find: spec_fn(fileid3, Seq<u8>) -> LookupReply,
    dir: fileid3,
    names: Seq<Seq<u8>>,
) -> LookupReply
    decreases names.len(),
{
    if names.len() == 0 {
        Ok(dir)
    } else {
        match find(dir, names[0]) {
            Ok(next) => resolve(find, next, names.drop_first()),
            Err(stat) => Err(stat),
        }
    }
}

/// The end of a walk in a file system where `find` says what each lookup gives.
pub open spec fn walk_end(
    find: spec_fn(fileid3, Seq<u8>) -> LookupReply,
    walk: WalkView,
) -> WalkView
    decreases walk.remaining.len(),
{
    if walk.is_finished() {
        walk
    } else {
        walk_end(find, walk.after(find(walk.at->Ok_0, walk.remaining[0])))
    }
}

/// In a file system that does not change meanwhile, a walk ends with what looking the remaining
/// names up leads to.
pub proof fn walk_resolves(find: spec_fn(fileid3, Seq<u8>) -> LookupReply, walk: WalkView)
    requires
        walk.at is Ok,
    ensures
        walk_end(find, walk).is_finished(),
        walk_end(find, walk).at == resolve(find, walk.at->Ok_0, walk.remaining),
    decreases walk.remaining.len(),
{
    if !walk.is_finished() {
        let next = walk.after(find(walk.at->Ok_0, walk.remaining[0]));
        if next.at is Ok {
            walk_resolves(find, next);
        }
    }
}

/// A path leads where its second part leads from where its first part leads.
pub proof fn resolve_append(
    find: spec_fn(fileid3, Seq<u8>) -> LookupReply,
    dir: fileid3,
    a: Seq<u8>,
    b: Seq<u8>,
)
    ensures
        resolve(find, dir, components(a.push(SEPARATOR) + b)) == match resolve(
            find,
            dir,
            components(a),
        ) {
            Ok(middle) => resolve(find, middle, components(b)),
            Err(stat) => Err(stat),
        },
{
    components_append(a, b);
    resolve_names_append(find, dir, components(a), components(b));
}

/// Looking up one list of names and then another is looking up both.
proof fn resolve_names_append(
    find: spec_fn(fileid3, Seq<u8>) -> LookupReply,
    dir: fileid3,
    a: Seq<Seq<u8>>,
    b: Seq<Seq<u8>>,
)
    ensures
        resolve(find, dir, a + b) == match resolve(find, dir, a) {
            Ok(middle) => resolve(find, middle, b),
            Err(stat) => Err(stat),
        },
    decreases a.len(),
{
    if a.len() == 0 {
        assert(a + b =~= b);
    } else {
        assert((a + b).drop_first() =~= a.drop_first() + b);
        match find(dir, a[0]) {
            Ok(next) => {
                resolve_names_append(find, next, a.drop_first(), b);
            },
            Err(_) => {},
        }
    }
}

/// No name is lost: a path that is nothing but a name, whatever bytes are in it, has that name
/// along it and no other.
pub proof fn component_of_a_name(name: Seq<u8>)
    requires
        name.len() > 0,
        !name.contains(0x2f),
    ensures
        components(name) == seq![name],
{
    split_path_of_a_name(name);
    let pieces = seq![name];
    reveal(Seq::filter);
    assert(pieces.drop_last() =~= Seq::empty());
    assert(pieces.drop_last().filter(is_name()) =~= Seq::empty());
    assert(components(name) =~= seq![name]);
}

/// A path without separators is a single stretch.
proof fn split_path_of_a_name(name: Seq<u8>)
    requires
        !name.contains(0x2f),
    ensures
        split_path(name) == seq![name],
    decreases name.len(),
{
    if name.len() == 0 {
        assert(name =~= Seq::empty());
        assert(split_path(name) =~= seq![name]);
    } else {
        let init = name.drop_last();
        assert(!init.contains(0x2f)) by {
            assert forall|k: int| 0 <= k < init.len() implies init[k] != 0x2f by {
                assert(name.contains(name[k]));
            }
        }
        split_path_of_a_name(init);
        assert(name.contains(name.last()));
        assert(init.push(name.last()) =~= name);
        assert(split_path(name) =~= seq![init.push(name.last())]);
    }
}

/// A stretch between separators is a name exactly if it has a byte.
pub proof fn only_empty_stretches_are_skipped(piece: Seq<u8>)
    ensures
        is_name()(piece) <==> piece.len() > 0,
{
}

/// A slash is what separates: the names along a path are those in front of any slash in it
/// followed by those behind that slash, and a path of a single slash has none.
pub proof fn slash_separates(path: Seq<u8>, i: int)
    requires
        0 <= i < path.len(),
        path[i] == 0x2f,
    ensures
        components(path) == components(path.take(i)) + components(path.skip(i + 1)),
        components(seq![0x2f]) == Seq::<Seq<u8>>::empty(),
{
    components_append(path.take(i), path.skip(i + 1));
    assert(path.take(i).push(SEPARATOR) + path.skip(i + 1) =~= path);
    extra_separators_are_ignored(Seq::empty(), Seq::empty());
    components_of_nothing();
    assert(Seq::<u8>::empty().push(SEPARATOR) =~= seq![0x2fu8]);
}

/// Names written with a separator between each two are the names along what was written.
pub proof fn components_of_joined_names(names: Seq<Seq<u8>>)
    requires
        forall|i: int|
            0 <= i < names.len() ==> (#[trigger] names[i]).len() > 0 && !names[i].contains(0x2f),
    ensures
        components(join_path(names)) == names,
    decreases names.len(),
{
    if names.len() == 0 {
        components_of_nothing();
        assert(names =~= Seq::empty());
    } else if names.len() == 1 {
        component_of_a_name(names[0]);
        assert(names =~= seq![names[0]]);
    } else {
        let front = names.drop_last();
        assert forall|i: int| 0 <= i < front.len() implies (#[trigger] front[i]).len() > 0
            && !front[i].contains(0x2f) by {
            assert(front[i] == names[i]);
        }
        components_of_joined_names(front);
        component_of_a_name(names.last());
        components_append(join_path(front), names.last());
        assert(front + seq![names.last()] =~= names);
    }
}

/// A walk begins in the root directory with all the names along its path before it. It is over
/// only when a lookup has failed or no name is left, and each lookup takes it to what was found
/// with one name less before it.
pub proof fn walk_takes_one_name_at_a_time(
    root: fileid3,
    path: Seq<u8>,
    walk: WalkView,
    reply: LookupReply,
    i: int,
)
    ensures
        WalkView::start(root, path).at == Ok::<fileid3, nfsstat3>(root),
        WalkView::start(root, path).remaining == components(path),
        walk.is_finished() <==> walk.at is Err || walk.remaining.len() == 0,
        walk.after(reply).at == reply,
        walk.remaining.len() > 0 ==> walk.after(reply).remaining.len() == walk.remaining.len() - 1,
        0 < i < walk.remaining.len() ==> walk.after(reply).remaining[i - 1] == walk.remaining[i],
{
}

/// Following one name after the other gives what the lookups give: a path that is a name leads to
/// what that name is found to be in the directory it is followed from.
pub proof fn walk_along_a_name(
    find: spec_fn(fileid3, Seq<u8>) -> LookupReply,
    root: fileid3,
    name: Seq<u8>,
)
    requires
        name.len() > 0,
        !name.contains(0x2f),
    ensures
        walk_end(find, WalkView::start(root, name)).at == find(root, name),
{
    component_of_a_name(name);
    let start = WalkView::start(root, name);
    let next = start.after(find(root, name));
    assert(next.remaining.len() == 0);
    assert(walk_end(find, next) == next);
}

} // verus!
