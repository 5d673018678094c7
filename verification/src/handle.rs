//! Opaque file handles.
//!
//! A handle is made of the generation number of the server, which tells one run of the server
//! from another, and the id of the file. Handles of an earlier run are refused.
use crate::nfs::{cookieverf3, fileid3, nfs_fh3, nfsstat3};
use vstd::prelude::*;

verus! {

/// The number of milliseconds from which on the generation number starts over.
pub open spec fn generation_period() -> nat {
    0x1_0000_0000_0000_0000
}

/// The generation number of a server started `millis` milliseconds after the Unix epoch.
pub open spec fn generation_at(millis: nat) -> u64 {
    (millis % generation_period()) as u64
}

/// The bytes of a number, the least significant first.
pub open spec fn le_bytes(x: u64) -> Seq<u8> {
    seq![
        (x % 0x100) as u8,
        (x / 0x100 % 0x100) as u8,
        (x / 0x1_0000 % 0x100) as u8,
        (x / 0x100_0000 % 0x100) as u8,
        (x / 0x1_0000_0000 % 0x100) as u8,
        (x / 0x100_0000_0000 % 0x100) as u8,
        (x / 0x1_0000_0000_0000 % 0x100) as u8,
        (x / 0x100_0000_0000_0000 % 0x100) as u8,
    ]
}

/// The number whose bytes, the least significant first, are the first eight of `s`.
pub open spec fn le_value(s: Seq<u8>) -> u64 {
    (s[0] + 0x100 * s[1] + 0x1_0000 * s[2] + 0x100_0000 * s[3] + 0x1_0000_0000 * s[4]
        + 0x100_0000_0000 * s[5] + 0x1_0000_0000_0000 * s[6] + 0x100_0000_0000_0000 * s[7]) as u64
}

/// The contents of the handle of the file `id` in the given generation.
pub open spec fn handle_bytes(generation: u64, id: fileid3) -> Seq<u8> {
    le_bytes(generation) + le_bytes(id)
}

/// What a server of the given generation makes of a handle with the contents `data`: the id of
/// the file, or the status with which it refuses the handle.
pub open spec fn handle_meaning(generation: u64, data: Seq<u8>) -> Result<fileid3, nfsstat3> {
    if data.len() != 16 {
        Err(nfsstat3::NFS3ERR_BADHANDLE)
    } else {
        let made_in = le_value(data.subrange(0, 8));
        if made_in < generation {
            Err(nfsstat3::NFS3ERR_STALE)
        } else if made_in > generation {
            Err(nfsstat3::NFS3ERR_BADHANDLE)
        } else {
            Ok(le_value(data.subrange(8, 16)))
        }
    }
}

/// Writing a number as bytes and reading it back gives the same number.
pub proof fn le_value_of_le_bytes(x: u64)
    ensures
        le_bytes(x).len() == 8,
        le_value(le_bytes(x)) == x,
{
    assert(x == x % 0x100 + 0x100 * (x / 0x100 % 0x100) + 0x1_0000 * (x / 0x1_0000 % 0x100)
        + 0x100_0000 * (x / 0x100_0000 % 0x100) + 0x1_0000_0000 * (x / 0x1_0000_0000 % 0x100)
        + 0x100_0000_0000 * (x / 0x100_0000_0000 % 0x100) + 0x1_0000_0000_0000 * (x
        / 0x1_0000_0000_0000 % 0x100) + 0x100_0000_0000_0000 * (x / 0x100_0000_0000_0000 % 0x100))
        by (bit_vector);
}

/// Reading eight bytes as a number and writing it back gives the same bytes.
pub proof fn le_bytes_of_le_value(s: Seq<u8>)
    requires
        s.len() == 8,
    ensures
        le_bytes(le_value(s)) == s,
{
    let (s0, s1, s2, s3) = (s[0], s[1], s[2], s[3]);
    let (s4, s5, s6, s7) = (s[4], s[5], s[6], s[7]);
    let x = le_value(s);
    assert(x % 0x100 == s0 && x / 0x100 % 0x100 == s1 && x / 0x1_0000 % 0x100 == s2 && x
        / 0x100_0000 % 0x100 == s3 && x / 0x1_0000_0000 % 0x100 == s4 && x / 0x100_0000_0000 % 0x100
        == s5 && x / 0x1_0000_0000_0000 % 0x100 == s6 && x / 0x100_0000_0000_0000 % 0x100 == s7)
        by (bit_vector)
        requires
            x == s0 + 0x100 * s1 + 0x1_0000 * s2 + 0x100_0000 * s3 + 0x1_0000_0000 * s4
                + 0x100_0000_0000 * s5 + 0x1_0000_0000_0000 * s6 + 0x100_0000_0000_0000 * s7,
    ;
    assert(le_bytes(x) =~= s);
}

/// Derives the generation number of a server from its start, in milliseconds after the Unix
/// epoch.
pub fn generation_number(millis: u128) -> (generation: u64)
    ensures
        generation == generation_at(millis as nat),
        generation == millis % 0x1_0000_0000_0000_0000,
        millis < 0x1_0000_0000_0000_0000 ==> generation == millis,
{
    (millis % 0x1_0000_0000_0000_0000) as u64
}

/// Writes a number as bytes, the least significant first.
fn to_le_bytes(x: u64) -> (bytes: [u8; 8])
    ensures
        bytes@ == le_bytes(x),
{
    let bytes: [u8; 8] = [
        (x % 0x100) as u8,
        (x / 0x100 % 0x100) as u8,
        (x / 0x1_0000 % 0x100) as u8,
        (x / 0x100_0000 % 0x100) as u8,
        (x / 0x1_0000_0000 % 0x100) as u8,
        (x / 0x100_0000_0000 % 0x100) as u8,
        (x / 0x1_0000_0000_0000 % 0x100) as u8,
        (x / 0x100_0000_0000_0000 % 0x100) as u8,
    ];
    assert(bytes@ =~= le_bytes(x));
    bytes
}

/// Reads the eight bytes from `start` on as a number, the least significant first.
fn from_le_bytes(data: &Vec<u8>, start: usize) -> (x: u64)
    requires
        start <= 8,
        data@.len() == 16,
    ensures
        x == le_value(data@.subrange(start as int, start + 8)),
{
    data[start] as u64 + 0x100 * (data[start + 1] as u64) + 0x1_0000 * (data[start + 2] as u64)
        + 0x100_0000 * (data[start + 3] as u64) + 0x1_0000_0000 * (data[start + 4] as u64)
        + 0x100_0000_0000 * (data[start + 5] as u64) + 0x1_0000_0000_0000 * (data[start
        + 6] as u64) + 0x100_0000_0000_0000 * (data[start + 7] as u64)
}

/// Makes the handle of the file `id` in the given generation.
pub fn id_to_fh(generation: u64, id: fileid3) -> (fh: nfs_fh3)
    ensures
        fh@ == handle_bytes(generation, id),
        fh.data@ == le_bytes(generation) + le_bytes(id),
{
    let mut ret: Vec<u8> = Vec::new();
    ret.extend_from_slice(&to_le_bytes(generation));
    ret.extend_from_slice(&to_le_bytes(id));
    assert(ret@ =~= handle_bytes(generation, id));
    nfs_fh3 { data: ret }
}

/// Finds the file that a handle stands for in the given generation.
pub fn fh_to_id(generation: u64, fh: &nfs_fh3) -> (id: Result<fileid3, nfsstat3>)
    ensures
        id == handle_meaning(generation, fh@),
        id == handle_meaning(generation, fh.data@),
{
    if fh.data.len() != 16 {
        return Err(nfsstat3::NFS3ERR_BADHANDLE);
    }
    let made_in: u64 = from_le_bytes(&fh.data, 0);
    let id: u64 = from_le_bytes(&fh.data, 8);
    if made_in < generation {
        Err(nfsstat3::NFS3ERR_STALE)
    } else if made_in > generation {
        Err(nfsstat3::NFS3ERR_BADHANDLE)
    } else {
        Ok(id)
    }
}

/// The verifier by which a client notices that the server has been restarted.
pub fn serverid(generation: u64) -> (verifier: cookieverf3)
    ensures
        verifier@ == le_bytes(generation),
{
    to_le_bytes(generation)
}

/// A handle stands for the file it was made for as long as the generation is the same.
pub proof fn handle_round_trip(generation: u64, id: fileid3)
    ensures
        handle_meaning(generation, handle_bytes(generation, id)) == Ok::<fileid3, nfsstat3>(id),
{
    handle_parts(generation, id);
}

/// A handle is made of sixteen bytes, which read as the generation and the id.
proof fn handle_parts(generation: u64, id: fileid3)
    ensures
        handle_bytes(generation, id).len() == 16,
        handle_bytes(generation, id).subrange(0, 8) == le_bytes(generation),
        le_value(handle_bytes(generation, id).subrange(0, 8)) == generation,
        le_value(handle_bytes(generation, id).subrange(8, 16)) == id,
{
    le_value_of_le_bytes(generation);
    le_value_of_le_bytes(id);
    assert(handle_bytes(generation, id).subrange(0, 8) =~= le_bytes(generation));
    assert(handle_bytes(generation, id).subrange(8, 16) =~= le_bytes(id));
}

/// A server accepts no handle but those that it makes itself: one that it takes for the file `id`
/// is, byte for byte, the handle of that file.
pub proof fn accepted_handles(generation: u64, data: Seq<u8>, id: fileid3)
    ensures
        handle_meaning(generation, data) == Ok::<fileid3, nfsstat3>(id) <==> data == handle_bytes(
            generation,
            id,
        ),
{
    if handle_meaning(generation, data) == Ok::<fileid3, nfsstat3>(id) {
        le_bytes_of_le_value(data.subrange(0, 8));
        le_bytes_of_le_value(data.subrange(8, 16));
        assert(data =~= data.subrange(0, 8) + data.subrange(8, 16));
    }
    handle_round_trip(generation, id);
}

/// Different files, and different generations, have different handles.
pub proof fn handles_are_distinct(generation1: u64, id1: fileid3, generation2: u64, id2: fileid3)
    requires
        handle_bytes(generation1, id1) == handle_bytes(generation2, id2),
    ensures
        generation1 == generation2,
        id1 == id2,
{
    handle_parts(generation1, id1);
    handle_parts(generation2, id2);
}

/// A handle expires with the generation it was made in: in a later generation it is stale, and in
/// an earlier one it is no handle at all.
pub proof fn handle_expires(made_in: u64, generation: u64, id: fileid3)
    ensures
        made_in < generation ==> handle_meaning(generation, handle_bytes(made_in, id)) == Err::<
            fileid3,
            nfsstat3,
        >(nfsstat3::NFS3ERR_STALE),
        made_in > generation ==> handle_meaning(generation, handle_bytes(made_in, id)) == Err::<
            fileid3,
            nfsstat3,
        >(nfsstat3::NFS3ERR_BADHANDLE),
{
    handle_parts(made_in, id);
}

/// A handle expires when the server restarts: it is refused unless the restart has the very same
/// generation number, and as stale if the restart is later and the generation number has not
/// started over meanwhile.
pub proof fn restart_expires_handles(started: nat, restarted: nat, id: fileid3)
    requires
        generation_at(started) != generation_at(restarted),
    ensures
        ({
            let handle = handle_bytes(generation_at(started), id);
            let meaning = handle_meaning(generation_at(restarted), handle);
            &&& meaning is Err
            &&& started < restarted && started / generation_period() == restarted
                / generation_period() ==> meaning == Err::<fileid3, nfsstat3>(
                nfsstat3::NFS3ERR_STALE,
            )
        }),
{
    handle_expires(generation_at(started), generation_at(restarted), id);
}

/// The verifier of a server is what every handle that it makes begins with, and tells its
/// generation from any other.
pub proof fn verifier_names_the_generation(generation: u64, other: u64, id: fileid3)
    ensures
        handle_bytes(generation, id).subrange(0, 8) == le_bytes(generation),
        le_bytes(generation) == le_bytes(other) <==> generation == other,
{
    handle_parts(generation, id);
    le_value_of_le_bytes(generation);
    le_value_of_le_bytes(other);
}

/// The bytes of a number are its eight digits to the base of 256, the lowest first.
pub proof fn le_bytes_are_the_digits(x: u64)
    ensures
        le_bytes(x).len() == 8,
        ({
            let b = le_bytes(x);
            x == b[0] + 0x100 * b[1] + 0x1_0000 * b[2] + 0x100_0000 * b[3] + 0x1_0000_0000 * b[4]
                + 0x100_0000_0000 * b[5] + 0x1_0000_0000_0000 * b[6] + 0x100_0000_0000_0000 * b[7]
        }),
{
    le_value_of_le_bytes(x);
}

/// Eight bytes read as the number whose digits to the base of 256 they are, the lowest first.
pub proof fn le_value_sums_the_digits(s: Seq<u8>)
    ensures
        le_value(s) == s[0] + 0x100 * s[1] + 0x1_0000 * s[2] + 0x100_0000 * s[3] + 0x1_0000_0000
            * s[4] + 0x100_0000_0000 * s[5] + 0x1_0000_0000_0000 * s[6] + 0x100_0000_0000_0000
            * s[7],
{
}

/// A handle is sixteen bytes: the digits of the generation number to the base of 256 and then
/// those of the file id, the lowest first in each.
pub proof fn handle_holds_generation_and_id(generation: u64, id: fileid3)
    ensures
        handle_bytes(generation, id).len() == 16,
        ({
            let b = handle_bytes(generation, id);
            &&& generation == b[0] + 0x100 * b[1] + 0x1_0000 * b[2] + 0x100_0000 * b[3]
                + 0x1_0000_0000 * b[4] + 0x100_0000_0000 * b[5] + 0x1_0000_0000_0000 * b[6]
                + 0x100_0000_0000_0000 * b[7]
            &&& id == b[8] + 0x100 * b[9] + 0x1_0000 * b[10] + 0x100_0000 * b[11] + 0x1_0000_0000
                * b[12] + 0x100_0000_0000 * b[13] + 0x1_0000_0000_0000 * b[14]
                + 0x100_0000_0000_0000 * b[15]
        }),
{
    le_bytes_are_the_digits(generation);
    le_bytes_are_the_digits(id);
}

/// What does not have the length of a handle is none.
pub proof fn wrong_length_is_no_handle(generation: u64, data: Seq<u8>)
    requires
        data.len() != 16,
    ensures
        handle_meaning(generation, data) == Err::<fileid3, nfsstat3>(nfsstat3::NFS3ERR_BADHANDLE),
{
}

/// Whatever has the length of a handle is the handle of one file in one generation, and is judged
/// by that generation alone: it stands for that file in the same generation, is stale in a later
/// one and no handle in an earlier one.
pub proof fn every_handle_is_judged_by_its_generation(generation: u64, data: Seq<u8>)
    requires
        data.len() == 16,
    ensures
        exists|made_in: u64, id: fileid3| #[trigger]
            handle_bytes(made_in, id) == data && handle_meaning(generation, data) == (if made_in
                == generation {
                Ok::<fileid3, nfsstat3>(id)
            } else if made_in < generation {
                Err(nfsstat3::NFS3ERR_STALE)
            } else {
                Err(nfsstat3::NFS3ERR_BADHANDLE)
            }),
{
    let made_in = le_value(data.subrange(0, 8));
    let id = le_value(data.subrange(8, 16));
    le_bytes_of_le_value(data.subrange(0, 8));
    le_bytes_of_le_value(data.subrange(8, 16));
    assert(handle_bytes(made_in, id) =~= data);
}

/// The generation number of a start is its time in milliseconds, for as long as that fits into 64
/// bits, and goes on from zero afterwards.
pub proof fn generation_is_the_start_time(millis: nat)
    ensures
        millis < 0x1_0000_0000_0000_0000 ==> generation_at(millis) == millis,
        generation_at(millis + 0x1_0000_0000_0000_0000) == generation_at(millis),
        generation_period() == 0x1_0000_0000_0000_0000,
{
}

/// Two starts share a generation number only if they are a whole number of periods of 2^64
/// milliseconds apart.
pub proof fn starts_have_their_own_generation(one: nat, other: nat)
    ensures
        generation_at(one) == generation_at(other) <==> (one - other) % 0x1_0000_0000_0000_0000
            == 0,
{
}

/// A handle that a server makes is of no use to it after a restart at another millisecond: it is
/// stale if the restart is later and no handle if the clock was put back, and the verifier by which
/// clients notice restarts is another one. Where times do not fit into 64 bits the handle is still
/// refused and the verifier another one, if the two starts are less than 2^64 milliseconds apart.
pub proof fn another_start_refuses_handles(started: nat, restarted: nat, id: fileid3)
    requires
        started != restarted,
    ensures
        ({
            let handle = handle_bytes(generation_at(started), id);
            let meaning = handle_meaning(generation_at(restarted), handle);
            &&& started < restarted < 0x1_0000_0000_0000_0000 ==> meaning == Err::<
                fileid3,
                nfsstat3,
            >(nfsstat3::NFS3ERR_STALE)
            &&& restarted < started < 0x1_0000_0000_0000_0000 ==> meaning == Err::<
                fileid3,
                nfsstat3,
            >(nfsstat3::NFS3ERR_BADHANDLE)
            &&& -0x1_0000_0000_0000_0000 < restarted - started < 0x1_0000_0000_0000_0000 ==> {
                &&& meaning is Err
                &&& le_bytes(generation_at(started)) != le_bytes(generation_at(restarted))
            }
        }),
{
    starts_have_their_own_generation(started, restarted);
    generation_is_the_start_time(started);
    generation_is_the_start_time(restarted);
    handle_expires(generation_at(started), generation_at(restarted), id);
    verifier_names_the_generation(generation_at(started), generation_at(restarted), id);
}

/// For as long as the server runs, the handle that it makes of a file stands for that file.
pub proof fn same_start_accepts_handles(started: nat, id: fileid3)
    ensures
        handle_meaning(generation_at(started), handle_bytes(generation_at(started), id)) == Ok::<
            fileid3,
            nfsstat3,
        >(id),
{
    handle_round_trip(generation_at(started), id);
}

} // verus!
