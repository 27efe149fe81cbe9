//! The btrfs control-channel protocol: fixed-layout request and response
//! records for snapshot creation and destruction, and their exact byte
//! encodings at the syscall boundary.
//!
//! The records are kept as tagged values; the driver that issues the
//! control-channel calls receives the exact byte image produced by
//! [`encode_args_v2`] and hands response buffers to [`decode_subvol_info`].

use vstd::prelude::*;
use vstd::bytes::*;
use vstd::slice::*;

verus! {

/// The maximum byte length of a snapshot name in a create or destroy request.
pub const SUBVOL_NAME_MAX: usize = 4039;

/// The byte length of the name buffer in a subvolume-info response.
pub const VOL_NAME_MAX: usize = 255;

/// The byte length of a UUID field in a subvolume-info response.
pub const UUID_SIZE: usize = 16;

/// Flag in a create request (bit 1): make the new subvolume read-only.
pub const SUBVOL_RDONLY: u64 = 2;

/// Flag in a destroy request (bit 4): address the subvolume by internal
/// identifier rather than by name.
pub const SUBVOL_SPEC_BY_ID: u64 = 16;

/// The `f_type` value that identifies a btrfs filesystem.
pub const BTRFS_SUPER_MAGIC: i64 = 0x9123683e;

/// The inode number of the root directory of every subvolume.
pub const FIRST_FREE_OBJECTID: u64 = 256;

/// The size in bytes of an encoded create/destroy request record.
pub const ARGS_V2_SIZE: usize = 4096;

/// The size in bytes of a subvolume-info response record.
pub const SUBVOL_INFO_SIZE: usize = 504;

/// An error that can occur when operating on a btrfs filesystem.
#[derive(Clone, Debug, PartialEq, Eq)]
pub enum Error {
    /// A specified path is on a non-btrfs filesystem.
    NotBtrfs,
    /// A specified path is not the root directory of a subvolume.
    NotSubvolumeRoot,
    /// A syscall failed with the given operating-system error number.
    Syscall(i32),
}

impl Error {
    /// A short description of the error.
    pub fn message(&self) -> (r: &'static str)
        ensures
            *self matches Error::NotBtrfs ==> r@ == "not a btrfs filesystem"@,
            *self matches Error::NotSubvolumeRoot ==> r@ == "not the root of a subvolume"@,
            *self matches Error::Syscall(_) ==> r@ == "syscall failed"@,
    {
        match self {
            Error::NotBtrfs => "not a btrfs filesystem",
            Error::NotSubvolumeRoot => "not the root of a subvolume",
            Error::Syscall(_) => "syscall failed",
        }
    }
}

/// A timestamp in a subvolume-info response.
#[derive(Clone, Copy, Debug, PartialEq, Eq, Structural)]
pub struct Timespec {
    pub sec: u64,
    pub nsec: u32,
}

/// The identification of the object a request operates on: either a
/// NUL-free name of at most [`SUBVOL_NAME_MAX`] bytes, or a 64-bit
/// subvolume or device identifier.
#[derive(Clone, Debug, PartialEq, Eq)]
pub enum ArgsV2Id {
    Name(Vec<u8>),
    SubvolId(u64),
    DevId(u64),
}

/// A create/destroy request record. The reserved words of the on-wire
/// layout are always zero and appear only in the encoding.
#[derive(Clone, Debug, PartialEq, Eq)]
pub struct ArgsV2 {
    pub fd: i64,
    pub transid: u64,
    pub flags: u64,
    pub identifier: ArgsV2Id,
}

/// A subvolume-info response record. Of these fields, only `treeid` is
/// consumed when tearing a snapshot down; the rest are decoded for
/// completeness.
#[derive(Clone, Debug, PartialEq, Eq)]
pub struct GetSubvolInfoArgs {
    pub treeid: u64,
    pub name: Vec<u8>,
    pub parent_id: u64,
    pub dirid: u64,
    pub generation: u64,
    pub flags: u64,
    pub uuid: Vec<u8>,
    pub parent_uuid: Vec<u8>,
    pub received_uuid: Vec<u8>,
    pub ctransid: u64,
    pub otransid: u64,
    pub stransid: u64,
    pub rtransid: u64,
    pub ctime: Timespec,
    pub otime: Timespec,
    pub stime: Timespec,
    pub rtime: Timespec,
}

/// A sequence of `n` zero bytes.
pub open spec fn spec_zero_bytes(n: nat) -> Seq<u8> {
    Seq::new(n, |i: int| 0u8)
}

/// The byte image of a request's identifier union: a name is NUL-padded to
/// the full buffer; an identifier is little-endian in the first eight bytes.
pub open spec fn spec_identifier_bytes(id: ArgsV2Id) -> Seq<u8> {
    match id {
        ArgsV2Id::Name(name) => name@ + spec_zero_bytes((4040 - name@.len()) as nat),
        ArgsV2Id::SubvolId(x) => spec_u64_to_le_bytes(x) + spec_zero_bytes(4032),
        ArgsV2Id::DevId(x) => spec_u64_to_le_bytes(x) + spec_zero_bytes(4032),
    }
}

/// The exact byte image of a request record, in the platform's (little-endian)
/// byte order: descriptor, transaction id, flags, four reserved words, then
/// the identifier buffer.
pub open spec fn spec_encode_args_v2(a: ArgsV2) -> Seq<u8> {
    spec_u64_to_le_bytes(a.fd as u64) + spec_u64_to_le_bytes(a.transid)
        + spec_u64_to_le_bytes(a.flags) + spec_zero_bytes(32)
        + spec_identifier_bytes(a.identifier)
}

/// Whether a request record can be encoded: a name must fit the buffer.
pub open spec fn args_v2_wf(a: ArgsV2) -> bool {
    a.identifier matches ArgsV2Id::Name(name) ==> name@.len() <= SUBVOL_NAME_MAX
}

/// Appends `n` zero bytes.
fn push_zero_bytes(out: &mut Vec<u8>, n: usize)
    ensures
        final(out)@ == old(out)@ + spec_zero_bytes(n as nat),
{
    let mut zeros: Vec<u8> = vec![0u8; n];
    let ghost z = zeros@;
    out.append(&mut zeros);
    proof {
        assert(z =~= spec_zero_bytes(n as nat));
    }
}

/// Appends the little-endian image of `x`.
fn push_u64_le(out: &mut Vec<u8>, x: u64)
    ensures
        final(out)@ == old(out)@ + spec_u64_to_le_bytes(x),
{
    let mut b = u64_to_le_bytes(x);
    out.append(&mut b);
}

/// Produces the exact [`ARGS_V2_SIZE`]-byte image of a request record.
pub fn encode_args_v2(a: &ArgsV2) -> (r: Vec<u8>)
    requires
        args_v2_wf(*a),
    ensures
        r@ == spec_encode_args_v2(*a),
        r@.len() == ARGS_V2_SIZE,
{
    proof {
        lemma_auto_spec_u64_to_from_le_bytes();
    }
    let mut out: Vec<u8> = Vec::new();
    push_u64_le(&mut out, a.fd as u64);
    push_u64_le(&mut out, a.transid);
    push_u64_le(&mut out, a.flags);
    push_zero_bytes(&mut out, 32);
    match &a.identifier {
        ArgsV2Id::Name(name) => {
            out.extend_from_slice(name.as_slice());
            push_zero_bytes(&mut out, 4040 - name.len());
        },
        ArgsV2Id::SubvolId(x) => {
            push_u64_le(&mut out, *x);
            push_zero_bytes(&mut out, 4032);
        },
        ArgsV2Id::DevId(x) => {
            push_u64_le(&mut out, *x);
            push_zero_bytes(&mut out, 4032);
        },
    }
    proof {
        assert(out@ =~= spec_encode_args_v2(*a));
    }
    out
}

/// The request that creates a read-only snapshot of the subvolume open at
/// `source_fd`, under the given name in the directory the request is issued
/// on.
pub fn make_create_request(source_fd: i64, name: &Vec<u8>) -> (r: ArgsV2)
    requires
        name@.len() <= SUBVOL_NAME_MAX,
    ensures
        r == (ArgsV2 {
            fd: source_fd,
            transid: 0u64,
            flags: SUBVOL_RDONLY,
            identifier: ArgsV2Id::Name(r.identifier->Name_0),
        }),
        r.identifier matches ArgsV2Id::Name(n) && n@ == name@,
        args_v2_wf(r),
{
    ArgsV2 {
        fd: source_fd,
        transid: 0,
        flags: SUBVOL_RDONLY,
        identifier: ArgsV2Id::Name(copy_bytes(name)),
    }
}

/// The request that destroys the subvolume with the given internal
/// identifier, addressed by identifier rather than by name.
pub fn make_destroy_request(subvol_id: u64) -> (r: ArgsV2)
    ensures
        r == (ArgsV2 {
            fd: 0i64,
            transid: 0u64,
            flags: SUBVOL_SPEC_BY_ID,
            identifier: ArgsV2Id::SubvolId(subvol_id),
        }),
        args_v2_wf(r),
{
    ArgsV2 { fd: 0, transid: 0, flags: SUBVOL_SPEC_BY_ID, identifier: ArgsV2Id::SubvolId(subvol_id) }
}

/// The byte image of the request that creates a read-only snapshot of the
/// subvolume open at `source_fd` under the given name.
pub open spec fn spec_create_request_bytes(source_fd: i64, name: Seq<u8>) -> Seq<u8> {
    spec_u64_to_le_bytes(source_fd as u64) + spec_u64_to_le_bytes(0) + spec_u64_to_le_bytes(
        SUBVOL_RDONLY,
    ) + spec_zero_bytes(32) + (name + spec_zero_bytes((4040 - name.len()) as nat))
}

/// The byte image of the request that destroys the subvolume with the
/// given internal identifier, addressed by identifier.
pub open spec fn spec_destroy_request_bytes(subvol_id: u64) -> Seq<u8> {
    spec_u64_to_le_bytes(0) + spec_u64_to_le_bytes(0) + spec_u64_to_le_bytes(SUBVOL_SPEC_BY_ID)
        + spec_zero_bytes(32) + (spec_u64_to_le_bytes(subvol_id) + spec_zero_bytes(4032))
}

/// Encodes a create-snapshot request.
pub fn create_request_bytes(source_fd: i64, name: &Vec<u8>) -> (r: Vec<u8>)
    requires
        name@.len() <= SUBVOL_NAME_MAX,
    ensures
        r@ == spec_create_request_bytes(source_fd, name@),
        r@.len() == ARGS_V2_SIZE,
{
    let req = make_create_request(source_fd, name);
    let r = encode_args_v2(&req);
    proof {
        assert(r@ =~= spec_create_request_bytes(source_fd, name@));
    }
    r
}

/// Encodes a destroy-subvolume request.
pub fn destroy_request_bytes(subvol_id: u64) -> (r: Vec<u8>)
    ensures
        r@ == spec_destroy_request_bytes(subvol_id),
        r@.len() == ARGS_V2_SIZE,
{
    let req = make_destroy_request(subvol_id);
    let r = encode_args_v2(&req);
    proof {
        assert(r@ =~= spec_destroy_request_bytes(subvol_id));
    }
    r
}

/// The flags value to write back before destroying a snapshot: the old
/// flags with the read-only bit cleared.
pub fn writable_flags(flags: u64) -> (r: u64)
    ensures
        r == flags & !SUBVOL_RDONLY,
        r & SUBVOL_RDONLY == 0,
{
    let r = flags & !SUBVOL_RDONLY;
    assert(flags & !2u64 & 2u64 == 0) by (bit_vector);
    r
}

/// Whether a `statfs` type field identifies a btrfs filesystem.
pub fn is_btrfs_f_type(f_type: i64) -> (r: bool)
    ensures
        r == (f_type == BTRFS_SUPER_MAGIC),
{
    f_type == BTRFS_SUPER_MAGIC
}

/// Whether an inode is the root directory of a subvolume.
pub fn is_subvolume_root(is_dir: bool, ino: u64) -> (r: bool)
    ensures
        r == (is_dir && ino == FIRST_FREE_OBJECTID),
{
    is_dir && ino == FIRST_FREE_OBJECTID
}

/// A copy of a byte vector.
pub fn copy_bytes(v: &Vec<u8>) -> (r: Vec<u8>)
    ensures
        r@ == v@,
{
    slice_to_vec(v.as_slice())
}

/// Reads the little-endian 64-bit word at `off`.
fn read_u64_at(b: &[u8], off: usize) -> (r: u64)
    requires
        off + 8 <= b@.len(),
    ensures
        r == spec_u64_from_le_bytes(b@.subrange(off as int, off + 8)),
{
    let _len = b.len();
    let s = slice_subrange(b, off, off + 8);
    u64_from_le_bytes(s)
}

/// Reads the little-endian 32-bit word at `off`.
fn read_u32_at(b: &[u8], off: usize) -> (r: u32)
    requires
        off + 4 <= b@.len(),
    ensures
        r == spec_u32_from_le_bytes(b@.subrange(off as int, off + 4)),
{
    let _len = b.len();
    let s = slice_subrange(b, off, off + 4);
    u32_from_le_bytes(s)
}

/// Copies the bytes at `off .. off + n`.
fn read_bytes_at(b: &[u8], off: usize, n: usize) -> (r: Vec<u8>)
    requires
        off + n <= b@.len(),
    ensures
        r@ == b@.subrange(off as int, off + n),
{
    let _len = b.len();
    slice_to_vec(slice_subrange(b, off, off + n))
}

/// Reads the timestamp record at `off`: seconds, nanoseconds, then four
/// bytes of padding.
fn read_timespec_at(b: &[u8], off: usize) -> (r: Timespec)
    requires
        off + 16 <= b@.len(),
    ensures
        r.sec == spec_u64_from_le_bytes(b@.subrange(off as int, off + 8)),
        r.nsec == spec_u32_from_le_bytes(b@.subrange(off + 8, off + 12)),
{
    let _len = b.len();
    Timespec { sec: read_u64_at(b, off), nsec: read_u32_at(b, off + 8) }
}

/// Decodes a subvolume-info response buffer into its record. The last 64
/// bytes of the buffer are reserved and ignored.
pub fn decode_subvol_info(b: &[u8]) -> (r: GetSubvolInfoArgs)
    requires
        b@.len() == SUBVOL_INFO_SIZE,
    ensures
        r.treeid == spec_u64_from_le_bytes(b@.subrange(0, 8)),
        r.name@ == b@.subrange(8, 264),
        r.parent_id == spec_u64_from_le_bytes(b@.subrange(264, 272)),
        r.dirid == spec_u64_from_le_bytes(b@.subrange(272, 280)),
        r.generation == spec_u64_from_le_bytes(b@.subrange(280, 288)),
        r.flags == spec_u64_from_le_bytes(b@.subrange(288, 296)),
        r.uuid@ == b@.subrange(296, 312),
        r.parent_uuid@ == b@.subrange(312, 328),
        r.received_uuid@ == b@.subrange(328, 344),
        r.ctransid == spec_u64_from_le_bytes(b@.subrange(344, 352)),
        r.otransid == spec_u64_from_le_bytes(b@.subrange(352, 360)),
        r.stransid == spec_u64_from_le_bytes(b@.subrange(360, 368)),
        r.rtransid == spec_u64_from_le_bytes(b@.subrange(368, 376)),
        r.ctime.sec == spec_u64_from_le_bytes(b@.subrange(376, 384)),
        r.ctime.nsec == spec_u32_from_le_bytes(b@.subrange(384, 388)),
        r.otime.sec == spec_u64_from_le_bytes(b@.subrange(392, 400)),
        r.otime.nsec == spec_u32_from_le_bytes(b@.subrange(400, 404)),
        r.stime.sec == spec_u64_from_le_bytes(b@.subrange(408, 416)),
        r.stime.nsec == spec_u32_from_le_bytes(b@.subrange(416, 420)),
        r.rtime.sec == spec_u64_from_le_bytes(b@.subrange(424, 432)),
        r.rtime.nsec == spec_u32_from_le_bytes(b@.subrange(432, 436)),
{
    GetSubvolInfoArgs {
        treeid: read_u64_at(b, 0),
        name: read_bytes_at(b, 8, VOL_NAME_MAX + 1),
        parent_id: read_u64_at(b, 264),
        dirid: read_u64_at(b, 272),
        generation: read_u64_at(b, 280),
        flags: read_u64_at(b, 288),
        uuid: read_bytes_at(b, 296, UUID_SIZE),
        parent_uuid: read_bytes_at(b, 312, UUID_SIZE),
        received_uuid: read_bytes_at(b, 328, UUID_SIZE),
        ctransid: read_u64_at(b, 344),
        otransid: read_u64_at(b, 352),
        stransid: read_u64_at(b, 360),
        rtransid: read_u64_at(b, 368),
        ctime: read_timespec_at(b, 376),
        otime: read_timespec_at(b, 392),
        stime: read_timespec_at(b, 408),
        rtime: read_timespec_at(b, 424),
    }
}

} // verus!
