//! Requests and replies for attribute changes, file system statistics,
//! special files, block maps, preallocation, polling, copies, device commands
//! and batched forgets.
use vstd::bytes::*;
use vstd::prelude::*;

use crate::error::Error;
use crate::node::{NodeId, NodeName};
use crate::ops::fixed_name_frame_error;
use crate::request::{check_fixed_frame, fixed_frame_error, frame_node_id, parse_name, read_name};
use crate::wire::{
    push_bytes, push_u32, push_u64, push_zeros, read_u32, read_u64, u32_at, u64_at, zeros,
    REQUEST_HEADER_LEN,
};

verus! {

/// Bits of `fuse_setattr_in.valid`: which fields a setattr request carries.
pub const FATTR_MODE: u32 = 1;
pub const FATTR_UID: u32 = 2;
pub const FATTR_GID: u32 = 4;
pub const FATTR_SIZE: u32 = 8;
pub const FATTR_ATIME: u32 = 16;
pub const FATTR_MTIME: u32 = 32;
pub const FATTR_FH: u32 = 64;
pub const FATTR_ATIME_NOW: u32 = 128;
pub const FATTR_MTIME_NOW: u32 = 256;
pub const FATTR_LOCKOWNER: u32 = 512;
pub const FATTR_CTIME: u32 = 1024;

/// Size of `fuse_setattr_in`.
pub const SETATTR_IN_SIZE: usize = 88;

/// A point in time: seconds and nanoseconds since the epoch.
#[derive(Debug, Copy, Clone, PartialEq, Eq, Structural)]
pub struct Timestamp {
    pub seconds: u64,
    pub nanos: u32,
}

/// Changes attributes of a node: `fuse_setattr_in`. Each field is present
/// when its bit of `valid` is set.
#[derive(Debug, Copy, Clone)]
pub struct SetattrRequest {
    pub node_id: NodeId,
    pub handle: Option<u64>,
    pub size: Option<u64>,
    pub lock_owner: Option<u64>,
    pub atime: Option<Timestamp>,
    pub atime_now: bool,
    pub mtime: Option<Timestamp>,
    pub mtime_now: bool,
    pub ctime: Option<Timestamp>,
    pub mode: Option<u32>,
    pub user_id: Option<u32>,
    pub group_id: Option<u32>,
}

/// The value `v` when bit `bit` of `valid` is set.
pub open spec fn when_set<T>(valid: u32, bit: u32, v: T) -> Option<T> {
    if valid & bit != 0 {
        Some(v)
    } else {
        None
    }
}

/// Where the fields of a decoded setattr request come from.
pub open spec fn setattr_fields(s: Seq<u8>, q: SetattrRequest) -> bool {
    let valid = u32_at(s, 40);
    &&& q.node_id@ == frame_node_id(s)
    &&& q.handle == when_set(valid, FATTR_FH, u64_at(s, 48))
    &&& q.size == when_set(valid, FATTR_SIZE, u64_at(s, 56))
    &&& q.lock_owner == when_set(valid, FATTR_LOCKOWNER, u64_at(s, 64))
    &&& q.atime == when_set(
        valid,
        FATTR_ATIME,
        Timestamp { seconds: u64_at(s, 72), nanos: u32_at(s, 96) },
    )
    &&& q.mtime == when_set(
        valid,
        FATTR_MTIME,
        Timestamp { seconds: u64_at(s, 80), nanos: u32_at(s, 100) },
    )
    &&& q.ctime == when_set(
        valid,
        FATTR_CTIME,
        Timestamp { seconds: u64_at(s, 88), nanos: u32_at(s, 104) },
    )
    &&& q.atime_now == (valid & FATTR_ATIME_NOW != 0)
    &&& q.mtime_now == (valid & FATTR_MTIME_NOW != 0)
    &&& q.mode == when_set(valid, FATTR_MODE, u32_at(s, 108))
    &&& q.user_id == when_set(valid, FATTR_UID, u32_at(s, 116))
    &&& q.group_id == when_set(valid, FATTR_GID, u32_at(s, 120))
}

fn opt_u64(valid: u32, bit: u32, v: u64) -> (r: Option<u64>)
    ensures
        r == when_set(valid, bit, v),
{
    if valid & bit != 0 {
        Some(v)
    } else {
        None
    }
}

fn opt_u32(valid: u32, bit: u32, v: u32) -> (r: Option<u32>)
    ensures
        r == when_set(valid, bit, v),
{
    if valid & bit != 0 {
        Some(v)
    } else {
        None
    }
}

fn opt_time(valid: u32, bit: u32, seconds: u64, nanos: u32) -> (r: Option<Timestamp>)
    ensures
        r == when_set(valid, bit, Timestamp { seconds, nanos }),
{
    if valid & bit != 0 {
        Some(Timestamp { seconds, nanos })
    } else {
        None
    }
}

impl SetattrRequest {
    pub fn decode(buf: &[u8]) -> (r: Result<SetattrRequest, Error>)
        ensures
            fixed_frame_error(buf@, SETATTR_IN_SIZE as nat) matches Some(e) ==> r == Err::<
                SetattrRequest,
                Error,
            >(e),
            fixed_frame_error(buf@, SETATTR_IN_SIZE as nat) is None ==> (r matches Ok(q)
                && setattr_fields(buf@, q)),
    {
        let node_id = match check_fixed_frame(buf, SETATTR_IN_SIZE) {
            Err(e) => return Err(e),
            Ok(n) => n,
        };
        let valid = read_u32(buf, 40);
        Ok(
            SetattrRequest {
                node_id,
                handle: opt_u64(valid, FATTR_FH, read_u64(buf, 48)),
                size: opt_u64(valid, FATTR_SIZE, read_u64(buf, 56)),
                lock_owner: opt_u64(valid, FATTR_LOCKOWNER, read_u64(buf, 64)),
                atime: opt_time(valid, FATTR_ATIME, read_u64(buf, 72), read_u32(buf, 96)),
                atime_now: valid & FATTR_ATIME_NOW != 0,
                mtime: opt_time(valid, FATTR_MTIME, read_u64(buf, 80), read_u32(buf, 100)),
                mtime_now: valid & FATTR_MTIME_NOW != 0,
                ctime: opt_time(valid, FATTR_CTIME, read_u64(buf, 88), read_u32(buf, 104)),
                mode: opt_u32(valid, FATTR_MODE, read_u32(buf, 108)),
                user_id: opt_u32(valid, FATTR_UID, read_u32(buf, 116)),
                group_id: opt_u32(valid, FATTR_GID, read_u32(buf, 120)),
            },
        )
    }
}

/// A request that names a node and carries nothing else: `FUSE_READLINK`
/// and `FUSE_STATFS`.
#[derive(Debug, Copy, Clone)]
pub struct NodeRequest {
    pub node_id: NodeId,
}

impl NodeRequest {
    pub fn decode(buf: &[u8]) -> (r: Result<NodeRequest, Error>)
        ensures
            fixed_frame_error(buf@, 0) matches Some(e) ==> r == Err::<NodeRequest, Error>(e),
            fixed_frame_error(buf@, 0) is None ==> (r matches Ok(q) && q.node_id@
                == frame_node_id(buf@)),
    {
        match check_fixed_frame(buf, 0) {
            Err(e) => Err(e),
            Ok(node_id) => Ok(NodeRequest { node_id }),
        }
    }
}

/// File system statistics: `fuse_kstatfs`.
#[derive(Debug, Copy, Clone, PartialEq, Eq, Structural)]
pub struct StatfsResponse {
    pub blocks: u64,
    pub blocks_free: u64,
    pub blocks_available: u64,
    pub files: u64,
    pub files_free: u64,
    pub block_size: u32,
    pub name_max: u32,
    pub fragment_size: u32,
}

/// The wire bytes of `fuse_statfs_out` in minor version `minor`; the
/// fragment size and the spare words come with minor version 4.
pub open spec fn statfs_out_bytes(r: StatfsResponse, minor: u32) -> Seq<u8> {
    let base = spec_u64_to_le_bytes(r.blocks) + spec_u64_to_le_bytes(r.blocks_free)
        + spec_u64_to_le_bytes(r.blocks_available) + spec_u64_to_le_bytes(r.files)
        + spec_u64_to_le_bytes(r.files_free) + spec_u32_to_le_bytes(r.block_size)
        + spec_u32_to_le_bytes(r.name_max);
    if minor >= 4 {
        base + spec_u32_to_le_bytes(r.fragment_size) + zeros(28)
    } else {
        base
    }
}

impl StatfsResponse {
    pub fn encode(&self, minor: u32) -> (r: Vec<u8>)
        ensures
            r@ == statfs_out_bytes(*self, minor),
    {
        let mut out: Vec<u8> = Vec::new();
        push_u64(&mut out, self.blocks);
        push_u64(&mut out, self.blocks_free);
        push_u64(&mut out, self.blocks_available);
        push_u64(&mut out, self.files);
        push_u64(&mut out, self.files_free);
        push_u32(&mut out, self.block_size);
        push_u32(&mut out, self.name_max);
        if minor >= 4 {
            push_u32(&mut out, self.fragment_size);
            push_zeros(&mut out, 28);
        }
        assert(out@ =~= statfs_out_bytes(*self, minor));
        out
    }
}

/// The size of the fixed part of a mknod frame: `fuse_mknod_in` with the
/// umask from minor version 12, mode and device alone before.
pub open spec fn mknod_in_size(minor: u32) -> nat {
    if minor >= 12 {
        16
    } else {
        8
    }
}

/// Creates a special file: `fuse_mknod_in`, then the name.
#[derive(Debug)]
pub struct MknodRequest {
    pub parent_id: NodeId,
    pub name: NodeName,
    pub mode: u32,
    pub device_number: u32,
    pub umask: u32,
}

/// Where the fields of a decoded mknod request of minor version `minor` come from.
pub open spec fn mknod_fields(s: Seq<u8>, minor: u32, q: MknodRequest) -> bool {
    &&& q.parent_id@ == frame_node_id(s)
    &&& q.mode == u32_at(s, 40)
    &&& q.device_number == u32_at(s, 44)
    &&& q.umask == if minor >= 12 {
        u32_at(s, 48)
    } else {
        0
    }
    &&& q.name@ == parse_name(s, REQUEST_HEADER_LEN + mknod_in_size(minor))->0
}

impl MknodRequest {
    pub fn decode(buf: &[u8], minor: u32) -> (r: Result<MknodRequest, Error>)
        ensures
            fixed_name_frame_error(buf@, mknod_in_size(minor)) matches Some(e) ==> (r matches Err(
                x,
            ) && x == e),
            fixed_name_frame_error(buf@, mknod_in_size(minor)) is None ==> (r matches Ok(q)
                && mknod_fields(buf@, minor, q)),
    {
        let body_len: usize = if minor >= 12 {
            16
        } else {
            8
        };
        let parent_id = match check_fixed_frame(buf, body_len) {
            Err(e) => return Err(e),
            Ok(n) => n,
        };
        let (name, _next) = match read_name(buf, REQUEST_HEADER_LEN + body_len) {
            Err(e) => return Err(e),
            Ok(x) => x,
        };
        let umask = if minor >= 12 {
            read_u32(buf, 48)
        } else {
            0
        };
        Ok(
            MknodRequest {
                parent_id,
                name,
                mode: read_u32(buf, 40),
                device_number: read_u32(buf, 44),
                umask,
            },
        )
    }
}

/// Maps a block of a file to a block of its device: `fuse_bmap_in`.
#[derive(Debug, Copy, Clone)]
pub struct BmapRequest {
    pub node_id: NodeId,
    pub block: u64,
    pub block_size: u32,
}

/// Size of `fuse_bmap_in`.
pub const BMAP_IN_SIZE: usize = 16;

/// Where the fields of a decoded bmap request come from.
pub open spec fn bmap_fields(s: Seq<u8>, q: BmapRequest) -> bool {
    q.node_id@ == frame_node_id(s) && q.block == u64_at(s, 40) && q.block_size == u32_at(s, 48)
}

impl BmapRequest {
    pub fn decode(buf: &[u8]) -> (r: Result<BmapRequest, Error>)
        ensures
            fixed_frame_error(buf@, BMAP_IN_SIZE as nat) matches Some(e) ==> r == Err::<
                BmapRequest,
                Error,
            >(e),
            fixed_frame_error(buf@, BMAP_IN_SIZE as nat) is None ==> (r matches Ok(q)
                && bmap_fields(buf@, q)),
    {
        let node_id = match check_fixed_frame(buf, BMAP_IN_SIZE) {
            Err(e) => return Err(e),
            Ok(n) => n,
        };
        Ok(BmapRequest { node_id, block: read_u64(buf, 40), block_size: read_u32(buf, 48) })
    }
}

/// Preallocates or deallocates space in an open file: `fuse_fallocate_in`.
#[derive(Debug, Copy, Clone)]
pub struct FallocateRequest {
    pub node_id: NodeId,
    pub handle: u64,
    pub offset: u64,
    pub length: u64,
    pub mode: u32,
}

/// Size of `fuse_fallocate_in`.
pub const FALLOCATE_IN_SIZE: usize = 32;

/// Where the fields of a decoded fallocate request come from.
pub open spec fn fallocate_fields(s: Seq<u8>, q: FallocateRequest) -> bool {
    &&& q.node_id@ == frame_node_id(s)
    &&& q.handle == u64_at(s, 40)
    &&& q.offset == u64_at(s, 48)
    &&& q.length == u64_at(s, 56)
    &&& q.mode == u32_at(s, 64)
}

impl FallocateRequest {
    pub fn decode(buf: &[u8]) -> (r: Result<FallocateRequest, Error>)
        ensures
            fixed_frame_error(buf@, FALLOCATE_IN_SIZE as nat) matches Some(e) ==> r == Err::<
                FallocateRequest,
                Error,
            >(e),
            fixed_frame_error(buf@, FALLOCATE_IN_SIZE as nat) is None ==> (r matches Ok(q)
                && fallocate_fields(buf@, q)),
    {
        let node_id = match check_fixed_frame(buf, FALLOCATE_IN_SIZE) {
            Err(e) => return Err(e),
            Ok(n) => n,
        };
        Ok(
            FallocateRequest {
                node_id,
                handle: read_u64(buf, 40),
                offset: read_u64(buf, 48),
                length: read_u64(buf, 56),
                mode: read_u32(buf, 64),
            },
        )
    }
}

/// Asks for readiness events of an open file: `fuse_poll_in`.
#[derive(Debug, Copy, Clone)]
pub struct PollRequest {
    pub node_id: NodeId,
    pub handle: u64,
    /// The kernel's handle for later wake-up notifications.
    pub poll_handle: u64,
    pub flags: u32,
    pub events: u32,
}

/// Size of `fuse_poll_in`.
pub const POLL_IN_SIZE: usize = 24;

/// Where the fields of a decoded poll request come from.
pub open spec fn poll_fields(s: Seq<u8>, q: PollRequest) -> bool {
    &&& q.node_id@ == frame_node_id(s)
    &&& q.handle == u64_at(s, 40)
    &&& q.poll_handle == u64_at(s, 48)
    &&& q.flags == u32_at(s, 56)
    &&& q.events == u32_at(s, 60)
}

impl PollRequest {
    pub fn decode(buf: &[u8]) -> (r: Result<PollRequest, Error>)
        ensures
            fixed_frame_error(buf@, POLL_IN_SIZE as nat) matches Some(e) ==> r == Err::<
                PollRequest,
                Error,
            >(e),
            fixed_frame_error(buf@, POLL_IN_SIZE as nat) is None ==> (r matches Ok(q)
                && poll_fields(buf@, q)),
    {
        let node_id = match check_fixed_frame(buf, POLL_IN_SIZE) {
            Err(e) => return Err(e),
            Ok(n) => n,
        };
        Ok(
            PollRequest {
                node_id,
                handle: read_u64(buf, 40),
                poll_handle: read_u64(buf, 48),
                flags: read_u32(buf, 56),
                events: read_u32(buf, 60),
            },
        )
    }
}

/// Copies a range of one open file into another: `fuse_copy_file_range_in`.
#[derive(Debug, Copy, Clone)]
pub struct CopyFileRangeRequest {
    pub node_id: NodeId,
    pub handle: u64,
    pub offset: u64,
    pub output_node_id: NodeId,
    pub output_handle: u64,
    pub output_offset: u64,
    pub length: u64,
    pub flags: u64,
}

/// Size of `fuse_copy_file_range_in`.
pub const COPY_FILE_RANGE_IN_SIZE: usize = 56;

/// The failure, if any, of decoding a copy-file-range frame: both nodes are
/// needed.
pub open spec fn copy_file_range_frame_error(s: Seq<u8>) -> Option<Error> {
    match fixed_frame_error(s, COPY_FILE_RANGE_IN_SIZE as nat) {
        Some(e) => Some(e),
        None => if u64_at(s, 56) == 0 {
            Some(Error::MissingNodeId)
        } else {
            None
        },
    }
}

/// Where the fields of a decoded copy-file-range request come from.
pub open spec fn copy_file_range_fields(s: Seq<u8>, q: CopyFileRangeRequest) -> bool {
    &&& q.node_id@ == frame_node_id(s)
    &&& q.handle == u64_at(s, 40)
    &&& q.offset == u64_at(s, 48)
    &&& q.output_node_id@ == u64_at(s, 56)
    &&& q.output_handle == u64_at(s, 64)
    &&& q.output_offset == u64_at(s, 72)
    &&& q.length == u64_at(s, 80)
    &&& q.flags == u64_at(s, 88)
}

impl CopyFileRangeRequest {
    pub fn decode(buf: &[u8]) -> (r: Result<CopyFileRangeRequest, Error>)
        ensures
            copy_file_range_frame_error(buf@) matches Some(e) ==> (r matches Err(x) && x == e),
            copy_file_range_frame_error(buf@) is None ==> (r matches Ok(q)
                && copy_file_range_fields(buf@, q)),
    {
        let node_id = match check_fixed_frame(buf, COPY_FILE_RANGE_IN_SIZE) {
            Err(e) => return Err(e),
            Ok(n) => n,
        };
        let output_node_id = match NodeId::new(read_u64(buf, 56)) {
            None => return Err(Error::MissingNodeId),
            Some(n) => n,
        };
        Ok(
            CopyFileRangeRequest {
                node_id,
                handle: read_u64(buf, 40),
                offset: read_u64(buf, 48),
                output_node_id,
                output_handle: read_u64(buf, 64),
                output_offset: read_u64(buf, 72),
                length: read_u64(buf, 80),
                flags: read_u64(buf, 88),
            },
        )
    }
}

/// Drops references to many nodes at once: `fuse_batch_forget_in`, then one
/// `fuse_forget_one` per node. Owes no reply.
#[derive(Debug)]
pub struct BatchForgetRequest {
    /// Node id and lookup count of each entry, in frame order.
    pub items: Vec<(u64, u64)>,
}

/// The failure, if any, of decoding a batch forget frame: the entries must
/// all be present.
pub open spec fn batch_forget_frame_error(s: Seq<u8>) -> Option<Error> {
    if s.len() < REQUEST_HEADER_LEN + 8 {
        Some(Error::UnexpectedEof)
    } else if s.len() < REQUEST_HEADER_LEN + 8 + 16 * u32_at(s, 40) {
        Some(Error::UnexpectedEof)
    } else {
        None
    }
}

/// The entries of a well-formed batch forget frame.
pub open spec fn batch_forget_items(s: Seq<u8>) -> Seq<(u64, u64)> {
    Seq::new(u32_at(s, 40) as nat, |i: int| (u64_at(s, 48 + 16 * i), u64_at(s, 56 + 16 * i)))
}

impl BatchForgetRequest {
    pub fn decode(buf: &[u8]) -> (r: Result<BatchForgetRequest, Error>)
        ensures
            batch_forget_frame_error(buf@) matches Some(e) ==> (r matches Err(x) && x == e),
            batch_forget_frame_error(buf@) is None ==> (r matches Ok(q) && q.items@
                == batch_forget_items(buf@)),
    {
        let _len = buf.len();
        if buf.len() < REQUEST_HEADER_LEN + 8 {
            return Err(Error::UnexpectedEof);
        }
        let count = read_u32(buf, 40) as usize;
        let room = buf.len() - REQUEST_HEADER_LEN - 8;
        if room / 16 < count {
            assert(room < 16 * count) by (nonlinear_arith)
                requires
                    room / 16 < count,
            ;
            return Err(Error::UnexpectedEof);
        }
        assert(16 * count <= room) by (nonlinear_arith)
            requires
                count <= room / 16,
        ;
        let mut items: Vec<(u64, u64)> = Vec::new();
        let mut i: usize = 0;
        while i < count
            invariant
                i <= count,
                count == u32_at(buf@, 40),
                REQUEST_HEADER_LEN + 8 + 16 * count <= buf@.len() <= usize::MAX,
                items@ == batch_forget_items(buf@).subrange(0, i as int),
            decreases count - i,
        {
            assert(16 * i + 16 <= 16 * count) by (nonlinear_arith)
                requires
                    i < count,
            ;
            let off = REQUEST_HEADER_LEN + 8 + 16 * i;
            items.push((read_u64(buf, off), read_u64(buf, off + 8)));
            i = i + 1;
            assert(items@ =~= batch_forget_items(buf@).subrange(0, i as int));
        }
        assert(items@ =~= batch_forget_items(buf@));
        Ok(BatchForgetRequest { items })
    }
}

/// Size of `fuse_ioctl_in`.
pub const IOCTL_IN_SIZE: usize = 32;

/// A device-specific command on an open file: `fuse_ioctl_in`, then the
/// input data.
#[derive(Debug)]
pub struct IoctlRequest {
    pub node_id: NodeId,
    pub handle: u64,
    pub flags: u32,
    pub command: u32,
    pub arg: u64,
    pub input: Vec<u8>,
    pub output_size: u32,
}

/// The failure, if any, of decoding an ioctl frame: the input data must be
/// as long as the input struct says.
pub open spec fn ioctl_frame_error(s: Seq<u8>) -> Option<Error> {
    match fixed_frame_error(s, IOCTL_IN_SIZE as nat) {
        Some(e) => Some(e),
        None => if s.len() < REQUEST_HEADER_LEN + IOCTL_IN_SIZE + u32_at(s, 64) {
            Some(Error::UnexpectedEof)
        } else {
            None
        },
    }
}

/// Where the fields of a decoded ioctl request come from.
pub open spec fn ioctl_fields(s: Seq<u8>, q: IoctlRequest) -> bool {
    let start = REQUEST_HEADER_LEN + IOCTL_IN_SIZE;
    &&& q.node_id@ == frame_node_id(s)
    &&& q.handle == u64_at(s, 40)
    &&& q.flags == u32_at(s, 48)
    &&& q.command == u32_at(s, 52)
    &&& q.arg == u64_at(s, 56)
    &&& q.input@ == s.subrange(start as int, start + u32_at(s, 64))
    &&& q.output_size == u32_at(s, 68)
}

impl IoctlRequest {
    pub fn decode(buf: &[u8]) -> (r: Result<IoctlRequest, Error>)
        ensures
            ioctl_frame_error(buf@) matches Some(e) ==> (r matches Err(x) && x == e),
            ioctl_frame_error(buf@) is None ==> (r matches Ok(q) && ioctl_fields(buf@, q)),
    {
        let node_id = match check_fixed_frame(buf, IOCTL_IN_SIZE) {
            Err(e) => return Err(e),
            Ok(n) => n,
        };
        let size = read_u32(buf, 64) as usize;
        let start = REQUEST_HEADER_LEN + IOCTL_IN_SIZE;
        if buf.len() - start < size {
            return Err(Error::UnexpectedEof);
        }
        let input = vstd::slice::slice_to_vec(vstd::slice::slice_subrange(buf, start, start + size));
        Ok(
            IoctlRequest {
                node_id,
                handle: read_u64(buf, 40),
                flags: read_u32(buf, 48),
                command: read_u32(buf, 52),
                arg: read_u64(buf, 56),
                input,
                output_size: read_u32(buf, 68),
            },
        )
    }
}

/// The reply to an ioctl: its result, then the output data.
#[derive(Debug)]
pub struct IoctlResponse {
    pub result: i32,
    pub output: Vec<u8>,
}

/// The wire bytes of an ioctl reply: `fuse_ioctl_out`, then the output.
pub open spec fn ioctl_out_bytes(result: i32, output: Seq<u8>) -> Seq<u8> {
    spec_u32_to_le_bytes(result as u32) + zeros(12) + output
}

impl IoctlResponse {
    pub fn encode(&self) -> (r: Vec<u8>)
        ensures
            r@ == ioctl_out_bytes(self.result, self.output@),
    {
        let mut out: Vec<u8> = Vec::new();
        push_u32(&mut out, self.result as u32);
        push_zeros(&mut out, 12);
        push_bytes(&mut out, self.output.as_slice());
        assert(out@ =~= ioctl_out_bytes(self.result, self.output@));
        out
    }
}

} // verus!
