//! Opcodes and the decoding of request frames into typed requests.
use vstd::prelude::*;

use vstd::string::StringExecFns;

use crate::error::Error;
use crate::fmt::{
    bool_text, decimal, hex_padded, push_bool, push_decimal, push_hex_padded, push_quoted, quoted,
};
use crate::node::{lemma_node_id_view_injective, valid_name, NodeId, NodeName};
use crate::wire::{
    encode_request_frame, lemma_le_round_trip, lemma_request_frame, push_bytes, push_u32,
    push_u64, push_zeros, read_u32, read_u64, request_frame_bytes, u32_at, u64_at, zeros,
    REQUEST_HEADER_LEN,
};
use vstd::bytes::*;

verus! {

pub const FUSE_LOOKUP: u32 = 1;
pub const FUSE_FORGET: u32 = 2;
pub const FUSE_GETATTR: u32 = 3;
pub const FUSE_SETATTR: u32 = 4;
pub const FUSE_READLINK: u32 = 5;
pub const FUSE_SYMLINK: u32 = 6;
pub const FUSE_MKNOD: u32 = 8;
pub const FUSE_MKDIR: u32 = 9;
pub const FUSE_UNLINK: u32 = 10;
pub const FUSE_RMDIR: u32 = 11;
pub const FUSE_RENAME: u32 = 12;
pub const FUSE_LINK: u32 = 13;
pub const FUSE_OPEN: u32 = 14;
pub const FUSE_READ: u32 = 15;
pub const FUSE_WRITE: u32 = 16;
pub const FUSE_STATFS: u32 = 17;
pub const FUSE_RELEASE: u32 = 18;
pub const FUSE_FSYNC: u32 = 20;
pub const FUSE_SETXATTR: u32 = 21;
pub const FUSE_GETXATTR: u32 = 22;
pub const FUSE_LISTXATTR: u32 = 23;
pub const FUSE_REMOVEXATTR: u32 = 24;
pub const FUSE_FLUSH: u32 = 25;
pub const FUSE_INIT: u32 = 26;
pub const FUSE_OPENDIR: u32 = 27;
pub const FUSE_READDIR: u32 = 28;
pub const FUSE_RELEASEDIR: u32 = 29;
pub const FUSE_FSYNCDIR: u32 = 30;
pub const FUSE_GETLK: u32 = 31;
pub const FUSE_SETLK: u32 = 32;
pub const FUSE_SETLKW: u32 = 33;
pub const FUSE_ACCESS: u32 = 34;
pub const FUSE_CREATE: u32 = 35;
pub const FUSE_INTERRUPT: u32 = 36;
pub const FUSE_BMAP: u32 = 37;
pub const FUSE_DESTROY: u32 = 38;
pub const FUSE_IOCTL: u32 = 39;
pub const FUSE_POLL: u32 = 40;
pub const FUSE_NOTIFY_REPLY: u32 = 41;
pub const FUSE_BATCH_FORGET: u32 = 42;
pub const FUSE_FALLOCATE: u32 = 43;
pub const FUSE_READDIRPLUS: u32 = 44;
pub const FUSE_RENAME2: u32 = 45;
pub const FUSE_LSEEK: u32 = 46;
pub const FUSE_COPY_FILE_RANGE: u32 = 47;
pub const CUSE_INIT: u32 = 4096;

/// The kernel header's name of each opcode.
pub open spec fn spec_opcode_name(op: u32) -> Option<Seq<char>> {
    if op == FUSE_LOOKUP {
        Some("FUSE_LOOKUP"@)
    } else if op == FUSE_FORGET {
        Some("FUSE_FORGET"@)
    } else if op == FUSE_GETATTR {
        Some("FUSE_GETATTR"@)
    } else if op == FUSE_SETATTR {
        Some("FUSE_SETATTR"@)
    } else if op == FUSE_READLINK {
        Some("FUSE_READLINK"@)
    } else if op == FUSE_SYMLINK {
        Some("FUSE_SYMLINK"@)
    } else if op == FUSE_MKNOD {
        Some("FUSE_MKNOD"@)
    } else if op == FUSE_MKDIR {
        Some("FUSE_MKDIR"@)
    } else if op == FUSE_UNLINK {
        Some("FUSE_UNLINK"@)
    } else if op == FUSE_RMDIR {
        Some("FUSE_RMDIR"@)
    } else if op == FUSE_RENAME {
        Some("FUSE_RENAME"@)
    } else if op == FUSE_LINK {
        Some("FUSE_LINK"@)
    } else if op == FUSE_OPEN {
        Some("FUSE_OPEN"@)
    } else if op == FUSE_READ {
        Some("FUSE_READ"@)
    } else if op == FUSE_WRITE {
        Some("FUSE_WRITE"@)
    } else if op == FUSE_STATFS {
        Some("FUSE_STATFS"@)
    } else if op == FUSE_RELEASE {
        Some("FUSE_RELEASE"@)
    } else if op == FUSE_FSYNC {
        Some("FUSE_FSYNC"@)
    } else if op == FUSE_SETXATTR {
        Some("FUSE_SETXATTR"@)
    } else if op == FUSE_GETXATTR {
        Some("FUSE_GETXATTR"@)
    } else if op == FUSE_LISTXATTR {
        Some("FUSE_LISTXATTR"@)
    } else if op == FUSE_REMOVEXATTR {
        Some("FUSE_REMOVEXATTR"@)
    } else if op == FUSE_FLUSH {
        Some("FUSE_FLUSH"@)
    } else if op == FUSE_INIT {
        Some("FUSE_INIT"@)
    } else if op == FUSE_OPENDIR {
        Some("FUSE_OPENDIR"@)
    } else if op == FUSE_READDIR {
        Some("FUSE_READDIR"@)
    } else if op == FUSE_RELEASEDIR {
        Some("FUSE_RELEASEDIR"@)
    } else if op == FUSE_FSYNCDIR {
        Some("FUSE_FSYNCDIR"@)
    } else if op == FUSE_GETLK {
        Some("FUSE_GETLK"@)
    } else if op == FUSE_SETLK {
        Some("FUSE_SETLK"@)
    } else if op == FUSE_SETLKW {
        Some("FUSE_SETLKW"@)
    } else if op == FUSE_ACCESS {
        Some("FUSE_ACCESS"@)
    } else if op == FUSE_CREATE {
        Some("FUSE_CREATE"@)
    } else if op == FUSE_INTERRUPT {
        Some("FUSE_INTERRUPT"@)
    } else if op == FUSE_BMAP {
        Some("FUSE_BMAP"@)
    } else if op == FUSE_DESTROY {
        Some("FUSE_DESTROY"@)
    } else if op == FUSE_IOCTL {
        Some("FUSE_IOCTL"@)
    } else if op == FUSE_POLL {
        Some("FUSE_POLL"@)
    } else if op == FUSE_NOTIFY_REPLY {
        Some("FUSE_NOTIFY_REPLY"@)
    } else if op == FUSE_BATCH_FORGET {
        Some("FUSE_BATCH_FORGET"@)
    } else if op == FUSE_FALLOCATE {
        Some("FUSE_FALLOCATE"@)
    } else if op == FUSE_READDIRPLUS {
        Some("FUSE_READDIRPLUS"@)
    } else if op == FUSE_RENAME2 {
        Some("FUSE_RENAME2"@)
    } else if op == FUSE_LSEEK {
        Some("FUSE_LSEEK"@)
    } else if op == FUSE_COPY_FILE_RANGE {
        Some("FUSE_COPY_FILE_RANGE"@)
    } else if op == CUSE_INIT {
        Some("CUSE_INIT"@)
    } else {
        None
    }
}

/// The kernel header's name of opcode `op`, if it has one.
pub fn opcode_name(op: u32) -> (r: Option<&'static str>)
    ensures
        r is Some <==> spec_opcode_name(op) is Some,
        r matches Some(n) ==> n@ == spec_opcode_name(op)->0,
{
    if op == FUSE_LOOKUP {
        Some("FUSE_LOOKUP")
    } else if op == FUSE_FORGET {
        Some("FUSE_FORGET")
    } else if op == FUSE_GETATTR {
        Some("FUSE_GETATTR")
    } else if op == FUSE_SETATTR {
        Some("FUSE_SETATTR")
    } else if op == FUSE_READLINK {
        Some("FUSE_READLINK")
    } else if op == FUSE_SYMLINK {
        Some("FUSE_SYMLINK")
    } else if op == FUSE_MKNOD {
        Some("FUSE_MKNOD")
    } else if op == FUSE_MKDIR {
        Some("FUSE_MKDIR")
    } else if op == FUSE_UNLINK {
        Some("FUSE_UNLINK")
    } else if op == FUSE_RMDIR {
        Some("FUSE_RMDIR")
    } else if op == FUSE_RENAME {
        Some("FUSE_RENAME")
    } else if op == FUSE_LINK {
        Some("FUSE_LINK")
    } else if op == FUSE_OPEN {
        Some("FUSE_OPEN")
    } else if op == FUSE_READ {
        Some("FUSE_READ")
    } else if op == FUSE_WRITE {
        Some("FUSE_WRITE")
    } else if op == FUSE_STATFS {
        Some("FUSE_STATFS")
    } else if op == FUSE_RELEASE {
        Some("FUSE_RELEASE")
    } else if op == FUSE_FSYNC {
        Some("FUSE_FSYNC")
    } else if op == FUSE_SETXATTR {
        Some("FUSE_SETXATTR")
    } else if op == FUSE_GETXATTR {
        Some("FUSE_GETXATTR")
    } else if op == FUSE_LISTXATTR {
        Some("FUSE_LISTXATTR")
    } else if op == FUSE_REMOVEXATTR {
        Some("FUSE_REMOVEXATTR")
    } else if op == FUSE_FLUSH {
        Some("FUSE_FLUSH")
    } else if op == FUSE_INIT {
        Some("FUSE_INIT")
    } else if op == FUSE_OPENDIR {
        Some("FUSE_OPENDIR")
    } else if op == FUSE_READDIR {
        Some("FUSE_READDIR")
    } else if op == FUSE_RELEASEDIR {
        Some("FUSE_RELEASEDIR")
    } else if op == FUSE_FSYNCDIR {
        Some("FUSE_FSYNCDIR")
    } else if op == FUSE_GETLK {
        Some("FUSE_GETLK")
    } else if op == FUSE_SETLK {
        Some("FUSE_SETLK")
    } else if op == FUSE_SETLKW {
        Some("FUSE_SETLKW")
    } else if op == FUSE_ACCESS {
        Some("FUSE_ACCESS")
    } else if op == FUSE_CREATE {
        Some("FUSE_CREATE")
    } else if op == FUSE_INTERRUPT {
        Some("FUSE_INTERRUPT")
    } else if op == FUSE_BMAP {
        Some("FUSE_BMAP")
    } else if op == FUSE_DESTROY {
        Some("FUSE_DESTROY")
    } else if op == FUSE_IOCTL {
        Some("FUSE_IOCTL")
    } else if op == FUSE_POLL {
        Some("FUSE_POLL")
    } else if op == FUSE_NOTIFY_REPLY {
        Some("FUSE_NOTIFY_REPLY")
    } else if op == FUSE_BATCH_FORGET {
        Some("FUSE_BATCH_FORGET")
    } else if op == FUSE_FALLOCATE {
        Some("FUSE_FALLOCATE")
    } else if op == FUSE_READDIRPLUS {
        Some("FUSE_READDIRPLUS")
    } else if op == FUSE_RENAME2 {
        Some("FUSE_RENAME2")
    } else if op == FUSE_LSEEK {
        Some("FUSE_LSEEK")
    } else if op == FUSE_COPY_FILE_RANGE {
        Some("FUSE_COPY_FILE_RANGE")
    } else if op == CUSE_INIT {
        Some("CUSE_INIT")
    } else {
        None
    }
}

/// The node id that a request frame's header carries.
pub open spec fn frame_node_id(s: Seq<u8>) -> u64 {
    u64_at(s, 16)
}

/// The failure, if any, of decoding a frame whose opcode needs a node id and
/// whose fixed input struct has `body_len` bytes. The header comes first, then
/// the node id, then the input struct.
pub open spec fn fixed_frame_error(s: Seq<u8>, body_len: nat) -> Option<Error> {
    if s.len() < REQUEST_HEADER_LEN {
        Some(Error::UnexpectedEof)
    } else if frame_node_id(s) == 0 {
        Some(Error::MissingNodeId)
    } else if s.len() < REQUEST_HEADER_LEN + body_len {
        Some(Error::UnexpectedEof)
    } else {
        None
    }
}

/// Where the decoded node id and name of a single-name frame come from.
pub open spec fn name_fields(s: Seq<u8>, parent_id: NodeId, name: NodeName) -> bool {
    &&& parent_id@ == frame_node_id(s)
    &&& name@ == parse_name(s, REQUEST_HEADER_LEN as int)->0
}

/// Where the fields of a decoded open request come from.
pub open spec fn open_fields(s: Seq<u8>, q: OpenRequest) -> bool {
    q.node_id@ == frame_node_id(s) && q.flags == u32_at(s, 40)
}

/// Where the fields of a decoded release request come from.
pub open spec fn release_fields(s: Seq<u8>, q: ReleaseRequest) -> bool {
    &&& q.node_id@ == frame_node_id(s)
    &&& q.handle == u64_at(s, 40)
    &&& q.flags == u32_at(s, 48)
    &&& q.release_flags == u32_at(s, 52)
    &&& q.lock_owner == u64_at(s, 56)
}

/// Where the fields of a decoded flush request come from.
pub open spec fn flush_fields(s: Seq<u8>, q: FlushRequest) -> bool {
    q.node_id@ == frame_node_id(s) && q.handle == u64_at(s, 40) && q.lock_owner == u64_at(s, 56)
}

/// Where the fields of a decoded fsyncdir request come from.
pub open spec fn fsyncdir_fields(s: Seq<u8>, q: FsyncdirRequest) -> bool {
    &&& q.node_id@ == frame_node_id(s)
    &&& q.handle == u64_at(s, 40)
    &&& q.flags.datasync == (u32_at(s, 48) & FUSE_FSYNC_FDATASYNC != 0)
}

/// Where the fields of a decoded lseek request come from.
pub open spec fn lseek_fields(s: Seq<u8>, q: LseekRequest) -> bool {
    &&& q.node_id@ == frame_node_id(s)
    &&& q.handle == u64_at(s, 40)
    &&& q.offset == u64_at(s, 48)
    &&& q.whence == u32_at(s, 56)
}

/// Where the fields of a decoded readdir request of minor version `minor`
/// come from. An offset of zero is the start of the directory.
pub open spec fn readdir_fields(s: Seq<u8>, minor: u32, q: ReaddirRequest) -> bool {
    &&& q.node_id@ == frame_node_id(s)
    &&& q.handle == u64_at(s, 40)
    &&& q.cursor == if u64_at(s, 48) == 0 {
        None
    } else {
        Some(u64_at(s, 48))
    }
    &&& q.size == u32_at(s, 56)
    &&& q.opendir_flags == if minor >= 9 {
        u32_at(s, 72)
    } else {
        0
    }
}

/// Where the fields of a decoded forget request come from.
pub open spec fn forget_fields(s: Seq<u8>, q: ForgetRequest) -> bool {
    q.node_id@ == frame_node_id(s) && q.count == u64_at(s, 40)
}

/// Checks the header, the node id and the length of a frame with a fixed
/// input struct of `body_len` bytes.
pub(crate) fn check_fixed_frame(buf: &[u8], body_len: usize) -> (r: Result<NodeId, Error>)
    requires
        body_len <= 128,
    ensures
        fixed_frame_error(buf@, body_len as nat) matches Some(e) ==> r == Err::<NodeId, Error>(e),
        fixed_frame_error(buf@, body_len as nat) is None ==> (r matches Ok(n) && n@
            == frame_node_id(buf@)),
{
    if buf.len() < REQUEST_HEADER_LEN {
        return Err(Error::UnexpectedEof);
    }
    let raw = read_u64(buf, 16);
    match NodeId::new(raw) {
        None => Err(Error::MissingNodeId),
        Some(node_id) => {
            if buf.len() < REQUEST_HEADER_LEN + body_len {
                Err(Error::UnexpectedEof)
            } else {
                Ok(node_id)
            }
        },
    }
}

/// The index of the first NUL byte of `s` at or after `i`, or -1 if there is none.
pub open spec fn first_nul_from(s: Seq<u8>, i: int) -> int
    decreases s.len() - i,
{
    if i < 0 || i >= s.len() {
        -1
    } else if s[i] == 0 {
        i
    } else {
        first_nul_from(s, i + 1)
    }
}

/// The NUL-terminated name that starts at `start`, if it is terminated and
/// valid.
pub open spec fn parse_name(s: Seq<u8>, start: int) -> Option<Seq<u8>> {
    let j = first_nul_from(s, start);
    if j < 0 || !valid_name(s.subrange(start, j)) {
        None
    } else {
        Some(s.subrange(start, j))
    }
}

/// Reads the NUL-terminated name at `start`; returns it and the offset after
/// its NUL.
pub(crate) fn read_name(buf: &[u8], start: usize) -> (r: Result<(NodeName, usize), Error>)
    requires
        start <= buf@.len(),
    ensures
        parse_name(buf@, start as int) is None ==> r == Err::<(NodeName, usize), Error>(
            Error::UnexpectedEof,
        ),
        parse_name(buf@, start as int) matches Some(n) ==> (r matches Ok((name, next)) && name@
            == n && next == start + n.len() + 1 && next <= buf@.len()),
{
    let mut i: usize = start;
    while i < buf.len() && buf[i] != 0
        invariant
            start <= i <= buf@.len(),
            first_nul_from(buf@, start as int) == first_nul_from(buf@, i as int),
        decreases buf@.len() - i,
    {
        i = i + 1;
    }
    if i >= buf.len() {
        return Err(Error::UnexpectedEof);
    }
    let bytes = vstd::slice::slice_subrange(buf, start, i);
    match NodeName::from_bytes(bytes) {
        None => Err(Error::UnexpectedEof),
        Some(name) => Ok((name, i + 1)),
    }
}

/// Looks up a name in a directory.
#[derive(Debug)]
pub struct LookupRequest {
    pub parent_id: NodeId,
    pub name: NodeName,
}

/// The failure, if any, of decoding a frame whose node id is a directory and
/// whose body is one name.
pub open spec fn name_frame_error(s: Seq<u8>) -> Option<Error> {
    match fixed_frame_error(s, 0) {
        Some(e) => Some(e),
        None => if parse_name(s, REQUEST_HEADER_LEN as int) is None {
            Some(Error::UnexpectedEof)
        } else {
            None
        },
    }
}

/// Decodes the frame of an opcode whose body is a single name.
fn decode_name_frame(buf: &[u8]) -> (r: Result<(NodeId, NodeName), Error>)
    ensures
        name_frame_error(buf@) matches Some(e) ==> r == Err::<(NodeId, NodeName), Error>(e),
        name_frame_error(buf@) is None ==> (r matches Ok((p, n)) && p@ == frame_node_id(buf@) && n@
            == parse_name(buf@, REQUEST_HEADER_LEN as int)->0),
{
    let parent_id = match check_fixed_frame(buf, 0) {
        Err(e) => return Err(e),
        Ok(p) => p,
    };
    match read_name(buf, REQUEST_HEADER_LEN) {
        Err(e) => Err(e),
        Ok((name, _next)) => Ok((parent_id, name)),
    }
}

impl LookupRequest {
    pub fn decode(buf: &[u8]) -> (r: Result<LookupRequest, Error>)
        ensures
            name_frame_error(buf@) matches Some(e) ==> (r matches Err(x) && x == e),
            name_frame_error(buf@) is None ==> (r matches Ok(q) && q.parent_id@ == frame_node_id(
                buf@,
            ) && q.name@ == parse_name(buf@, REQUEST_HEADER_LEN as int)->0),
    {
        match decode_name_frame(buf) {
            Err(e) => Err(e),
            Ok((parent_id, name)) => Ok(LookupRequest { parent_id, name }),
        }
    }

    pub fn parent_id(&self) -> (r: NodeId)
        ensures
            r == self.parent_id,
    {
        self.parent_id
    }

    pub fn name(&self) -> (r: &NodeName)
        ensures
            r == &self.name,
    {
        &self.name
    }
}

/// Removes a name from a directory: `FUSE_UNLINK` for files, `FUSE_RMDIR`
/// for directories.
#[derive(Debug)]
pub struct UnlinkRequest {
    pub parent_id: NodeId,
    pub name: NodeName,
}

impl UnlinkRequest {
    pub fn decode(buf: &[u8]) -> (r: Result<UnlinkRequest, Error>)
        ensures
            name_frame_error(buf@) matches Some(e) ==> (r matches Err(x) && x == e),
            name_frame_error(buf@) is None ==> (r matches Ok(q) && q.parent_id@ == frame_node_id(
                buf@,
            ) && q.name@ == parse_name(buf@, REQUEST_HEADER_LEN as int)->0),
    {
        match decode_name_frame(buf) {
            Err(e) => Err(e),
            Ok((parent_id, name)) => Ok(UnlinkRequest { parent_id, name }),
        }
    }
}

/// Opens a file (`FUSE_OPEN`) or a directory (`FUSE_OPENDIR`): `fuse_open_in`.
#[derive(Debug, Copy, Clone)]
pub struct OpenRequest {
    pub node_id: NodeId,
    pub flags: u32,
}

/// Size of `fuse_open_in`.
pub const OPEN_IN_SIZE: usize = 8;

impl OpenRequest {
    pub fn decode(buf: &[u8]) -> (r: Result<OpenRequest, Error>)
        ensures
            fixed_frame_error(buf@, OPEN_IN_SIZE as nat) matches Some(e) ==> (r matches Err(x)
                && x == e),
            fixed_frame_error(buf@, OPEN_IN_SIZE as nat) is None ==> (r matches Ok(q)
                && q.node_id@ == frame_node_id(buf@) && q.flags == u32_at(buf@, 40)),
    {
        let node_id = match check_fixed_frame(buf, OPEN_IN_SIZE) {
            Err(e) => return Err(e),
            Ok(n) => n,
        };
        Ok(OpenRequest { node_id, flags: read_u32(buf, 40) })
    }

    pub fn node_id(&self) -> (r: NodeId)
        ensures
            r == self.node_id,
    {
        self.node_id
    }
}

/// Closes a file (`FUSE_RELEASE`) or a directory (`FUSE_RELEASEDIR`):
/// `fuse_release_in`.
#[derive(Debug, Copy, Clone)]
pub struct ReleaseRequest {
    pub node_id: NodeId,
    pub handle: u64,
    pub flags: u32,
    pub release_flags: u32,
    pub lock_owner: u64,
}

/// Size of `fuse_release_in`.
pub const RELEASE_IN_SIZE: usize = 24;

impl ReleaseRequest {
    pub fn decode(buf: &[u8]) -> (r: Result<ReleaseRequest, Error>)
        ensures
            fixed_frame_error(buf@, RELEASE_IN_SIZE as nat) matches Some(e) ==> (r matches Err(x)
                && x == e),
            fixed_frame_error(buf@, RELEASE_IN_SIZE as nat) is None ==> (r matches Ok(q)
                && q.node_id@ == frame_node_id(buf@) && q.handle == u64_at(buf@, 40) && q.flags
                == u32_at(buf@, 48) && q.release_flags == u32_at(buf@, 52) && q.lock_owner
                == u64_at(buf@, 56)),
    {
        let node_id = match check_fixed_frame(buf, RELEASE_IN_SIZE) {
            Err(e) => return Err(e),
            Ok(n) => n,
        };
        Ok(
            ReleaseRequest {
                node_id,
                handle: read_u64(buf, 40),
                flags: read_u32(buf, 48),
                release_flags: read_u32(buf, 52),
                lock_owner: read_u64(buf, 56),
            },
        )
    }
}

/// Flushes a file handle on close: `fuse_flush_in`.
#[derive(Debug, Copy, Clone)]
pub struct FlushRequest {
    pub node_id: NodeId,
    pub handle: u64,
    pub lock_owner: u64,
}

/// Size of `fuse_flush_in`.
pub const FLUSH_IN_SIZE: usize = 24;

impl FlushRequest {
    pub fn decode(buf: &[u8]) -> (r: Result<FlushRequest, Error>)
        ensures
            fixed_frame_error(buf@, FLUSH_IN_SIZE as nat) matches Some(e) ==> (r matches Err(x)
                && x == e),
            fixed_frame_error(buf@, FLUSH_IN_SIZE as nat) is None ==> (r matches Ok(q)
                && q.node_id@ == frame_node_id(buf@) && q.handle == u64_at(buf@, 40)
                && q.lock_owner == u64_at(buf@, 56)),
    {
        let node_id = match check_fixed_frame(buf, FLUSH_IN_SIZE) {
            Err(e) => return Err(e),
            Ok(n) => n,
        };
        Ok(FlushRequest { node_id, handle: read_u64(buf, 40), lock_owner: read_u64(buf, 56) })
    }

    pub fn node_id(&self) -> (r: NodeId)
        ensures
            r == self.node_id,
    {
        self.node_id
    }

    pub fn handle(&self) -> (r: u64)
        ensures
            r == self.handle,
    {
        self.handle
    }

    pub fn lock_owner(&self) -> (r: u64)
        ensures
            r == self.lock_owner,
    {
        self.lock_owner
    }
}

/// Bit of `fsync_flags`: synchronise the data alone, not the metadata.
pub const FUSE_FSYNC_FDATASYNC: u32 = 1;

/// The flags of a directory sync.
#[derive(Debug, Copy, Clone, PartialEq, Eq, Structural)]
pub struct FsyncdirRequestFlags {
    pub datasync: bool,
}

/// Synchronises a directory's contents: `fuse_fsync_in`.
#[derive(Debug, Copy, Clone)]
pub struct FsyncdirRequest {
    pub node_id: NodeId,
    pub handle: u64,
    pub flags: FsyncdirRequestFlags,
}

/// Size of `fuse_fsync_in`.
pub const FSYNC_IN_SIZE: usize = 16;

impl FsyncdirRequestFlags {
    /// The flags that the raw `fsync_flags` hold.
    pub fn from_bits(bits: u32) -> (r: FsyncdirRequestFlags)
        ensures
            r.datasync == (bits & FUSE_FSYNC_FDATASYNC != 0),
    {
        FsyncdirRequestFlags { datasync: bits & FUSE_FSYNC_FDATASYNC != 0 }
    }
}

impl FsyncdirRequest {
    pub fn decode(buf: &[u8]) -> (r: Result<FsyncdirRequest, Error>)
        ensures
            fixed_frame_error(buf@, FSYNC_IN_SIZE as nat) matches Some(e) ==> (r matches Err(x)
                && x == e),
            fixed_frame_error(buf@, FSYNC_IN_SIZE as nat) is None ==> (r matches Ok(q)
                && q.node_id@ == frame_node_id(buf@) && q.handle == u64_at(buf@, 40)
                && q.flags.datasync == (u32_at(buf@, 48) & FUSE_FSYNC_FDATASYNC != 0)),
    {
        let node_id = match check_fixed_frame(buf, FSYNC_IN_SIZE) {
            Err(e) => return Err(e),
            Ok(n) => n,
        };
        Ok(
            FsyncdirRequest {
                node_id,
                handle: read_u64(buf, 40),
                flags: FsyncdirRequestFlags::from_bits(read_u32(buf, 48)),
            },
        )
    }

    pub fn node_id(&self) -> (r: NodeId)
        ensures
            r == self.node_id,
    {
        self.node_id
    }

    pub fn handle(&self) -> (r: u64)
        ensures
            r == self.handle,
    {
        self.handle
    }

    pub fn flags(&self) -> (r: FsyncdirRequestFlags)
        ensures
            r == self.flags,
    {
        self.flags
    }
}

pub const SEEK_SET: u32 = 0;
pub const SEEK_CUR: u32 = 1;
pub const SEEK_END: u32 = 2;
pub const SEEK_DATA: u32 = 3;
pub const SEEK_HOLE: u32 = 4;

/// Finds data or a hole in an open file: `fuse_lseek_in`.
#[derive(Debug, Copy, Clone)]
pub struct LseekRequest {
    pub node_id: NodeId,
    pub handle: u64,
    pub offset: u64,
    pub whence: u32,
}

/// Size of `fuse_lseek_in`.
pub const LSEEK_IN_SIZE: usize = 24;

impl LseekRequest {
    pub fn decode(buf: &[u8]) -> (r: Result<LseekRequest, Error>)
        ensures
            fixed_frame_error(buf@, LSEEK_IN_SIZE as nat) matches Some(e) ==> (r matches Err(x)
                && x == e),
            fixed_frame_error(buf@, LSEEK_IN_SIZE as nat) is None ==> (r matches Ok(q)
                && q.node_id@ == frame_node_id(buf@) && q.handle == u64_at(buf@, 40) && q.offset
                == u64_at(buf@, 48) && q.whence == u32_at(buf@, 56)),
    {
        let node_id = match check_fixed_frame(buf, LSEEK_IN_SIZE) {
            Err(e) => return Err(e),
            Ok(n) => n,
        };
        Ok(
            LseekRequest {
                node_id,
                handle: read_u64(buf, 40),
                offset: read_u64(buf, 48),
                whence: read_u32(buf, 56),
            },
        )
    }
}

/// Size of `fuse_read_in` from minor version 9.
pub const READ_IN_SIZE: usize = 40;

/// Size of `fuse_read_in` before minor version 9.
pub const READ_IN_V7P1_SIZE: usize = 24;

/// The size of `fuse_read_in` in minor version `minor`.
pub open spec fn read_in_size(minor: u32) -> nat {
    if minor >= 9 {
        READ_IN_SIZE as nat
    } else {
        READ_IN_V7P1_SIZE as nat
    }
}

/// Lists a directory, from a cursor on: `fuse_read_in`.
#[derive(Debug, Copy, Clone)]
pub struct ReaddirRequest {
    pub node_id: NodeId,
    pub size: u32,
    /// Where to go on from; `None` at the start of the directory.
    pub cursor: Option<u64>,
    pub handle: u64,
    pub opendir_flags: u32,
}

impl ReaddirRequest {
    /// Decodes a readdir frame in minor version `minor`, whose `fuse_read_in`
    /// carries the open flags from minor version 9 on.
    pub fn decode(buf: &[u8], minor: u32) -> (r: Result<ReaddirRequest, Error>)
        ensures
            fixed_frame_error(buf@, read_in_size(minor)) matches Some(e) ==> (r matches Err(x)
                && x == e),
            fixed_frame_error(buf@, read_in_size(minor)) is None ==> (r matches Ok(q)
                && q.node_id@ == frame_node_id(buf@) && q.handle == u64_at(buf@, 40) && q.cursor
                == (if u64_at(buf@, 48) == 0 {
                None
            } else {
                Some(u64_at(buf@, 48))
            }) && q.size == u32_at(buf@, 56) && q.opendir_flags == (if minor >= 9 {
                u32_at(buf@, 72)
            } else {
                0
            })),
    {
        let body_len = if minor >= 9 {
            READ_IN_SIZE
        } else {
            READ_IN_V7P1_SIZE
        };
        let node_id = match check_fixed_frame(buf, body_len) {
            Err(e) => return Err(e),
            Ok(n) => n,
        };
        let offset = read_u64(buf, 48);
        let cursor = if offset == 0 {
            None
        } else {
            Some(offset)
        };
        let opendir_flags = if minor >= 9 {
            read_u32(buf, 72)
        } else {
            0
        };
        Ok(
            ReaddirRequest {
                node_id,
                size: read_u32(buf, 56),
                cursor,
                handle: read_u64(buf, 40),
                opendir_flags,
            },
        )
    }
}

pub const RENAME_NOREPLACE: u32 = 1;
pub const RENAME_EXCHANGE: u32 = 2;
pub const RENAME_WHITEOUT: u32 = 4;

/// The flags of a rename.
#[derive(Debug, Copy, Clone, PartialEq, Eq, Structural)]
pub struct RenameRequestFlags {
    pub no_replace: bool,
    pub exchange: bool,
    pub whiteout: bool,
}

/// The flags that the raw rename flags `bits` hold.
pub open spec fn spec_rename_flags(bits: u32) -> RenameRequestFlags {
    RenameRequestFlags {
        no_replace: bits & RENAME_NOREPLACE != 0,
        exchange: bits & RENAME_EXCHANGE != 0,
        whiteout: bits & RENAME_WHITEOUT != 0,
    }
}

impl RenameRequestFlags {
    pub fn from_bits(bits: u32) -> (r: RenameRequestFlags)
        ensures
            r == spec_rename_flags(bits),
    {
        RenameRequestFlags {
            no_replace: bits & RENAME_NOREPLACE != 0,
            exchange: bits & RENAME_EXCHANGE != 0,
            whiteout: bits & RENAME_WHITEOUT != 0,
        }
    }
}

/// Moves a name, from `FUSE_RENAME` (no flags) or `FUSE_RENAME2`.
#[derive(Debug)]
pub struct RenameRequest {
    pub old_directory_id: NodeId,
    pub old_name: NodeName,
    pub new_directory_id: NodeId,
    pub new_name: NodeName,
    pub flags: RenameRequestFlags,
}

/// Size of `fuse_rename_in`.
pub const RENAME_IN_SIZE: usize = 8;

/// Size of `fuse_rename2_in`.
pub const RENAME2_IN_SIZE: usize = 16;

/// The size of the fixed part of a rename frame with opcode `opcode`.
pub open spec fn rename_in_size(opcode: u32) -> nat {
    if opcode == FUSE_RENAME2 {
        RENAME2_IN_SIZE as nat
    } else {
        RENAME_IN_SIZE as nat
    }
}

/// What a well-formed rename frame holds.
pub open spec fn rename_frame_fields(s: Seq<u8>, q: RenameRequest) -> bool {
    let fixed = REQUEST_HEADER_LEN + rename_in_size(u32_at(s, 4));
    let old = parse_name(s, fixed as int)->0;
    &&& q.old_directory_id@ == frame_node_id(s)
    &&& q.new_directory_id@ == u64_at(s, 40)
    &&& q.old_name@ == old
    &&& q.new_name@ == parse_name(s, fixed + old.len() + 1)->0
    &&& q.flags == if u32_at(s, 4) == FUSE_RENAME2 {
        spec_rename_flags(u32_at(s, 48))
    } else {
        spec_rename_flags(0)
    }
}

/// The failure, if any, of decoding a rename frame.
pub open spec fn rename_frame_error(s: Seq<u8>) -> Option<Error> {
    let body = rename_in_size(u32_at(s, 4));
    let fixed = REQUEST_HEADER_LEN + body;
    match fixed_frame_error(s, body) {
        Some(e) => Some(e),
        None => if u64_at(s, 40) == 0 {
            Some(Error::MissingNodeId)
        } else {
            match parse_name(s, fixed as int) {
                None => Some(Error::UnexpectedEof),
                Some(old) => if parse_name(s, fixed + old.len() + 1) is None {
                    Some(Error::UnexpectedEof)
                } else {
                    None
                },
            }
        },
    }
}

impl RenameRequest {
    /// Decodes a `FUSE_RENAME` or `FUSE_RENAME2` frame; the opcode in the
    /// header picks the layout.
    pub fn decode(buf: &[u8]) -> (r: Result<RenameRequest, Error>)
        ensures
            rename_frame_error(buf@) matches Some(e) ==> (r matches Err(x) && x == e),
            rename_frame_error(buf@) is None ==> (r matches Ok(q) && rename_frame_fields(buf@, q)),
    {
        if buf.len() < REQUEST_HEADER_LEN {
            return Err(Error::UnexpectedEof);
        }
        let opcode = read_u32(buf, 4);
        let body_len = if opcode == FUSE_RENAME2 {
            RENAME2_IN_SIZE
        } else {
            RENAME_IN_SIZE
        };
        let old_directory_id = match check_fixed_frame(buf, body_len) {
            Err(e) => return Err(e),
            Ok(n) => n,
        };
        let new_directory_id = match NodeId::new(read_u64(buf, 40)) {
            None => return Err(Error::MissingNodeId),
            Some(n) => n,
        };
        let flags = if opcode == FUSE_RENAME2 {
            RenameRequestFlags::from_bits(read_u32(buf, 48))
        } else {
            RenameRequestFlags::from_bits(0)
        };
        let (old_name, next) = match read_name(buf, REQUEST_HEADER_LEN + body_len) {
            Err(e) => return Err(e),
            Ok(x) => x,
        };
        let (new_name, _end) = match read_name(buf, next) {
            Err(e) => return Err(e),
            Ok(x) => x,
        };
        Ok(RenameRequest { old_directory_id, old_name, new_directory_id, new_name, flags })
    }
}

/// Drops the kernel's references to a node: `fuse_forget_in`.
#[derive(Debug, Copy, Clone)]
pub struct ForgetRequest {
    pub node_id: NodeId,
    pub count: u64,
}

/// Size of `fuse_forget_in`.
pub const FORGET_IN_SIZE: usize = 8;

impl ForgetRequest {
    pub fn decode(buf: &[u8]) -> (r: Result<ForgetRequest, Error>)
        ensures
            fixed_frame_error(buf@, FORGET_IN_SIZE as nat) matches Some(e) ==> (r matches Err(x)
                && x == e),
            fixed_frame_error(buf@, FORGET_IN_SIZE as nat) is None ==> (r matches Ok(q)
                && q.node_id@ == frame_node_id(buf@) && q.count == u64_at(buf@, 40)),
    {
        let node_id = match check_fixed_frame(buf, FORGET_IN_SIZE) {
            Err(e) => return Err(e),
            Ok(n) => n,
        };
        Ok(ForgetRequest { node_id, count: read_u64(buf, 40) })
    }
}

/// Asks that an in-flight request be abandoned: `fuse_interrupt_in`. The
/// library reports it; cancelling the handler is the host's work.
#[derive(Debug, Copy, Clone)]
pub struct InterruptRequest {
    /// The `unique` of the request to abandon.
    pub target: u64,
}

/// Size of `fuse_interrupt_in`.
pub const INTERRUPT_IN_SIZE: usize = 8;

impl InterruptRequest {
    /// Decodes an interrupt frame, which needs no node id.
    pub fn decode(buf: &[u8]) -> (r: Result<InterruptRequest, Error>)
        ensures
            buf@.len() < REQUEST_HEADER_LEN + INTERRUPT_IN_SIZE ==> r == Err::<
                InterruptRequest,
                Error,
            >(Error::UnexpectedEof),
            buf@.len() >= REQUEST_HEADER_LEN + INTERRUPT_IN_SIZE ==> (r matches Ok(q) && q.target
                == u64_at(buf@, 40)),
    {
        if buf.len() < REQUEST_HEADER_LEN + INTERRUPT_IN_SIZE {
            return Err(Error::UnexpectedEof);
        }
        Ok(InterruptRequest { target: read_u64(buf, 40) })
    }
}

/// The multi-line rendering of a directory sync request.
pub open spec fn fsyncdir_pretty(q: FsyncdirRequest) -> Seq<char> {
    "FsyncdirRequest {\n    node_id: "@ + decimal(q.node_id@ as nat) + ",\n    handle: "@
        + decimal(q.handle as nat)
        + ",\n    flags: FsyncdirRequestFlags {\n        datasync: "@ + bool_text(
        q.flags.datasync,
    ) + ",\n    },\n}"@
}

/// The multi-line rendering of a flush request.
pub open spec fn flush_pretty(q: FlushRequest) -> Seq<char> {
    "FlushRequest {\n    node_id: "@ + decimal(q.node_id@ as nat) + ",\n    handle: "@ + decimal(
        q.handle as nat,
    ) + ",\n    lock_owner: "@ + decimal(q.lock_owner as nat) + ",\n}"@
}

/// The name of a `whence` value, or its decimal text where it has none.
pub open spec fn whence_text(w: u32) -> Seq<char> {
    if w == SEEK_SET {
        "SEEK_SET"@
    } else if w == SEEK_CUR {
        "SEEK_CUR"@
    } else if w == SEEK_END {
        "SEEK_END"@
    } else if w == SEEK_DATA {
        "SEEK_DATA"@
    } else if w == SEEK_HOLE {
        "SEEK_HOLE"@
    } else {
        decimal(w as nat)
    }
}

/// The multi-line rendering of an lseek request.
pub open spec fn lseek_pretty(q: LseekRequest) -> Seq<char> {
    "LseekRequest {\n    node_id: "@ + decimal(q.node_id@ as nat) + ",\n    handle: "@ + decimal(
        q.handle as nat,
    ) + ",\n    offset: "@ + decimal(q.offset as nat) + ",\n    whence: "@ + whence_text(q.whence)
        + ",\n}"@
}

/// The rendering of an optional cursor.
pub open spec fn cursor_text(c: Option<u64>) -> Seq<char> {
    match c {
        None => "None"@,
        Some(n) => "Some("@ + decimal(n as nat) + ")"@,
    }
}

/// The multi-line rendering of a readdir request.
pub open spec fn readdir_pretty(q: ReaddirRequest) -> Seq<char> {
    "ReaddirRequest {\n    node_id: "@ + decimal(q.node_id@ as nat) + ",\n    size: "@ + decimal(
        q.size as nat,
    ) + ",\n    cursor: "@ + cursor_text(q.cursor) + ",\n    handle: "@ + decimal(q.handle as nat)
        + ",\n    opendir_flags: "@ + hex_padded(q.opendir_flags as nat, 8) + ",\n}"@
}

/// The multi-line rendering of a rename request.
pub open spec fn rename_pretty(q: RenameRequest) -> Seq<char> {
    "RenameRequest {\n    old_directory_id: "@ + decimal(q.old_directory_id@ as nat)
        + ",\n    old_name: "@ + quoted(q.old_name@) + ",\n    new_directory_id: "@ + decimal(
        q.new_directory_id@ as nat,
    ) + ",\n    new_name: "@ + quoted(q.new_name@)
        + ",\n    flags: RenameRequestFlags {\n        no_replace: "@ + bool_text(
        q.flags.no_replace,
    ) + ",\n        exchange: "@ + bool_text(q.flags.exchange) + ",\n        whiteout: "@
        + bool_text(q.flags.whiteout) + ",\n    },\n}"@
}

impl ReaddirRequest {
    /// The multi-line rendering, one field per line.
    pub fn debug_pretty(&self) -> (r: String)
        ensures
            r@ == readdir_pretty(*self),
    {
        let mut out = String::new();
        out.append("ReaddirRequest {\n    node_id: ");
        push_decimal(&mut out, self.node_id.get());
        out.append(",\n    size: ");
        push_decimal(&mut out, self.size as u64);
        out.append(",\n    cursor: ");
        match self.cursor {
            None => out.append("None"),
            Some(n) => {
                out.append("Some(");
                push_decimal(&mut out, n);
                out.append(")");
            },
        }
        out.append(",\n    handle: ");
        push_decimal(&mut out, self.handle);
        out.append(",\n    opendir_flags: ");
        push_hex_padded(&mut out, self.opendir_flags as u64, 8);
        out.append(",\n}");
        assert(out@ =~= readdir_pretty(*self));
        out
    }
}

impl RenameRequest {
    /// The multi-line rendering, one field per line.
    pub fn debug_pretty(&self) -> (r: String)
        ensures
            r@ == rename_pretty(*self),
    {
        let mut out = String::new();
        out.append("RenameRequest {\n    old_directory_id: ");
        push_decimal(&mut out, self.old_directory_id.get());
        out.append(",\n    old_name: ");
        push_quoted(&mut out, self.old_name.as_bytes());
        out.append(",\n    new_directory_id: ");
        push_decimal(&mut out, self.new_directory_id.get());
        out.append(",\n    new_name: ");
        push_quoted(&mut out, self.new_name.as_bytes());
        out.append(",\n    flags: RenameRequestFlags {\n        no_replace: ");
        push_bool(&mut out, self.flags.no_replace);
        out.append(",\n        exchange: ");
        push_bool(&mut out, self.flags.exchange);
        out.append(",\n        whiteout: ");
        push_bool(&mut out, self.flags.whiteout);
        out.append(",\n    },\n}");
        assert(out@ =~= rename_pretty(*self));
        out
    }
}

impl FsyncdirRequest {
    /// The multi-line rendering, one field per line.
    pub fn debug_pretty(&self) -> (r: String)
        ensures
            r@ == fsyncdir_pretty(*self),
    {
        let mut out = String::new();
        out.append("FsyncdirRequest {\n    node_id: ");
        push_decimal(&mut out, self.node_id.get());
        out.append(",\n    handle: ");
        push_decimal(&mut out, self.handle);
        out.append(",\n    flags: FsyncdirRequestFlags {\n        datasync: ");
        push_bool(&mut out, self.flags.datasync);
        out.append(",\n    },\n}");
        assert(out@ =~= fsyncdir_pretty(*self));
        out
    }
}

impl FlushRequest {
    /// The multi-line rendering, one field per line.
    pub fn debug_pretty(&self) -> (r: String)
        ensures
            r@ == flush_pretty(*self),
    {
        let mut out = String::new();
        out.append("FlushRequest {\n    node_id: ");
        push_decimal(&mut out, self.node_id.get());
        out.append(",\n    handle: ");
        push_decimal(&mut out, self.handle);
        out.append(",\n    lock_owner: ");
        push_decimal(&mut out, self.lock_owner);
        out.append(",\n}");
        assert(out@ =~= flush_pretty(*self));
        out
    }
}

impl LseekRequest {
    /// The multi-line rendering, one field per line.
    pub fn debug_pretty(&self) -> (r: String)
        ensures
            r@ == lseek_pretty(*self),
    {
        let mut out = String::new();
        out.append("LseekRequest {\n    node_id: ");
        push_decimal(&mut out, self.node_id.get());
        out.append(",\n    handle: ");
        push_decimal(&mut out, self.handle);
        out.append(",\n    offset: ");
        push_decimal(&mut out, self.offset);
        out.append(",\n    whence: ");
        if self.whence == SEEK_SET {
            out.append("SEEK_SET");
        } else if self.whence == SEEK_CUR {
            out.append("SEEK_CUR");
        } else if self.whence == SEEK_END {
            out.append("SEEK_END");
        } else if self.whence == SEEK_DATA {
            out.append("SEEK_DATA");
        } else if self.whence == SEEK_HOLE {
            out.append("SEEK_HOLE");
        } else {
            push_decimal(&mut out, self.whence as u64);
        }
        out.append(",\n}");
        assert(out@ =~= lseek_pretty(*self));
        out
    }
}

/// The body of a flush frame: `fuse_flush_in`.
pub open spec fn flush_in_bytes(q: FlushRequest) -> Seq<u8> {
    spec_u64_to_le_bytes(q.handle) + zeros(8) + spec_u64_to_le_bytes(q.lock_owner)
}

/// The body of a directory sync frame: `fuse_fsync_in`.
pub open spec fn fsync_in_bytes(q: FsyncdirRequest) -> Seq<u8> {
    spec_u64_to_le_bytes(q.handle) + spec_u32_to_le_bytes(
        if q.flags.datasync {
            FUSE_FSYNC_FDATASYNC
        } else {
            0
        },
    ) + zeros(4)
}

/// The body of an lseek frame: `fuse_lseek_in`.
pub open spec fn lseek_in_bytes(q: LseekRequest) -> Seq<u8> {
    spec_u64_to_le_bytes(q.handle) + spec_u64_to_le_bytes(q.offset) + spec_u32_to_le_bytes(
        q.whence,
    ) + zeros(4)
}

impl FlushRequest {
    /// The frame that carries this request, as the kernel sends it.
    pub fn encode(&self, unique: u64) -> (r: Vec<u8>)
        ensures
            r@ == request_frame_bytes(FUSE_FLUSH, unique, self.node_id@, flush_in_bytes(*self)),
    {
        let mut body: Vec<u8> = Vec::new();
        push_u64(&mut body, self.handle);
        push_zeros(&mut body, 8);
        push_u64(&mut body, self.lock_owner);
        proof {
            lemma_le_round_trip();
            assert(body@ =~= flush_in_bytes(*self));
        }
        encode_request_frame(FUSE_FLUSH, unique, self.node_id.get(), body.as_slice())
    }
}

impl FsyncdirRequest {
    /// The frame that carries this request, as the kernel sends it.
    pub fn encode(&self, unique: u64) -> (r: Vec<u8>)
        ensures
            r@ == request_frame_bytes(FUSE_FSYNCDIR, unique, self.node_id@, fsync_in_bytes(*self)),
    {
        let mut body: Vec<u8> = Vec::new();
        push_u64(&mut body, self.handle);
        push_u32(
            &mut body,
            if self.flags.datasync {
                FUSE_FSYNC_FDATASYNC
            } else {
                0
            },
        );
        push_zeros(&mut body, 4);
        proof {
            lemma_le_round_trip();
            assert(body@ =~= fsync_in_bytes(*self));
        }
        encode_request_frame(FUSE_FSYNCDIR, unique, self.node_id.get(), body.as_slice())
    }
}

impl LseekRequest {
    /// The frame that carries this request, as the kernel sends it.
    pub fn encode(&self, unique: u64) -> (r: Vec<u8>)
        ensures
            r@ == request_frame_bytes(FUSE_LSEEK, unique, self.node_id@, lseek_in_bytes(*self)),
    {
        let mut body: Vec<u8> = Vec::new();
        push_u64(&mut body, self.handle);
        push_u64(&mut body, self.offset);
        push_u32(&mut body, self.whence);
        push_zeros(&mut body, 4);
        proof {
            lemma_le_round_trip();
            assert(body@ =~= lseek_in_bytes(*self));
        }
        encode_request_frame(FUSE_LSEEK, unique, self.node_id.get(), body.as_slice())
    }
}

/// Decoding the frame of a flush request gives that request back: the frame
/// decodes without error, and the only request its fields describe is `q`.
pub proof fn lemma_flush_round_trip(q: FlushRequest, unique: u64)
    requires
        q.node_id@ != 0,
    ensures
        ({
            let s = request_frame_bytes(FUSE_FLUSH, unique, q.node_id@, flush_in_bytes(q));
            &&& fixed_frame_error(s, FLUSH_IN_SIZE as nat) is None
            &&& flush_fields(s, q)
            &&& forall|r: FlushRequest| flush_fields(s, r) ==> r == q
        }),
{
    let body = flush_in_bytes(q);
    lemma_le_round_trip();
    lemma_request_frame(FUSE_FLUSH, unique, q.node_id@, body);
    let s = request_frame_bytes(FUSE_FLUSH, unique, q.node_id@, body);
    assert(s.subrange(40, 48) == body.subrange(0, 8));
    assert(body.subrange(0, 8) =~= spec_u64_to_le_bytes(q.handle));
    assert(s.subrange(56, 64) == body.subrange(16, 24));
    assert(body.subrange(16, 24) =~= spec_u64_to_le_bytes(q.lock_owner));
    assert forall|r: FlushRequest| flush_fields(s, r) implies r == q by {
        lemma_node_id_view_injective(r.node_id, q.node_id);
    }
}

/// Decoding the frame of a directory sync request gives that request back.
pub proof fn lemma_fsyncdir_round_trip(q: FsyncdirRequest, unique: u64)
    requires
        q.node_id@ != 0,
    ensures
        ({
            let s = request_frame_bytes(FUSE_FSYNCDIR, unique, q.node_id@, fsync_in_bytes(q));
            &&& fixed_frame_error(s, FSYNC_IN_SIZE as nat) is None
            &&& fsyncdir_fields(s, q)
            &&& forall|r: FsyncdirRequest| fsyncdir_fields(s, r) ==> r == q
        }),
{
    let body = fsync_in_bytes(q);
    lemma_le_round_trip();
    lemma_request_frame(FUSE_FSYNCDIR, unique, q.node_id@, body);
    let s = request_frame_bytes(FUSE_FSYNCDIR, unique, q.node_id@, body);
    let bits: u32 = if q.flags.datasync {
        FUSE_FSYNC_FDATASYNC
    } else {
        0
    };
    assert(s.subrange(40, 48) == body.subrange(0, 8));
    assert(body.subrange(0, 8) =~= spec_u64_to_le_bytes(q.handle));
    assert(s.subrange(48, 52) == body.subrange(8, 12));
    assert(body.subrange(8, 12) =~= spec_u32_to_le_bytes(bits));
    assert(1u32 & 1u32 != 0 && 0u32 & 1u32 == 0) by (bit_vector);
    assert forall|r: FsyncdirRequest| fsyncdir_fields(s, r) implies r == q by {
        lemma_node_id_view_injective(r.node_id, q.node_id);
    }
}

/// Decoding the frame of an lseek request gives that request back.
pub proof fn lemma_lseek_round_trip(q: LseekRequest, unique: u64)
    requires
        q.node_id@ != 0,
    ensures
        ({
            let s = request_frame_bytes(FUSE_LSEEK, unique, q.node_id@, lseek_in_bytes(q));
            &&& fixed_frame_error(s, LSEEK_IN_SIZE as nat) is None
            &&& lseek_fields(s, q)
            &&& forall|r: LseekRequest| lseek_fields(s, r) ==> r == q
        }),
{
    let body = lseek_in_bytes(q);
    lemma_le_round_trip();
    lemma_request_frame(FUSE_LSEEK, unique, q.node_id@, body);
    let s = request_frame_bytes(FUSE_LSEEK, unique, q.node_id@, body);
    assert(s.subrange(40, 48) == body.subrange(0, 8));
    assert(body.subrange(0, 8) =~= spec_u64_to_le_bytes(q.handle));
    assert(s.subrange(48, 56) == body.subrange(8, 16));
    assert(body.subrange(8, 16) =~= spec_u64_to_le_bytes(q.offset));
    assert(s.subrange(56, 60) == body.subrange(16, 20));
    assert(body.subrange(16, 20) =~= spec_u32_to_le_bytes(q.whence));
    assert forall|r: LseekRequest| lseek_fields(s, r) implies r == q by {
        lemma_node_id_view_injective(r.node_id, q.node_id);
    }
}

/// A NUL-free stretch followed by a NUL ends at that NUL.
pub proof fn lemma_first_nul(s: Seq<u8>, start: int, n: int)
    requires
        0 <= start,
        0 <= n,
        start + n < s.len(),
        forall|i: int| start <= i < start + n ==> s[i] != 0,
        s[start + n] == 0,
    ensures
        first_nul_from(s, start) == start + n,
    decreases n,
{
    if n > 0 {
        lemma_first_nul(s, start + 1, n - 1);
    }
}

/// A valid name followed by a NUL at `start` parses as that name.
pub proof fn lemma_parse_name(s: Seq<u8>, start: int, name: Seq<u8>)
    requires
        0 <= start,
        valid_name(name),
        start + name.len() < s.len(),
        s.subrange(start, start + name.len()) == name,
        s[start + name.len()] == 0,
    ensures
        parse_name(s, start) == Some(name),
{
    assert forall|i: int| start <= i < start + name.len() implies s[i] != 0 by {
        assert(s[i] == s.subrange(start, start + name.len())[i - start]);
    }
    lemma_first_nul(s, start, name.len() as int);
}

/// The NUL-terminated bytes of a name.
pub open spec fn cstr(name: Seq<u8>) -> Seq<u8> {
    name.push(0u8)
}

impl LookupRequest {
    /// The frame that carries this request, as the kernel sends it.
    pub fn encode(&self, unique: u64) -> (r: Vec<u8>)
        requires
            REQUEST_HEADER_LEN + self.name@.len() + 1 <= u32::MAX,
        ensures
            r@ == request_frame_bytes(FUSE_LOOKUP, unique, self.parent_id@, cstr(self.name@)),
    {
        let mut body: Vec<u8> = Vec::new();
        push_bytes(&mut body, self.name.as_bytes());
        body.push(0u8);
        assert(body@ =~= cstr(self.name@));
        encode_request_frame(FUSE_LOOKUP, unique, self.parent_id.get(), body.as_slice())
    }
}

/// Decoding the frame of a lookup gives that lookup back: the directory and
/// the name, verbatim.
pub proof fn lemma_lookup_round_trip(q: LookupRequest, unique: u64)
    requires
        q.parent_id@ != 0,
        valid_name(q.name@),
    ensures
        ({
            let s = request_frame_bytes(FUSE_LOOKUP, unique, q.parent_id@, cstr(q.name@));
            &&& name_frame_error(s) is None
            &&& name_fields(s, q.parent_id, q.name)
        }),
{
    let body = cstr(q.name@);
    lemma_request_frame(FUSE_LOOKUP, unique, q.parent_id@, body);
    let s = request_frame_bytes(FUSE_LOOKUP, unique, q.parent_id@, body);
    let n = q.name@.len() as int;
    assert(s.subrange(40, 40 + n) == body.subrange(0, n));
    assert(body.subrange(0, n) =~= q.name@);
    assert(s.subrange(40 + n, 40 + n + 1) == body.subrange(n, n + 1));
    assert(s[40 + n] == s.subrange(40 + n, 40 + n + 1)[0]);
    lemma_parse_name(s, 40, q.name@);
}

/// The raw flags of a rename.
pub open spec fn rename_flag_bits(f: RenameRequestFlags) -> u32 {
    ((if f.no_replace {
        RENAME_NOREPLACE
    } else {
        0
    }) + (if f.exchange {
        RENAME_EXCHANGE
    } else {
        0
    }) + (if f.whiteout {
        RENAME_WHITEOUT
    } else {
        0
    })) as u32
}

/// The flags survive their raw form.
pub proof fn lemma_rename_flag_bits(f: RenameRequestFlags)
    ensures
        spec_rename_flags(rename_flag_bits(f)) == f,
{
    assert(0u32 & 1 == 0 && 0u32 & 2 == 0 && 0u32 & 4 == 0) by (bit_vector);
    assert(1u32 & 1 != 0 && 1u32 & 2 == 0 && 1u32 & 4 == 0) by (bit_vector);
    assert(2u32 & 1 == 0 && 2u32 & 2 != 0 && 2u32 & 4 == 0) by (bit_vector);
    assert(3u32 & 1 != 0 && 3u32 & 2 != 0 && 3u32 & 4 == 0) by (bit_vector);
    assert(4u32 & 1 == 0 && 4u32 & 2 == 0 && 4u32 & 4 != 0) by (bit_vector);
    assert(5u32 & 1 != 0 && 5u32 & 2 == 0 && 5u32 & 4 != 0) by (bit_vector);
    assert(6u32 & 1 == 0 && 6u32 & 2 != 0 && 6u32 & 4 != 0) by (bit_vector);
    assert(7u32 & 1 != 0 && 7u32 & 2 != 0 && 7u32 & 4 != 0) by (bit_vector);
}

/// The body of a rename frame: `fuse_rename2_in`, then both names.
pub open spec fn rename2_in_bytes(q: RenameRequest) -> Seq<u8> {
    spec_u64_to_le_bytes(q.new_directory_id@) + spec_u32_to_le_bytes(rename_flag_bits(q.flags))
        + zeros(4) + cstr(q.old_name@) + cstr(q.new_name@)
}

impl RenameRequest {
    /// The `FUSE_RENAME2` frame that carries this request.
    pub fn encode(&self, unique: u64) -> (r: Vec<u8>)
        requires
            REQUEST_HEADER_LEN + RENAME2_IN_SIZE + self.old_name@.len() + self.new_name@.len() + 2
                <= u32::MAX,
        ensures
            r@ == request_frame_bytes(
                FUSE_RENAME2,
                unique,
                self.old_directory_id@,
                rename2_in_bytes(*self),
            ),
    {
        let mut bits: u32 = 0;
        if self.flags.no_replace {
            bits = bits + RENAME_NOREPLACE;
        }
        if self.flags.exchange {
            bits = bits + RENAME_EXCHANGE;
        }
        if self.flags.whiteout {
            bits = bits + RENAME_WHITEOUT;
        }
        let mut body: Vec<u8> = Vec::new();
        push_u64(&mut body, self.new_directory_id.get());
        push_u32(&mut body, bits);
        push_zeros(&mut body, 4);
        push_bytes(&mut body, self.old_name.as_bytes());
        body.push(0u8);
        push_bytes(&mut body, self.new_name.as_bytes());
        body.push(0u8);
        proof {
            lemma_le_round_trip();
        }
        assert(body@ =~= rename2_in_bytes(*self));
        encode_request_frame(FUSE_RENAME2, unique, self.old_directory_id.get(), body.as_slice())
    }
}

/// Decoding a rename frame gives the rename back: both directories, both
/// names verbatim, and the flags.
pub proof fn lemma_rename_round_trip(q: RenameRequest, unique: u64)
    requires
        q.old_directory_id@ != 0,
        q.new_directory_id@ != 0,
        valid_name(q.old_name@),
        valid_name(q.new_name@),
    ensures
        ({
            let s = request_frame_bytes(
                FUSE_RENAME2,
                unique,
                q.old_directory_id@,
                rename2_in_bytes(q),
            );
            &&& rename_frame_error(s) is None
            &&& rename_frame_fields(s, q)
        }),
{
    let body = rename2_in_bytes(q);
    lemma_le_round_trip();
    lemma_rename_flag_bits(q.flags);
    lemma_request_frame(FUSE_RENAME2, unique, q.old_directory_id@, body);
    let s = request_frame_bytes(FUSE_RENAME2, unique, q.old_directory_id@, body);
    let a = q.old_name@.len() as int;
    let b = q.new_name@.len() as int;
    assert(s.subrange(40, 48) == body.subrange(0, 8));
    assert(body.subrange(0, 8) =~= spec_u64_to_le_bytes(q.new_directory_id@));
    assert(s.subrange(48, 52) == body.subrange(8, 12));
    assert(body.subrange(8, 12) =~= spec_u32_to_le_bytes(rename_flag_bits(q.flags)));
    assert(s.subrange(56, 56 + a) == body.subrange(16, 16 + a));
    assert(body.subrange(16, 16 + a) =~= q.old_name@);
    assert(s.subrange(56 + a, 57 + a) == body.subrange(16 + a, 17 + a));
    assert(s[56 + a] == s.subrange(56 + a, 57 + a)[0]);
    lemma_parse_name(s, 56, q.old_name@);
    assert(s.subrange(57 + a, 57 + a + b) == body.subrange(17 + a, 17 + a + b));
    assert(body.subrange(17 + a, 17 + a + b) =~= q.new_name@);
    assert(s.subrange(57 + a + b, 58 + a + b) == body.subrange(17 + a + b, 18 + a + b));
    assert(s[57 + a + b] == s.subrange(57 + a + b, 58 + a + b)[0]);
    lemma_parse_name(s, 57 + a, q.new_name@);
}

} // verus!
