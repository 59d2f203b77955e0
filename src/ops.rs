//! Requests and replies for attributes, data, creation, locks and extended
//! attributes.
use vstd::bytes::*;
use vstd::prelude::*;

use crate::error::{Error, ErrorCode};
use crate::node::{contains_nul, NodeId, NodeName};
use crate::request::{
    check_fixed_frame, first_nul_from, fixed_frame_error, frame_node_id, parse_name, read_in_size,
    read_name, READ_IN_SIZE, READ_IN_V7P1_SIZE,
};
use crate::response::{
    attr_bytes, entry_out_bytes, open_out_bytes, Node, NodeAttr, OpenResponse, Timeout,
};
use crate::wire::{
    push_bytes, push_u32, push_u64, push_zeros, read_u32, read_u64, u32_at, u64_at, zeros,
    REQUEST_HEADER_LEN,
};

verus! {

/// `getattr_flags` bit: the request names an open file handle.
pub const FUSE_GETATTR_FH: u32 = 1;

/// The size of `fuse_getattr_in` in minor version `minor`; none before 9.
pub open spec fn getattr_in_size(minor: u32) -> nat {
    if minor >= 9 {
        16
    } else {
        0
    }
}

/// Reads a node's attributes, through an open handle where one is named.
#[derive(Debug, Copy, Clone)]
pub struct GetattrRequest {
    pub node_id: NodeId,
    pub handle: Option<u64>,
}

/// Where the fields of a decoded getattr request of minor version `minor` come from.
pub open spec fn getattr_fields(s: Seq<u8>, minor: u32, q: GetattrRequest) -> bool {
    &&& q.node_id@ == frame_node_id(s)
    &&& q.handle == if minor >= 9 && u32_at(s, 40) & FUSE_GETATTR_FH != 0 {
        Some(u64_at(s, 48))
    } else {
        None
    }
}

impl GetattrRequest {
    pub fn decode(buf: &[u8], minor: u32) -> (r: Result<GetattrRequest, Error>)
        ensures
            fixed_frame_error(buf@, getattr_in_size(minor)) matches Some(e) ==> r == Err::<
                GetattrRequest,
                Error,
            >(e),
            fixed_frame_error(buf@, getattr_in_size(minor)) is None ==> (r matches Ok(q)
                && getattr_fields(buf@, minor, q)),
    {
        let body_len: usize = if minor >= 9 {
            16
        } else {
            0
        };
        let node_id = match check_fixed_frame(buf, body_len) {
            Err(e) => return Err(e),
            Ok(n) => n,
        };
        let handle = if minor >= 9 && read_u32(buf, 40) & FUSE_GETATTR_FH != 0 {
            Some(read_u64(buf, 48))
        } else {
            None
        };
        Ok(GetattrRequest { node_id, handle })
    }
}

/// The reply to a getattr: `fuse_attr_out`.
#[derive(Debug, Copy, Clone, PartialEq, Eq, Structural)]
pub struct GetattrResponse {
    pub node_id: NodeId,
    pub attr_timeout: Timeout,
    pub attr: NodeAttr,
}

/// The wire bytes of `fuse_attr_out` in minor version `minor`.
pub open spec fn attr_out_bytes(r: GetattrResponse, minor: u32) -> Seq<u8> {
    spec_u64_to_le_bytes(r.attr_timeout.seconds) + spec_u32_to_le_bytes(r.attr_timeout.nanos)
        + zeros(4) + attr_bytes(r.node_id@, r.attr, minor)
}

impl GetattrResponse {
    pub fn encode(&self, minor: u32) -> (r: Vec<u8>)
        ensures
            r@ == attr_out_bytes(*self, minor),
    {
        let mut out: Vec<u8> = Vec::new();
        push_u64(&mut out, self.attr_timeout.seconds);
        push_u32(&mut out, self.attr_timeout.nanos);
        push_zeros(&mut out, 4);
        self.attr.encode_into(self.node_id.get(), minor, &mut out);
        assert(out@ =~= attr_out_bytes(*self, minor));
        out
    }
}

/// `read_flags` bit: the lock owner field is valid.
pub const FUSE_READ_LOCKOWNER: u32 = 2;

/// Reads data from an open file: `fuse_read_in`.
#[derive(Debug, Copy, Clone)]
pub struct ReadRequest {
    pub node_id: NodeId,
    pub handle: u64,
    pub offset: u64,
    pub size: u32,
    pub lock_owner: Option<u64>,
    pub open_flags: u32,
}

/// Where the fields of a decoded read request of minor version `minor` come
/// from; the lock owner and open flags come with minor version 9.
pub open spec fn read_fields(s: Seq<u8>, minor: u32, q: ReadRequest) -> bool {
    &&& q.node_id@ == frame_node_id(s)
    &&& q.handle == u64_at(s, 40)
    &&& q.offset == u64_at(s, 48)
    &&& q.size == u32_at(s, 56)
    &&& q.lock_owner == if minor >= 9 && u32_at(s, 60) & FUSE_READ_LOCKOWNER != 0 {
        Some(u64_at(s, 64))
    } else {
        None
    }
    &&& q.open_flags == if minor >= 9 {
        u32_at(s, 72)
    } else {
        0
    }
}

impl ReadRequest {
    pub fn decode(buf: &[u8], minor: u32) -> (r: Result<ReadRequest, Error>)
        ensures
            fixed_frame_error(buf@, read_in_size(minor)) matches Some(e) ==> r == Err::<
                ReadRequest,
                Error,
            >(e),
            fixed_frame_error(buf@, read_in_size(minor)) is None ==> (r matches Ok(q)
                && read_fields(buf@, minor, q)),
    {
        let body_len = if minor >= 9 {
            READ_IN_SIZE
        } else {
            READ_IN_V7P1_SIZE
        };
        let node_id = match check_fixed_frame(buf, body_len) {
            Err(e) => return Err(e),
            Ok(n) => n,
        };
        let lock_owner = if minor >= 9 && read_u32(buf, 60) & FUSE_READ_LOCKOWNER != 0 {
            Some(read_u64(buf, 64))
        } else {
            None
        };
        let open_flags = if minor >= 9 {
            read_u32(buf, 72)
        } else {
            0
        };
        Ok(
            ReadRequest {
                node_id,
                handle: read_u64(buf, 40),
                offset: read_u64(buf, 48),
                size: read_u32(buf, 56),
                lock_owner,
                open_flags,
            },
        )
    }
}

/// Size of `fuse_write_in` from minor version 9.
pub const WRITE_IN_SIZE: usize = 40;

/// Size of `fuse_write_in` before minor version 9.
pub const WRITE_IN_V7P1_SIZE: usize = 24;

/// `write_flags` bit: the lock owner field is valid.
pub const FUSE_WRITE_LOCKOWNER: u32 = 2;

/// The size of `fuse_write_in` in minor version `minor`.
pub open spec fn write_in_size(minor: u32) -> nat {
    if minor >= 9 {
        WRITE_IN_SIZE as nat
    } else {
        WRITE_IN_V7P1_SIZE as nat
    }
}

/// Writes data to an open file: `fuse_write_in`, then the data.
#[derive(Debug)]
pub struct WriteRequest {
    pub node_id: NodeId,
    pub handle: u64,
    pub offset: u64,
    pub value: Vec<u8>,
    pub flags: u32,
    pub lock_owner: Option<u64>,
    pub open_flags: u32,
}

/// The failure, if any, of decoding a write frame of minor version `minor`:
/// the data must be as long as the header says.
pub open spec fn write_frame_error(s: Seq<u8>, minor: u32) -> Option<Error> {
    match fixed_frame_error(s, write_in_size(minor)) {
        Some(e) => Some(e),
        None => if s.len() < REQUEST_HEADER_LEN + write_in_size(minor) + u32_at(s, 56) {
            Some(Error::UnexpectedEof)
        } else {
            None
        },
    }
}

/// Where the fields of a decoded write request of minor version `minor` come from.
pub open spec fn write_fields(s: Seq<u8>, minor: u32, q: WriteRequest) -> bool {
    let start = REQUEST_HEADER_LEN + write_in_size(minor);
    &&& q.node_id@ == frame_node_id(s)
    &&& q.handle == u64_at(s, 40)
    &&& q.offset == u64_at(s, 48)
    &&& q.flags == u32_at(s, 60)
    &&& q.value@ == s.subrange(start as int, start + u32_at(s, 56))
    &&& q.lock_owner == if minor >= 9 && u32_at(s, 60) & FUSE_WRITE_LOCKOWNER != 0 {
        Some(u64_at(s, 64))
    } else {
        None
    }
    &&& q.open_flags == if minor >= 9 {
        u32_at(s, 72)
    } else {
        0
    }
}

impl WriteRequest {
    pub fn decode(buf: &[u8], minor: u32) -> (r: Result<WriteRequest, Error>)
        ensures
            write_frame_error(buf@, minor) matches Some(e) ==> (r matches Err(x) && x == e),
            write_frame_error(buf@, minor) is None ==> (r matches Ok(q) && write_fields(
                buf@,
                minor,
                q,
            )),
    {
        let body_len = if minor >= 9 {
            WRITE_IN_SIZE
        } else {
            WRITE_IN_V7P1_SIZE
        };
        let node_id = match check_fixed_frame(buf, body_len) {
            Err(e) => return Err(e),
            Ok(n) => n,
        };
        let size = read_u32(buf, 56) as usize;
        let start = REQUEST_HEADER_LEN + body_len;
        if buf.len() - start < size {
            return Err(Error::UnexpectedEof);
        }
        let value = vstd::slice::slice_to_vec(vstd::slice::slice_subrange(buf, start, start + size));
        let flags = read_u32(buf, 60);
        let lock_owner = if minor >= 9 && flags & FUSE_WRITE_LOCKOWNER != 0 {
            Some(read_u64(buf, 64))
        } else {
            None
        };
        let open_flags = if minor >= 9 {
            read_u32(buf, 72)
        } else {
            0
        };
        Ok(
            WriteRequest {
                node_id,
                handle: read_u64(buf, 40),
                offset: read_u64(buf, 48),
                value,
                flags,
                lock_owner,
                open_flags,
            },
        )
    }
}

/// The reply to a write: how many bytes were written, as `fuse_write_out`.
#[derive(Debug, Copy, Clone, PartialEq, Eq, Structural)]
pub struct WriteResponse {
    pub size: u32,
}

impl WriteResponse {
    pub fn encode(&self) -> (r: Vec<u8>)
        ensures
            r@ == spec_u32_to_le_bytes(self.size) + zeros(4),
    {
        let mut out: Vec<u8> = Vec::new();
        push_u32(&mut out, self.size);
        push_zeros(&mut out, 4);
        out
    }
}

/// Checks access permissions to a node: `fuse_access_in`.
#[derive(Debug, Copy, Clone)]
pub struct AccessRequest {
    pub node_id: NodeId,
    pub mask: u32,
}

/// Size of `fuse_access_in`.
pub const ACCESS_IN_SIZE: usize = 8;

/// Where the fields of a decoded access request come from.
pub open spec fn access_fields(s: Seq<u8>, q: AccessRequest) -> bool {
    q.node_id@ == frame_node_id(s) && q.mask == u32_at(s, 40)
}

impl AccessRequest {
    pub fn decode(buf: &[u8]) -> (r: Result<AccessRequest, Error>)
        ensures
            fixed_frame_error(buf@, ACCESS_IN_SIZE as nat) matches Some(e) ==> r == Err::<
                AccessRequest,
                Error,
            >(e),
            fixed_frame_error(buf@, ACCESS_IN_SIZE as nat) is None ==> (r matches Ok(q)
                && access_fields(buf@, q)),
    {
        let node_id = match check_fixed_frame(buf, ACCESS_IN_SIZE) {
            Err(e) => return Err(e),
            Ok(n) => n,
        };
        Ok(AccessRequest { node_id, mask: read_u32(buf, 40) })
    }
}

/// Creates a directory: `fuse_mkdir_in`, then the name.
#[derive(Debug)]
pub struct MkdirRequest {
    pub parent_id: NodeId,
    pub name: NodeName,
    pub mode: u32,
    pub umask: u32,
}

/// Size of `fuse_mkdir_in`.
pub const MKDIR_IN_SIZE: usize = 8;

/// The failure, if any, of decoding a frame with a fixed input struct of
/// `body_len` bytes followed by one name.
pub open spec fn fixed_name_frame_error(s: Seq<u8>, body_len: nat) -> Option<Error> {
    match fixed_frame_error(s, body_len) {
        Some(e) => Some(e),
        None => if parse_name(s, REQUEST_HEADER_LEN + body_len) is None {
            Some(Error::UnexpectedEof)
        } else {
            None
        },
    }
}

/// Where the fields of a decoded mkdir request come from.
pub open spec fn mkdir_fields(s: Seq<u8>, q: MkdirRequest) -> bool {
    &&& q.parent_id@ == frame_node_id(s)
    &&& q.mode == u32_at(s, 40)
    &&& q.umask == u32_at(s, 44)
    &&& q.name@ == parse_name(s, 48)->0
}

impl MkdirRequest {
    pub fn decode(buf: &[u8]) -> (r: Result<MkdirRequest, Error>)
        ensures
            fixed_name_frame_error(buf@, MKDIR_IN_SIZE as nat) matches Some(e) ==> (r matches Err(
                x,
            ) && x == e),
            fixed_name_frame_error(buf@, MKDIR_IN_SIZE as nat) is None ==> (r matches Ok(q)
                && mkdir_fields(buf@, q)),
    {
        let parent_id = match check_fixed_frame(buf, MKDIR_IN_SIZE) {
            Err(e) => return Err(e),
            Ok(n) => n,
        };
        let (name, _next) = match read_name(buf, REQUEST_HEADER_LEN + MKDIR_IN_SIZE) {
            Err(e) => return Err(e),
            Ok(x) => x,
        };
        Ok(MkdirRequest { parent_id, name, mode: read_u32(buf, 40), umask: read_u32(buf, 44) })
    }
}

/// The bytes from `start` up to the next NUL, if there is one.
pub open spec fn parse_cstr(s: Seq<u8>, start: int) -> Option<Seq<u8>> {
    let j = first_nul_from(s, start);
    if j < 0 {
        None
    } else {
        Some(s.subrange(start, j))
    }
}

/// Reads the NUL-terminated bytes at `start`.
fn read_cstr(buf: &[u8], start: usize) -> (r: Result<Vec<u8>, Error>)
    requires
        start <= buf@.len(),
    ensures
        parse_cstr(buf@, start as int) is None ==> r == Err::<Vec<u8>, Error>(
            Error::UnexpectedEof,
        ),
        parse_cstr(buf@, start as int) matches Some(b) ==> (r matches Ok(v) && v@ == b),
        r matches Ok(v) ==> start + v@.len() < buf@.len(),
{
    let mut i: usize = start;
    while i < buf.len() && buf[i] != 0
        invariant
            start <= i <= buf@.len(),
            first_nul_from(buf@, start as int) == first_nul_from(buf@, i as int),
        decreases buf@.len() - i,
    {
        i = i + 1;
    }
    if i >= buf.len() {
        return Err(Error::UnexpectedEof);
    }
    Ok(vstd::slice::slice_to_vec(vstd::slice::slice_subrange(buf, start, i)))
}

/// Creates a symbolic link `name` whose target is `content`.
#[derive(Debug)]
pub struct SymlinkRequest {
    pub parent_id: NodeId,
    pub name: NodeName,
    pub content: Vec<u8>,
}

/// The failure, if any, of decoding a symlink frame: the name, then the target.
pub open spec fn symlink_frame_error(s: Seq<u8>) -> Option<Error> {
    match fixed_frame_error(s, 0) {
        Some(e) => Some(e),
        None => match parse_name(s, REQUEST_HEADER_LEN as int) {
            None => Some(Error::UnexpectedEof),
            Some(n) => if parse_cstr(s, REQUEST_HEADER_LEN + n.len() + 1) is None {
                Some(Error::UnexpectedEof)
            } else {
                None
            },
        },
    }
}

/// Where the fields of a decoded symlink request come from.
pub open spec fn symlink_fields(s: Seq<u8>, q: SymlinkRequest) -> bool {
    &&& q.parent_id@ == frame_node_id(s)
    &&& q.name@ == parse_name(s, REQUEST_HEADER_LEN as int)->0
    &&& q.content@ == parse_cstr(s, REQUEST_HEADER_LEN + q.name@.len() + 1)->0
}

impl SymlinkRequest {
    pub fn decode(buf: &[u8]) -> (r: Result<SymlinkRequest, Error>)
        ensures
            symlink_frame_error(buf@) matches Some(e) ==> (r matches Err(x) && x == e),
            symlink_frame_error(buf@) is None ==> (r matches Ok(q) && symlink_fields(buf@, q)),
    {
        let parent_id = match check_fixed_frame(buf, 0) {
            Err(e) => return Err(e),
            Ok(n) => n,
        };
        let (name, next) = match read_name(buf, REQUEST_HEADER_LEN) {
            Err(e) => return Err(e),
            Ok(x) => x,
        };
        let content = match read_cstr(buf, next) {
            Err(e) => return Err(e),
            Ok(c) => c,
        };
        Ok(SymlinkRequest { parent_id, name, content })
    }
}

/// Adds a hard link `new_name` in `new_parent_id` to node `node_id`:
/// `fuse_link_in`, then the name.
#[derive(Debug)]
pub struct LinkRequest {
    pub node_id: NodeId,
    pub new_parent_id: NodeId,
    pub new_name: NodeName,
}

/// Size of `fuse_link_in`.
pub const LINK_IN_SIZE: usize = 8;

/// The failure, if any, of decoding a link frame.
pub open spec fn link_frame_error(s: Seq<u8>) -> Option<Error> {
    match fixed_frame_error(s, LINK_IN_SIZE as nat) {
        Some(e) => Some(e),
        None => if u64_at(s, 40) == 0 {
            Some(Error::MissingNodeId)
        } else if parse_name(s, 48) is None {
            Some(Error::UnexpectedEof)
        } else {
            None
        },
    }
}

/// Where the fields of a decoded link request come from.
pub open spec fn link_fields(s: Seq<u8>, q: LinkRequest) -> bool {
    &&& q.new_parent_id@ == frame_node_id(s)
    &&& q.node_id@ == u64_at(s, 40)
    &&& q.new_name@ == parse_name(s, 48)->0
}

impl LinkRequest {
    pub fn decode(buf: &[u8]) -> (r: Result<LinkRequest, Error>)
        ensures
            link_frame_error(buf@) matches Some(e) ==> (r matches Err(x) && x == e),
            link_frame_error(buf@) is None ==> (r matches Ok(q) && link_fields(buf@, q)),
    {
        let new_parent_id = match check_fixed_frame(buf, LINK_IN_SIZE) {
            Err(e) => return Err(e),
            Ok(n) => n,
        };
        let node_id = match NodeId::new(read_u64(buf, 40)) {
            None => return Err(Error::MissingNodeId),
            Some(n) => n,
        };
        let (new_name, _next) = match read_name(buf, 48) {
            Err(e) => return Err(e),
            Ok(x) => x,
        };
        Ok(LinkRequest { node_id, new_parent_id, new_name })
    }
}

/// The size of the fixed part of a create frame in minor version `minor`:
/// `fuse_create_in` from 12 on, before it flags and mode alone.
pub open spec fn create_in_size(minor: u32) -> nat {
    if minor >= 12 {
        16
    } else {
        8
    }
}

/// Creates and opens a file: `fuse_create_in`, then the name.
#[derive(Debug)]
pub struct CreateRequest {
    pub parent_id: NodeId,
    pub name: NodeName,
    pub flags: u32,
    pub mode: u32,
    pub umask: u32,
}

/// Where the fields of a decoded create request of minor version `minor`
/// come from.
pub open spec fn create_fields(s: Seq<u8>, minor: u32, q: CreateRequest) -> bool {
    &&& q.parent_id@ == frame_node_id(s)
    &&& q.flags == u32_at(s, 40)
    &&& q.mode == u32_at(s, 44)
    &&& q.umask == if minor >= 12 {
        u32_at(s, 48)
    } else {
        0
    }
    &&& q.name@ == parse_name(s, REQUEST_HEADER_LEN + create_in_size(minor))->0
}

impl CreateRequest {
    pub fn decode(buf: &[u8], minor: u32) -> (r: Result<CreateRequest, Error>)
        ensures
            fixed_name_frame_error(buf@, create_in_size(minor)) matches Some(e) ==> (r matches Err(
                x,
            ) && x == e),
            fixed_name_frame_error(buf@, create_in_size(minor)) is None ==> (r matches Ok(q)
                && create_fields(buf@, minor, q)),
    {
        let body_len: usize = if minor >= 12 {
            16
        } else {
            8
        };
        let parent_id = match check_fixed_frame(buf, body_len) {
            Err(e) => return Err(e),
            Ok(n) => n,
        };
        let (name, _next) = match read_name(buf, REQUEST_HEADER_LEN + body_len) {
            Err(e) => return Err(e),
            Ok(x) => x,
        };
        let umask = if minor >= 12 {
            read_u32(buf, 48)
        } else {
            0
        };
        Ok(CreateRequest { parent_id, name, flags: read_u32(buf, 40), mode: read_u32(buf, 44), umask })
    }
}

/// The reply to a create: the new node, then the open handle.
#[derive(Debug, Copy, Clone, PartialEq, Eq, Structural)]
pub struct CreateResponse {
    pub node: Node,
    pub open: OpenResponse,
}

impl CreateResponse {
    pub fn encode(&self, minor: u32) -> (r: Vec<u8>)
        ensures
            r@ == entry_out_bytes(self.node, minor) + open_out_bytes(self.open),
    {
        let mut out = self.node.encode(minor);
        let open = self.open.encode();
        push_bytes(&mut out, open.as_slice());
        out
    }
}

/// Lock type: shared.
pub const F_RDLCK: u32 = 0;

/// Lock type: exclusive.
pub const F_WRLCK: u32 = 1;

/// Lock type: release.
pub const F_UNLCK: u32 = 2;

/// An inclusive byte range of a lock; an end of `u64::MAX` reaches the end
/// of the file.
#[derive(Debug, Copy, Clone, PartialEq, Eq, Structural)]
pub struct LockRange {
    pub start: u64,
    pub end: u64,
}

impl LockRange {
    /// The range that covers the whole file.
    pub fn whole_file() -> (r: LockRange)
        ensures
            r.start == 0 && r.end == u64::MAX,
    {
        LockRange { start: 0, end: u64::MAX }
    }

    /// Whether the range reaches the end of the file.
    pub fn to_end_of_file(&self) -> (r: bool)
        ensures
            r == (self.end == u64::MAX),
    {
        self.end == u64::MAX
    }
}

/// A POSIX record lock: `fuse_file_lock`.
#[derive(Debug, Copy, Clone, PartialEq, Eq, Structural)]
pub struct Lock {
    pub range: LockRange,
    /// `F_RDLCK`, `F_WRLCK` or `F_UNLCK`.
    pub lock_type: u32,
    pub pid: u32,
}

/// The wire bytes of `fuse_file_lock`.
pub open spec fn file_lock_bytes(l: Lock) -> Seq<u8> {
    spec_u64_to_le_bytes(l.range.start) + spec_u64_to_le_bytes(l.range.end) + spec_u32_to_le_bytes(
        l.lock_type,
    ) + spec_u32_to_le_bytes(l.pid)
}

/// Tests, takes or releases a lock: `fuse_lk_in`, for `FUSE_GETLK`,
/// `FUSE_SETLK` and `FUSE_SETLKW`.
#[derive(Debug, Copy, Clone)]
pub struct LockRequest {
    pub node_id: NodeId,
    pub handle: u64,
    pub owner: u64,
    pub lock: Lock,
    pub flags: u32,
}

/// Size of `fuse_lk_in`.
pub const LK_IN_SIZE: usize = 48;

/// Where the fields of a decoded lock request come from.
pub open spec fn lock_fields(s: Seq<u8>, q: LockRequest) -> bool {
    &&& q.node_id@ == frame_node_id(s)
    &&& q.handle == u64_at(s, 40)
    &&& q.owner == u64_at(s, 48)
    &&& q.lock == (Lock {
        range: LockRange { start: u64_at(s, 56), end: u64_at(s, 64) },
        lock_type: u32_at(s, 72),
        pid: u32_at(s, 76),
    })
    &&& q.flags == u32_at(s, 80)
}

impl LockRequest {
    pub fn decode(buf: &[u8]) -> (r: Result<LockRequest, Error>)
        ensures
            fixed_frame_error(buf@, LK_IN_SIZE as nat) matches Some(e) ==> r == Err::<
                LockRequest,
                Error,
            >(e),
            fixed_frame_error(buf@, LK_IN_SIZE as nat) is None ==> (r matches Ok(q) && lock_fields(
                buf@,
                q,
            )),
    {
        let node_id = match check_fixed_frame(buf, LK_IN_SIZE) {
            Err(e) => return Err(e),
            Ok(n) => n,
        };
        let lock = Lock {
            range: LockRange { start: read_u64(buf, 56), end: read_u64(buf, 64) },
            lock_type: read_u32(buf, 72),
            pid: read_u32(buf, 76),
        };
        Ok(
            LockRequest {
                node_id,
                handle: read_u64(buf, 40),
                owner: read_u64(buf, 48),
                lock,
                flags: read_u32(buf, 80),
            },
        )
    }
}

/// The reply to a lock test: the conflicting lock, or one of type `F_UNLCK`.
#[derive(Debug, Copy, Clone, PartialEq, Eq, Structural)]
pub struct GetlkResponse {
    pub lock: Lock,
}

impl GetlkResponse {
    pub fn encode(&self) -> (r: Vec<u8>)
        ensures
            r@ == file_lock_bytes(self.lock),
    {
        let mut out: Vec<u8> = Vec::new();
        push_u64(&mut out, self.lock.range.start);
        push_u64(&mut out, self.lock.range.end);
        push_u32(&mut out, self.lock.lock_type);
        push_u32(&mut out, self.lock.pid);
        assert(out@ =~= file_lock_bytes(self.lock));
        out
    }
}

/// The longest extended attribute name.
pub const XATTR_NAME_MAX: usize = 255;

/// Whether `b` may name an extended attribute: non-empty, free of NUL, and
/// at most 255 bytes.
pub open spec fn valid_xattr_name(b: Seq<u8>) -> bool {
    &&& b.len() > 0
    &&& b.len() <= XATTR_NAME_MAX
    &&& forall|i: int| 0 <= i < b.len() ==> b[i] != 0
}

/// The name of an extended attribute.
#[derive(Debug)]
pub struct XattrName {
    bytes: Vec<u8>,
}

impl View for XattrName {
    type V = Seq<u8>;

    closed spec fn view(&self) -> Seq<u8> {
        self.bytes@
    }
}

impl XattrName {
    #[verifier::type_invariant]
    pub closed spec fn is_valid(self) -> bool {
        valid_xattr_name(self.bytes@)
    }

    /// The attribute name spelled by `b`, where it can be one.
    pub fn from_bytes(b: &[u8]) -> (r: Option<XattrName>)
        ensures
            r is Some <==> valid_xattr_name(b@),
            r matches Some(n) ==> n@ == b@,
    {
        if b.len() == 0 || b.len() > XATTR_NAME_MAX || contains_nul(b) {
            return None;
        }
        Some(XattrName { bytes: vstd::slice::slice_to_vec(b) })
    }

    pub fn as_bytes(&self) -> (r: &[u8])
        ensures
            r@ == self@,
            valid_xattr_name(r@),
    {
        proof {
            use_type_invariant(self);
        }
        self.bytes.as_slice()
    }
}

/// The attribute name that starts at `start`, if it is terminated and valid.
pub open spec fn parse_xattr_name(s: Seq<u8>, start: int) -> Option<Seq<u8>> {
    match parse_cstr(s, start) {
        Some(b) => if valid_xattr_name(b) {
            Some(b)
        } else {
            None
        },
        None => None,
    }
}

/// Reads the NUL-terminated attribute name at `start`; returns it and the
/// offset after its NUL.
fn read_xattr_name(buf: &[u8], start: usize) -> (r: Result<(XattrName, usize), Error>)
    requires
        start <= buf@.len(),
    ensures
        parse_xattr_name(buf@, start as int) is None ==> r == Err::<(XattrName, usize), Error>(
            Error::UnexpectedEof,
        ),
        parse_xattr_name(buf@, start as int) matches Some(n) ==> (r matches Ok((name, next))
            && name@ == n && next == start + n.len() + 1 && next <= buf@.len()),
{
    let bytes = match read_cstr(buf, start) {
        Err(e) => return Err(e),
        Ok(b) => b,
    };
    let len = bytes.len();
    let _total = buf.len();
    match XattrName::from_bytes(bytes.as_slice()) {
        None => Err(Error::UnexpectedEof),
        Some(name) => Ok((name, start + len + 1)),
    }
}

/// Reads an extended attribute, or asks its size: `fuse_getxattr_in`, then
/// the name.
#[derive(Debug)]
pub struct GetxattrRequest {
    pub node_id: NodeId,
    pub size: u32,
    pub name: XattrName,
}

/// Size of `fuse_getxattr_in`.
pub const GETXATTR_IN_SIZE: usize = 8;

/// The failure, if any, of decoding a getxattr frame.
pub open spec fn getxattr_frame_error(s: Seq<u8>) -> Option<Error> {
    match fixed_frame_error(s, GETXATTR_IN_SIZE as nat) {
        Some(e) => Some(e),
        None => if parse_xattr_name(s, 48) is None {
            Some(Error::UnexpectedEof)
        } else {
            None
        },
    }
}

/// Where the fields of a decoded getxattr request come from.
pub open spec fn getxattr_fields(s: Seq<u8>, q: GetxattrRequest) -> bool {
    &&& q.node_id@ == frame_node_id(s)
    &&& q.size == u32_at(s, 40)
    &&& q.name@ == parse_xattr_name(s, 48)->0
}

impl GetxattrRequest {
    pub fn decode(buf: &[u8]) -> (r: Result<GetxattrRequest, Error>)
        ensures
            getxattr_frame_error(buf@) matches Some(e) ==> (r matches Err(x) && x == e),
            getxattr_frame_error(buf@) is None ==> (r matches Ok(q) && getxattr_fields(buf@, q)),
    {
        let node_id = match check_fixed_frame(buf, GETXATTR_IN_SIZE) {
            Err(e) => return Err(e),
            Ok(n) => n,
        };
        let (name, _next) = match read_xattr_name(buf, 48) {
            Err(e) => return Err(e),
            Ok(x) => x,
        };
        Ok(GetxattrRequest { node_id, size: read_u32(buf, 40), name })
    }
}

/// Lists the extended attribute names of a node, or asks the list's size.
#[derive(Debug, Copy, Clone)]
pub struct ListxattrRequest {
    pub node_id: NodeId,
    pub size: u32,
}

/// Where the fields of a decoded listxattr request come from.
pub open spec fn listxattr_fields(s: Seq<u8>, q: ListxattrRequest) -> bool {
    q.node_id@ == frame_node_id(s) && q.size == u32_at(s, 40)
}

impl ListxattrRequest {
    pub fn decode(buf: &[u8]) -> (r: Result<ListxattrRequest, Error>)
        ensures
            fixed_frame_error(buf@, GETXATTR_IN_SIZE as nat) matches Some(e) ==> r == Err::<
                ListxattrRequest,
                Error,
            >(e),
            fixed_frame_error(buf@, GETXATTR_IN_SIZE as nat) is None ==> (r matches Ok(q)
                && listxattr_fields(buf@, q)),
    {
        let node_id = match check_fixed_frame(buf, GETXATTR_IN_SIZE) {
            Err(e) => return Err(e),
            Ok(n) => n,
        };
        Ok(ListxattrRequest { node_id, size: read_u32(buf, 40) })
    }
}

/// Removes an extended attribute: the name alone.
#[derive(Debug)]
pub struct RemovexattrRequest {
    pub node_id: NodeId,
    pub name: XattrName,
}

/// The failure, if any, of decoding a removexattr frame.
pub open spec fn removexattr_frame_error(s: Seq<u8>) -> Option<Error> {
    match fixed_frame_error(s, 0) {
        Some(e) => Some(e),
        None => if parse_xattr_name(s, REQUEST_HEADER_LEN as int) is None {
            Some(Error::UnexpectedEof)
        } else {
            None
        },
    }
}

/// Where the fields of a decoded removexattr request come from.
pub open spec fn removexattr_fields(s: Seq<u8>, q: RemovexattrRequest) -> bool {
    q.node_id@ == frame_node_id(s) && q.name@ == parse_xattr_name(s, REQUEST_HEADER_LEN as int)->0
}

impl RemovexattrRequest {
    pub fn decode(buf: &[u8]) -> (r: Result<RemovexattrRequest, Error>)
        ensures
            removexattr_frame_error(buf@) matches Some(e) ==> (r matches Err(x) && x == e),
            removexattr_frame_error(buf@) is None ==> (r matches Ok(q) && removexattr_fields(
                buf@,
                q,
            )),
    {
        let node_id = match check_fixed_frame(buf, 0) {
            Err(e) => return Err(e),
            Ok(n) => n,
        };
        let (name, _next) = match read_xattr_name(buf, REQUEST_HEADER_LEN) {
            Err(e) => return Err(e),
            Ok(x) => x,
        };
        Ok(RemovexattrRequest { node_id, name })
    }
}

/// Sets an extended attribute: `fuse_setxattr_in`, the name, then the value.
#[derive(Debug)]
pub struct SetxattrRequest {
    pub node_id: NodeId,
    pub name: XattrName,
    pub value: Vec<u8>,
    pub flags: u32,
}

/// Size of `fuse_setxattr_in`.
pub const SETXATTR_IN_SIZE: usize = 8;

/// The failure, if any, of decoding a setxattr frame: the value must be as
/// long as the input struct says.
pub open spec fn setxattr_frame_error(s: Seq<u8>) -> Option<Error> {
    match fixed_frame_error(s, SETXATTR_IN_SIZE as nat) {
        Some(e) => Some(e),
        None => match parse_xattr_name(s, 48) {
            None => Some(Error::UnexpectedEof),
            Some(n) => if s.len() < 48 + n.len() + 1 + u32_at(s, 40) {
                Some(Error::UnexpectedEof)
            } else {
                None
            },
        },
    }
}

/// Where the fields of a decoded setxattr request come from.
pub open spec fn setxattr_fields(s: Seq<u8>, q: SetxattrRequest) -> bool {
    let start = 48 + q.name@.len() + 1;
    &&& q.node_id@ == frame_node_id(s)
    &&& q.flags == u32_at(s, 44)
    &&& q.name@ == parse_xattr_name(s, 48)->0
    &&& q.value@ == s.subrange(start as int, start + u32_at(s, 40))
}

impl SetxattrRequest {
    pub fn decode(buf: &[u8]) -> (r: Result<SetxattrRequest, Error>)
        ensures
            setxattr_frame_error(buf@) matches Some(e) ==> (r matches Err(x) && x == e),
            setxattr_frame_error(buf@) is None ==> (r matches Ok(q) && setxattr_fields(buf@, q)),
    {
        let node_id = match check_fixed_frame(buf, SETXATTR_IN_SIZE) {
            Err(e) => return Err(e),
            Ok(n) => n,
        };
        let (name, next) = match read_xattr_name(buf, 48) {
            Err(e) => return Err(e),
            Ok(x) => x,
        };
        let size = read_u32(buf, 40) as usize;
        if buf.len() - next < size {
            return Err(Error::UnexpectedEof);
        }
        let value = vstd::slice::slice_to_vec(vstd::slice::slice_subrange(buf, next, next + size));
        Ok(SetxattrRequest { node_id, name, value, flags: read_u32(buf, 44) })
    }
}

/// errno: the value does not fit the buffer that the caller offered.
pub const ERANGE: u16 = 34;

/// errno: the value is too large to describe.
pub const E2BIG: u16 = 7;

/// What a getxattr or listxattr reply for a request of `size` bytes says of
/// `value`: its length when `size` is zero, the value itself when it fits,
/// `ERANGE` when it does not, and `E2BIG` for a value whose length a reply
/// cannot carry.
pub open spec fn xattr_reply_spec(size: u32, value: Seq<u8>) -> Result<Seq<u8>, u16> {
    if value.len() > u32::MAX {
        Err(E2BIG)
    } else if size == 0 {
        Ok(spec_u32_to_le_bytes(value.len() as u32) + zeros(4))
    } else if value.len() <= size {
        Ok(value)
    } else {
        Err(ERANGE)
    }
}

/// The payload of a getxattr or listxattr reply, or the error to answer
/// with.
pub fn xattr_reply(size: u32, value: &[u8]) -> (r: Result<Vec<u8>, ErrorCode>)
    ensures
        xattr_reply_spec(size, value@) matches Ok(b) ==> (r matches Ok(v) && v@ == b),
        xattr_reply_spec(size, value@) matches Err(n) ==> (r matches Err(e) && e@ == n),
{
    if value.len() as u64 > u32::MAX as u64 {
        return match ErrorCode::new(E2BIG) {
            Some(e) => Err(e),
            None => Err(ErrorCode::eio()),
        };
    }
    if size == 0 {
        let mut out: Vec<u8> = Vec::new();
        push_u32(&mut out, value.len() as u32);
        push_zeros(&mut out, 4);
        return Ok(out);
    }
    if value.len() <= size as usize {
        Ok(vstd::slice::slice_to_vec(value))
    } else {
        match ErrorCode::new(ERANGE) {
            Some(e) => Err(e),
            None => Err(ErrorCode::eio()),
        }
    }
}

} // verus!
