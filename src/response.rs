//! Typed replies and their payload encodings.
use vstd::bytes::*;
use vstd::prelude::*;
use vstd::string::StringExecFns;

use crate::error::Error;
use crate::node::{
    lemma_node_id_view_injective, spec_dirent_type, FileMode, FileType, NodeId, NodeName,
};
use crate::wire::{
    lemma_le_round_trip, push_bytes, push_u32, push_u64, push_zeros, read_u32, read_u64, u32_at,
    u64_at, zeros,
};

verus! {

/// A duration for which the kernel may cache an answer.
#[derive(Copy, Clone, Debug, PartialEq, Eq, Structural)]
pub struct Timeout {
    pub seconds: u64,
    pub nanos: u32,
}

/// The attributes of a node, as `fuse_attr` carries them.
#[derive(Copy, Clone, Debug, PartialEq, Eq, Structural)]
pub struct NodeAttr {
    pub size: u64,
    pub blocks: u64,
    pub atime: u64,
    pub mtime: u64,
    pub ctime: u64,
    pub atime_nanos: u32,
    pub mtime_nanos: u32,
    pub ctime_nanos: u32,
    pub mode: FileMode,
    pub nlink: u32,
    pub uid: u32,
    pub gid: u32,
    pub rdev: u32,
    pub blksize: u32,
}

/// Size of `fuse_attr` from minor version 9.
pub const ATTR_SIZE: usize = 88;

/// Size of `fuse_attr` before minor version 9.
pub const COMPAT_ATTR_SIZE: usize = 80;

/// Size of `fuse_entry_out` from minor version 9.
pub const ENTRY_OUT_SIZE: usize = 128;

/// Size of `fuse_entry_out` before minor version 9.
pub const COMPAT_ENTRY_OUT_SIZE: usize = 120;

/// The wire bytes of `fuse_attr` for node `ino` in minor version `minor`;
/// the block size and padding come with minor version 9.
pub open spec fn attr_bytes(ino: u64, a: NodeAttr, minor: u32) -> Seq<u8> {
    let base = spec_u64_to_le_bytes(ino) + spec_u64_to_le_bytes(a.size) + spec_u64_to_le_bytes(
        a.blocks,
    ) + spec_u64_to_le_bytes(a.atime) + spec_u64_to_le_bytes(a.mtime) + spec_u64_to_le_bytes(
        a.ctime,
    ) + spec_u32_to_le_bytes(a.atime_nanos) + spec_u32_to_le_bytes(a.mtime_nanos)
        + spec_u32_to_le_bytes(a.ctime_nanos) + spec_u32_to_le_bytes(a.mode.mode)
        + spec_u32_to_le_bytes(a.nlink) + spec_u32_to_le_bytes(a.uid) + spec_u32_to_le_bytes(a.gid)
        + spec_u32_to_le_bytes(a.rdev);
    if minor >= 9 {
        base + spec_u32_to_le_bytes(a.blksize) + zeros(4)
    } else {
        base
    }
}

impl NodeAttr {
    /// Attributes with mode `mode` and every other field zero.
    pub fn new(mode: FileMode) -> (r: NodeAttr)
        ensures
            r == (NodeAttr {
                size: 0,
                blocks: 0,
                atime: 0,
                mtime: 0,
                ctime: 0,
                atime_nanos: 0,
                mtime_nanos: 0,
                ctime_nanos: 0,
                mode,
                nlink: 0,
                uid: 0,
                gid: 0,
                rdev: 0,
                blksize: 0,
            }),
    {
        NodeAttr {
            size: 0,
            blocks: 0,
            atime: 0,
            mtime: 0,
            ctime: 0,
            atime_nanos: 0,
            mtime_nanos: 0,
            ctime_nanos: 0,
            mode,
            nlink: 0,
            uid: 0,
            gid: 0,
            rdev: 0,
            blksize: 0,
        }
    }

    /// Appends the attributes of node `ino` in the layout of minor version `minor`.
    pub fn encode_into(&self, ino: u64, minor: u32, out: &mut Vec<u8>)
        ensures
            final(out)@ == old(out)@ + attr_bytes(ino, *self, minor),
    {
        push_u64(out, ino);
        push_u64(out, self.size);
        push_u64(out, self.blocks);
        push_u64(out, self.atime);
        push_u64(out, self.mtime);
        push_u64(out, self.ctime);
        push_u32(out, self.atime_nanos);
        push_u32(out, self.mtime_nanos);
        push_u32(out, self.ctime_nanos);
        push_u32(out, self.mode.mode);
        push_u32(out, self.nlink);
        push_u32(out, self.uid);
        push_u32(out, self.gid);
        push_u32(out, self.rdev);
        if minor >= 9 {
            push_u32(out, self.blksize);
            push_zeros(out, 4);
        }
        assert(final(out)@ =~= old(out)@ + attr_bytes(ino, *self, minor));
    }
}

/// A node as entry-returning replies describe it: `fuse_entry_out`.
#[derive(Copy, Clone, Debug, PartialEq, Eq, Structural)]
pub struct Node {
    pub id: NodeId,
    pub generation: u64,
    pub cache_timeout: Timeout,
    pub attr_timeout: Timeout,
    pub attr: NodeAttr,
}

/// The wire bytes of `fuse_entry_out` in minor version `minor`.
pub open spec fn entry_out_bytes(n: Node, minor: u32) -> Seq<u8> {
    spec_u64_to_le_bytes(n.id@) + spec_u64_to_le_bytes(n.generation) + spec_u64_to_le_bytes(
        n.cache_timeout.seconds,
    ) + spec_u64_to_le_bytes(n.attr_timeout.seconds) + spec_u32_to_le_bytes(n.cache_timeout.nanos)
        + spec_u32_to_le_bytes(n.attr_timeout.nanos) + attr_bytes(n.id@, n.attr, minor)
}

impl Node {
    /// The node `id` with attributes `attr`, generation zero and no caching.
    pub fn new(id: NodeId, attr: NodeAttr) -> (r: Node)
        ensures
            r.id == id,
            r.attr == attr,
            r.generation == 0,
            r.cache_timeout == (Timeout { seconds: 0, nanos: 0 }),
            r.attr_timeout == (Timeout { seconds: 0, nanos: 0 }),
    {
        Node {
            id,
            generation: 0,
            cache_timeout: Timeout { seconds: 0, nanos: 0 },
            attr_timeout: Timeout { seconds: 0, nanos: 0 },
            attr,
        }
    }

    /// The node's `fuse_entry_out` in the layout of minor version `minor`.
    pub fn encode(&self, minor: u32) -> (r: Vec<u8>)
        ensures
            r@ == entry_out_bytes(*self, minor),
    {
        let mut out: Vec<u8> = Vec::new();
        let id = self.id.get();
        push_u64(&mut out, id);
        push_u64(&mut out, self.generation);
        push_u64(&mut out, self.cache_timeout.seconds);
        push_u64(&mut out, self.attr_timeout.seconds);
        push_u32(&mut out, self.cache_timeout.nanos);
        push_u32(&mut out, self.attr_timeout.nanos);
        self.attr.encode_into(id, minor, &mut out);
        assert(out@ =~= entry_out_bytes(*self, minor));
        out
    }
}

/// The size of `fuse_entry_out` in minor version `minor`.
pub open spec fn entry_out_size(minor: u32) -> nat {
    if minor >= 9 {
        ENTRY_OUT_SIZE as nat
    } else {
        COMPAT_ENTRY_OUT_SIZE as nat
    }
}

/// The attributes that `fuse_attr` at offset 40 of `s` holds in minor
/// version `minor`; the block size reads as zero before minor version 9.
pub open spec fn parse_attr(s: Seq<u8>, minor: u32) -> NodeAttr {
    NodeAttr {
        size: u64_at(s, 48),
        blocks: u64_at(s, 56),
        atime: u64_at(s, 64),
        mtime: u64_at(s, 72),
        ctime: u64_at(s, 80),
        atime_nanos: u32_at(s, 88),
        mtime_nanos: u32_at(s, 92),
        ctime_nanos: u32_at(s, 96),
        mode: FileMode { mode: u32_at(s, 100) },
        nlink: u32_at(s, 104),
        uid: u32_at(s, 108),
        gid: u32_at(s, 112),
        rdev: u32_at(s, 116),
        blksize: if minor >= 9 {
            u32_at(s, 120)
        } else {
            0
        },
    }
}

/// Where the fields of a decoded entry come from.
pub open spec fn entry_fields(s: Seq<u8>, minor: u32, n: Node) -> bool {
    &&& n.id@ == u64_at(s, 0)
    &&& n.generation == u64_at(s, 8)
    &&& n.cache_timeout == (Timeout { seconds: u64_at(s, 16), nanos: u32_at(s, 32) })
    &&& n.attr_timeout == (Timeout { seconds: u64_at(s, 24), nanos: u32_at(s, 36) })
    &&& n.attr == parse_attr(s, minor)
}

/// The failure, if any, of decoding an entry of minor version `minor`.
pub open spec fn entry_error(s: Seq<u8>, minor: u32) -> Option<Error> {
    if s.len() < entry_out_size(minor) {
        Some(Error::UnexpectedEof)
    } else if u64_at(s, 0) == 0 {
        Some(Error::MissingNodeId)
    } else {
        None
    }
}

impl Node {
    /// Reads a `fuse_entry_out` laid out for minor version `minor`.
    pub fn decode(payload: &[u8], minor: u32) -> (r: Result<Node, Error>)
        ensures
            entry_error(payload@, minor) matches Some(e) ==> r == Err::<Node, Error>(e),
            entry_error(payload@, minor) is None ==> (r matches Ok(n) && entry_fields(
                payload@,
                minor,
                n,
            )),
    {
        let size = if minor >= 9 {
            ENTRY_OUT_SIZE
        } else {
            COMPAT_ENTRY_OUT_SIZE
        };
        if payload.len() < size {
            return Err(Error::UnexpectedEof);
        }
        let id = match NodeId::new(read_u64(payload, 0)) {
            None => return Err(Error::MissingNodeId),
            Some(n) => n,
        };
        let attr = NodeAttr {
            size: read_u64(payload, 48),
            blocks: read_u64(payload, 56),
            atime: read_u64(payload, 64),
            mtime: read_u64(payload, 72),
            ctime: read_u64(payload, 80),
            atime_nanos: read_u32(payload, 88),
            mtime_nanos: read_u32(payload, 92),
            ctime_nanos: read_u32(payload, 96),
            mode: FileMode { mode: read_u32(payload, 100) },
            nlink: read_u32(payload, 104),
            uid: read_u32(payload, 108),
            gid: read_u32(payload, 112),
            rdev: read_u32(payload, 116),
            blksize: if minor >= 9 {
                read_u32(payload, 120)
            } else {
                0
            },
        };
        Ok(
            Node {
                id,
                generation: read_u64(payload, 8),
                cache_timeout: Timeout { seconds: read_u64(payload, 16), nanos: read_u32(payload, 32) },
                attr_timeout: Timeout { seconds: read_u64(payload, 24), nanos: read_u32(payload, 36) },
                attr,
            },
        )
    }
}

/// Decoding an encoded entry gives the node back, with the block size zero
/// in minor versions that do not carry it; the attributes' node number is
/// the node id.
pub proof fn lemma_entry_round_trip(n: Node, minor: u32)
    requires
        n.id@ != 0,
    ensures
        ({
            let b = entry_out_bytes(n, minor);
            let sent = if minor >= 9 {
                n
            } else {
                Node { attr: NodeAttr { blksize: 0, ..n.attr }, ..n }
            };
            &&& entry_error(b, minor) is None
            &&& entry_fields(b, minor, sent)
            &&& u64_at(b, 40) == n.id@
            &&& forall|m: Node| entry_fields(b, minor, m) ==> m == sent
        }),
{
    lemma_le_round_trip();
    let b = entry_out_bytes(n, minor);
    let a = n.attr;
    assert(b.subrange(0, 8) =~= spec_u64_to_le_bytes(n.id@));
    assert(b.subrange(8, 16) =~= spec_u64_to_le_bytes(n.generation));
    assert(b.subrange(16, 24) =~= spec_u64_to_le_bytes(n.cache_timeout.seconds));
    assert(b.subrange(24, 32) =~= spec_u64_to_le_bytes(n.attr_timeout.seconds));
    assert(b.subrange(32, 36) =~= spec_u32_to_le_bytes(n.cache_timeout.nanos));
    assert(b.subrange(36, 40) =~= spec_u32_to_le_bytes(n.attr_timeout.nanos));
    assert(b.subrange(40, 48) =~= spec_u64_to_le_bytes(n.id@));
    assert(b.subrange(48, 56) =~= spec_u64_to_le_bytes(a.size));
    assert(b.subrange(56, 64) =~= spec_u64_to_le_bytes(a.blocks));
    assert(b.subrange(64, 72) =~= spec_u64_to_le_bytes(a.atime));
    assert(b.subrange(72, 80) =~= spec_u64_to_le_bytes(a.mtime));
    assert(b.subrange(80, 88) =~= spec_u64_to_le_bytes(a.ctime));
    assert(b.subrange(88, 92) =~= spec_u32_to_le_bytes(a.atime_nanos));
    assert(b.subrange(92, 96) =~= spec_u32_to_le_bytes(a.mtime_nanos));
    assert(b.subrange(96, 100) =~= spec_u32_to_le_bytes(a.ctime_nanos));
    assert(b.subrange(100, 104) =~= spec_u32_to_le_bytes(a.mode.mode));
    assert(b.subrange(104, 108) =~= spec_u32_to_le_bytes(a.nlink));
    assert(b.subrange(108, 112) =~= spec_u32_to_le_bytes(a.uid));
    assert(b.subrange(112, 116) =~= spec_u32_to_le_bytes(a.gid));
    assert(b.subrange(116, 120) =~= spec_u32_to_le_bytes(a.rdev));
    if minor >= 9 {
        assert(b.subrange(120, 124) =~= spec_u32_to_le_bytes(a.blksize));
    }
    let sent = if minor >= 9 {
        n
    } else {
        Node { attr: NodeAttr { blksize: 0, ..n.attr }, ..n }
    };
    assert forall|m: Node| entry_fields(b, minor, m) implies m == sent by {
        lemma_node_id_view_injective(m.id, sent.id);
    }
}

/// The reply to a lookup: the node found.
#[derive(Copy, Clone, Debug, PartialEq, Eq, Structural)]
pub struct LookupResponse {
    pub node: Node,
}

impl LookupResponse {
    pub fn new(node: Node) -> (r: LookupResponse)
        ensures
            r.node == node,
    {
        LookupResponse { node }
    }

    pub fn encode(&self, minor: u32) -> (r: Vec<u8>)
        ensures
            r@ == entry_out_bytes(self.node, minor),
    {
        self.node.encode(minor)
    }
}

/// The reply to an open of a file or a directory: `fuse_open_out`.
#[derive(Copy, Clone, Debug, PartialEq, Eq, Structural)]
pub struct OpenResponse {
    pub handle: u64,
    pub flags: u32,
}

/// The wire bytes of `fuse_open_out`.
pub open spec fn open_out_bytes(r: OpenResponse) -> Seq<u8> {
    spec_u64_to_le_bytes(r.handle) + spec_u32_to_le_bytes(r.flags) + zeros(4)
}

impl OpenResponse {
    pub fn new() -> (r: OpenResponse)
        ensures
            r.handle == 0 && r.flags == 0,
    {
        OpenResponse { handle: 0, flags: 0 }
    }

    pub fn set_handle(&mut self, handle: u64)
        ensures
            *final(self) == (OpenResponse { handle, ..*old(self) }),
    {
        self.handle = handle;
    }

    pub fn encode(&self) -> (r: Vec<u8>)
        ensures
            r@ == open_out_bytes(*self),
    {
        let mut out: Vec<u8> = Vec::new();
        push_u64(&mut out, self.handle);
        push_u32(&mut out, self.flags);
        push_zeros(&mut out, 4);
        assert(out@ =~= open_out_bytes(*self));
        out
    }
}

/// Size of `fuse_open_out`.
pub const OPEN_OUT_SIZE: usize = 16;

impl OpenResponse {
    /// Reads the payload of an open reply.
    pub fn decode(payload: &[u8]) -> (r: Result<OpenResponse, Error>)
        ensures
            payload@.len() < OPEN_OUT_SIZE ==> r == Err::<OpenResponse, Error>(
                Error::UnexpectedEof,
            ),
            payload@.len() >= OPEN_OUT_SIZE ==> r == Ok::<OpenResponse, Error>(
                OpenResponse { handle: u64_at(payload@, 0), flags: u32_at(payload@, 8) },
            ),
    {
        if payload.len() < OPEN_OUT_SIZE {
            return Err(Error::UnexpectedEof);
        }
        Ok(OpenResponse { handle: read_u64(payload, 0), flags: read_u32(payload, 8) })
    }
}

/// Decoding the payload of an open reply gives the reply back.
pub proof fn lemma_open_response_round_trip(r: OpenResponse)
    ensures
        ({
            let b = open_out_bytes(r);
            &&& b.len() == OPEN_OUT_SIZE
            &&& (OpenResponse { handle: u64_at(b, 0), flags: u32_at(b, 8) }) == r
        }),
{
    lemma_le_round_trip();
    let b = open_out_bytes(r);
    assert(b.subrange(0, 8) =~= spec_u64_to_le_bytes(r.handle));
    assert(b.subrange(8, 12) =~= spec_u32_to_le_bytes(r.flags));
}

/// The reply to an lseek: the offset found, as `fuse_lseek_out`.
#[derive(Copy, Clone, Debug, PartialEq, Eq, Structural)]
pub struct LseekResponse {
    pub offset: u64,
}

impl LseekResponse {
    pub fn new() -> (r: LseekResponse)
        ensures
            r.offset == 0,
    {
        LseekResponse { offset: 0 }
    }

    pub fn set_offset(&mut self, offset: u64)
        ensures
            final(self).offset == offset,
    {
        self.offset = offset;
    }

    pub fn encode(&self) -> (r: Vec<u8>)
        ensures
            r@ == spec_u64_to_le_bytes(self.offset),
    {
        let mut out: Vec<u8> = Vec::new();
        push_u64(&mut out, self.offset);
        assert(out@ =~= spec_u64_to_le_bytes(self.offset));
        out
    }
}

/// Size of `fuse_lseek_out`.
pub const LSEEK_OUT_SIZE: usize = 8;

impl LseekResponse {
    /// Reads the payload of an lseek reply.
    pub fn decode(payload: &[u8]) -> (r: Result<LseekResponse, Error>)
        ensures
            payload@.len() < LSEEK_OUT_SIZE ==> r == Err::<LseekResponse, Error>(
                Error::UnexpectedEof,
            ),
            payload@.len() >= LSEEK_OUT_SIZE ==> r == Ok::<LseekResponse, Error>(
                LseekResponse { offset: u64_at(payload@, 0) },
            ),
    {
        if payload.len() < LSEEK_OUT_SIZE {
            return Err(Error::UnexpectedEof);
        }
        Ok(LseekResponse { offset: read_u64(payload, 0) })
    }
}

/// Decoding the payload of an lseek reply gives the reply back, and encoding
/// the reply that eight bytes hold gives those bytes back.
pub proof fn lemma_lseek_response_round_trip(r: LseekResponse, b: Seq<u8>)
    requires
        b.len() == LSEEK_OUT_SIZE,
    ensures
        u64_at(spec_u64_to_le_bytes(r.offset), 0) == r.offset,
        spec_u64_to_le_bytes(u64_at(b, 0)) == b,
{
    lemma_le_round_trip();
    assert(spec_u64_to_le_bytes(r.offset).subrange(0, 8) =~= spec_u64_to_le_bytes(r.offset));
    assert(b.subrange(0, 8) =~= b);
}

/// Size of the fixed part of `fuse_dirent`.
pub const DIRENT_HEADER_SIZE: usize = 24;

/// The zero bytes that bring a name of `len` bytes to a multiple of eight.
pub open spec fn dirent_padding(len: nat) -> nat {
    ((8 - (len % 8)) % 8) as nat
}

/// The wire bytes of one `fuse_dirent`: node, cursor of the next entry, name
/// length, `DT_*` type, name, padding.
pub open spec fn dirent_bytes(ino: u64, next: u64, name: Seq<u8>, dt: u32) -> Seq<u8> {
    spec_u64_to_le_bytes(ino) + spec_u64_to_le_bytes(next) + spec_u32_to_le_bytes(
        name.len() as u32,
    ) + spec_u32_to_le_bytes(dt) + name + zeros(dirent_padding(name.len()))
}

/// The `DT_*` value of an entry of type `t`; zero (`DT_UNKNOWN`) if none is given.
pub open spec fn spec_entry_type(t: Option<FileType>) -> u32 {
    match t {
        Some(t) => spec_dirent_type(t),
        None => 0,
    }
}

/// The reply to a readdir: directory entries, within the size that the
/// kernel asked for.
#[derive(Debug)]
pub struct ReaddirResponse {
    max_size: usize,
    buf: Vec<u8>,
}

impl View for ReaddirResponse {
    type V = Seq<u8>;

    /// The encoded entries.
    closed spec fn view(&self) -> Seq<u8> {
        self.buf@
    }
}

impl ReaddirResponse {
    /// The size that the kernel asked for.
    pub closed spec fn capacity(&self) -> nat {
        self.max_size as nat
    }

    /// The entries never take more than the size asked for.
    pub closed spec fn wf(&self) -> bool {
        self.buf@.len() <= self.max_size <= u32::MAX
    }

    /// An empty reply to a request for `max_size` bytes.
    pub fn with_max_size(max_size: u32) -> (r: ReaddirResponse)
        ensures
            r.wf(),
            r@ == Seq::<u8>::empty(),
            r.capacity() == max_size,
    {
        ReaddirResponse { max_size: max_size as usize, buf: Vec::new() }
    }

    /// Appends the entry `name` for node `node_id`, whose successor the
    /// kernel asks for with cursor `next_cursor`. Returns false, and adds
    /// nothing, when the entry would not fit.
    pub fn add_entry(
        &mut self,
        node_id: NodeId,
        name: &NodeName,
        next_cursor: u64,
        file_type: Option<FileType>,
    ) -> (r: bool)
        requires
            old(self).wf(),
        ensures
            final(self).wf(),
            final(self).capacity() == old(self).capacity(),
            ({
                let e = dirent_bytes(node_id@, next_cursor, name@, spec_entry_type(file_type));
                &&& r <==> old(self)@.len() + e.len() <= old(self).capacity()
                &&& r ==> final(self)@ == old(self)@ + e
                &&& !r ==> final(self)@ == old(self)@
            }),
    {
        proof {
            lemma_auto_spec_u32_to_from_le_bytes();
            lemma_auto_spec_u64_to_from_le_bytes();
        }
        let bytes = name.as_bytes();
        let len = bytes.len();
        let ghost e = dirent_bytes(node_id@, next_cursor, name@, spec_entry_type(file_type));
        assert(e.len() == DIRENT_HEADER_SIZE + len + dirent_padding(len as nat));
        let room = self.max_size - self.buf.len();
        if len > room || room - len < DIRENT_HEADER_SIZE {
            return false;
        }
        let pad = (8 - len % 8) % 8;
        if room - len - DIRENT_HEADER_SIZE < pad {
            return false;
        }
        let dt = match file_type {
            Some(t) => t.dirent_type(),
            None => 0,
        };
        let ghost start = self.buf@;
        push_u64(&mut self.buf, node_id.get());
        push_u64(&mut self.buf, next_cursor);
        push_u32(&mut self.buf, len as u32);
        push_u32(&mut self.buf, dt);
        push_bytes(&mut self.buf, bytes);
        push_zeros(&mut self.buf, pad);
        proof {
            assert(self.buf@ =~= start + dirent_bytes(
                node_id@,
                next_cursor,
                name@,
                spec_entry_type(file_type),
            ));
        }
        true
    }

    /// The encoded entries.
    pub fn encode(&self) -> (r: Vec<u8>)
        ensures
            r@ == self@,
    {
        self.buf.clone()
    }
}

/// Whatever sequence of entries was added, the reply never exceeds the size
/// that the kernel asked for.
pub proof fn lemma_readdir_within_capacity(r: ReaddirResponse)
    requires
        r.wf(),
    ensures
        r@.len() <= r.capacity(),
{
}

/// The reply to a flush, which carries no payload.
#[derive(Copy, Clone, Debug, PartialEq, Eq, Structural)]
pub struct FlushResponse {}

impl FlushResponse {
    pub fn new() -> (r: FlushResponse) {
        FlushResponse {  }
    }

    /// The payload, which is empty.
    pub fn encode(&self) -> (r: Vec<u8>)
        ensures
            r@ == Seq::<u8>::empty(),
    {
        Vec::new()
    }

    /// The rendering: the type's name.
    pub fn debug_pretty(&self) -> (r: String)
        ensures
            r@ == "FlushResponse"@,
    {
        String::from_str("FlushResponse")
    }
}

/// The reply to a directory sync, which carries no payload.
#[derive(Copy, Clone, Debug, PartialEq, Eq, Structural)]
pub struct FsyncdirResponse {}

impl FsyncdirResponse {
    pub fn new() -> (r: FsyncdirResponse) {
        FsyncdirResponse {  }
    }

    /// The payload, which is empty.
    pub fn encode(&self) -> (r: Vec<u8>)
        ensures
            r@ == Seq::<u8>::empty(),
    {
        Vec::new()
    }

    /// The rendering: the type's name.
    pub fn debug_pretty(&self) -> (r: String)
        ensures
            r@ == "FsyncdirResponse"@,
    {
        String::from_str("FsyncdirResponse")
    }
}

/// The reply to a rename, which carries no payload.
#[derive(Copy, Clone, Debug, PartialEq, Eq, Structural)]
pub struct RenameResponse {}

impl RenameResponse {
    pub fn new() -> (r: RenameResponse) {
        RenameResponse {  }
    }

    /// The payload, which is empty.
    pub fn encode(&self) -> (r: Vec<u8>)
        ensures
            r@ == Seq::<u8>::empty(),
    {
        Vec::new()
    }

    /// The rendering: the type's name.
    pub fn debug_pretty(&self) -> (r: String)
        ensures
            r@ == "RenameResponse"@,
    {
        String::from_str("RenameResponse")
    }
}

/// The reply to a directory close, which carries no payload.
#[derive(Copy, Clone, Debug, PartialEq, Eq, Structural)]
pub struct ReleasedirResponse {}

impl ReleasedirResponse {
    pub fn new() -> (r: ReleasedirResponse) {
        ReleasedirResponse {  }
    }

    /// The payload, which is empty.
    pub fn encode(&self) -> (r: Vec<u8>)
        ensures
            r@ == Seq::<u8>::empty(),
    {
        Vec::new()
    }

    /// The rendering: the type's name.
    pub fn debug_pretty(&self) -> (r: String)
        ensures
            r@ == "ReleasedirResponse"@,
    {
        String::from_str("ReleasedirResponse")
    }
}

} // verus!
