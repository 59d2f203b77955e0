//! The server's decisions: the init handshake, routing each request frame to
//! its handler or answering it directly, and the one-shot reply capability.
use vstd::prelude::*;

use crate::attr::{
    batch_forget_frame_error, batch_forget_items, bmap_fields, copy_file_range_fields,
    copy_file_range_frame_error, fallocate_fields, ioctl_fields, ioctl_frame_error, mknod_fields,
    mknod_in_size, poll_fields, setattr_fields, BatchForgetRequest, BmapRequest,
    CopyFileRangeRequest, FallocateRequest, IoctlRequest, MknodRequest, NodeRequest, PollRequest,
    SetattrRequest, BMAP_IN_SIZE, FALLOCATE_IN_SIZE, POLL_IN_SIZE, SETATTR_IN_SIZE,
};
use crate::error::{Error, ErrorCode, EIO, ENOSYS};
use crate::init::{
    init_out_bytes, parse_init_request, spec_init_response_for, FuseInitRequest, FuseInitResponse,
    ProtocolVersion, FUSE_KERNEL_VERSION,
};
use crate::ops::{
    access_fields, create_fields, create_in_size, fixed_name_frame_error, getattr_fields,
    getattr_in_size, getxattr_fields, getxattr_frame_error, link_fields, link_frame_error,
    listxattr_fields, lock_fields, mkdir_fields, read_fields, removexattr_fields,
    removexattr_frame_error, setxattr_fields, setxattr_frame_error, symlink_fields,
    symlink_frame_error, write_fields, write_frame_error, AccessRequest, CreateRequest,
    GetattrRequest, GetxattrRequest, LinkRequest, ListxattrRequest, LockRequest, MkdirRequest,
    ReadRequest, RemovexattrRequest, SetxattrRequest, SymlinkRequest, WriteRequest, ACCESS_IN_SIZE,
    GETXATTR_IN_SIZE, LK_IN_SIZE, MKDIR_IN_SIZE,
};
use crate::request::{
    fixed_frame_error, flush_fields, forget_fields, frame_node_id, fsyncdir_fields, lseek_fields,
    name_fields, name_frame_error, open_fields, read_in_size, readdir_fields, release_fields,
    rename_frame_error, rename_frame_fields, FlushRequest, ForgetRequest, FsyncdirRequest,
    InterruptRequest, LookupRequest, LseekRequest, OpenRequest, ReaddirRequest, ReleaseRequest,
    RenameRequest, UnlinkRequest, FLUSH_IN_SIZE, FORGET_IN_SIZE, FSYNC_IN_SIZE, FUSE_ACCESS,
    FUSE_BATCH_FORGET, FUSE_BMAP, FUSE_COPY_FILE_RANGE, FUSE_CREATE, FUSE_DESTROY, FUSE_FALLOCATE,
    FUSE_FLUSH, FUSE_FORGET, FUSE_FSYNC, FUSE_FSYNCDIR, FUSE_GETATTR, FUSE_GETLK, FUSE_GETXATTR,
    FUSE_INIT, FUSE_INTERRUPT, FUSE_IOCTL, FUSE_LINK, FUSE_LISTXATTR, FUSE_LOOKUP, FUSE_LSEEK,
    FUSE_MKDIR, FUSE_MKNOD, FUSE_OPEN, FUSE_OPENDIR, FUSE_POLL, FUSE_READ, FUSE_READDIR,
    FUSE_READLINK, FUSE_RELEASE, FUSE_RELEASEDIR, FUSE_REMOVEXATTR, FUSE_RENAME, FUSE_RENAME2,
    FUSE_RMDIR, FUSE_SETATTR, FUSE_SETLK, FUSE_SETLKW, FUSE_SETXATTR, FUSE_STATFS, FUSE_SYMLINK,
    FUSE_UNLINK, FUSE_WRITE, INTERRUPT_IN_SIZE, LSEEK_IN_SIZE, OPEN_IN_SIZE, RELEASE_IN_SIZE,
};
use crate::wire::{
    encode_error, encode_reply, error_reply_bytes, lemma_error_reply_header, lemma_reply_header,
    parse_request_header, parse_response_header, payload_fits, read_u32, reply_bytes, u32_at,
    u64_at, RequestHeader, REQUEST_HEADER_LEN,
};

verus! {

/// A decoded request, one variant per opcode that this library implements.
#[derive(Debug)]
pub enum Request {
    Lookup(LookupRequest),
    Unlink(UnlinkRequest),
    Rmdir(UnlinkRequest),
    Getattr(GetattrRequest),
    Setattr(SetattrRequest),
    Readlink(NodeRequest),
    Statfs(NodeRequest),
    Access(AccessRequest),
    Mknod(MknodRequest),
    Mkdir(MkdirRequest),
    Symlink(SymlinkRequest),
    Link(LinkRequest),
    Create(CreateRequest),
    Open(OpenRequest),
    Opendir(OpenRequest),
    Read(ReadRequest),
    Write(WriteRequest),
    Release(ReleaseRequest),
    Releasedir(ReleaseRequest),
    Flush(FlushRequest),
    /// `fuse_fsync_in`, as for a directory.
    Fsync(FsyncdirRequest),
    Fsyncdir(FsyncdirRequest),
    Readdir(ReaddirRequest),
    Lseek(LseekRequest),
    Rename(RenameRequest),
    Rename2(RenameRequest),
    Getlk(LockRequest),
    Setlk(LockRequest),
    Setlkw(LockRequest),
    Getxattr(GetxattrRequest),
    Listxattr(ListxattrRequest),
    Setxattr(SetxattrRequest),
    Removexattr(RemovexattrRequest),
    Bmap(BmapRequest),
    Fallocate(FallocateRequest),
    Poll(PollRequest),
    CopyFileRange(CopyFileRangeRequest),
    Ioctl(IoctlRequest),
    /// Owes no reply.
    Forget(ForgetRequest),
    /// Owes no reply.
    BatchForget(BatchForgetRequest),
    /// Owes no reply; cancelling the handler is the host's work.
    Interrupt(InterruptRequest),
}

/// The opcodes that are decoded into a `Request`.
pub open spec fn is_handled_opcode(op: u32) -> bool {
    op == FUSE_LOOKUP
        || op == FUSE_UNLINK
        || op == FUSE_RMDIR
        || op == FUSE_GETATTR
        || op == FUSE_SETATTR
        || op == FUSE_READLINK
        || op == FUSE_STATFS
        || op == FUSE_ACCESS
        || op == FUSE_MKNOD
        || op == FUSE_MKDIR
        || op == FUSE_SYMLINK
        || op == FUSE_LINK
        || op == FUSE_CREATE
        || op == FUSE_OPEN
        || op == FUSE_OPENDIR
        || op == FUSE_READ
        || op == FUSE_WRITE
        || op == FUSE_RELEASE
        || op == FUSE_RELEASEDIR
        || op == FUSE_FLUSH
        || op == FUSE_FSYNC
        || op == FUSE_FSYNCDIR
        || op == FUSE_READDIR
        || op == FUSE_LSEEK
        || op == FUSE_RENAME
        || op == FUSE_RENAME2
        || op == FUSE_GETLK
        || op == FUSE_SETLK
        || op == FUSE_SETLKW
        || op == FUSE_GETXATTR
        || op == FUSE_LISTXATTR
        || op == FUSE_SETXATTR
        || op == FUSE_REMOVEXATTR
        || op == FUSE_BMAP
        || op == FUSE_FALLOCATE
        || op == FUSE_POLL
        || op == FUSE_COPY_FILE_RANGE
        || op == FUSE_IOCTL
        || op == FUSE_FORGET
        || op == FUSE_BATCH_FORGET
        || op == FUSE_INTERRUPT
}

/// The failure of decoding an interrupt frame, which needs no node id.
pub open spec fn interrupt_frame_error(s: Seq<u8>) -> Option<Error> {
    if s.len() < REQUEST_HEADER_LEN + INTERRUPT_IN_SIZE {
        Some(Error::UnexpectedEof)
    } else {
        None
    }
}

/// The failure, if any, of decoding frame `s` of a handled opcode `op` in
/// minor version `minor`.
pub open spec fn request_decode_error(s: Seq<u8>, op: u32, minor: u32) -> Option<Error> {
    if op == FUSE_LOOKUP {
        name_frame_error(s)
    } else if op == FUSE_UNLINK {
        name_frame_error(s)
    } else if op == FUSE_RMDIR {
        name_frame_error(s)
    } else if op == FUSE_GETATTR {
        fixed_frame_error(s, getattr_in_size(minor))
    } else if op == FUSE_SETATTR {
        fixed_frame_error(s, SETATTR_IN_SIZE as nat)
    } else if op == FUSE_READLINK {
        fixed_frame_error(s, 0)
    } else if op == FUSE_STATFS {
        fixed_frame_error(s, 0)
    } else if op == FUSE_ACCESS {
        fixed_frame_error(s, ACCESS_IN_SIZE as nat)
    } else if op == FUSE_MKNOD {
        fixed_name_frame_error(s, mknod_in_size(minor))
    } else if op == FUSE_MKDIR {
        fixed_name_frame_error(s, MKDIR_IN_SIZE as nat)
    } else if op == FUSE_SYMLINK {
        symlink_frame_error(s)
    } else if op == FUSE_LINK {
        link_frame_error(s)
    } else if op == FUSE_CREATE {
        fixed_name_frame_error(s, create_in_size(minor))
    } else if op == FUSE_OPEN {
        fixed_frame_error(s, OPEN_IN_SIZE as nat)
    } else if op == FUSE_OPENDIR {
        fixed_frame_error(s, OPEN_IN_SIZE as nat)
    } else if op == FUSE_READ {
        fixed_frame_error(s, read_in_size(minor))
    } else if op == FUSE_WRITE {
        write_frame_error(s, minor)
    } else if op == FUSE_RELEASE {
        fixed_frame_error(s, RELEASE_IN_SIZE as nat)
    } else if op == FUSE_RELEASEDIR {
        fixed_frame_error(s, RELEASE_IN_SIZE as nat)
    } else if op == FUSE_FLUSH {
        fixed_frame_error(s, FLUSH_IN_SIZE as nat)
    } else if op == FUSE_FSYNC {
        fixed_frame_error(s, FSYNC_IN_SIZE as nat)
    } else if op == FUSE_FSYNCDIR {
        fixed_frame_error(s, FSYNC_IN_SIZE as nat)
    } else if op == FUSE_READDIR {
        fixed_frame_error(s, read_in_size(minor))
    } else if op == FUSE_LSEEK {
        fixed_frame_error(s, LSEEK_IN_SIZE as nat)
    } else if op == FUSE_RENAME {
        rename_frame_error(s)
    } else if op == FUSE_RENAME2 {
        rename_frame_error(s)
    } else if op == FUSE_GETLK {
        fixed_frame_error(s, LK_IN_SIZE as nat)
    } else if op == FUSE_SETLK {
        fixed_frame_error(s, LK_IN_SIZE as nat)
    } else if op == FUSE_SETLKW {
        fixed_frame_error(s, LK_IN_SIZE as nat)
    } else if op == FUSE_GETXATTR {
        getxattr_frame_error(s)
    } else if op == FUSE_LISTXATTR {
        fixed_frame_error(s, GETXATTR_IN_SIZE as nat)
    } else if op == FUSE_SETXATTR {
        setxattr_frame_error(s)
    } else if op == FUSE_REMOVEXATTR {
        removexattr_frame_error(s)
    } else if op == FUSE_BMAP {
        fixed_frame_error(s, BMAP_IN_SIZE as nat)
    } else if op == FUSE_FALLOCATE {
        fixed_frame_error(s, FALLOCATE_IN_SIZE as nat)
    } else if op == FUSE_POLL {
        fixed_frame_error(s, POLL_IN_SIZE as nat)
    } else if op == FUSE_COPY_FILE_RANGE {
        copy_file_range_frame_error(s)
    } else if op == FUSE_IOCTL {
        ioctl_frame_error(s)
    } else if op == FUSE_FORGET {
        fixed_frame_error(s, FORGET_IN_SIZE as nat)
    } else if op == FUSE_BATCH_FORGET {
        batch_forget_frame_error(s)
    } else {
        interrupt_frame_error(s)
    }
}

/// Whether `req` is what frame `s` of minor version `minor` decodes to.
pub open spec fn request_decoded(s: Seq<u8>, minor: u32, req: Request) -> bool {
    let op = u32_at(s, 4);
    match req {
        Request::Lookup(q) => op == FUSE_LOOKUP && name_fields(s, q.parent_id, q.name),
        Request::Unlink(q) => op == FUSE_UNLINK && name_fields(s, q.parent_id, q.name),
        Request::Rmdir(q) => op == FUSE_RMDIR && name_fields(s, q.parent_id, q.name),
        Request::Getattr(q) => op == FUSE_GETATTR && getattr_fields(s, minor, q),
        Request::Setattr(q) => op == FUSE_SETATTR && setattr_fields(s, q),
        Request::Readlink(q) => op == FUSE_READLINK && q.node_id@ == frame_node_id(s),
        Request::Statfs(q) => op == FUSE_STATFS && q.node_id@ == frame_node_id(s),
        Request::Access(q) => op == FUSE_ACCESS && access_fields(s, q),
        Request::Mknod(q) => op == FUSE_MKNOD && mknod_fields(s, minor, q),
        Request::Mkdir(q) => op == FUSE_MKDIR && mkdir_fields(s, q),
        Request::Symlink(q) => op == FUSE_SYMLINK && symlink_fields(s, q),
        Request::Link(q) => op == FUSE_LINK && link_fields(s, q),
        Request::Create(q) => op == FUSE_CREATE && create_fields(s, minor, q),
        Request::Open(q) => op == FUSE_OPEN && open_fields(s, q),
        Request::Opendir(q) => op == FUSE_OPENDIR && open_fields(s, q),
        Request::Read(q) => op == FUSE_READ && read_fields(s, minor, q),
        Request::Write(q) => op == FUSE_WRITE && write_fields(s, minor, q),
        Request::Release(q) => op == FUSE_RELEASE && release_fields(s, q),
        Request::Releasedir(q) => op == FUSE_RELEASEDIR && release_fields(s, q),
        Request::Flush(q) => op == FUSE_FLUSH && flush_fields(s, q),
        Request::Fsync(q) => op == FUSE_FSYNC && fsyncdir_fields(s, q),
        Request::Fsyncdir(q) => op == FUSE_FSYNCDIR && fsyncdir_fields(s, q),
        Request::Readdir(q) => op == FUSE_READDIR && readdir_fields(s, minor, q),
        Request::Lseek(q) => op == FUSE_LSEEK && lseek_fields(s, q),
        Request::Rename(q) => op == FUSE_RENAME && rename_frame_fields(s, q),
        Request::Rename2(q) => op == FUSE_RENAME2 && rename_frame_fields(s, q),
        Request::Getlk(q) => op == FUSE_GETLK && lock_fields(s, q),
        Request::Setlk(q) => op == FUSE_SETLK && lock_fields(s, q),
        Request::Setlkw(q) => op == FUSE_SETLKW && lock_fields(s, q),
        Request::Getxattr(q) => op == FUSE_GETXATTR && getxattr_fields(s, q),
        Request::Listxattr(q) => op == FUSE_LISTXATTR && listxattr_fields(s, q),
        Request::Setxattr(q) => op == FUSE_SETXATTR && setxattr_fields(s, q),
        Request::Removexattr(q) => op == FUSE_REMOVEXATTR && removexattr_fields(s, q),
        Request::Bmap(q) => op == FUSE_BMAP && bmap_fields(s, q),
        Request::Fallocate(q) => op == FUSE_FALLOCATE && fallocate_fields(s, q),
        Request::Poll(q) => op == FUSE_POLL && poll_fields(s, q),
        Request::CopyFileRange(q) => op == FUSE_COPY_FILE_RANGE && copy_file_range_fields(s, q),
        Request::Ioctl(q) => op == FUSE_IOCTL && ioctl_fields(s, q),
        Request::Forget(q) => op == FUSE_FORGET && forget_fields(s, q),
        Request::BatchForget(q) => op == FUSE_BATCH_FORGET && q.items@ == batch_forget_items(s),
        Request::Interrupt(q) => op == FUSE_INTERRUPT && q.target == u64_at(s, 40),
    }
}

/// Decodes a frame of a handled opcode into its request.
pub fn decode_request(buf: &[u8], minor: u32) -> (r: Result<Request, Error>)
    requires
        buf@.len() >= REQUEST_HEADER_LEN,
        is_handled_opcode(u32_at(buf@, 4)),
    ensures
        ({
            let e = request_decode_error(buf@, u32_at(buf@, 4), minor);
            &&& e matches Some(x) ==> r == Err::<Request, Error>(x)
            &&& e is None ==> (r matches Ok(q) && request_decoded(buf@, minor, q))
        }),
{
    let op = read_u32(buf, 4);
    if op == FUSE_LOOKUP {
        match LookupRequest::decode(buf) {
            Ok(q) => Ok(Request::Lookup(q)),
            Err(e) => Err(e),
        }
    } else if op == FUSE_UNLINK {
        match UnlinkRequest::decode(buf) {
            Ok(q) => Ok(Request::Unlink(q)),
            Err(e) => Err(e),
        }
    } else if op == FUSE_RMDIR {
        match UnlinkRequest::decode(buf) {
            Ok(q) => Ok(Request::Rmdir(q)),
            Err(e) => Err(e),
        }
    } else if op == FUSE_GETATTR {
        match GetattrRequest::decode(buf, minor) {
            Ok(q) => Ok(Request::Getattr(q)),
            Err(e) => Err(e),
        }
    } else if op == FUSE_SETATTR {
        match SetattrRequest::decode(buf) {
            Ok(q) => Ok(Request::Setattr(q)),
            Err(e) => Err(e),
        }
    } else if op == FUSE_READLINK {
        match NodeRequest::decode(buf) {
            Ok(q) => Ok(Request::Readlink(q)),
            Err(e) => Err(e),
        }
    } else if op == FUSE_STATFS {
        match NodeRequest::decode(buf) {
            Ok(q) => Ok(Request::Statfs(q)),
            Err(e) => Err(e),
        }
    } else if op == FUSE_ACCESS {
        match AccessRequest::decode(buf) {
            Ok(q) => Ok(Request::Access(q)),
            Err(e) => Err(e),
        }
    } else if op == FUSE_MKNOD {
        match MknodRequest::decode(buf, minor) {
            Ok(q) => Ok(Request::Mknod(q)),
            Err(e) => Err(e),
        }
    } else if op == FUSE_MKDIR {
        match MkdirRequest::decode(buf) {
            Ok(q) => Ok(Request::Mkdir(q)),
            Err(e) => Err(e),
        }
    } else if op == FUSE_SYMLINK {
        match SymlinkRequest::decode(buf) {
            Ok(q) => Ok(Request::Symlink(q)),
            Err(e) => Err(e),
        }
    } else if op == FUSE_LINK {
        match LinkRequest::decode(buf) {
            Ok(q) => Ok(Request::Link(q)),
            Err(e) => Err(e),
        }
    } else if op == FUSE_CREATE {
        match CreateRequest::decode(buf, minor) {
            Ok(q) => Ok(Request::Create(q)),
            Err(e) => Err(e),
        }
    } else if op == FUSE_OPEN {
        match OpenRequest::decode(buf) {
            Ok(q) => Ok(Request::Open(q)),
            Err(e) => Err(e),
        }
    } else if op == FUSE_OPENDIR {
        match OpenRequest::decode(buf) {
            Ok(q) => Ok(Request::Opendir(q)),
            Err(e) => Err(e),
        }
    } else if op == FUSE_READ {
        match ReadRequest::decode(buf, minor) {
            Ok(q) => Ok(Request::Read(q)),
            Err(e) => Err(e),
        }
    } else if op == FUSE_WRITE {
        match WriteRequest::decode(buf, minor) {
            Ok(q) => Ok(Request::Write(q)),
            Err(e) => Err(e),
        }
    } else if op == FUSE_RELEASE {
        match ReleaseRequest::decode(buf) {
            Ok(q) => Ok(Request::Release(q)),
            Err(e) => Err(e),
        }
    } else if op == FUSE_RELEASEDIR {
        match ReleaseRequest::decode(buf) {
            Ok(q) => Ok(Request::Releasedir(q)),
            Err(e) => Err(e),
        }
    } else if op == FUSE_FLUSH {
        match FlushRequest::decode(buf) {
            Ok(q) => Ok(Request::Flush(q)),
            Err(e) => Err(e),
        }
    } else if op == FUSE_FSYNC {
        match FsyncdirRequest::decode(buf) {
            Ok(q) => Ok(Request::Fsync(q)),
            Err(e) => Err(e),
        }
    } else if op == FUSE_FSYNCDIR {
        match FsyncdirRequest::decode(buf) {
            Ok(q) => Ok(Request::Fsyncdir(q)),
            Err(e) => Err(e),
        }
    } else if op == FUSE_READDIR {
        match ReaddirRequest::decode(buf, minor) {
            Ok(q) => Ok(Request::Readdir(q)),
            Err(e) => Err(e),
        }
    } else if op == FUSE_LSEEK {
        match LseekRequest::decode(buf) {
            Ok(q) => Ok(Request::Lseek(q)),
            Err(e) => Err(e),
        }
    } else if op == FUSE_RENAME {
        match RenameRequest::decode(buf) {
            Ok(q) => Ok(Request::Rename(q)),
            Err(e) => Err(e),
        }
    } else if op == FUSE_RENAME2 {
        match RenameRequest::decode(buf) {
            Ok(q) => Ok(Request::Rename2(q)),
            Err(e) => Err(e),
        }
    } else if op == FUSE_GETLK {
        match LockRequest::decode(buf) {
            Ok(q) => Ok(Request::Getlk(q)),
            Err(e) => Err(e),
        }
    } else if op == FUSE_SETLK {
        match LockRequest::decode(buf) {
            Ok(q) => Ok(Request::Setlk(q)),
            Err(e) => Err(e),
        }
    } else if op == FUSE_SETLKW {
        match LockRequest::decode(buf) {
            Ok(q) => Ok(Request::Setlkw(q)),
            Err(e) => Err(e),
        }
    } else if op == FUSE_GETXATTR {
        match GetxattrRequest::decode(buf) {
            Ok(q) => Ok(Request::Getxattr(q)),
            Err(e) => Err(e),
        }
    } else if op == FUSE_LISTXATTR {
        match ListxattrRequest::decode(buf) {
            Ok(q) => Ok(Request::Listxattr(q)),
            Err(e) => Err(e),
        }
    } else if op == FUSE_SETXATTR {
        match SetxattrRequest::decode(buf) {
            Ok(q) => Ok(Request::Setxattr(q)),
            Err(e) => Err(e),
        }
    } else if op == FUSE_REMOVEXATTR {
        match RemovexattrRequest::decode(buf) {
            Ok(q) => Ok(Request::Removexattr(q)),
            Err(e) => Err(e),
        }
    } else if op == FUSE_BMAP {
        match BmapRequest::decode(buf) {
            Ok(q) => Ok(Request::Bmap(q)),
            Err(e) => Err(e),
        }
    } else if op == FUSE_FALLOCATE {
        match FallocateRequest::decode(buf) {
            Ok(q) => Ok(Request::Fallocate(q)),
            Err(e) => Err(e),
        }
    } else if op == FUSE_POLL {
        match PollRequest::decode(buf) {
            Ok(q) => Ok(Request::Poll(q)),
            Err(e) => Err(e),
        }
    } else if op == FUSE_COPY_FILE_RANGE {
        match CopyFileRangeRequest::decode(buf) {
            Ok(q) => Ok(Request::CopyFileRange(q)),
            Err(e) => Err(e),
        }
    } else if op == FUSE_IOCTL {
        match IoctlRequest::decode(buf) {
            Ok(q) => Ok(Request::Ioctl(q)),
            Err(e) => Err(e),
        }
    } else if op == FUSE_FORGET {
        match ForgetRequest::decode(buf) {
            Ok(q) => Ok(Request::Forget(q)),
            Err(e) => Err(e),
        }
    } else if op == FUSE_BATCH_FORGET {
        match BatchForgetRequest::decode(buf) {
            Ok(q) => Ok(Request::BatchForget(q)),
            Err(e) => Err(e),
        }
    } else {
        match InterruptRequest::decode(buf) {
            Ok(q) => Ok(Request::Interrupt(q)),
            Err(e) => Err(e),
        }
    }
}

/// The capability to answer one request. It is moved into the answer, so a
/// request is answered at most once.
#[derive(Debug)]
pub struct Respond {
    unique: u64,
}

impl Respond {
    /// The `unique` of the request that this capability answers.
    pub closed spec fn target(&self) -> u64 {
        self.unique
    }

    /// The capability to answer the request with header `header`.
    pub fn for_header(header: &RequestHeader) -> (r: Respond)
        ensures
            r.target() == header.unique,
    {
        Respond { unique: header.unique }
    }

    /// The `unique` of the request that this capability answers.
    pub fn unique(&self) -> (r: u64)
        ensures
            r == self.target(),
    {
        self.unique
    }

    /// Answers with success and `payload`.
    pub fn ok(self, payload: &[u8]) -> (r: Vec<u8>)
        requires
            payload_fits(payload@.len()),
        ensures
            r@ == reply_bytes(self.target(), payload@),
    {
        encode_reply(self.unique, payload)
    }

    /// Answers with the error `code`.
    pub fn err(self, code: ErrorCode) -> (r: Vec<u8>)
        ensures
            r@ == error_reply_bytes(self.target(), code@),
    {
        encode_error(self.unique, code)
    }
}

/// Where a server stands in its session.
#[derive(Copy, Clone, Debug, PartialEq, Eq, Structural)]
pub enum ServerState {
    /// No init request has been answered yet.
    AwaitingInit,
    /// The handshake agreed on this version.
    Running(ProtocolVersion),
    /// The kernel ended the session.
    Destroyed,
}

/// What the server does with one frame read from the channel.
#[derive(Debug)]
pub enum Step {
    /// Write this frame to the channel.
    Reply(Vec<u8>),
    /// Call the handler of the request, which answers through the capability.
    Handle(Request, Respond),
    /// Nothing to write.
    Ignore,
    /// Stop serving and close the channel.
    Fail(Error),
}

/// The state after answering the init request `req`: running at the reply's
/// version when the major versions agree, still waiting otherwise, so that the
/// kernel can retry.
pub open spec fn state_after_init(req: FuseInitRequest) -> ServerState {
    if req.version.major == FUSE_KERNEL_VERSION {
        ServerState::Running(spec_init_response_for(req).version)
    } else {
        ServerState::AwaitingInit
    }
}

/// What answering frame `s` while waiting for the init request does: only an
/// init request is accepted; it is answered by the version policy.
pub open spec fn awaiting_init_step(s: Seq<u8>, r: (ServerState, Step)) -> bool {
    let op = u32_at(s, 4);
    let h = parse_request_header(s);
    if s.len() < REQUEST_HEADER_LEN {
        r.0 == ServerState::AwaitingInit && r.1 matches Step::Fail(Error::UnexpectedEof)
    } else if op != FUSE_INIT {
        r.0 == ServerState::AwaitingInit && (r.1 matches Step::Fail(e) && e
            == Error::ExpectedFuseInit(op))
    } else {
        match parse_init_request(s) {
            Err(e) => r.0 == ServerState::AwaitingInit && (r.1 matches Step::Fail(x) && x
                == e),
            Ok(req) => r.0 == state_after_init(req) && (r.1 matches Step::Reply(b) && b@
                == reply_bytes(h.unique, init_out_bytes(spec_init_response_for(req)))),
        }
    }
}

/// Answers the first frame of a FUSE session, which must be an init request.
pub fn step_awaiting_init(frame: &[u8]) -> (r: (ServerState, Step))
    ensures
        awaiting_init_step(frame@, r),
{
    let header = match RequestHeader::decode(frame) {
        Err(e) => return (ServerState::AwaitingInit, Step::Fail(e)),
        Ok(h) => h,
    };
    if header.opcode != FUSE_INIT {
        return (ServerState::AwaitingInit, Step::Fail(Error::ExpectedFuseInit(header.opcode)));
    }
    let req = match FuseInitRequest::decode(frame) {
        Err(e) => return (ServerState::AwaitingInit, Step::Fail(e)),
        Ok(q) => q,
    };
    let resp = FuseInitResponse::for_request(&req);
    let payload = resp.encode();
    let reply = encode_reply(header.unique, payload.as_slice());
    let next = if req.version.major == FUSE_KERNEL_VERSION {
        ServerState::Running(resp.version)
    } else {
        ServerState::AwaitingInit
    };
    (next, Step::Reply(reply))
}

/// What routing frame `s` of a session running at `version` does.
pub open spec fn running_step(
    version: ProtocolVersion,
    s: Seq<u8>,
    r: (ServerState, Step),
) -> bool {
    let op = u32_at(s, 4);
    let h = parse_request_header(s);
    if s.len() < REQUEST_HEADER_LEN || h.len != s.len() {
        r.0 == ServerState::Running(version) && r.1 is Ignore
    } else if op == FUSE_DESTROY {
        r.0 == ServerState::Destroyed && (r.1 matches Step::Reply(b) && b@ == reply_bytes(
            h.unique,
            Seq::empty(),
        ))
    } else if !is_handled_opcode(op) {
        r.0 == ServerState::Running(version) && (r.1 matches Step::Reply(b) && b@
            == error_reply_bytes(h.unique, ENOSYS))
    } else {
        r.0 == ServerState::Running(version) && match request_decode_error(
            s,
            op,
            version.minor,
        ) {
            Some(_) => r.1 matches Step::Reply(b) && b@ == error_reply_bytes(
                h.unique,
                EIO,
            ),
            None => r.1 matches Step::Handle(q, respond) && request_decoded(
                s,
                version.minor,
                q,
            ) && respond.target() == h.unique,
        }
    }
}

/// Whether `op` is decoded into a `Request`.
pub fn is_handled(op: u32) -> (r: bool)
    ensures
        r == is_handled_opcode(op),
{
    op == FUSE_LOOKUP
        || op == FUSE_UNLINK
        || op == FUSE_RMDIR
        || op == FUSE_GETATTR
        || op == FUSE_SETATTR
        || op == FUSE_READLINK
        || op == FUSE_STATFS
        || op == FUSE_ACCESS
        || op == FUSE_MKNOD
        || op == FUSE_MKDIR
        || op == FUSE_SYMLINK
        || op == FUSE_LINK
        || op == FUSE_CREATE
        || op == FUSE_OPEN
        || op == FUSE_OPENDIR
        || op == FUSE_READ
        || op == FUSE_WRITE
        || op == FUSE_RELEASE
        || op == FUSE_RELEASEDIR
        || op == FUSE_FLUSH
        || op == FUSE_FSYNC
        || op == FUSE_FSYNCDIR
        || op == FUSE_READDIR
        || op == FUSE_LSEEK
        || op == FUSE_RENAME
        || op == FUSE_RENAME2
        || op == FUSE_GETLK
        || op == FUSE_SETLK
        || op == FUSE_SETLKW
        || op == FUSE_GETXATTR
        || op == FUSE_LISTXATTR
        || op == FUSE_SETXATTR
        || op == FUSE_REMOVEXATTR
        || op == FUSE_BMAP
        || op == FUSE_FALLOCATE
        || op == FUSE_POLL
        || op == FUSE_COPY_FILE_RANGE
        || op == FUSE_IOCTL
        || op == FUSE_FORGET
        || op == FUSE_BATCH_FORGET
        || op == FUSE_INTERRUPT
}

/// Routes one frame of a running session: destroy ends the session with an
/// empty reply, an opcode without a handler is answered with `ENOSYS`, a
/// frame that does not decode with `EIO`, and any other goes to its handler.
/// A frame too short for a header, or whose header gives another length, is
/// dropped.
pub fn step_running(version: ProtocolVersion, frame: &[u8]) -> (r: (ServerState, Step))
    ensures
        running_step(version, frame@, r),
{
    let header = match RequestHeader::decode(frame) {
        Err(_) => return (ServerState::Running(version), Step::Ignore),
        Ok(h) => h,
    };
    if header.len as usize != frame.len() {
        return (ServerState::Running(version), Step::Ignore);
    }
    if header.opcode == FUSE_DESTROY {
        let empty: Vec<u8> = Vec::new();
        return (ServerState::Destroyed, Step::Reply(encode_reply(header.unique, empty.as_slice())));
    }
    if !is_handled(header.opcode) {
        let reply = encode_error(header.unique, ErrorCode::enosys());
        return (ServerState::Running(version), Step::Reply(reply));
    }
    match decode_request(frame, version.minor) {
        Err(_) => {
            let reply = encode_error(header.unique, ErrorCode::eio());
            (ServerState::Running(version), Step::Reply(reply))
        },
        Ok(q) => (ServerState::Running(version), Step::Handle(q, Respond::for_header(&header))),
    }
}

/// Takes one frame in state `state`.
pub fn step(state: ServerState, frame: &[u8]) -> (r: (ServerState, Step))
    ensures
        state == ServerState::AwaitingInit ==> awaiting_init_step(frame@, r),
        state matches ServerState::Running(v) ==> running_step(v, frame@, r),
        state == ServerState::Destroyed ==> r.0 == ServerState::Destroyed && r.1 is Ignore,
{
    match state {
        ServerState::AwaitingInit => step_awaiting_init(frame),
        ServerState::Running(v) => step_running(v, frame),
        ServerState::Destroyed => (ServerState::Destroyed, Step::Ignore),
    }
}

/// A frame whose header carries node id zero, for an opcode that needs a node
/// id (every handled opcode but interrupt and batch forget, which name no
/// node in the header), fails to decode with `MissingNodeId`.
pub proof fn lemma_zero_node_id_rejected(s: Seq<u8>, minor: u32)
    requires
        s.len() >= REQUEST_HEADER_LEN,
        u64_at(s, 16) == 0,
        is_handled_opcode(u32_at(s, 4)),
        u32_at(s, 4) != FUSE_INTERRUPT,
        u32_at(s, 4) != FUSE_BATCH_FORGET,
    ensures
        request_decode_error(s, u32_at(s, 4), minor) == Some(Error::MissingNodeId),
{
}

/// Every reply that a request receives, success or error, carries the
/// request's `unique`.
pub proof fn lemma_replies_carry_unique(unique: u64, payload: Seq<u8>, code: ErrorCode)
    requires
        payload_fits(payload.len()),
    ensures
        parse_response_header(reply_bytes(unique, payload)).unique == unique,
        parse_response_header(error_reply_bytes(unique, code@)).unique == unique,
{
    lemma_reply_header(unique, payload);
    lemma_error_reply_header(unique, code@);
}

} // verus!
