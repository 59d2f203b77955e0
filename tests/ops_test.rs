use fuse::attr::{
    IoctlRequest, IoctlResponse, BatchForgetRequest, BmapRequest, CopyFileRangeRequest, FallocateRequest, MknodRequest,
    NodeRequest, PollRequest, SetattrRequest, StatfsResponse, Timestamp, FATTR_MODE, FATTR_MTIME,
    FATTR_SIZE,
};
use fuse::request::{
    FUSE_BATCH_FORGET, FUSE_BMAP, FUSE_COPY_FILE_RANGE, FUSE_FALLOCATE, FUSE_MKNOD, FUSE_POLL,
    FUSE_SETATTR, FUSE_STATFS, FUSE_IOCTL,
};
use fuse::wire::{encode_notify, ResponseHeader};
use fuse::ops::{
    xattr_reply, AccessRequest, CreateRequest, CreateResponse, GetattrRequest, GetattrResponse,
    GetlkResponse, GetxattrRequest, LinkRequest, ListxattrRequest, Lock, LockRange, LockRequest,
    MkdirRequest, ReadRequest, RemovexattrRequest, SetxattrRequest, SymlinkRequest, WriteRequest,
    WriteResponse, XattrName, F_WRLCK,
};
use fuse::request::{
    FUSE_ACCESS, FUSE_CREATE, FUSE_GETATTR, FUSE_GETLK, FUSE_GETXATTR, FUSE_LINK, FUSE_LISTXATTR,
    FUSE_MKDIR, FUSE_READ, FUSE_REMOVEXATTR, FUSE_SETXATTR, FUSE_SYMLINK, FUSE_WRITE,
};
use fuse::response::{Node, NodeAttr, OpenResponse, Timeout, ATTR_SIZE, COMPAT_ATTR_SIZE};
use fuse::server::{step, Request, ServerState, Step};
use fuse::init::ProtocolVersion;
use fuse::{Error, FileMode, FileType, NodeId};

fn frame(opcode: u32, nodeid: u64, body: &[u8]) -> Vec<u8> {
    let mut out = Vec::new();
    out.extend_from_slice(&((40 + body.len()) as u32).to_le_bytes());
    out.extend_from_slice(&opcode.to_le_bytes());
    out.extend_from_slice(&1u64.to_le_bytes());
    out.extend_from_slice(&nodeid.to_le_bytes());
    out.extend_from_slice(&[0u8; 16]);
    out.extend_from_slice(body);
    out
}

fn cat(parts: &[&[u8]]) -> Vec<u8> {
    parts.concat()
}

#[test]
fn getattr_by_handle() {
    let body = cat(&[&1u32.to_le_bytes(), &[0u8; 4], &77u64.to_le_bytes()]);
    let q = GetattrRequest::decode(&frame(FUSE_GETATTR, 5, &body), 31).unwrap();
    assert_eq!((q.node_id.get(), q.handle), (5, Some(77)));
    let body = cat(&[&0u32.to_le_bytes(), &[0u8; 4], &77u64.to_le_bytes()]);
    let q = GetattrRequest::decode(&frame(FUSE_GETATTR, 5, &body), 31).unwrap();
    assert_eq!(q.handle, None);
    // Before minor version 9 the request has no body.
    let q = GetattrRequest::decode(&frame(FUSE_GETATTR, 5, &[]), 8).unwrap();
    assert_eq!(q.handle, None);
    assert_eq!(
        GetattrRequest::decode(&frame(FUSE_GETATTR, 5, &[]), 9).unwrap_err(),
        Error::UnexpectedEof
    );
}

#[test]
fn getattr_reply_layout() {
    let mut attr = NodeAttr::new(FileMode::new(FileType::Regular, 0o600));
    attr.size = 12;
    attr.blksize = 4096;
    let r = GetattrResponse {
        node_id: NodeId::new(9).unwrap(),
        attr_timeout: Timeout { seconds: 1, nanos: 2 },
        attr,
    };
    let b = r.encode(31);
    assert_eq!(b.len(), 16 + ATTR_SIZE);
    assert_eq!(&b[16..24], &9u64.to_le_bytes());
    assert_eq!(&b[24..32], &12u64.to_le_bytes());
    assert_eq!(&b[16 + 80..16 + 84], &4096u32.to_le_bytes());
    assert_eq!(r.encode(8).len(), 16 + COMPAT_ATTR_SIZE);
}

#[test]
fn read_with_lock_owner() {
    let body = cat(&[
        &3u64.to_le_bytes(),
        &100u64.to_le_bytes(),
        &4096u32.to_le_bytes(),
        &2u32.to_le_bytes(),
        &55u64.to_le_bytes(),
        &0x8000u32.to_le_bytes(),
        &[0u8; 4],
    ]);
    let q = ReadRequest::decode(&frame(FUSE_READ, 2, &body), 31).unwrap();
    assert_eq!((q.handle, q.offset, q.size), (3, 100, 4096));
    assert_eq!(q.lock_owner, Some(55));
    assert_eq!(q.open_flags, 0x8000);
    let q = ReadRequest::decode(&frame(FUSE_READ, 2, &body[..24]), 8).unwrap();
    assert_eq!((q.lock_owner, q.open_flags), (None, 0));
}

#[test]
fn write_carries_data() {
    let body = cat(&[
        &3u64.to_le_bytes(),
        &8u64.to_le_bytes(),
        &5u32.to_le_bytes(),
        &0u32.to_le_bytes(),
        &0u64.to_le_bytes(),
        &0u32.to_le_bytes(),
        &[0u8; 4],
        b"hello",
    ]);
    let q = WriteRequest::decode(&frame(FUSE_WRITE, 2, &body), 31).unwrap();
    assert_eq!((q.handle, q.offset), (3, 8));
    assert_eq!(q.value, b"hello");
    assert_eq!(q.lock_owner, None);
    let short = &body[..body.len() - 1];
    assert_eq!(
        WriteRequest::decode(&frame(FUSE_WRITE, 2, short), 31).unwrap_err(),
        Error::UnexpectedEof
    );
    assert_eq!(WriteResponse { size: 5 }.encode(), cat(&[&5u32.to_le_bytes(), &[0u8; 4]]));
}

#[test]
fn access_mkdir_symlink_link() {
    let q = AccessRequest::decode(&frame(FUSE_ACCESS, 2, &cat(&[&4u32.to_le_bytes(), &[0; 4]])))
        .unwrap();
    assert_eq!(q.mask, 4);

    let body = cat(&[&0o755u32.to_le_bytes(), &0o022u32.to_le_bytes(), b"sub\0"]);
    let q = MkdirRequest::decode(&frame(FUSE_MKDIR, 1, &body)).unwrap();
    assert_eq!((q.mode, q.umask), (0o755, 0o022));
    assert_eq!(q.name.as_bytes(), b"sub");

    let q = SymlinkRequest::decode(&frame(FUSE_SYMLINK, 1, b"ln\0../target\0")).unwrap();
    assert_eq!(q.name.as_bytes(), b"ln");
    assert_eq!(q.content, b"../target");
    assert_eq!(
        SymlinkRequest::decode(&frame(FUSE_SYMLINK, 1, b"ln\0../target")).unwrap_err(),
        Error::UnexpectedEof
    );

    let body = cat(&[&7u64.to_le_bytes(), b"hard\0"]);
    let q = LinkRequest::decode(&frame(FUSE_LINK, 1, &body)).unwrap();
    assert_eq!((q.node_id.get(), q.new_parent_id.get()), (7, 1));
    assert_eq!(q.new_name.as_bytes(), b"hard");
    let body = cat(&[&0u64.to_le_bytes(), b"hard\0"]);
    assert_eq!(LinkRequest::decode(&frame(FUSE_LINK, 1, &body)).unwrap_err(), Error::MissingNodeId);
}

#[test]
fn create_and_reply() {
    let body = cat(&[
        &2u32.to_le_bytes(),
        &0o100644u32.to_le_bytes(),
        &0o022u32.to_le_bytes(),
        &[0u8; 4],
        b"new.txt\0",
    ]);
    let q = CreateRequest::decode(&frame(FUSE_CREATE, 1, &body), 31).unwrap();
    assert_eq!((q.flags, q.mode, q.umask), (2, 0o100644, 0o022));
    assert_eq!(q.name.as_bytes(), b"new.txt");
    let body = cat(&[&2u32.to_le_bytes(), &0o100644u32.to_le_bytes(), b"old.txt\0"]);
    let q = CreateRequest::decode(&frame(FUSE_CREATE, 1, &body), 11).unwrap();
    assert_eq!((q.umask, q.name.as_bytes()), (0, &b"old.txt"[..]));

    let node = Node::new(NodeId::new(4).unwrap(), NodeAttr::new(FileMode::new(FileType::Regular, 0o644)));
    let mut open = OpenResponse::new();
    open.set_handle(8);
    let b = CreateResponse { node, open }.encode(31);
    assert_eq!(b.len(), 128 + 16);
    assert_eq!(&b[128..136], &8u64.to_le_bytes());
}

#[test]
fn locks() {
    let body = cat(&[
        &3u64.to_le_bytes(),
        &99u64.to_le_bytes(),
        &0u64.to_le_bytes(),
        &u64::MAX.to_le_bytes(),
        &F_WRLCK.to_le_bytes(),
        &1234u32.to_le_bytes(),
        &1u32.to_le_bytes(),
        &[0u8; 4],
    ]);
    let q = LockRequest::decode(&frame(FUSE_GETLK, 2, &body)).unwrap();
    assert_eq!((q.handle, q.owner, q.flags), (3, 99, 1));
    assert_eq!(q.lock.range, LockRange::whole_file());
    assert!(q.lock.range.to_end_of_file());
    assert_eq!((q.lock.lock_type, q.lock.pid), (F_WRLCK, 1234));
    let reply = GetlkResponse { lock: Lock { range: LockRange { start: 5, end: 9 }, lock_type: 2, pid: 0 } }
        .encode();
    assert_eq!(
        reply,
        cat(&[&5u64.to_le_bytes(), &9u64.to_le_bytes(), &2u32.to_le_bytes(), &0u32.to_le_bytes()])
    );
    match step(ServerState::Running(ProtocolVersion::new(7, 31)), &frame(FUSE_GETLK, 2, &body)).1 {
        Step::Handle(Request::Getlk(_), _) => {}
        other => panic!("unexpected {:?}", other),
    }
}

#[test]
fn xattrs() {
    let body = cat(&[&64u32.to_le_bytes(), &[0u8; 4], b"user.a\0"]);
    let q = GetxattrRequest::decode(&frame(FUSE_GETXATTR, 2, &body)).unwrap();
    assert_eq!((q.size, q.name.as_bytes()), (64, &b"user.a"[..]));
    let q = ListxattrRequest::decode(&frame(FUSE_LISTXATTR, 2, &body[..8])).unwrap();
    assert_eq!(q.size, 64);
    let q = RemovexattrRequest::decode(&frame(FUSE_REMOVEXATTR, 2, b"user.a\0")).unwrap();
    assert_eq!(q.name.as_bytes(), b"user.a");
    assert_eq!(
        RemovexattrRequest::decode(&frame(FUSE_REMOVEXATTR, 2, b"\0")).unwrap_err(),
        Error::UnexpectedEof
    );
    let body = cat(&[&3u32.to_le_bytes(), &1u32.to_le_bytes(), b"user.b\0", b"xyz"]);
    let q = SetxattrRequest::decode(&frame(FUSE_SETXATTR, 2, &body)).unwrap();
    assert_eq!((q.flags, q.value.as_slice()), (1, &b"xyz"[..]));
    assert_eq!(
        SetxattrRequest::decode(&frame(FUSE_SETXATTR, 2, &body[..body.len() - 1])).unwrap_err(),
        Error::UnexpectedEof
    );
    assert!(XattrName::from_bytes(&[b'a'; 256]).is_none());
    assert!(XattrName::from_bytes(&[b'a'; 255]).is_some());
}

#[test]
fn xattr_reply_sizes() {
    assert_eq!(xattr_reply(0, b"abc").unwrap(), cat(&[&3u32.to_le_bytes(), &[0u8; 4]]));
    assert_eq!(xattr_reply(3, b"abc").unwrap(), b"abc");
    assert_eq!(xattr_reply(2, b"abc").unwrap_err().get(), 34);
}

#[test]
fn setattr_fields_by_valid_bits() {
    let mut body = vec![0u8; 88];
    body[0..4].copy_from_slice(&(FATTR_MODE | FATTR_SIZE | FATTR_MTIME).to_le_bytes());
    body[16..24].copy_from_slice(&1234u64.to_le_bytes());
    body[40..48].copy_from_slice(&99u64.to_le_bytes());
    body[60..64].copy_from_slice(&7u32.to_le_bytes());
    body[68..72].copy_from_slice(&0o100600u32.to_le_bytes());
    body[76..80].copy_from_slice(&1000u32.to_le_bytes());
    let q = SetattrRequest::decode(&frame(FUSE_SETATTR, 2, &body)).unwrap();
    assert_eq!(q.size, Some(1234));
    assert_eq!(q.mode, Some(0o100600));
    assert_eq!(q.mtime, Some(Timestamp { seconds: 99, nanos: 7 }));
    assert_eq!((q.handle, q.atime, q.user_id), (None, None, None));
    assert!(!q.atime_now && !q.mtime_now);
    assert_eq!(
        SetattrRequest::decode(&frame(FUSE_SETATTR, 2, &body[..80])).unwrap_err(),
        Error::UnexpectedEof
    );
}

#[test]
fn statfs_mknod_bmap_fallocate_poll_copy() {
    assert_eq!(NodeRequest::decode(&frame(FUSE_STATFS, 1, &[])).unwrap().node_id.get(), 1);
    let st = StatfsResponse {
        blocks: 1,
        blocks_free: 2,
        blocks_available: 3,
        files: 4,
        files_free: 5,
        block_size: 6,
        name_max: 255,
        fragment_size: 8,
    };
    assert_eq!(st.encode(31).len(), 80);
    assert_eq!(st.encode(3).len(), 48);
    assert_eq!(&st.encode(31)[44..48], &255u32.to_le_bytes());

    let body = cat(&[&0o020644u32.to_le_bytes(), &0x0501u32.to_le_bytes(), &0o022u32.to_le_bytes(), &[0u8; 4], b"tty\0"]);
    let q = MknodRequest::decode(&frame(FUSE_MKNOD, 1, &body), 31).unwrap();
    assert_eq!((q.mode, q.device_number, q.umask), (0o020644, 0x0501, 0o022));
    assert_eq!(q.name.as_bytes(), b"tty");

    let body = cat(&[&10u64.to_le_bytes(), &4096u32.to_le_bytes(), &[0u8; 4]]);
    let q = BmapRequest::decode(&frame(FUSE_BMAP, 2, &body)).unwrap();
    assert_eq!((q.block, q.block_size), (10, 4096));

    let body = cat(&[&3u64.to_le_bytes(), &0u64.to_le_bytes(), &512u64.to_le_bytes(), &1u32.to_le_bytes(), &[0u8; 4]]);
    let q = FallocateRequest::decode(&frame(FUSE_FALLOCATE, 2, &body)).unwrap();
    assert_eq!((q.handle, q.length, q.mode), (3, 512, 1));

    let body = cat(&[&3u64.to_le_bytes(), &44u64.to_le_bytes(), &1u32.to_le_bytes(), &5u32.to_le_bytes()]);
    let q = PollRequest::decode(&frame(FUSE_POLL, 2, &body)).unwrap();
    assert_eq!((q.poll_handle, q.flags, q.events), (44, 1, 5));

    let mut body = vec![0u8; 56];
    body[16..24].copy_from_slice(&9u64.to_le_bytes());
    body[40..48].copy_from_slice(&100u64.to_le_bytes());
    let q = CopyFileRangeRequest::decode(&frame(FUSE_COPY_FILE_RANGE, 2, &body)).unwrap();
    assert_eq!((q.output_node_id.get(), q.length), (9, 100));
    body[16..24].copy_from_slice(&0u64.to_le_bytes());
    assert_eq!(
        CopyFileRangeRequest::decode(&frame(FUSE_COPY_FILE_RANGE, 2, &body)).unwrap_err(),
        Error::MissingNodeId
    );
}

#[test]
fn batch_forget_entries() {
    let body = cat(&[
        &2u32.to_le_bytes(),
        &[0u8; 4],
        &5u64.to_le_bytes(),
        &1u64.to_le_bytes(),
        &6u64.to_le_bytes(),
        &3u64.to_le_bytes(),
    ]);
    let q = BatchForgetRequest::decode(&frame(FUSE_BATCH_FORGET, 0, &body)).unwrap();
    assert_eq!(q.items, vec![(5, 1), (6, 3)]);
    assert_eq!(
        BatchForgetRequest::decode(&frame(FUSE_BATCH_FORGET, 0, &body[..body.len() - 1]))
            .unwrap_err(),
        Error::UnexpectedEof
    );
}

#[test]
fn ioctl_round() {
    let body = cat(&[
        &3u64.to_le_bytes(),
        &0u32.to_le_bytes(),
        &0x5401u32.to_le_bytes(),
        &77u64.to_le_bytes(),
        &2u32.to_le_bytes(),
        &8u32.to_le_bytes(),
        b"io",
    ]);
    let q = IoctlRequest::decode(&frame(FUSE_IOCTL, 2, &body)).unwrap();
    assert_eq!((q.command, q.arg, q.output_size), (0x5401, 77, 8));
    assert_eq!(q.input, b"io");
    assert_eq!(
        IoctlRequest::decode(&frame(FUSE_IOCTL, 2, &body[..body.len() - 1])).unwrap_err(),
        Error::UnexpectedEof
    );
    let out = IoctlResponse { result: -1, output: b"ok".to_vec() }.encode();
    assert_eq!(out.len(), 18);
    assert_eq!(&out[0..4], &(-1i32).to_le_bytes());
    assert_eq!(&out[16..], b"ok");
}

#[test]
fn notification_has_zero_unique() {
    let n = encode_notify(1, &[9u8; 8]);
    assert_eq!(ResponseHeader::decode(&n).unwrap(), ResponseHeader { len: 24, error: 1, unique: 0 });
}
