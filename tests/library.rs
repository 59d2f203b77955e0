use fuse::cuse::{step_awaiting_cuse_init, CuseDeviceName, DeviceNameError, CUSE_INIT_OUT_SIZE};
use fuse::init::{ProtocolVersion, FUSE_KERNEL_MINOR_VERSION};
use fuse::request::{
    opcode_name, FlushRequest, FsyncdirRequest, FsyncdirRequestFlags, LookupRequest,
    LseekRequest, RenameRequest, CUSE_INIT, FUSE_DESTROY, FUSE_FLUSH, FUSE_INIT, FUSE_NOTIFY_REPLY,
    FUSE_INTERRUPT, FUSE_LOOKUP, FUSE_RENAME2, RENAME_EXCHANGE, SEEK_DATA,
};
use fuse::response::{LseekResponse, Node, NodeAttr, OpenResponse, ReaddirResponse, Timeout};
use fuse::server::{step, step_awaiting_init, step_running, Request, Respond, ServerState, Step};
use fuse::wire::{
    encode_error, encode_reply, RequestHeader, ResponseHeader, REQUEST_HEADER_LEN,
};
use fuse::{Error, ErrorCode, FileMode, FileType, NodeId, NodeName};

fn frame(opcode: u32, unique: u64, nodeid: u64, body: &[u8]) -> Vec<u8> {
    let mut out = Vec::new();
    out.extend_from_slice(&((40 + body.len()) as u32).to_le_bytes());
    out.extend_from_slice(&opcode.to_le_bytes());
    out.extend_from_slice(&unique.to_le_bytes());
    out.extend_from_slice(&nodeid.to_le_bytes());
    out.extend_from_slice(&[0u8; 16]);
    out.extend_from_slice(body);
    out
}

fn running() -> ServerState {
    ServerState::Running(ProtocolVersion::new(7, FUSE_KERNEL_MINOR_VERSION))
}

#[test]
fn reply_header_length_and_unique() {
    let payload = [1u8, 2, 3, 4, 5];
    let reply = encode_reply(0x1234, &payload);
    let h = ResponseHeader::decode(&reply).unwrap();
    assert_eq!(h.len as usize, reply.len());
    assert_eq!(h.len, 21);
    assert_eq!(h.error, 0);
    assert_eq!(h.unique, 0x1234);
    assert_eq!(&reply[16..], &payload);
}

#[test]
fn error_reply_negates_errno() {
    let reply = encode_error(77, ErrorCode::enoent());
    assert_eq!(reply.len(), 16);
    let h = ResponseHeader::decode(&reply).unwrap();
    assert_eq!(h, ResponseHeader { len: 16, error: -2, unique: 77 });
    let reply = encode_error(1, ErrorCode::new(7).unwrap());
    assert_eq!(ResponseHeader::decode(&reply).unwrap().error, -7);
}

#[test]
fn request_header_round_trip() {
    let h = RequestHeader {
        len: 64,
        opcode: FUSE_FLUSH,
        unique: 9,
        nodeid: 2,
        uid: 1000,
        gid: 100,
        pid: 4242,
        padding: 0,
    };
    let mut bytes = Vec::new();
    h.encode_into(&mut bytes);
    assert_eq!(bytes.len(), REQUEST_HEADER_LEN);
    assert_eq!(RequestHeader::decode(&bytes).unwrap(), h);
    assert_eq!(RequestHeader::decode(&bytes[..39]).unwrap_err(), Error::UnexpectedEof);
    let r = ResponseHeader { len: 16, error: -38, unique: 5 };
    let mut out = Vec::new();
    r.encode_into(&mut out);
    assert_eq!(ResponseHeader::decode(&out).unwrap(), r);
}

#[test]
fn request_body_round_trip() {
    let q = FlushRequest { node_id: NodeId::new(2).unwrap(), handle: 1002, lock_owner: 99 };
    let d = FlushRequest::decode(&q.encode(5)).unwrap();
    assert_eq!((d.node_id, d.handle, d.lock_owner), (q.node_id, 1002, 99));

    let q = FsyncdirRequest {
        node_id: NodeId::new(2).unwrap(),
        handle: 12345,
        flags: FsyncdirRequestFlags { datasync: true },
    };
    let d = FsyncdirRequest::decode(&q.encode(6)).unwrap();
    assert_eq!((d.node_id, d.handle, d.flags), (q.node_id, 12345, q.flags));

    let q = LseekRequest {
        node_id: NodeId::new(2).unwrap(),
        handle: 12345,
        offset: 1024,
        whence: SEEK_DATA,
    };
    let d = LseekRequest::decode(&q.encode(7)).unwrap();
    assert_eq!((d.handle, d.offset, d.whence), (12345, 1024, SEEK_DATA));

    let q = LookupRequest {
        parent_id: NodeId::root(),
        name: NodeName::from_bytes(b"flush.txt").unwrap(),
    };
    let d = LookupRequest::decode(&q.encode(8)).unwrap();
    assert_eq!(d.parent_id, NodeId::root());
    assert_eq!(d.name.as_bytes(), b"flush.txt");

    let q = RenameRequest {
        old_directory_id: NodeId::root(),
        old_name: NodeName::from_bytes(b"rename_old.txt").unwrap(),
        new_directory_id: NodeId::new(4).unwrap(),
        new_name: NodeName::from_bytes(b"rename_dir.d").unwrap(),
        flags: fuse::request::RenameRequestFlags { no_replace: false, exchange: true, whiteout: true },
    };
    let d = RenameRequest::decode(&q.encode(9)).unwrap();
    assert_eq!((d.old_directory_id, d.new_directory_id), (NodeId::root(), NodeId::new(4).unwrap()));
    assert_eq!(d.old_name.as_bytes(), b"rename_old.txt");
    assert_eq!(d.new_name.as_bytes(), b"rename_dir.d");
    assert_eq!(d.flags, q.flags);

    let mut open = OpenResponse::new();
    open.set_handle(77);
    assert_eq!(OpenResponse::decode(&open.encode()).unwrap(), open);
    let mut seek = LseekResponse::new();
    seek.set_offset(4096);
    assert_eq!(LseekResponse::decode(&seek.encode()).unwrap(), seek);
    assert_eq!(LseekResponse::decode(&[0u8; 7]).unwrap_err(), Error::UnexpectedEof);
}

#[test]
fn zero_node_id_is_missing() {
    let f = frame(FUSE_FLUSH, 3, 0, &[0u8; 24]);
    assert_eq!(FlushRequest::decode(&f).unwrap_err(), Error::MissingNodeId);
    // The server answers it with EIO and calls no handler.
    let (state, s) = step(running(), &f);
    assert_eq!(state, running());
    match s {
        Step::Reply(b) => assert_eq!(b, encode_error(3, ErrorCode::eio())),
        other => panic!("unexpected {:?}", other),
    }
}

#[test]
fn unknown_opcode_is_enosys() {
    let f = frame(FUSE_NOTIFY_REPLY, 8, 1, &[]);
    match step_running(ProtocolVersion::new(7, 31), &f).1 {
        Step::Reply(b) => {
            assert_eq!(ResponseHeader::decode(&b).unwrap(), ResponseHeader {
                len: 16,
                error: -38,
                unique: 8
            })
        }
        other => panic!("unexpected {:?}", other),
    }
    let f = frame(0xDEAD, 9, 1, &[]);
    match step(running(), &f).1 {
        Step::Reply(b) => assert_eq!(b, encode_error(9, ErrorCode::enosys())),
        other => panic!("unexpected {:?}", other),
    }
}

#[test]
fn truncated_frames() {
    // Too short for a header: dropped.
    assert!(matches!(step(running(), &[0u8; 12]).1, Step::Ignore));
    // A truncated body: EIO.
    let f = frame(FUSE_FLUSH, 4, 2, &[0u8; 10]);
    match step(running(), &f).1 {
        Step::Reply(b) => assert_eq!(b, encode_error(4, ErrorCode::eio())),
        other => panic!("unexpected {:?}", other),
    }
    // A header whose length disagrees with the frame: dropped.
    let mut f = frame(FUSE_FLUSH, 4, 2, &[0u8; 24]);
    f[0] = 99;
    assert!(matches!(step(running(), &f).1, Step::Ignore));
    // An unterminated name: EIO.
    let f = frame(FUSE_LOOKUP, 5, 1, b"abc");
    assert_eq!(LookupRequest::decode(&f).unwrap_err(), Error::UnexpectedEof);
}

#[test]
fn destroy_ends_session() {
    let f = frame(FUSE_DESTROY, 11, 0, &[]);
    let (state, s) = step(running(), &f);
    assert_eq!(state, ServerState::Destroyed);
    match s {
        Step::Reply(b) => assert_eq!(b, encode_reply(11, &[])),
        other => panic!("unexpected {:?}", other),
    }
    assert!(matches!(step(ServerState::Destroyed, &f).1, Step::Ignore));
}

#[test]
fn handled_request_carries_unique() {
    let f = frame(FUSE_INTERRUPT, 21, 0, &55u64.to_le_bytes());
    match step(running(), &f).1 {
        Step::Handle(Request::Interrupt(q), respond) => {
            assert_eq!(q.target, 55);
            assert_eq!(respond.unique(), 21);
            let reply = respond.ok(&[]);
            assert_eq!(ResponseHeader::decode(&reply).unwrap().unique, 21);
        }
        other => panic!("unexpected {:?}", other),
    }
    let header = RequestHeader::decode(&f).unwrap();
    let r = Respond::for_header(&header).err(ErrorCode::enodev());
    assert_eq!(ResponseHeader::decode(&r).unwrap(), ResponseHeader {
        len: 16,
        error: -19,
        unique: 21
    });
}

#[test]
fn init_handshake() {
    let body: Vec<u8> = [7u32, 1].iter().flat_map(|v| v.to_le_bytes()).collect();
    let f = frame(FUSE_INIT, 1, 0, &body);
    let (state, s) = step(ServerState::AwaitingInit, &f);
    assert_eq!(state, ServerState::Running(ProtocolVersion::new(7, 1)));
    match s {
        Step::Reply(b) => {
            assert_eq!(b.len(), 16 + 8);
            assert_eq!(&b[16..], &body[..]);
        }
        other => panic!("unexpected {:?}", other),
    }
    // Minor version 6 is answered in the 24-byte layout of minor version 5.
    let body: Vec<u8> = [7u32, 6, 0, 0].iter().flat_map(|v| v.to_le_bytes()).collect();
    let (state, s) = step(ServerState::AwaitingInit, &frame(FUSE_INIT, 4, 0, &body));
    assert_eq!(state, ServerState::Running(ProtocolVersion::new(7, 6)));
    match s {
        Step::Reply(b) => {
            assert_eq!(b.len(), 16 + 24);
            assert_eq!(&b[20..24], &6u32.to_le_bytes());
        }
        other => panic!("unexpected {:?}", other),
    }
    // Another major version: the reply offers this library's, and the
    // server keeps waiting.
    let body: Vec<u8> = [0xFFu32, 0xFF, 0, 0].iter().flat_map(|v| v.to_le_bytes()).collect();
    let (state, s) = step_awaiting_init(&frame(FUSE_INIT, 2, 0, &body));
    assert_eq!(state, ServerState::AwaitingInit);
    match s {
        Step::Reply(b) => {
            assert_eq!(b.len(), 16 + 64);
            assert_eq!(&b[16..20], &7u32.to_le_bytes());
            assert_eq!(&b[20..24], &31u32.to_le_bytes());
            assert!(b[24..].iter().all(|x| *x == 0));
        }
        other => panic!("unexpected {:?}", other),
    }
    // Anything else first is a failure.
    let (_, s) = step(ServerState::AwaitingInit, &frame(FUSE_LOOKUP, 3, 1, b"a\0"));
    assert!(matches!(s, Step::Fail(Error::ExpectedFuseInit(1))));
}

#[test]
fn cuse_handshake() {
    let name = CuseDeviceName::from_bytes(b"cuse-dev").unwrap();
    let body: Vec<u8> = [7u32, 20, 0, 0].iter().flat_map(|v| v.to_le_bytes()).collect();
    let (state, s) = step_awaiting_cuse_init(&frame(CUSE_INIT, 1, 0, &body), &name);
    assert_eq!(state, ServerState::Running(ProtocolVersion::new(7, 20)));
    match s {
        Step::Reply(b) => {
            assert_eq!(b.len(), 16 + CUSE_INIT_OUT_SIZE + 8 + 8 + 1);
            assert_eq!(&b[16 + CUSE_INIT_OUT_SIZE..], b"DEVNAME=cuse-dev\0");
        }
        other => panic!("unexpected {:?}", other),
    }
    let (_, s) = step_awaiting_cuse_init(&frame(FUSE_INIT, 1, 0, &body), &name);
    assert!(matches!(s, Step::Fail(Error::ExpectedCuseInit(26))));
    assert_eq!(CuseDeviceName::new(b"").unwrap_err(), DeviceNameError::Empty);
    assert_eq!(CuseDeviceName::new(b"a\0b").unwrap_err(), DeviceNameError::ContainsNul);
    assert_eq!(CuseDeviceName::new(&[b'x'; 4097]).unwrap_err(), DeviceNameError::TooLong);
}

#[test]
fn rename2_exchange_decodes() {
    let mut body = 1u64.to_le_bytes().to_vec();
    body.extend_from_slice(&RENAME_EXCHANGE.to_le_bytes());
    body.extend_from_slice(&[0u8; 4]);
    body.extend_from_slice(b"rename_old.txt\0rename_dir.d\0");
    let q = RenameRequest::decode(&frame(FUSE_RENAME2, 1, 1, &body)).unwrap();
    assert_eq!(q.old_directory_id, NodeId::root());
    assert_eq!(q.old_name.as_bytes(), b"rename_old.txt");
    assert_eq!(q.new_directory_id, NodeId::root());
    assert_eq!(q.new_name.as_bytes(), b"rename_dir.d");
    assert!(!q.flags.no_replace && q.flags.exchange && !q.flags.whiteout);
    // A zero target directory is a missing node id.
    let mut body0 = 0u64.to_le_bytes().to_vec();
    body0.extend_from_slice(&body[8..]);
    assert_eq!(
        RenameRequest::decode(&frame(FUSE_RENAME2, 1, 1, &body0)).unwrap_err(),
        Error::MissingNodeId
    );
}

#[test]
fn readdir_capacity() {
    let name = NodeName::from_bytes(b"entry_a").unwrap();
    let mut resp = ReaddirResponse::with_max_size(40);
    assert!(resp.add_entry(NodeId::new(10).unwrap(), &name, 1, None));
    // A second 32-byte entry would pass the 40 bytes asked for.
    assert!(!resp.add_entry(NodeId::new(11).unwrap(), &name, 2, Some(FileType::Regular)));
    let bytes = resp.encode();
    assert_eq!(bytes.len(), 32);
    assert!(bytes.len() <= 40);
    assert_eq!(&bytes[20..24], &0u32.to_le_bytes());
    let mut empty = ReaddirResponse::with_max_size(0);
    assert!(!empty.add_entry(NodeId::new(10).unwrap(), &name, 1, None));
    assert!(empty.encode().is_empty());
}

#[test]
fn error_code_equality() {
    let e = ErrorCode::enoent();
    assert!(e == 2i32);
    assert!(2i64 == e);
    assert!(e == 2u16 && e == 2u32 && e == 2u64 && e == 2usize);
    assert!(e == 2i16 && e == 2isize);
    for n in [0i32, -1, -2, i32::MIN] {
        assert!(e != n);
        assert!(n != e);
    }
    assert!(e != 0i16 && e != -2i16 && e != -2isize && e != 0i64 && e != -2i64);
    assert!(e != 3i32);
    assert_eq!(u16::from(e), 2);
    assert_eq!(i32::from(ErrorCode::enosys()), 38);
    assert_eq!(u64::from(ErrorCode::eio()), 5);
    assert!(ErrorCode::new(0).is_none());
    assert_eq!(ErrorCode::new(19).unwrap(), ErrorCode::enodev());
    assert_eq!(e.negated(), -2);
}

#[test]
fn error_code_names() {
    assert_eq!(ErrorCode::eio().name(), Some("EIO"));
    assert_eq!(ErrorCode::enodev().name(), Some("ENODEV"));
    assert_eq!(ErrorCode::enoent().name(), Some("ENOENT"));
    assert_eq!(ErrorCode::enosys().name(), Some("ENOSYS"));
    assert_eq!(ErrorCode::new(7).unwrap().name(), None);
}

#[test]
fn error_messages() {
    assert_eq!(
        Error::MissingNodeId.message(),
        "Request field 'fuse_in_header::nodeid' is missing (expected non-zero)"
    );
    assert_eq!(Error::UnexpectedEof.message(), "unexpected end of file");
    assert_eq!(
        Error::ExpectedFuseInit(1).message(),
        "Received opcode FUSE_LOOKUP from kernel (expected FUSE_INIT)"
    );
    assert_eq!(
        Error::ExpectedCuseInit(9999).message(),
        "Received opcode 9999 from kernel (expected CUSE_INIT)"
    );
    assert_eq!(opcode_name(CUSE_INIT), Some("CUSE_INIT"));
    assert_eq!(opcode_name(7), None);
}

#[test]
fn node_names_and_ids() {
    assert!(NodeName::from_bytes(b"").is_none());
    assert!(NodeName::from_bytes(b".").is_none());
    assert!(NodeName::from_bytes(b"..").is_none());
    assert!(NodeName::from_bytes(b"a\0b").is_none());
    assert!(NodeName::from_bytes(b"...").is_some());
    assert_eq!(NodeName::from_bytes(b"x").unwrap().as_bytes(), b"x");
    assert!(NodeId::new(0).is_none());
    assert_eq!(NodeId::new(5).unwrap().get(), 5);
    assert_eq!(NodeId::root().get(), 1);
}

#[test]
fn file_modes() {
    let m = FileMode::new(FileType::Regular, 0o644);
    assert_eq!(m.mode, 0o100644);
    assert_eq!(m.file_type(), Some(FileType::Regular));
    assert_eq!(m.permissions(), 0o644);
    let d = FileMode::new(FileType::Directory, 0o170755);
    assert_eq!(d.mode, 0o040755);
    assert_eq!(d.file_type(), Some(FileType::Directory));
    assert_eq!(FileMode { mode: 0o755 }.file_type(), None);
    assert_eq!(FileType::Symlink.dirent_type(), 10);
    assert_eq!(FileType::from_dirent_type(4), Some(FileType::Directory));
    assert_eq!(FileType::from_dirent_type(3), None);
}

#[test]
fn quoted_names_escape() {
    let q = RenameRequest {
        old_directory_id: NodeId::root(),
        old_name: NodeName::from_bytes(b"a\"b\\c\x01").unwrap(),
        new_directory_id: NodeId::root(),
        new_name: NodeName::from_bytes(b"\xff").unwrap(),
        flags: fuse::request::RenameRequestFlags { no_replace: false, exchange: false, whiteout: false },
    };
    let text = q.debug_pretty();
    assert!(text.contains("    old_name: \"a\\\"b\\\\c\\x01\",\n"));
    assert!(text.contains("    new_name: \"\\xff\",\n"));
}

#[test]
fn entry_decode_round_trip() {
    let mut attr = NodeAttr::new(FileMode::new(FileType::Regular, 0o644));
    attr.nlink = 2;
    attr.blksize = 512;
    let mut node = Node::new(NodeId::new(2).unwrap(), attr);
    node.cache_timeout = Timeout { seconds: 60, nanos: 0 };
    assert_eq!(Node::decode(&node.encode(31), 31).unwrap(), node);
    let old = Node::decode(&node.encode(8), 8).unwrap();
    assert_eq!(old.attr.blksize, 0);
    assert_eq!(old.attr.nlink, 2);
    assert_eq!(Node::decode(&[0u8; 128], 31).unwrap_err(), Error::MissingNodeId);
    assert_eq!(Node::decode(&node.encode(31)[..127], 31).unwrap_err(), Error::UnexpectedEof);
}
