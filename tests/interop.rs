use fuse::init::ProtocolVersion;
use fuse::request::{
    FUSE_FLUSH, FUSE_FSYNCDIR, FUSE_LOOKUP, FUSE_LSEEK, FUSE_OPEN, FUSE_OPENDIR, FUSE_READDIR,
    FUSE_RELEASEDIR, FUSE_RENAME, FUSE_RENAME2, RENAME_EXCHANGE, RENAME_NOREPLACE,
    RENAME_WHITEOUT, SEEK_DATA, SEEK_HOLE,
};
use fuse::response::{
    FlushResponse, FsyncdirResponse, LookupResponse, LseekResponse, Node, NodeAttr,
    OpenResponse, ReaddirResponse, ReleasedirResponse, RenameResponse, Timeout,
    ENTRY_OUT_SIZE,
};
use fuse::server::{step, Request, Respond, ServerState, Step};
use fuse::{ErrorCode, FileMode, FileType, NodeId, NodeName};

const MINOR: u32 = 31;

fn frame(opcode: u32, unique: u64, nodeid: u64, body: &[u8]) -> Vec<u8> {
    let mut out = Vec::new();
    out.extend_from_slice(&((40 + body.len()) as u32).to_le_bytes());
    out.extend_from_slice(&opcode.to_le_bytes());
    out.extend_from_slice(&unique.to_le_bytes());
    out.extend_from_slice(&nodeid.to_le_bytes());
    out.extend_from_slice(&[0u8; 16]);
    out.extend_from_slice(body);
    out
}

fn name_body(name: &str) -> Vec<u8> {
    let mut out = name.as_bytes().to_vec();
    out.push(0);
    out
}

fn le(parts: &[&[u8]]) -> Vec<u8> {
    parts.concat()
}

fn header_of(reply: &[u8]) -> (u32, i32, u64) {
    (
        u32::from_le_bytes(reply[0..4].try_into().unwrap()),
        i32::from_le_bytes(reply[4..8].try_into().unwrap()),
        u64::from_le_bytes(reply[8..16].try_into().unwrap()),
    )
}

/// Answers a lookup of one of `names` under the root with a node of `mode`.
fn lookup_reply(
    names: &[(&str, u64, FileType, u32, u32)],
    parent: NodeId,
    name: &NodeName,
    respond: Respond,
) -> Vec<u8> {
    if parent != NodeId::root() {
        return respond.err(ErrorCode::enoent());
    }
    for (n, id, ft, perm, nlink) in names {
        if *name == NodeName::from_bytes(n.as_bytes()).unwrap() {
            let mut attr = NodeAttr::new(FileMode::new(*ft, *perm));
            attr.nlink = *nlink;
            let mut node = Node::new(NodeId::new(*id).unwrap(), attr);
            node.cache_timeout = Timeout { seconds: 60, nanos: 0 };
            return respond.ok(&LookupResponse::new(node).encode(MINOR));
        }
    }
    respond.err(ErrorCode::enoent())
}

/// Runs frames through a running server; the handler renders what it logs.
fn serve(
    frames: &[Vec<u8>],
    mut handler: impl FnMut(Request, Respond, &mut Vec<String>) -> Vec<u8>,
) -> (Vec<Vec<u8>>, Vec<String>) {
    let mut state = ServerState::Running(ProtocolVersion::new(7, MINOR));
    let mut replies = Vec::new();
    let mut log = Vec::new();
    for f in frames {
        let (next, s) = step(state, f);
        state = next;
        match s {
            Step::Reply(b) => replies.push(b),
            Step::Handle(req, respond) => replies.push(handler(req, respond, &mut log)),
            Step::Ignore => {}
            Step::Fail(e) => panic!("server failed: {:?}", e),
        }
    }
    (replies, log)
}

fn flush_fs(req: Request, respond: Respond, log: &mut Vec<String>) -> Vec<u8> {
    match req {
        Request::Lookup(q) => lookup_reply(
            &[
                ("flush.txt", 2, FileType::Regular, 0o644, 2),
                ("flush_err.txt", 3, FileType::Regular, 0o644, 2),
            ],
            q.parent_id(),
            q.name(),
            respond,
        ),
        Request::Open(q) => {
            let mut resp = OpenResponse::new();
            if q.node_id() == NodeId::new(2).unwrap() {
                resp.set_handle(1002);
            } else {
                resp.set_handle(1003);
            }
            respond.ok(&resp.encode())
        }
        Request::Flush(q) => {
            let mut request_str = q.debug_pretty();
            // stub out the lock owner, which is non-deterministic.
            let repl_start = request_str.find("lock_owner:").unwrap();
            let repl_end = repl_start + request_str[repl_start..].find(",").unwrap();
            request_str.replace_range(repl_start..=repl_end, "lock_owner: FAKE_LOCK_OWNER,");
            log.push(request_str);
            if q.handle() == 1002 {
                respond.ok(&FlushResponse::new().encode())
            } else {
                respond.err(ErrorCode::new(7).unwrap())
            }
        }
        _ => respond.err(ErrorCode::enosys()),
    }
}

fn flush_frames(name: &str, node: u64, handle: u64) -> Vec<Vec<u8>> {
    let flush_in = le(&[&handle.to_le_bytes(), &[0u8; 8], &0x5eed_1234u64.to_le_bytes()]);
    vec![
        frame(FUSE_LOOKUP, 10, 1, &name_body(name)),
        frame(FUSE_OPEN, 11, node, &le(&[&2u32.to_le_bytes(), &[0u8; 4]])),
        frame(FUSE_FLUSH, 12, node, &flush_in),
    ]
}

#[test]
fn flush() {
    let (replies, requests) = serve(&flush_frames("flush.txt", 2, 1002), flush_fs);
    assert_eq!(requests.len(), 1);

    let expect = r#"FlushRequest {
    node_id: 2,
    handle: 1002,
    lock_owner: FAKE_LOCK_OWNER,
}"#;
    assert_eq!(expect, requests[0]);

    // The lookup answer: header plus a full entry, node 2, regular file 0644.
    let (len, error, unique) = header_of(&replies[0]);
    assert_eq!((len as usize, error, unique), (16 + ENTRY_OUT_SIZE, 0, 10));
    assert_eq!(&replies[0][16..24], &2u64.to_le_bytes());
    assert_eq!(&replies[0][32..40], &60u64.to_le_bytes());
    assert_eq!(&replies[0][16 + 40 + 60..16 + 40 + 64], &(0o100644u32).to_le_bytes());
    assert_eq!(&replies[0][16 + 40 + 64..16 + 40 + 68], &2u32.to_le_bytes());
    // The flush answer is a bare header without error.
    assert_eq!(header_of(&replies[2]), (16, 0, 12));
    assert_eq!(replies[2].len(), 16);
}

#[test]
fn flush_err() {
    let (replies, requests) = serve(&flush_frames("flush_err.txt", 3, 1003), flush_fs);
    assert_eq!(requests.len(), 1);

    let expect = r#"FlushRequest {
    node_id: 3,
    handle: 1003,
    lock_owner: FAKE_LOCK_OWNER,
}"#;
    assert_eq!(expect, requests[0]);
    assert_eq!(header_of(&replies[1]).1, 0);
    assert_eq!(&replies[1][16..24], &1003u64.to_le_bytes());
    // E2BIG is 7.
    assert_eq!(header_of(&replies[2]), (16, -7, 12));
    assert_eq!(replies[2].len(), 16);
}

fn fsyncdir_fs(req: Request, respond: Respond, log: &mut Vec<String>) -> Vec<u8> {
    match req {
        Request::Lookup(q) => lookup_reply(
            &[("fsyncdir.d", 2, FileType::Directory, 0o755, 2)],
            q.parent_id(),
            q.name(),
            respond,
        ),
        Request::Opendir(_) => {
            let mut resp = OpenResponse::new();
            resp.set_handle(12345);
            respond.ok(&resp.encode())
        }
        Request::Fsyncdir(q) => {
            log.push(q.debug_pretty());
            respond.ok(&FsyncdirResponse::new().encode())
        }
        _ => respond.err(ErrorCode::enosys()),
    }
}

fn fsyncdir_frames(fsync_flags: u32) -> Vec<Vec<u8>> {
    let fsync_in = le(&[&12345u64.to_le_bytes(), &fsync_flags.to_le_bytes(), &[0u8; 4]]);
    vec![
        frame(FUSE_LOOKUP, 1, 1, &name_body("fsyncdir.d")),
        frame(FUSE_OPENDIR, 2, 2, &le(&[&0u32.to_le_bytes(), &[0u8; 4]])),
        frame(FUSE_FSYNCDIR, 3, 2, &fsync_in),
    ]
}

#[test]
fn fsyncdir_fsync() {
    let (replies, requests) = serve(&fsyncdir_frames(0), fsyncdir_fs);
    assert_eq!(requests.len(), 1);

    let expect = r#"FsyncdirRequest {
    node_id: 2,
    handle: 12345,
    flags: FsyncdirRequestFlags {
        datasync: false,
    },
}"#;
    assert_eq!(expect, requests[0]);
    assert_eq!(header_of(&replies[2]), (16, 0, 3));
}

#[test]
fn fsyncdir_fdatasync() {
    let (_replies, requests) = serve(&fsyncdir_frames(1), fsyncdir_fs);
    assert_eq!(requests.len(), 1);

    let expect = r#"FsyncdirRequest {
    node_id: 2,
    handle: 12345,
    flags: FsyncdirRequestFlags {
        datasync: true,
    },
}"#;
    assert_eq!(expect, requests[0]);
}

fn lseek_fs(req: Request, respond: Respond, log: &mut Vec<String>) -> Vec<u8> {
    match req {
        Request::Lookup(q) => lookup_reply(
            &[("lseek.txt", 2, FileType::Regular, 0o644, 2)],
            q.parent_id(),
            q.name(),
            respond,
        ),
        Request::Open(_) => {
            let mut resp = OpenResponse::new();
            resp.set_handle(12345);
            respond.ok(&resp.encode())
        }
        Request::Lseek(q) => {
            log.push(q.debug_pretty());
            let mut resp = LseekResponse::new();
            resp.set_offset(4096);
            respond.ok(&resp.encode())
        }
        _ => respond.err(ErrorCode::enosys()),
    }
}

fn lseek_frames(whence: Option<u32>) -> Vec<Vec<u8>> {
    let mut frames = vec![
        frame(FUSE_LOOKUP, 1, 1, &name_body("lseek.txt")),
        frame(FUSE_OPEN, 2, 2, &le(&[&2u32.to_le_bytes(), &[0u8; 4]])),
    ];
    if let Some(w) = whence {
        let lseek_in =
            le(&[&12345u64.to_le_bytes(), &1024u64.to_le_bytes(), &w.to_le_bytes(), &[0u8; 4]]);
        frames.push(frame(FUSE_LSEEK, 3, 2, &lseek_in));
    }
    frames
}

#[test]
fn lseek_set() {
    // The kernel answers SEEK_SET itself and forwards nothing.
    let (replies, requests) = serve(&lseek_frames(None), lseek_fs);
    assert_eq!(requests.len(), 0);
    assert_eq!(replies.len(), 2);
}

#[test]
fn lseek_data() {
    let (replies, requests) = serve(&lseek_frames(Some(SEEK_DATA)), lseek_fs);
    assert_eq!(requests.len(), 1);

    let expect = r#"LseekRequest {
    node_id: 2,
    handle: 12345,
    offset: 1024,
    whence: SEEK_DATA,
}"#;
    assert_eq!(expect, requests[0]);
    assert_eq!(header_of(&replies[2]), (24, 0, 3));
    assert_eq!(&replies[2][16..24], &4096u64.to_le_bytes());
}

#[test]
fn lseek_hole() {
    let (replies, requests) = serve(&lseek_frames(Some(SEEK_HOLE)), lseek_fs);
    assert_eq!(requests.len(), 1);

    let expect = r#"LseekRequest {
    node_id: 2,
    handle: 12345,
    offset: 1024,
    whence: SEEK_HOLE,
}"#;
    assert_eq!(expect, requests[0]);
    assert_eq!(&replies[2][16..24], &4096u64.to_le_bytes());
}

fn readdir_fs(req: Request, respond: Respond, log: &mut Vec<String>) -> Vec<u8> {
    match req {
        Request::Lookup(q) => lookup_reply(
            &[("readdir.d", 2, FileType::Directory, 0o755, 2)],
            q.parent_id(),
            q.name(),
            respond,
        ),
        Request::Opendir(_) => {
            let mut resp = OpenResponse::new();
            resp.set_handle(12345);
            respond.ok(&resp.encode())
        }
        Request::Readdir(q) => {
            log.push(q.debug_pretty());
            let mut cursor: u64 = q.cursor.unwrap_or(0);
            let mut resp = ReaddirResponse::with_max_size(q.size);
            if cursor == 0 {
                cursor += 1;
                let name = NodeName::from_bytes(b"entry_a").unwrap();
                assert!(resp.add_entry(
                    NodeId::new(10).unwrap(),
                    &name,
                    cursor,
                    Some(FileType::Regular)
                ));
            }
            if cursor == 1 {
                cursor += 1;
                let name = NodeName::from_bytes(b"entry_b").unwrap();
                assert!(resp.add_entry(
                    NodeId::new(11).unwrap(),
                    &name,
                    cursor,
                    Some(FileType::Symlink)
                ));
                return respond.ok(&resp.encode());
            }
            if cursor == 2 {
                cursor += 1;
                let name = NodeName::from_bytes(b"entry_c").unwrap();
                assert!(resp.add_entry(
                    NodeId::new(12).unwrap(),
                    &name,
                    cursor,
                    Some(FileType::Directory)
                ));
            }
            respond.ok(&resp.encode())
        }
        Request::Releasedir(_) => respond.ok(&ReleasedirResponse::new().encode()),
        _ => respond.err(ErrorCode::enosys()),
    }
}

fn dirent(ino: u64, off: u64, name: &str, dt: u32) -> Vec<u8> {
    let mut out = le(&[
        &ino.to_le_bytes(),
        &off.to_le_bytes(),
        &(name.len() as u32).to_le_bytes(),
        &dt.to_le_bytes(),
        name.as_bytes(),
    ]);
    while out.len() % 8 != 0 {
        out.push(0);
    }
    out
}

#[test]
fn readdir() {
    let read_in = |offset: u64| {
        le(&[
            &12345u64.to_le_bytes(),
            &offset.to_le_bytes(),
            &4096u32.to_le_bytes(),
            &0u32.to_le_bytes(),
            &0u64.to_le_bytes(),
            &0x18000u32.to_le_bytes(),
            &[0u8; 4],
        ])
    };
    let frames = vec![
        frame(FUSE_LOOKUP, 1, 1, &name_body("readdir.d")),
        frame(FUSE_OPENDIR, 2, 2, &le(&[&0x18000u32.to_le_bytes(), &[0u8; 4]])),
        frame(FUSE_READDIR, 3, 2, &read_in(0)),
        frame(FUSE_READDIR, 4, 2, &read_in(1)),
        frame(FUSE_READDIR, 5, 2, &read_in(2)),
        frame(FUSE_RELEASEDIR, 6, 2, &[0u8; 24]),
    ];
    let (replies, requests) = serve(&frames, readdir_fs);

    assert_eq!(requests.len(), 3);

    let expect = r#"ReaddirRequest {
    node_id: 2,
    size: 4096,
    cursor: None,
    handle: 12345,
    opendir_flags: 0x00018000,
}"#;
    assert_eq!(expect, requests[0]);

    let expect = r#"ReaddirRequest {
    node_id: 2,
    size: 4096,
    cursor: Some(1),
    handle: 12345,
    opendir_flags: 0x00018000,
}"#;
    assert_eq!(expect, requests[1]);

    let expect = r#"ReaddirRequest {
    node_id: 2,
    size: 4096,
    cursor: Some(2),
    handle: 12345,
    opendir_flags: 0x00018000,
}"#;
    assert_eq!(expect, requests[2]);

    // entry_a and entry_b (DT_REG, DT_LNK), then entry_c (DT_DIR); each 32 bytes.
    let first = le(&[&dirent(10, 1, "entry_a", 8), &dirent(11, 2, "entry_b", 10)]);
    assert_eq!(&replies[2][16..], &first[..]);
    assert_eq!(&replies[3][16..], &dirent(11, 2, "entry_b", 10)[..]);
    assert_eq!(&replies[4][16..], &dirent(12, 3, "entry_c", 4)[..]);
    assert_eq!(dirent(12, 3, "entry_c", 4).len(), 32);
    for r in &replies[2..5] {
        assert!(r.len() - 16 <= 4096);
        assert_eq!(header_of(r).0 as usize, r.len());
    }
    assert_eq!(header_of(&replies[5]), (16, 0, 6));
}

fn rename_fs(req: Request, respond: Respond, log: &mut Vec<String>) -> Vec<u8> {
    match req {
        Request::Lookup(q) => lookup_reply(
            &[
                ("rename_old.txt", 2, FileType::Regular, 0o644, 1),
                ("rename_new.txt", 3, FileType::Regular, 0o644, 1),
                ("rename_dir.d", 4, FileType::Directory, 0o755, 2),
            ],
            q.parent_id(),
            q.name(),
            respond,
        ),
        Request::Rename(q) | Request::Rename2(q) => {
            log.push(q.debug_pretty());
            respond.ok(&RenameResponse::new().encode())
        }
        _ => respond.err(ErrorCode::enosys()),
    }
}

fn rename_frame(old: &str, new: &str, flags: Option<u32>) -> Vec<u8> {
    let names = le(&[&name_body(old), &name_body(new)]);
    match flags {
        None => frame(FUSE_RENAME, 9, 1, &le(&[&1u64.to_le_bytes(), &names])),
        Some(f) => frame(
            FUSE_RENAME2,
            9,
            1,
            &le(&[&1u64.to_le_bytes(), &f.to_le_bytes(), &[0u8; 4], &names]),
        ),
    }
}

#[test]
fn rename() {
    let frames = vec![
        frame(FUSE_LOOKUP, 1, 1, &name_body("rename_old.txt")),
        frame(FUSE_LOOKUP, 2, 1, &name_body("rename_new.txt")),
        rename_frame("rename_old.txt", "rename_new.txt", None),
    ];
    let (replies, requests) = serve(&frames, rename_fs);
    assert_eq!(requests.len(), 1);
    let expect = r#"RenameRequest {
    old_directory_id: 1,
    old_name: "rename_old.txt",
    new_directory_id: 1,
    new_name: "rename_new.txt",
    flags: RenameRequestFlags {
        no_replace: false,
        exchange: false,
        whiteout: false,
    },
}"#;
    assert_eq!(expect, requests[0]);
    assert_eq!(header_of(&replies[2]), (16, 0, 9));
}

#[test]
fn rename_err_enoent() {
    // The source does not exist: the lookup fails and no rename is sent.
    let frames = vec![frame(FUSE_LOOKUP, 1, 1, &name_body("rename_noexist.txt"))];
    let (replies, requests) = serve(&frames, rename_fs);
    assert_eq!(requests.len(), 0);
    assert_eq!(header_of(&replies[0]), (16, -2, 1));
}

#[test]
fn rename_err_eisdir() {
    // The target is a directory: the kernel refuses before sending a rename.
    let frames = vec![
        frame(FUSE_LOOKUP, 1, 1, &name_body("rename_old.txt")),
        frame(FUSE_LOOKUP, 2, 1, &name_body("rename_dir.d")),
    ];
    let (replies, requests) = serve(&frames, rename_fs);
    assert_eq!(requests.len(), 0);
    assert_eq!(&replies[1][16 + 40 + 60..16 + 40 + 64], &(0o040755u32).to_le_bytes());
}

#[test]
fn rename2_flag_exchange() {
    let frames = vec![rename_frame("rename_old.txt", "rename_dir.d", Some(RENAME_EXCHANGE))];
    let (_replies, requests) = serve(&frames, rename_fs);
    assert_eq!(requests.len(), 1);
    let expect = r#"RenameRequest {
    old_directory_id: 1,
    old_name: "rename_old.txt",
    new_directory_id: 1,
    new_name: "rename_dir.d",
    flags: RenameRequestFlags {
        no_replace: false,
        exchange: true,
        whiteout: false,
    },
}"#;
    assert_eq!(expect, requests[0]);
}

#[test]
fn rename2_flag_noreplace() {
    let frames = vec![rename_frame("rename_old.txt", "rename_noexist.txt", Some(RENAME_NOREPLACE))];
    let (_replies, requests) = serve(&frames, rename_fs);
    assert_eq!(requests.len(), 1);
    let expect = r#"RenameRequest {
    old_directory_id: 1,
    old_name: "rename_old.txt",
    new_directory_id: 1,
    new_name: "rename_noexist.txt",
    flags: RenameRequestFlags {
        no_replace: true,
        exchange: false,
        whiteout: false,
    },
}"#;
    assert_eq!(expect, requests[0]);
}

#[test]
fn rename2_flag_whiteout() {
    let frames = vec![rename_frame("rename_old.txt", "rename_noexist.txt", Some(RENAME_WHITEOUT))];
    let (_replies, requests) = serve(&frames, rename_fs);
    assert_eq!(requests.len(), 1);
    let expect = r#"RenameRequest {
    old_directory_id: 1,
    old_name: "rename_old.txt",
    new_directory_id: 1,
    new_name: "rename_noexist.txt",
    flags: RenameRequestFlags {
        no_replace: false,
        exchange: false,
        whiteout: true,
    },
}"#;
    assert_eq!(expect, requests[0]);
}
