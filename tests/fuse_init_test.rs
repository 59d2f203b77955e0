use fuse::init::{
    FuseInitFlag, FuseInitFlags, FuseInitRequest, FuseInitResponse, ProtocolVersion,
    FUSE_COMPAT_22_INIT_OUT_SIZE, FUSE_COMPAT_INIT_OUT_SIZE, FUSE_INIT_OUT_SIZE,
    FUSE_KERNEL_MINOR_VERSION, FUSE_KERNEL_VERSION,
};
use fuse::request::FUSE_INIT;
use fuse::wire::{encode_reply, RESPONSE_HEADER_LEN};

fn request_frame(opcode: u32, body: &[u8]) -> Vec<u8> {
    let mut out = Vec::new();
    out.extend_from_slice(&((40 + body.len()) as u32).to_le_bytes());
    out.extend_from_slice(&opcode.to_le_bytes());
    out.extend_from_slice(&0xAABBu64.to_le_bytes());
    out.extend_from_slice(&0u64.to_le_bytes());
    out.extend_from_slice(&[0u8; 16]);
    out.extend_from_slice(body);
    out
}

fn words(values: &[u32]) -> Vec<u8> {
    values.iter().flat_map(|v| v.to_le_bytes()).collect()
}

fn reply_header(payload_len: usize) -> Vec<u8> {
    let mut out = Vec::new();
    out.extend_from_slice(&((RESPONSE_HEADER_LEN + payload_len) as u32).to_le_bytes());
    out.extend_from_slice(&0i32.to_le_bytes());
    out.extend_from_slice(&0u64.to_le_bytes());
    out
}

fn encode(resp: &FuseInitResponse) -> Vec<u8> {
    encode_reply(0, &resp.encode())
}

/// The v7.5 layout: four words, two half-words, one word.
fn init_out_v7p5(major: u32, minor: u32, max_readahead: u32, flags: u32) -> Vec<u8> {
    let mut out = words(&[major, minor, max_readahead, flags]);
    out.extend_from_slice(&0u16.to_le_bytes());
    out.extend_from_slice(&0u16.to_le_bytes());
    out.extend_from_slice(&0u32.to_le_bytes());
    out
}

fn init_out_full(major: u32, minor: u32, max_readahead: u32, flags: u32) -> Vec<u8> {
    let mut out = init_out_v7p5(major, minor, max_readahead, flags);
    out.extend_from_slice(&0u32.to_le_bytes());
    out.extend_from_slice(&[0u8; 36]);
    out
}

#[test]
fn request_v7p1() {
    let buf = request_frame(FUSE_INIT, &words(&[7, 1]));
    let req = FuseInitRequest::decode(&buf).unwrap();

    assert_eq!(req.version().major(), 7);
    assert_eq!(req.version().minor(), 1);
    assert_eq!(req.max_readahead(), 0);
    assert_eq!(req.flags(), FuseInitFlags(0));
}

#[test]
fn request_v7p6() {
    let buf = request_frame(FUSE_INIT, &words(&[7, 6, 9, 0xFFFFFFFF]));
    let req = FuseInitRequest::decode(&buf).unwrap();

    assert_eq!(req.version().major(), 7);
    assert_eq!(req.version().minor(), 6);
    assert_eq!(req.max_readahead(), 9);
    assert_eq!(req.flags(), FuseInitFlags(0xFFFFFFFF));
}

#[test]
fn request_major_mismatch() {
    let buf = request_frame(FUSE_INIT, &words(&[0xFF, 0xFF, 0xFF, 0xFFFFFFFF]));
    let req = FuseInitRequest::decode(&buf).unwrap();

    assert_eq!(req.version().major(), 0xFF);
    assert_eq!(req.version().minor(), 0xFF);
    assert_eq!(req.max_readahead(), 0);
    assert_eq!(req.flags(), FuseInitFlags(0));
}

#[test]
fn response_v7p1() {
    let resp = FuseInitResponse::new(ProtocolVersion::new(7, 1));
    let mut expect = reply_header(FUSE_COMPAT_INIT_OUT_SIZE);
    expect.extend_from_slice(&words(&[7, 1]));
    assert_eq!(encode(&resp), expect);
}

#[test]
fn response_v7p5() {
    let resp = FuseInitResponse::new(ProtocolVersion::new(7, 5));
    let mut expect = reply_header(FUSE_COMPAT_22_INIT_OUT_SIZE);
    expect.extend_from_slice(&init_out_v7p5(7, 5, 0, 0));
    assert_eq!(encode(&resp), expect);
}

#[test]
fn response_v7p23() {
    let mut resp = FuseInitResponse::new(ProtocolVersion::new(7, 23));
    resp.set_max_readahead(4096);
    resp.set_flags(FuseInitFlags(0xFFFFFFFF));
    let mut expect = reply_header(FUSE_INIT_OUT_SIZE);
    expect.extend_from_slice(&init_out_full(7, 23, 4096, 0xFFFFFFFF));
    assert_eq!(encode(&resp), expect);
}

#[test]
fn response_minor_mismatch() {
    let resp = FuseInitResponse::for_request(&FuseInitRequest {
        version: ProtocolVersion::new(FUSE_KERNEL_VERSION, 0xFF),
        max_readahead: 4096,
        flags: FuseInitFlags(0xFFFFFFFF),
    });
    let mut expect = reply_header(FUSE_INIT_OUT_SIZE);
    expect.extend_from_slice(&init_out_full(
        FUSE_KERNEL_VERSION,
        FUSE_KERNEL_MINOR_VERSION,
        4096,
        0xFFFFFFFF,
    ));
    assert_eq!(encode(&resp), expect);
}

#[test]
fn response_major_mismatch() {
    let resp = FuseInitResponse::for_request(&FuseInitRequest {
        version: ProtocolVersion::new(0xFF, 0xFF),
        max_readahead: 0,
        flags: FuseInitFlags(0),
    });
    let mut expect = reply_header(FUSE_INIT_OUT_SIZE);
    expect.extend_from_slice(&init_out_full(
        FUSE_KERNEL_VERSION,
        FUSE_KERNEL_MINOR_VERSION,
        0,
        0,
    ));
    assert_eq!(encode(&resp), expect);
}

#[test]
fn init_flags() {
    // Formatting known flags works.
    assert_eq!(FuseInitFlag::AsyncRead.name(), "ASYNC_READ");

    // Flag set renders as a list. Unknown flags fall back to hex.
    assert_eq!(
        FuseInitFlags(0x3 | (1u32 << 31)).debug_string(),
        "[ASYNC_READ, POSIX_LOCKS, 0x80000000]"
    );

    // Flag sets are mutable
    let mut flags = FuseInitFlags::new();
    flags.set(FuseInitFlag::AsyncRead, true);
    flags.set(FuseInitFlag::PosixLocks, true);
    flags.set(FuseInitFlag::AsyncRead, false);
    assert_eq!(flags.debug_string(), "[POSIX_LOCKS]");

    // Flags support explicit formatting modes.
    assert_eq!(format!("{:#b}", FuseInitFlag::AsyncRead.mask()), "0b1");
    assert_eq!(format!("{:#x}", FuseInitFlag::AsyncRead.mask()), "0x1");
    assert_eq!(format!("{:#X}", FuseInitFlag::AsyncRead.mask()), "0x1");

    assert_eq!(format!("{:#b}", FuseInitFlag::AsyncRead.mask()), "0b1");
    assert_eq!(format!("{:#x}", FuseInitFlag::AsyncRead.mask()), "0x1");
    assert_eq!(format!("{:#X}", FuseInitFlag::AsyncRead.mask()), "0x1");
}

#[test]
fn fuse_init_test_request_impl_debug() {
    let version = ProtocolVersion::new(7, 1);
    let request = &FuseInitRequest {
        version: version,
        max_readahead: 4096,
        flags: FuseInitFlags(0x1),
    };

    assert_eq!(
        request.debug_pretty(),
        "FuseInitRequest {\n    version: ProtocolVersion {\n        major: 7,\n        minor: 1,\n    },\n    max_readahead: 4096,\n    flags: [\n        ASYNC_READ,\n    ],\n}",
    );
}

#[test]
fn fuse_init_test_response_impl_debug() {
    let version = ProtocolVersion::new(7, 1);
    let mut response = FuseInitResponse::new(version);
    response.set_max_readahead(4096);
    response.set_max_write(8192);
    response.set_max_background(10);
    response.set_congestion_threshold(11);
    response.set_time_granularity(100);
    response.set_flags(FuseInitFlags(0x1));

    assert_eq!(
        response.debug_pretty(),
        "FuseInitResponse {\n    version: ProtocolVersion {\n        major: 7,\n        minor: 1,\n    },\n    max_readahead: 4096,\n    flags: [\n        ASYNC_READ,\n    ],\n    max_background: 10,\n    congestion_threshold: 11,\n    max_write: 8192,\n    time_granularity: 100,\n}",
    );
}

#[test]
fn init_flags_pretty_empty_and_unknown() {
    let request = FuseInitRequest {
        version: ProtocolVersion::new(7, 6),
        max_readahead: 0,
        flags: FuseInitFlags(0),
    };
    assert!(request.debug_pretty().contains("    flags: [],\n"));
    assert_eq!(FuseInitFlags(0).debug_string(), "[]");
    assert_eq!(FuseInitFlags(1 << 26).debug_string(), "[0x4000000]");
    assert_eq!(
        FuseInitFlags(0x2000_0001).debug_string(),
        "[ASYNC_READ, 0x20000000]"
    );
}

#[test]
fn init_request_truncated() {
    let buf = request_frame(FUSE_INIT, &words(&[7]));
    assert_eq!(FuseInitRequest::decode(&buf).unwrap_err(), fuse::Error::UnexpectedEof);
    // From minor version 6 the readahead limit and flags must be present.
    let buf = request_frame(FUSE_INIT, &words(&[7, 6]));
    assert_eq!(FuseInitRequest::decode(&buf).unwrap_err(), fuse::Error::UnexpectedEof);
}

#[test]
fn version_downgrade_keeps_lower_minor() {
    let resp = FuseInitResponse::for_request(&FuseInitRequest {
        version: ProtocolVersion::new(7, 12),
        max_readahead: 8,
        flags: FuseInitFlags(0x5),
    });
    assert_eq!(resp.version(), ProtocolVersion::new(7, 12));
    assert_eq!(resp.max_readahead, 8);
    assert_eq!(resp.flags, FuseInitFlags(0x5));
    let latest = ProtocolVersion::latest();
    assert_eq!(latest.major(), 7);
    assert_eq!(latest.minor(), 31);
}

#[test]
fn init_response_decode_round_trip() {
    let mut resp = FuseInitResponse::new(ProtocolVersion::new(7, 23));
    resp.set_max_readahead(4096);
    resp.set_flags(FuseInitFlags(0x5));
    resp.set_max_background(10);
    resp.set_congestion_threshold(11);
    resp.set_max_write(8192);
    resp.set_time_granularity(100);
    assert_eq!(FuseInitResponse::decode(&resp.encode()).unwrap(), resp);

    // Minor version 5 has no time granularity; it reads back as zero.
    let mut old = resp;
    old.version = ProtocolVersion::new(7, 5);
    let back = FuseInitResponse::decode(&old.encode()).unwrap();
    assert_eq!(back.time_granularity, 0);
    assert_eq!(back.max_write, 8192);

    // Minor version 1 carries the version alone.
    old.version = ProtocolVersion::new(7, 1);
    assert_eq!(
        FuseInitResponse::decode(&old.encode()).unwrap(),
        FuseInitResponse::new(ProtocolVersion::new(7, 1))
    );
    assert_eq!(FuseInitResponse::decode(&[0u8; 4]).unwrap_err(), fuse::Error::UnexpectedEof);
}
