use fuse::request::{FsyncdirRequest, FsyncdirRequestFlags, FUSE_FSYNCDIR};
use fuse::response::FsyncdirResponse;
use fuse::wire::{encode_reply, RESPONSE_HEADER_LEN};
use fuse::NodeId;

fn request_frame(opcode: u32, nodeid: u64, body: &[u8]) -> Vec<u8> {
    let mut out = Vec::new();
    out.extend_from_slice(&((40 + body.len()) as u32).to_le_bytes());
    out.extend_from_slice(&opcode.to_le_bytes());
    out.extend_from_slice(&0u64.to_le_bytes());
    out.extend_from_slice(&nodeid.to_le_bytes());
    out.extend_from_slice(&[0u8; 16]);
    out.extend_from_slice(body);
    out
}

fn fsync_in(fh: u64, fsync_flags: u32) -> Vec<u8> {
    let mut out = fh.to_le_bytes().to_vec();
    out.extend_from_slice(&fsync_flags.to_le_bytes());
    out.extend_from_slice(&0u32.to_le_bytes());
    out
}

#[test]
fn request() {
    let buf = request_frame(FUSE_FSYNCDIR, 123, &fsync_in(3, 0x1));
    let req = FsyncdirRequest::decode(&buf).unwrap();

    assert_eq!(req.handle(), 3);
    assert_eq!(req.flags().datasync, true);
}

#[test]
fn fsyncdir_test_request_impl_debug() {
    let request = &FsyncdirRequest {
        node_id: NodeId::root(),
        handle: 3,
        flags: FsyncdirRequestFlags::from_bits(0x1),
    };

    assert_eq!(
        request.debug_pretty(),
        "FsyncdirRequest {\n    node_id: 1,\n    handle: 3,\n    flags: FsyncdirRequestFlags {\n        datasync: true,\n    },\n}",
    );
}

#[test]
fn response_empty() {
    let resp = FsyncdirResponse::new();
    let encoded = encode_reply(0, &resp.encode());

    let mut expect = (RESPONSE_HEADER_LEN as u32).to_le_bytes().to_vec();
    expect.extend_from_slice(&0i32.to_le_bytes());
    expect.extend_from_slice(&0u64.to_le_bytes());
    assert_eq!(encoded, expect);
}

#[test]
fn fsyncdir_test_response_impl_debug() {
    let response = FsyncdirResponse::new();
    assert_eq!(response.debug_pretty(), "FsyncdirResponse");
}

#[test]
fn fsyncdir_missing_node_id_and_truncation() {
    let buf = request_frame(FUSE_FSYNCDIR, 0, &fsync_in(3, 0));
    assert_eq!(FsyncdirRequest::decode(&buf).unwrap_err(), fuse::Error::MissingNodeId);
    let buf = request_frame(FUSE_FSYNCDIR, 2, &fsync_in(3, 0)[..12]);
    assert_eq!(FsyncdirRequest::decode(&buf).unwrap_err(), fuse::Error::UnexpectedEof);
    let buf = request_frame(FUSE_FSYNCDIR, 2, &fsync_in(12345, 0));
    let req = FsyncdirRequest::decode(&buf).unwrap();
    assert_eq!(req.flags().datasync, false);
}
