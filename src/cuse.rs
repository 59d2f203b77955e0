//! The `CUSE_INIT` handshake of a character device served from user space.
use vstd::bytes::*;
use vstd::prelude::*;

use crate::error::Error;
use crate::init::{ProtocolVersion, FUSE_KERNEL_MINOR_VERSION, FUSE_KERNEL_VERSION};
use crate::node::contains_nul;
use crate::request::CUSE_INIT;
use crate::server::{ServerState, Step};
use crate::wire::{
    encode_reply, parse_request_header, payload_fits, push_bytes, push_u32, push_zeros, read_u32,
    reply_bytes, u32_at, zeros, RequestHeader, REQUEST_HEADER_LEN,
};

verus! {

/// Size of `cuse_init_in`.
pub const CUSE_INIT_IN_SIZE: usize = 16;

/// Size of `cuse_init_out`.
pub const CUSE_INIT_OUT_SIZE: usize = 72;

/// The longest device name that a reply can carry.
pub const CUSE_DEVICE_NAME_MAX: usize = 4096;

/// Why a byte string cannot name a device.
#[derive(Copy, Clone, Debug, PartialEq, Eq, Structural)]
pub enum DeviceNameError {
    Empty,
    ContainsNul,
    TooLong,
}

/// Why `b` cannot name a device, if it cannot.
pub open spec fn device_name_error(b: Seq<u8>) -> Option<DeviceNameError> {
    if b.len() == 0 {
        Some(DeviceNameError::Empty)
    } else if exists|i: int| 0 <= i < b.len() && b[i] == 0 {
        Some(DeviceNameError::ContainsNul)
    } else if b.len() > CUSE_DEVICE_NAME_MAX {
        Some(DeviceNameError::TooLong)
    } else {
        None
    }
}

/// The name under which the kernel creates the device node.
#[derive(Debug)]
pub struct CuseDeviceName {
    bytes: Vec<u8>,
}

impl View for CuseDeviceName {
    type V = Seq<u8>;

    closed spec fn view(&self) -> Seq<u8> {
        self.bytes@
    }
}

impl CuseDeviceName {
    #[verifier::type_invariant]
    pub closed spec fn is_valid(self) -> bool {
        device_name_error(self.bytes@) is None
    }

    /// The device name spelled by `b`, or why it cannot be one.
    pub fn new(b: &[u8]) -> (r: Result<CuseDeviceName, DeviceNameError>)
        ensures
            device_name_error(b@) matches Some(e) ==> r == Err::<CuseDeviceName, DeviceNameError>(
                e,
            ),
            device_name_error(b@) is None ==> (r matches Ok(n) && n@ == b@),
    {
        if b.len() == 0 {
            return Err(DeviceNameError::Empty);
        }
        if contains_nul(b) {
            return Err(DeviceNameError::ContainsNul);
        }
        if b.len() > CUSE_DEVICE_NAME_MAX {
            return Err(DeviceNameError::TooLong);
        }
        Ok(CuseDeviceName { bytes: vstd::slice::slice_to_vec(b) })
    }

    /// The device name spelled by `b`, where it can be one.
    pub fn from_bytes(b: &[u8]) -> (r: Option<CuseDeviceName>)
        ensures
            r is Some <==> device_name_error(b@) is None,
            r matches Some(n) ==> n@ == b@,
    {
        match CuseDeviceName::new(b) {
            Ok(n) => Some(n),
            Err(_) => None,
        }
    }

    pub fn as_bytes(&self) -> (r: &[u8])
        ensures
            r@ == self@,
            device_name_error(r@) is None,
    {
        proof {
            use_type_invariant(self);
        }
        self.bytes.as_slice()
    }
}

/// The first message of a CUSE session: `cuse_init_in`.
#[derive(Copy, Clone, Debug, PartialEq, Eq, Structural)]
pub struct CuseInitRequest {
    pub version: ProtocolVersion,
    pub flags: u32,
}

/// What a CUSE init frame decodes to.
pub open spec fn parse_cuse_init_request(s: Seq<u8>) -> Result<CuseInitRequest, Error> {
    let b = REQUEST_HEADER_LEN as int;
    if s.len() < b + CUSE_INIT_IN_SIZE {
        Err(Error::UnexpectedEof)
    } else {
        Ok(
            CuseInitRequest {
                version: ProtocolVersion { major: u32_at(s, b), minor: u32_at(s, b + 4) },
                flags: u32_at(s, b + 12),
            },
        )
    }
}

impl CuseInitRequest {
    pub fn decode(buf: &[u8]) -> (r: Result<CuseInitRequest, Error>)
        ensures
            r == parse_cuse_init_request(buf@),
    {
        let b = REQUEST_HEADER_LEN;
        if buf.len() < b + CUSE_INIT_IN_SIZE {
            return Err(Error::UnexpectedEof);
        }
        Ok(
            CuseInitRequest {
                version: ProtocolVersion { major: read_u32(buf, b), minor: read_u32(buf, b + 4) },
                flags: read_u32(buf, b + 12),
            },
        )
    }
}

/// The reply to the CUSE init request: `cuse_init_out`, then the device's
/// properties.
#[derive(Copy, Clone, Debug, PartialEq, Eq, Structural)]
pub struct CuseInitResponse {
    pub version: ProtocolVersion,
    pub flags: u32,
    pub max_read: u32,
    pub max_write: u32,
    pub dev_major: u32,
    pub dev_minor: u32,
}

/// The reply that the version policy gives to `req`, as for FUSE: another
/// major version is answered with this library's version and nothing else;
/// otherwise the minor version is the lower of the two.
pub open spec fn spec_cuse_init_response_for(req: CuseInitRequest) -> CuseInitResponse {
    let minor = if req.version.major != FUSE_KERNEL_VERSION || req.version.minor
        >= FUSE_KERNEL_MINOR_VERSION {
        FUSE_KERNEL_MINOR_VERSION
    } else {
        req.version.minor
    };
    CuseInitResponse {
        version: ProtocolVersion { major: FUSE_KERNEL_VERSION, minor },
        flags: 0,
        max_read: 0,
        max_write: 0,
        dev_major: 0,
        dev_minor: 0,
    }
}

/// The wire bytes of the reply's payload for device `name`.
pub open spec fn cuse_init_out_bytes(r: CuseInitResponse, name: Seq<u8>) -> Seq<u8> {
    spec_u32_to_le_bytes(r.version.major) + spec_u32_to_le_bytes(r.version.minor) + zeros(4)
        + spec_u32_to_le_bytes(r.flags) + spec_u32_to_le_bytes(r.max_read) + spec_u32_to_le_bytes(
        r.max_write,
    ) + spec_u32_to_le_bytes(r.dev_major) + spec_u32_to_le_bytes(r.dev_minor) + zeros(40)
        + "DEVNAME="@.map_values(|c: char| c as u8) + name + seq![0u8]
}

impl CuseInitResponse {
    /// The reply that the version policy gives to `req`.
    pub fn for_request(req: &CuseInitRequest) -> (r: CuseInitResponse)
        ensures
            r == spec_cuse_init_response_for(*req),
    {
        let minor = if req.version.major != FUSE_KERNEL_VERSION || req.version.minor
            >= FUSE_KERNEL_MINOR_VERSION {
            FUSE_KERNEL_MINOR_VERSION
        } else {
            req.version.minor
        };
        CuseInitResponse {
            version: ProtocolVersion { major: FUSE_KERNEL_VERSION, minor },
            flags: 0,
            max_read: 0,
            max_write: 0,
            dev_major: 0,
            dev_minor: 0,
        }
    }

    /// The reply's payload, naming the device `name`.
    pub fn encode(&self, name: &CuseDeviceName) -> (r: Vec<u8>)
        ensures
            r@ == cuse_init_out_bytes(*self, name@),
            payload_fits(r@.len()),
    {
        let mut out: Vec<u8> = Vec::new();
        push_u32(&mut out, self.version.major);
        push_u32(&mut out, self.version.minor);
        push_zeros(&mut out, 4);
        push_u32(&mut out, self.flags);
        push_u32(&mut out, self.max_read);
        push_u32(&mut out, self.max_write);
        push_u32(&mut out, self.dev_major);
        push_u32(&mut out, self.dev_minor);
        push_zeros(&mut out, 40);
        let key: Vec<u8> = vec![68u8, 69u8, 86u8, 78u8, 65u8, 77u8, 69u8, 61u8];
        proof {
            reveal_strlit("DEVNAME=");
            assert(key@ =~= "DEVNAME="@.map_values(|c: char| c as u8));
        }
        push_bytes(&mut out, key.as_slice());
        push_bytes(&mut out, name.as_bytes());
        out.push(0u8);
        proof {
            lemma_auto_spec_u32_to_from_le_bytes();
            assert(out@ =~= cuse_init_out_bytes(*self, name@));
        }
        out
    }
}

/// What answering frame `s` of a CUSE channel while waiting for the init
/// request does: only `CUSE_INIT` is accepted; it is answered by the version
/// policy and names the device `name`.
pub open spec fn awaiting_cuse_init_step(
    s: Seq<u8>,
    name: Seq<u8>,
    r: (ServerState, Step),
) -> bool {
    let op = u32_at(s, 4);
    let h = parse_request_header(s);
    if s.len() < REQUEST_HEADER_LEN {
        r.0 == ServerState::AwaitingInit && r.1 matches Step::Fail(Error::UnexpectedEof)
    } else if op != CUSE_INIT {
        r.0 == ServerState::AwaitingInit && (r.1 matches Step::Fail(e) && e
            == Error::ExpectedCuseInit(op))
    } else {
        match parse_cuse_init_request(s) {
            Err(e) => r.0 == ServerState::AwaitingInit && (r.1 matches Step::Fail(x) && x == e),
            Ok(req) => {
                let resp = spec_cuse_init_response_for(req);
                &&& r.0 == if req.version.major == FUSE_KERNEL_VERSION {
                    ServerState::Running(resp.version)
                } else {
                    ServerState::AwaitingInit
                }
                &&& r.1 matches Step::Reply(b) && b@ == reply_bytes(
                    h.unique,
                    cuse_init_out_bytes(resp, name),
                )
            },
        }
    }
}

/// Answers the first frame of a CUSE session for the device `name`.
pub fn step_awaiting_cuse_init(frame: &[u8], name: &CuseDeviceName) -> (r: (ServerState, Step))
    ensures
        awaiting_cuse_init_step(frame@, name@, r),
{
    let header = match RequestHeader::decode(frame) {
        Err(e) => return (ServerState::AwaitingInit, Step::Fail(e)),
        Ok(h) => h,
    };
    if header.opcode != CUSE_INIT {
        return (ServerState::AwaitingInit, Step::Fail(Error::ExpectedCuseInit(header.opcode)));
    }
    let req = match CuseInitRequest::decode(frame) {
        Err(e) => return (ServerState::AwaitingInit, Step::Fail(e)),
        Ok(q) => q,
    };
    let resp = CuseInitResponse::for_request(&req);
    let payload = resp.encode(name);
    let reply = encode_reply(header.unique, payload.as_slice());
    let next = if req.version.major == FUSE_KERNEL_VERSION {
        ServerState::Running(resp.version)
    } else {
        ServerState::AwaitingInit
    };
    (next, Step::Reply(reply))
}

} // verus!
