//! The `FUSE_INIT` handshake: version negotiation and its versioned framing.
use vstd::bytes::*;
use vstd::prelude::*;

use vstd::string::StringExecFns;

use crate::error::Error;
use crate::fmt::{decimal, hex, push_decimal, push_hex};
use crate::wire::{
    lemma_le_round_trip, push_u16, push_u32, push_zeros, read_u16, read_u32, u16_at, u32_at, zeros,
    REQUEST_HEADER_LEN,
};

verus! {

/// The protocol major version that this library speaks.
pub const FUSE_KERNEL_VERSION: u32 = 7;

/// The newest protocol minor version that this library speaks.
pub const FUSE_KERNEL_MINOR_VERSION: u32 = 31;

/// Size of `fuse_init_out` up to minor version 4.
pub const FUSE_COMPAT_INIT_OUT_SIZE: usize = 8;

/// Size of `fuse_init_out` from minor version 5 to 22.
pub const FUSE_COMPAT_22_INIT_OUT_SIZE: usize = 24;

/// Size of the current `fuse_init_out`.
pub const FUSE_INIT_OUT_SIZE: usize = 64;

/// Size of `fuse_init_in` up to minor version 5: major and minor alone.
pub const FUSE_INIT_IN_V7P1_SIZE: usize = 8;

/// Size of the current `fuse_init_in`.
pub const FUSE_INIT_IN_SIZE: usize = 16;

/// A protocol version: a major and a minor number.
#[derive(Copy, Clone, Debug, Hash, PartialEq, Eq, Structural)]
pub struct ProtocolVersion {
    pub major: u32,
    pub minor: u32,
}

impl ProtocolVersion {
    pub fn new(major: u32, minor: u32) -> (r: ProtocolVersion)
        ensures
            r.major == major,
            r.minor == minor,
    {
        ProtocolVersion { major, minor }
    }

    /// The newest version that this library speaks.
    pub fn latest() -> (r: ProtocolVersion)
        ensures
            r.major == FUSE_KERNEL_VERSION,
            r.minor == FUSE_KERNEL_MINOR_VERSION,
    {
        ProtocolVersion { major: FUSE_KERNEL_VERSION, minor: FUSE_KERNEL_MINOR_VERSION }
    }

    pub fn major(&self) -> (r: u32)
        ensures
            r == self.major,
    {
        self.major
    }

    pub fn minor(&self) -> (r: u32)
        ensures
            r == self.minor,
    {
        self.minor
    }
}

/// The feature flags exchanged during the handshake, as a bit set.
#[derive(Copy, Clone, Debug, Hash, PartialEq, Eq, Structural)]
pub struct FuseInitFlags(pub u32);

/// The feature flags with a name.
#[derive(Copy, Clone, Debug, Hash, PartialEq, Eq, Structural)]
pub enum FuseInitFlag {
    AsyncRead,
    PosixLocks,
    FileOps,
    AtomicOTrunc,
    ExportSupport,
    BigWrites,
    DontMask,
    SpliceWrite,
    SpliceMove,
    SpliceRead,
    FlockLocks,
    HasIoctlDir,
    AutoInvalData,
    DoReaddirplus,
    ReaddirplusAuto,
    AsyncDio,
    WritebackCache,
    NoOpenSupport,
    ParallelDirops,
    HandleKillpriv,
    PosixAcl,
    AbortError,
    MaxPages,
    CacheSymlinks,
    NoOpendirSupport,
    ExplicitInvalData,
}

/// The bit position of each named flag.
pub open spec fn flag_bit_index(f: FuseInitFlag) -> u32 {
    match f {
        FuseInitFlag::AsyncRead => 0,
        FuseInitFlag::PosixLocks => 1,
        FuseInitFlag::FileOps => 2,
        FuseInitFlag::AtomicOTrunc => 3,
        FuseInitFlag::ExportSupport => 4,
        FuseInitFlag::BigWrites => 5,
        FuseInitFlag::DontMask => 6,
        FuseInitFlag::SpliceWrite => 7,
        FuseInitFlag::SpliceMove => 8,
        FuseInitFlag::SpliceRead => 9,
        FuseInitFlag::FlockLocks => 10,
        FuseInitFlag::HasIoctlDir => 11,
        FuseInitFlag::AutoInvalData => 12,
        FuseInitFlag::DoReaddirplus => 13,
        FuseInitFlag::ReaddirplusAuto => 14,
        FuseInitFlag::AsyncDio => 15,
        FuseInitFlag::WritebackCache => 16,
        FuseInitFlag::NoOpenSupport => 17,
        FuseInitFlag::ParallelDirops => 18,
        FuseInitFlag::HandleKillpriv => 19,
        FuseInitFlag::PosixAcl => 20,
        FuseInitFlag::AbortError => 21,
        FuseInitFlag::MaxPages => 22,
        FuseInitFlag::CacheSymlinks => 23,
        FuseInitFlag::NoOpendirSupport => 24,
        FuseInitFlag::ExplicitInvalData => 25,
    }
}

/// The kernel header's name of each flag.
pub open spec fn spec_flag_name(f: FuseInitFlag) -> Seq<char> {
    match f {
        FuseInitFlag::AsyncRead => "ASYNC_READ"@,
        FuseInitFlag::PosixLocks => "POSIX_LOCKS"@,
        FuseInitFlag::FileOps => "FILE_OPS"@,
        FuseInitFlag::AtomicOTrunc => "ATOMIC_O_TRUNC"@,
        FuseInitFlag::ExportSupport => "EXPORT_SUPPORT"@,
        FuseInitFlag::BigWrites => "BIG_WRITES"@,
        FuseInitFlag::DontMask => "DONT_MASK"@,
        FuseInitFlag::SpliceWrite => "SPLICE_WRITE"@,
        FuseInitFlag::SpliceMove => "SPLICE_MOVE"@,
        FuseInitFlag::SpliceRead => "SPLICE_READ"@,
        FuseInitFlag::FlockLocks => "FLOCK_LOCKS"@,
        FuseInitFlag::HasIoctlDir => "HAS_IOCTL_DIR"@,
        FuseInitFlag::AutoInvalData => "AUTO_INVAL_DATA"@,
        FuseInitFlag::DoReaddirplus => "DO_READDIRPLUS"@,
        FuseInitFlag::ReaddirplusAuto => "READDIRPLUS_AUTO"@,
        FuseInitFlag::AsyncDio => "ASYNC_DIO"@,
        FuseInitFlag::WritebackCache => "WRITEBACK_CACHE"@,
        FuseInitFlag::NoOpenSupport => "NO_OPEN_SUPPORT"@,
        FuseInitFlag::ParallelDirops => "PARALLEL_DIROPS"@,
        FuseInitFlag::HandleKillpriv => "HANDLE_KILLPRIV"@,
        FuseInitFlag::PosixAcl => "POSIX_ACL"@,
        FuseInitFlag::AbortError => "ABORT_ERROR"@,
        FuseInitFlag::MaxPages => "MAX_PAGES"@,
        FuseInitFlag::CacheSymlinks => "CACHE_SYMLINKS"@,
        FuseInitFlag::NoOpendirSupport => "NO_OPENDIR_SUPPORT"@,
        FuseInitFlag::ExplicitInvalData => "EXPLICIT_INVAL_DATA"@,
    }
}

/// The named flag at bit position `k`, if there is one.
pub open spec fn spec_flag_at(k: u32) -> Option<FuseInitFlag> {
    if k == 0 {
        Some(FuseInitFlag::AsyncRead)
    } else if k == 1 {
        Some(FuseInitFlag::PosixLocks)
    } else if k == 2 {
        Some(FuseInitFlag::FileOps)
    } else if k == 3 {
        Some(FuseInitFlag::AtomicOTrunc)
    } else if k == 4 {
        Some(FuseInitFlag::ExportSupport)
    } else if k == 5 {
        Some(FuseInitFlag::BigWrites)
    } else if k == 6 {
        Some(FuseInitFlag::DontMask)
    } else if k == 7 {
        Some(FuseInitFlag::SpliceWrite)
    } else if k == 8 {
        Some(FuseInitFlag::SpliceMove)
    } else if k == 9 {
        Some(FuseInitFlag::SpliceRead)
    } else if k == 10 {
        Some(FuseInitFlag::FlockLocks)
    } else if k == 11 {
        Some(FuseInitFlag::HasIoctlDir)
    } else if k == 12 {
        Some(FuseInitFlag::AutoInvalData)
    } else if k == 13 {
        Some(FuseInitFlag::DoReaddirplus)
    } else if k == 14 {
        Some(FuseInitFlag::ReaddirplusAuto)
    } else if k == 15 {
        Some(FuseInitFlag::AsyncDio)
    } else if k == 16 {
        Some(FuseInitFlag::WritebackCache)
    } else if k == 17 {
        Some(FuseInitFlag::NoOpenSupport)
    } else if k == 18 {
        Some(FuseInitFlag::ParallelDirops)
    } else if k == 19 {
        Some(FuseInitFlag::HandleKillpriv)
    } else if k == 20 {
        Some(FuseInitFlag::PosixAcl)
    } else if k == 21 {
        Some(FuseInitFlag::AbortError)
    } else if k == 22 {
        Some(FuseInitFlag::MaxPages)
    } else if k == 23 {
        Some(FuseInitFlag::CacheSymlinks)
    } else if k == 24 {
        Some(FuseInitFlag::NoOpendirSupport)
    } else if k == 25 {
        Some(FuseInitFlag::ExplicitInvalData)
    } else {
        None
    }
}

impl FuseInitFlag {
    /// The kernel header's name of the flag.
    pub fn name(&self) -> (r: &'static str)
        ensures
            r@ == spec_flag_name(*self),
    {
        match self {
            FuseInitFlag::AsyncRead => "ASYNC_READ",
            FuseInitFlag::PosixLocks => "POSIX_LOCKS",
            FuseInitFlag::FileOps => "FILE_OPS",
            FuseInitFlag::AtomicOTrunc => "ATOMIC_O_TRUNC",
            FuseInitFlag::ExportSupport => "EXPORT_SUPPORT",
            FuseInitFlag::BigWrites => "BIG_WRITES",
            FuseInitFlag::DontMask => "DONT_MASK",
            FuseInitFlag::SpliceWrite => "SPLICE_WRITE",
            FuseInitFlag::SpliceMove => "SPLICE_MOVE",
            FuseInitFlag::SpliceRead => "SPLICE_READ",
            FuseInitFlag::FlockLocks => "FLOCK_LOCKS",
            FuseInitFlag::HasIoctlDir => "HAS_IOCTL_DIR",
            FuseInitFlag::AutoInvalData => "AUTO_INVAL_DATA",
            FuseInitFlag::DoReaddirplus => "DO_READDIRPLUS",
            FuseInitFlag::ReaddirplusAuto => "READDIRPLUS_AUTO",
            FuseInitFlag::AsyncDio => "ASYNC_DIO",
            FuseInitFlag::WritebackCache => "WRITEBACK_CACHE",
            FuseInitFlag::NoOpenSupport => "NO_OPEN_SUPPORT",
            FuseInitFlag::ParallelDirops => "PARALLEL_DIROPS",
            FuseInitFlag::HandleKillpriv => "HANDLE_KILLPRIV",
            FuseInitFlag::PosixAcl => "POSIX_ACL",
            FuseInitFlag::AbortError => "ABORT_ERROR",
            FuseInitFlag::MaxPages => "MAX_PAGES",
            FuseInitFlag::CacheSymlinks => "CACHE_SYMLINKS",
            FuseInitFlag::NoOpendirSupport => "NO_OPENDIR_SUPPORT",
            FuseInitFlag::ExplicitInvalData => "EXPLICIT_INVAL_DATA",
        }
    }

    /// The named flag at bit position `k`, if there is one.
    pub fn at_bit(k: u32) -> (r: Option<FuseInitFlag>)
        ensures
            r == spec_flag_at(k),
    {
        if k == 0 {
            Some(FuseInitFlag::AsyncRead)
        } else if k == 1 {
            Some(FuseInitFlag::PosixLocks)
        } else if k == 2 {
            Some(FuseInitFlag::FileOps)
        } else if k == 3 {
            Some(FuseInitFlag::AtomicOTrunc)
        } else if k == 4 {
            Some(FuseInitFlag::ExportSupport)
        } else if k == 5 {
            Some(FuseInitFlag::BigWrites)
        } else if k == 6 {
            Some(FuseInitFlag::DontMask)
        } else if k == 7 {
            Some(FuseInitFlag::SpliceWrite)
        } else if k == 8 {
            Some(FuseInitFlag::SpliceMove)
        } else if k == 9 {
            Some(FuseInitFlag::SpliceRead)
        } else if k == 10 {
            Some(FuseInitFlag::FlockLocks)
        } else if k == 11 {
            Some(FuseInitFlag::HasIoctlDir)
        } else if k == 12 {
            Some(FuseInitFlag::AutoInvalData)
        } else if k == 13 {
            Some(FuseInitFlag::DoReaddirplus)
        } else if k == 14 {
            Some(FuseInitFlag::ReaddirplusAuto)
        } else if k == 15 {
            Some(FuseInitFlag::AsyncDio)
        } else if k == 16 {
            Some(FuseInitFlag::WritebackCache)
        } else if k == 17 {
            Some(FuseInitFlag::NoOpenSupport)
        } else if k == 18 {
            Some(FuseInitFlag::ParallelDirops)
        } else if k == 19 {
            Some(FuseInitFlag::HandleKillpriv)
        } else if k == 20 {
            Some(FuseInitFlag::PosixAcl)
        } else if k == 21 {
            Some(FuseInitFlag::AbortError)
        } else if k == 22 {
            Some(FuseInitFlag::MaxPages)
        } else if k == 23 {
            Some(FuseInitFlag::CacheSymlinks)
        } else if k == 24 {
            Some(FuseInitFlag::NoOpendirSupport)
        } else if k == 25 {
            Some(FuseInitFlag::ExplicitInvalData)
        } else {
            None
        }
    }

    /// The flag's bit position in the set.
    pub fn bit_index(&self) -> (r: u32)
        ensures
            r == flag_bit_index(*self),
            r < 32,
    {
        match self {
            FuseInitFlag::AsyncRead => 0,
            FuseInitFlag::PosixLocks => 1,
            FuseInitFlag::FileOps => 2,
            FuseInitFlag::AtomicOTrunc => 3,
            FuseInitFlag::ExportSupport => 4,
            FuseInitFlag::BigWrites => 5,
            FuseInitFlag::DontMask => 6,
            FuseInitFlag::SpliceWrite => 7,
            FuseInitFlag::SpliceMove => 8,
            FuseInitFlag::SpliceRead => 9,
            FuseInitFlag::FlockLocks => 10,
            FuseInitFlag::HasIoctlDir => 11,
            FuseInitFlag::AutoInvalData => 12,
            FuseInitFlag::DoReaddirplus => 13,
            FuseInitFlag::ReaddirplusAuto => 14,
            FuseInitFlag::AsyncDio => 15,
            FuseInitFlag::WritebackCache => 16,
            FuseInitFlag::NoOpenSupport => 17,
            FuseInitFlag::ParallelDirops => 18,
            FuseInitFlag::HandleKillpriv => 19,
            FuseInitFlag::PosixAcl => 20,
            FuseInitFlag::AbortError => 21,
            FuseInitFlag::MaxPages => 22,
            FuseInitFlag::CacheSymlinks => 23,
            FuseInitFlag::NoOpendirSupport => 24,
            FuseInitFlag::ExplicitInvalData => 25,
        }
    }

    /// The flag's single-bit mask.
    pub fn mask(&self) -> (r: u32)
        ensures
            r == 1u32 << flag_bit_index(*self),
    {
        1u32 << self.bit_index()
    }
}

impl FuseInitFlags {
    /// The empty set.
    pub fn new() -> (r: FuseInitFlags)
        ensures
            r.0 == 0,
    {
        FuseInitFlags(0)
    }

    /// Whether `flag` is in the set.
    pub fn get(&self, flag: FuseInitFlag) -> (r: bool)
        ensures
            r == (self.0 & (1u32 << flag_bit_index(flag)) != 0),
    {
        self.0 & flag.mask() != 0
    }

    /// Adds `flag` to the set, or takes it out; other bits stay as they are.
    pub fn set(&mut self, flag: FuseInitFlag, on: bool)
        ensures
            on ==> final(self).0 == old(self).0 | (1u32 << flag_bit_index(flag)),
            !on ==> final(self).0 == old(self).0 & !(1u32 << flag_bit_index(flag)),
    {
        if on {
            self.0 = self.0 | flag.mask();
        } else {
            self.0 = self.0 & !flag.mask();
        }
    }
}

/// The first message of a FUSE session, sent by the kernel.
#[derive(Copy, Clone, Debug, PartialEq, Eq, Structural)]
pub struct FuseInitRequest {
    pub version: ProtocolVersion,
    pub max_readahead: u32,
    pub flags: FuseInitFlags,
}

/// Whether an init request of `v` carries the fields that minor version 6 added.
pub open spec fn init_in_has_v7p6_fields(v: ProtocolVersion) -> bool {
    v.major == FUSE_KERNEL_VERSION && v.minor >= 6
}

/// What an init request frame decodes to. Major and minor come first; the
/// readahead limit and the flags follow only from minor version 6 of this
/// library's major version, and read as zero before it.
pub open spec fn parse_init_request(s: Seq<u8>) -> Result<FuseInitRequest, Error> {
    let b = REQUEST_HEADER_LEN as int;
    let v = ProtocolVersion { major: u32_at(s, b), minor: u32_at(s, b + 4) };
    if s.len() < b + FUSE_INIT_IN_V7P1_SIZE {
        Err(Error::UnexpectedEof)
    } else if !init_in_has_v7p6_fields(v) {
        Ok(FuseInitRequest { version: v, max_readahead: 0, flags: FuseInitFlags(0) })
    } else if s.len() < b + FUSE_INIT_IN_SIZE {
        Err(Error::UnexpectedEof)
    } else {
        Ok(
            FuseInitRequest {
                version: v,
                max_readahead: u32_at(s, b + 8),
                flags: FuseInitFlags(u32_at(s, b + 12)),
            },
        )
    }
}

impl FuseInitRequest {
    /// Decodes an init request frame.
    pub fn decode(buf: &[u8]) -> (r: Result<FuseInitRequest, Error>)
        ensures
            r == parse_init_request(buf@),
    {
        let b = REQUEST_HEADER_LEN;
        if buf.len() < b + FUSE_INIT_IN_V7P1_SIZE {
            return Err(Error::UnexpectedEof);
        }
        let version = ProtocolVersion { major: read_u32(buf, b), minor: read_u32(buf, b + 4) };
        if version.major != FUSE_KERNEL_VERSION || version.minor < 6 {
            return Ok(FuseInitRequest { version, max_readahead: 0, flags: FuseInitFlags(0) });
        }
        if buf.len() < b + FUSE_INIT_IN_SIZE {
            return Err(Error::UnexpectedEof);
        }
        Ok(
            FuseInitRequest {
                version,
                max_readahead: read_u32(buf, b + 8),
                flags: FuseInitFlags(read_u32(buf, b + 12)),
            },
        )
    }

    pub fn version(&self) -> (r: ProtocolVersion)
        ensures
            r == self.version,
    {
        self.version
    }

    pub fn max_readahead(&self) -> (r: u32)
        ensures
            r == self.max_readahead,
    {
        self.max_readahead
    }

    pub fn flags(&self) -> (r: FuseInitFlags)
        ensures
            r == self.flags,
    {
        self.flags
    }
}

/// The reply to the init request: the negotiated version and session limits.
#[derive(Copy, Clone, Debug, PartialEq, Eq, Structural)]
pub struct FuseInitResponse {
    pub version: ProtocolVersion,
    pub max_readahead: u32,
    pub flags: FuseInitFlags,
    pub max_background: u16,
    pub congestion_threshold: u16,
    pub max_write: u32,
    pub time_granularity: u32,
}

/// A reply of version `v` with every other field zero.
pub open spec fn zeroed_init_response(v: ProtocolVersion) -> FuseInitResponse {
    FuseInitResponse {
        version: v,
        max_readahead: 0,
        flags: FuseInitFlags(0),
        max_background: 0,
        congestion_threshold: 0,
        max_write: 0,
        time_granularity: 0,
    }
}

/// The reply that the version policy gives to `req`: a request of another
/// major version is answered with this library's version and nothing else, so
/// that the kernel can retry; otherwise the minor version is the lower of the
/// two and the readahead limit and flags are the request's.
pub open spec fn spec_init_response_for(req: FuseInitRequest) -> FuseInitResponse {
    if req.version.major != FUSE_KERNEL_VERSION {
        zeroed_init_response(
            ProtocolVersion { major: FUSE_KERNEL_VERSION, minor: FUSE_KERNEL_MINOR_VERSION },
        )
    } else {
        let minor = if req.version.minor < FUSE_KERNEL_MINOR_VERSION {
            req.version.minor
        } else {
            FUSE_KERNEL_MINOR_VERSION
        };
        FuseInitResponse {
            max_readahead: req.max_readahead,
            flags: req.flags,
            ..zeroed_init_response(ProtocolVersion { major: FUSE_KERNEL_VERSION, minor })
        }
    }
}

/// The size of `fuse_init_out` in minor version `minor`.
pub open spec fn init_out_size(minor: u32) -> nat {
    if minor < 5 {
        FUSE_COMPAT_INIT_OUT_SIZE as nat
    } else if minor < 23 {
        FUSE_COMPAT_22_INIT_OUT_SIZE as nat
    } else {
        FUSE_INIT_OUT_SIZE as nat
    }
}

/// The wire bytes of an init reply: the fields that its minor version knows.
pub open spec fn init_out_bytes(r: FuseInitResponse) -> Seq<u8> {
    let head = spec_u32_to_le_bytes(r.version.major) + spec_u32_to_le_bytes(r.version.minor);
    let v7p5 = head + spec_u32_to_le_bytes(r.max_readahead) + spec_u32_to_le_bytes(r.flags.0)
        + spec_u16_to_le_bytes(r.max_background) + spec_u16_to_le_bytes(r.congestion_threshold)
        + spec_u32_to_le_bytes(r.max_write);
    if r.version.minor < 5 {
        head
    } else if r.version.minor < 23 {
        v7p5
    } else {
        v7p5 + spec_u32_to_le_bytes(r.time_granularity) + zeros(36)
    }
}

impl FuseInitResponse {
    /// A reply of version `version` with every other field zero.
    pub fn new(version: ProtocolVersion) -> (r: FuseInitResponse)
        ensures
            r == zeroed_init_response(version),
    {
        FuseInitResponse {
            version,
            max_readahead: 0,
            flags: FuseInitFlags(0),
            max_background: 0,
            congestion_threshold: 0,
            max_write: 0,
            time_granularity: 0,
        }
    }

    /// The reply that the version policy gives to `req`.
    pub fn for_request(req: &FuseInitRequest) -> (r: FuseInitResponse)
        ensures
            r == spec_init_response_for(*req),
    {
        if req.version.major != FUSE_KERNEL_VERSION {
            return FuseInitResponse::new(ProtocolVersion::latest());
        }
        let minor = if req.version.minor < FUSE_KERNEL_MINOR_VERSION {
            req.version.minor
        } else {
            FUSE_KERNEL_MINOR_VERSION
        };
        let mut r = FuseInitResponse::new(ProtocolVersion::new(FUSE_KERNEL_VERSION, minor));
        r.max_readahead = req.max_readahead;
        r.flags = req.flags;
        r
    }

    pub fn version(&self) -> (r: ProtocolVersion)
        ensures
            r == self.version,
    {
        self.version
    }

    pub fn set_max_readahead(&mut self, max_readahead: u32)
        ensures
            *final(self) == (FuseInitResponse { max_readahead, ..*old(self) }),
    {
        self.max_readahead = max_readahead;
    }

    pub fn set_flags(&mut self, flags: FuseInitFlags)
        ensures
            *final(self) == (FuseInitResponse { flags, ..*old(self) }),
    {
        self.flags = flags;
    }

    pub fn set_max_background(&mut self, max_background: u16)
        ensures
            *final(self) == (FuseInitResponse { max_background, ..*old(self) }),
    {
        self.max_background = max_background;
    }

    pub fn set_congestion_threshold(&mut self, congestion_threshold: u16)
        ensures
            *final(self) == (FuseInitResponse { congestion_threshold, ..*old(self) }),
    {
        self.congestion_threshold = congestion_threshold;
    }

    pub fn set_max_write(&mut self, max_write: u32)
        ensures
            *final(self) == (FuseInitResponse { max_write, ..*old(self) }),
    {
        self.max_write = max_write;
    }

    pub fn set_time_granularity(&mut self, time_granularity: u32)
        ensures
            *final(self) == (FuseInitResponse { time_granularity, ..*old(self) }),
    {
        self.time_granularity = time_granularity;
    }

    /// The reply's payload: the fields that its minor version knows, in the
    /// layout of that version.
    pub fn encode(&self) -> (r: Vec<u8>)
        ensures
            r@ == init_out_bytes(*self),
            r@.len() == init_out_size(self.version.minor),
    {
        proof {
            lemma_le_round_trip();
        }
        let mut out: Vec<u8> = Vec::new();
        push_u32(&mut out, self.version.major);
        push_u32(&mut out, self.version.minor);
        if self.version.minor < 5 {
            return out;
        }
        push_u32(&mut out, self.max_readahead);
        push_u32(&mut out, self.flags.0);
        push_u16(&mut out, self.max_background);
        push_u16(&mut out, self.congestion_threshold);
        push_u32(&mut out, self.max_write);
        if self.version.minor < 23 {
            return out;
        }
        push_u32(&mut out, self.time_granularity);
        push_zeros(&mut out, 36);
        out
    }
}

/// The fields of `r` that its minor version knows; the others are zero.
pub open spec fn init_response_as_sent(r: FuseInitResponse) -> FuseInitResponse {
    if r.version.minor < 5 {
        zeroed_init_response(r.version)
    } else if r.version.minor < 23 {
        FuseInitResponse { time_granularity: 0, ..r }
    } else {
        r
    }
}

/// What the payload of an init reply decodes to, laid out by its own minor
/// version.
pub open spec fn parse_init_out(s: Seq<u8>) -> Result<FuseInitResponse, Error> {
    let v = ProtocolVersion { major: u32_at(s, 0), minor: u32_at(s, 4) };
    if s.len() < FUSE_COMPAT_INIT_OUT_SIZE {
        Err(Error::UnexpectedEof)
    } else if v.minor < 5 {
        Ok(zeroed_init_response(v))
    } else if s.len() < FUSE_COMPAT_22_INIT_OUT_SIZE || (v.minor >= 23 && s.len()
        < FUSE_INIT_OUT_SIZE) {
        Err(Error::UnexpectedEof)
    } else {
        Ok(
            FuseInitResponse {
                version: v,
                max_readahead: u32_at(s, 8),
                flags: FuseInitFlags(u32_at(s, 12)),
                max_background: u16_at(s, 16),
                congestion_threshold: u16_at(s, 18),
                max_write: u32_at(s, 20),
                time_granularity: if v.minor >= 23 {
                    u32_at(s, 24)
                } else {
                    0
                },
            },
        )
    }
}

impl FuseInitResponse {
    /// Reads the payload of an init reply.
    pub fn decode(payload: &[u8]) -> (r: Result<FuseInitResponse, Error>)
        ensures
            r == parse_init_out(payload@),
    {
        if payload.len() < FUSE_COMPAT_INIT_OUT_SIZE {
            return Err(Error::UnexpectedEof);
        }
        let version = ProtocolVersion { major: read_u32(payload, 0), minor: read_u32(payload, 4) };
        if version.minor < 5 {
            return Ok(FuseInitResponse::new(version));
        }
        if payload.len() < FUSE_COMPAT_22_INIT_OUT_SIZE || (version.minor >= 23 && payload.len()
            < FUSE_INIT_OUT_SIZE) {
            return Err(Error::UnexpectedEof);
        }
        let time_granularity = if version.minor >= 23 {
            read_u32(payload, 24)
        } else {
            0
        };
        Ok(
            FuseInitResponse {
                version,
                max_readahead: read_u32(payload, 8),
                flags: FuseInitFlags(read_u32(payload, 12)),
                max_background: read_u16(payload, 16),
                congestion_threshold: read_u16(payload, 18),
                max_write: read_u32(payload, 20),
                time_granularity,
            },
        )
    }
}

/// Decoding an encoded init reply gives back the fields that its minor
/// version carries, and zero for the fields that it does not.
pub proof fn lemma_init_response_round_trip(r: FuseInitResponse)
    ensures
        parse_init_out(init_out_bytes(r)) == Ok::<FuseInitResponse, Error>(
            init_response_as_sent(r),
        ),
{
    lemma_le_round_trip();
    let b = init_out_bytes(r);
    assert(b.subrange(0, 4) =~= spec_u32_to_le_bytes(r.version.major));
    assert(b.subrange(4, 8) =~= spec_u32_to_le_bytes(r.version.minor));
    if r.version.minor >= 5 {
        assert(b.subrange(8, 12) =~= spec_u32_to_le_bytes(r.max_readahead));
        assert(b.subrange(12, 16) =~= spec_u32_to_le_bytes(r.flags.0));
        assert(b.subrange(16, 18) =~= spec_u16_to_le_bytes(r.max_background));
        assert(b.subrange(18, 20) =~= spec_u16_to_le_bytes(r.congestion_threshold));
        assert(b.subrange(20, 24) =~= spec_u32_to_le_bytes(r.max_write));
        if r.version.minor >= 23 {
            assert(b.subrange(24, 28) =~= spec_u32_to_le_bytes(r.time_granularity));
        }
    }
}

/// The version policy: the reply always carries this library's major version,
/// and its minor version is the lower of the request's and this library's
/// when the major versions agree, and this library's otherwise.
pub proof fn lemma_version_downgrade(req: FuseInitRequest)
    ensures
        spec_init_response_for(req).version.major == FUSE_KERNEL_VERSION,
        req.version.major == FUSE_KERNEL_VERSION ==> spec_init_response_for(req).version.minor
            == if req.version.minor < FUSE_KERNEL_MINOR_VERSION {
            req.version.minor
        } else {
            FUSE_KERNEL_MINOR_VERSION
        },
        req.version.major != FUSE_KERNEL_VERSION ==> spec_init_response_for(req).version.minor
            == FUSE_KERNEL_MINOR_VERSION,
        req.version.major != FUSE_KERNEL_VERSION ==> spec_init_response_for(req)
            == zeroed_init_response(ProtocolVersion::latest_spec()),
{
}

impl ProtocolVersion {
    /// The newest version that this library speaks.
    pub open spec fn latest_spec() -> ProtocolVersion {
        ProtocolVersion { major: FUSE_KERNEL_VERSION, minor: FUSE_KERNEL_MINOR_VERSION }
    }
}

/// The text of the set bit at position `k`: the flag's name, or the bit's
/// value in hexadecimal where no flag has that position.
pub open spec fn flag_item_text(k: u32) -> Seq<char> {
    match spec_flag_at(k) {
        Some(f) => spec_flag_name(f),
        None => hex((1u32 << k) as nat),
    }
}

/// The texts of the set bits of `bits` below position `i`, lowest first.
pub open spec fn flag_items(bits: u32, i: nat) -> Seq<Seq<char>>
    decreases i,
{
    if i == 0 {
        seq![]
    } else {
        let prev = flag_items(bits, (i - 1) as nat);
        if bits & (1u32 << ((i - 1) as u32)) != 0 {
            prev.push(flag_item_text((i - 1) as u32))
        } else {
            prev
        }
    }
}

/// The texts `items` with `sep` between each two.
pub open spec fn join(items: Seq<Seq<char>>, sep: Seq<char>) -> Seq<char>
    decreases items.len(),
{
    if items.len() == 0 {
        seq![]
    } else if items.len() == 1 {
        items[0]
    } else {
        join(items.drop_last(), sep) + sep + items.last()
    }
}

/// Each of `items` on a line of its own after `indent`, followed by a comma.
pub open spec fn lines(items: Seq<Seq<char>>, indent: Seq<char>) -> Seq<char>
    decreases items.len(),
{
    if items.len() == 0 {
        seq![]
    } else {
        lines(items.drop_last(), indent) + indent + items.last() + ",\n"@
    }
}

/// `n` spaces.
pub open spec fn spaces(n: nat) -> Seq<char> {
    Seq::new(n, |i: int| ' ')
}

/// The one-line rendering of a flag set: `[A, B, 0x...]`.
pub open spec fn flags_debug(bits: u32) -> Seq<char> {
    "["@ + join(flag_items(bits, 32), ", "@) + "]"@
}

/// The multi-line rendering of a flag set whose own line is indented by
/// `indent`: one set bit per line, or `[]` for the empty set.
pub open spec fn flags_pretty(bits: u32, indent: nat) -> Seq<char> {
    let items = flag_items(bits, 32);
    if items.len() == 0 {
        "[]"@
    } else {
        "[\n"@ + lines(items, spaces(indent + 4)) + spaces(indent) + "]"@
    }
}

/// The multi-line rendering of a version that is a field of a top-level value.
pub open spec fn version_pretty(v: ProtocolVersion) -> Seq<char> {
    "ProtocolVersion {\n        major: "@ + decimal(v.major as nat) + ",\n        minor: "@ + decimal(
        v.minor as nat,
    ) + ",\n    }"@
}

/// The multi-line rendering of an init request.
pub open spec fn init_request_pretty(r: FuseInitRequest) -> Seq<char> {
    "FuseInitRequest {\n    version: "@ + version_pretty(r.version) + ",\n    max_readahead: "@
        + decimal(r.max_readahead as nat) + ",\n    flags: "@ + flags_pretty(r.flags.0, 4)
        + ",\n}"@
}

/// The multi-line rendering of an init reply.
pub open spec fn init_response_pretty(r: FuseInitResponse) -> Seq<char> {
    "FuseInitResponse {\n    version: "@ + version_pretty(r.version) + ",\n    max_readahead: "@
        + decimal(r.max_readahead as nat) + ",\n    flags: "@ + flags_pretty(r.flags.0, 4)
        + ",\n    max_background: "@ + decimal(r.max_background as nat)
        + ",\n    congestion_threshold: "@ + decimal(r.congestion_threshold as nat)
        + ",\n    max_write: "@ + decimal(r.max_write as nat) + ",\n    time_granularity: "@
        + decimal(r.time_granularity as nat) + ",\n}"@
}

/// Appends `n` spaces.
fn push_spaces(out: &mut String, n: usize)
    ensures
        final(out)@ == old(out)@ + spaces(n as nat),
{
    let mut i: usize = 0;
    while i < n
        invariant
            i <= n,
            out@ == old(out)@ + spaces(i as nat),
        decreases n - i,
    {
        out.append(" ");
        i = i + 1;
        proof {
            reveal_strlit(" ");
        }
        assert(spaces(i as nat) =~= spaces((i - 1) as nat) + " "@);
    }
}

/// Appends the text of the set bit at position `k`.
fn push_flag_item(out: &mut String, k: u32)
    requires
        k < 32,
    ensures
        final(out)@ == old(out)@ + flag_item_text(k),
{
    match FuseInitFlag::at_bit(k) {
        Some(f) => out.append(f.name()),
        None => push_hex(out, (1u32 << k) as u64),
    }
}

/// Adding one item to a joined list adds the separator and the item.
proof fn lemma_join_push(items: Seq<Seq<char>>, x: Seq<char>, sep: Seq<char>)
    ensures
        join(items.push(x), sep) == if items.len() == 0 {
            x
        } else {
            join(items, sep) + sep + x
        },
        lines(items.push(x), sep) == lines(items, sep) + sep + x + ",\n"@,
{
    assert(items.push(x).drop_last() =~= items);
}

impl FuseInitFlags {
    /// The one-line rendering: the names of the set flags, and the values of
    /// set bits without a name in hexadecimal, in bit order.
    pub fn debug_string(&self) -> (r: String)
        ensures
            r@ == flags_debug(self.0),
    {
        let mut out = String::new();
        out.append("[");
        let mut count: usize = 0;
        let mut i: u32 = 0;
        while i < 32
            invariant
                i <= 32,
                count == flag_items(self.0, i as nat).len(),
                count <= i,
                out@ == "["@ + join(flag_items(self.0, i as nat), ", "@),
            decreases 32 - i,
        {
            let ghost prev = flag_items(self.0, i as nat);
            if self.0 & (1u32 << i) != 0 {
                if count > 0 {
                    out.append(", ");
                }
                push_flag_item(&mut out, i);
                proof {
                    lemma_join_push(prev, flag_item_text(i), ", "@);
                }
                count = count + 1;
            }
            i = i + 1;
        }
        out.append("]");
        out
    }

    /// Appends the multi-line rendering for a value whose line is indented by
    /// `indent`.
    pub fn push_pretty(&self, out: &mut String, indent: usize)
        requires
            indent <= 1024,
        ensures
            final(out)@ == old(out)@ + flags_pretty(self.0, indent as nat),
    {
        let mut body = String::new();
        let mut count: usize = 0;
        let mut i: u32 = 0;
        while i < 32
            invariant
                i <= 32,
                indent <= 1024,
                count == flag_items(self.0, i as nat).len(),
                count <= i,
                body@ == lines(flag_items(self.0, i as nat), spaces(indent as nat + 4)),
            decreases 32 - i,
        {
            let ghost prev = flag_items(self.0, i as nat);
            if self.0 & (1u32 << i) != 0 {
                push_spaces(&mut body, indent + 4);
                push_flag_item(&mut body, i);
                body.append(",\n");
                proof {
                    lemma_join_push(prev, flag_item_text(i), spaces(indent as nat + 4));
                }
                count = count + 1;
            }
            i = i + 1;
        }
        if count == 0 {
            out.append("[]");
        } else {
            out.append("[\n");
            out.append(body.as_str());
            push_spaces(out, indent);
            out.append("]");
        }
        assert(final(out)@ =~= old(out)@ + flags_pretty(self.0, indent as nat));
    }
}

/// Appends the multi-line rendering of a version that is a field of a
/// top-level value.
fn push_version_pretty(out: &mut String, v: ProtocolVersion)
    ensures
        final(out)@ == old(out)@ + version_pretty(v),
{
    out.append("ProtocolVersion {\n        major: ");
    push_decimal(out, v.major as u64);
    out.append(",\n        minor: ");
    push_decimal(out, v.minor as u64);
    out.append(",\n    }");
    assert(final(out)@ =~= old(out)@ + version_pretty(v));
}

impl FuseInitRequest {
    /// The multi-line rendering, one field per line.
    pub fn debug_pretty(&self) -> (r: String)
        ensures
            r@ == init_request_pretty(*self),
    {
        let mut out = String::new();
        out.append("FuseInitRequest {\n    version: ");
        push_version_pretty(&mut out, self.version);
        out.append(",\n    max_readahead: ");
        push_decimal(&mut out, self.max_readahead as u64);
        out.append(",\n    flags: ");
        self.flags.push_pretty(&mut out, 4);
        out.append(",\n}");
        assert(out@ =~= init_request_pretty(*self));
        out
    }
}

impl FuseInitResponse {
    /// The multi-line rendering, one field per line.
    pub fn debug_pretty(&self) -> (r: String)
        ensures
            r@ == init_response_pretty(*self),
    {
        let mut out = String::new();
        out.append("FuseInitResponse {\n    version: ");
        push_version_pretty(&mut out, self.version);
        out.append(",\n    max_readahead: ");
        push_decimal(&mut out, self.max_readahead as u64);
        out.append(",\n    flags: ");
        self.flags.push_pretty(&mut out, 4);
        out.append(",\n    max_background: ");
        push_decimal(&mut out, self.max_background as u64);
        out.append(",\n    congestion_threshold: ");
        push_decimal(&mut out, self.congestion_threshold as u64);
        out.append(",\n    max_write: ");
        push_decimal(&mut out, self.max_write as u64);
        out.append(",\n    time_granularity: ");
        push_decimal(&mut out, self.time_granularity as u64);
        out.append(",\n}");
        assert(out@ =~= init_response_pretty(*self));
        out
    }
}

} // verus!
