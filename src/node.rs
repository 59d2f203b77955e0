//! Node identifiers, node names, file types and file modes.
use vstd::prelude::*;

verus! {

/// The node id of the mount root.
pub const ROOT_ID: u64 = 1;

/// A non-zero 64-bit identifier of a node, chosen by the filesystem.
#[derive(Copy, Clone, Debug, Hash, PartialEq, Eq, Structural, PartialOrd, Ord)]
pub struct NodeId {
    id: u64,
}

impl View for NodeId {
    type V = u64;

    closed spec fn view(&self) -> u64 {
        self.id
    }
}

impl NodeId {
    /// Zero is the wire's "absent" value and is never a node id.
    #[verifier::type_invariant]
    pub closed spec fn non_zero(self) -> bool {
        self.id != 0
    }

    /// The node id `id`, or `None` when `id` is zero.
    pub fn new(id: u64) -> (r: Option<NodeId>)
        ensures
            r is Some <==> id != 0,
            r matches Some(n) ==> n@ == id,
    {
        if id == 0 {
            None
        } else {
            Some(NodeId { id })
        }
    }

    /// The node id of the mount root.
    pub fn root() -> (r: NodeId)
        ensures
            r@ == ROOT_ID,
    {
        NodeId { id: ROOT_ID }
    }

    /// The raw value, which is never zero.
    pub fn get(&self) -> (r: u64)
        ensures
            r == self@,
            r != 0,
    {
        proof {
            use_type_invariant(self);
        }
        self.id
    }
}

/// Node ids with the same value are the same.
pub proof fn lemma_node_id_view_injective(a: NodeId, b: NodeId)
    requires
        a@ == b@,
    ensures
        a == b,
{
}

/// Whether `b` may name a node: non-empty, free of NUL, and neither `.` nor `..`
/// (byte 46 is `.`).
pub open spec fn valid_name(b: Seq<u8>) -> bool {
    &&& b.len() > 0
    &&& forall|i: int| 0 <= i < b.len() ==> b[i] != 0
    &&& b != seq![46u8]
    &&& b != seq![46u8, 46u8]
}

/// The name of a node within its directory.
#[derive(Debug)]
pub struct NodeName {
    bytes: Vec<u8>,
}

impl View for NodeName {
    type V = Seq<u8>;

    closed spec fn view(&self) -> Seq<u8> {
        self.bytes@
    }
}

/// Whether `b` holds a NUL byte.
pub fn contains_nul(b: &[u8]) -> (r: bool)
    ensures
        r <==> exists|i: int| 0 <= i < b@.len() && b@[i] == 0,
{
    let mut i: usize = 0;
    while i < b.len()
        invariant
            i <= b@.len(),
            forall|k: int| 0 <= k < i ==> b@[k] != 0,
        decreases b@.len() - i,
    {
        if b[i] == 0 {
            return true;
        }
        i = i + 1;
    }
    false
}

/// Whether two byte strings are equal.
pub fn bytes_eq(a: &[u8], b: &[u8]) -> (r: bool)
    ensures
        r <==> a@ == b@,
{
    if a.len() != b.len() {
        return false;
    }
    let mut i: usize = 0;
    while i < a.len()
        invariant
            a@.len() == b@.len(),
            i <= a@.len(),
            forall|k: int| 0 <= k < i ==> a@[k] == b@[k],
        decreases a@.len() - i,
    {
        if a[i] != b[i] {
            return false;
        }
        i = i + 1;
    }
    assert(a@ =~= b@);
    true
}

impl NodeName {
    #[verifier::type_invariant]
    pub closed spec fn is_valid(self) -> bool {
        valid_name(self.bytes@)
    }

    /// The name spelled by `b`, or `None` where `b` is empty, holds a NUL, or
    /// is `.` or `..`.
    pub fn from_bytes(b: &[u8]) -> (r: Option<NodeName>)
        ensures
            r is Some <==> valid_name(b@),
            r matches Some(n) ==> n@ == b@,
    {
        if b.len() == 0 || contains_nul(b) {
            return None;
        }
        if b.len() == 1 && b[0] == 46u8 {
            assert(b@ =~= seq![46u8]);
            return None;
        }
        if b.len() == 2 && b[0] == 46u8 && b[1] == 46u8 {
            assert(b@ =~= seq![46u8, 46u8]);
            return None;
        }
        let bytes = vstd::slice::slice_to_vec(b);
        Some(NodeName { bytes })
    }

    /// The bytes of the name.
    pub fn as_bytes(&self) -> (r: &[u8])
        ensures
            r@ == self@,
            valid_name(r@),
    {
        proof {
            use_type_invariant(self);
        }
        self.bytes.as_slice()
    }
}

impl PartialEq for NodeName {
    fn eq(&self, other: &NodeName) -> (r: bool) {
        bytes_eq(self.bytes.as_slice(), other.bytes.as_slice())
    }
}

impl vstd::std_specs::cmp::PartialEqSpecImpl for NodeName {
    open spec fn obeys_eq_spec() -> bool {
        true
    }

    open spec fn eq_spec(&self, other: &NodeName) -> bool {
        self@ == other@
    }
}

/// The kind of a node.
#[derive(Copy, Clone, Debug, Hash, PartialEq, Eq, Structural)]
pub enum FileType {
    Regular,
    Directory,
    Symlink,
    CharDevice,
    BlockDevice,
    Fifo,
    Socket,
}

pub const S_IFMT: u32 = 0o170000;
pub const S_IFSOCK: u32 = 0o140000;
pub const S_IFLNK: u32 = 0o120000;
pub const S_IFREG: u32 = 0o100000;
pub const S_IFBLK: u32 = 0o060000;
pub const S_IFDIR: u32 = 0o040000;
pub const S_IFCHR: u32 = 0o020000;
pub const S_IFIFO: u32 = 0o010000;

pub const DT_FIFO: u32 = 1;
pub const DT_CHR: u32 = 2;
pub const DT_DIR: u32 = 4;
pub const DT_BLK: u32 = 6;
pub const DT_REG: u32 = 8;
pub const DT_LNK: u32 = 10;
pub const DT_SOCK: u32 = 12;

/// The `DT_*` value of each file type.
pub open spec fn spec_dirent_type(t: FileType) -> u32 {
    match t {
        FileType::Regular => DT_REG,
        FileType::Directory => DT_DIR,
        FileType::Symlink => DT_LNK,
        FileType::CharDevice => DT_CHR,
        FileType::BlockDevice => DT_BLK,
        FileType::Fifo => DT_FIFO,
        FileType::Socket => DT_SOCK,
    }
}

/// The `S_IF*` bits of each file type.
pub open spec fn spec_mode_bits(t: FileType) -> u32 {
    match t {
        FileType::Regular => S_IFREG,
        FileType::Directory => S_IFDIR,
        FileType::Symlink => S_IFLNK,
        FileType::CharDevice => S_IFCHR,
        FileType::BlockDevice => S_IFBLK,
        FileType::Fifo => S_IFIFO,
        FileType::Socket => S_IFSOCK,
    }
}

impl FileType {
    /// The `DT_*` value that directory entries carry.
    pub fn dirent_type(&self) -> (r: u32)
        ensures
            r == spec_dirent_type(*self),
    {
        match self {
            FileType::Regular => DT_REG,
            FileType::Directory => DT_DIR,
            FileType::Symlink => DT_LNK,
            FileType::CharDevice => DT_CHR,
            FileType::BlockDevice => DT_BLK,
            FileType::Fifo => DT_FIFO,
            FileType::Socket => DT_SOCK,
        }
    }

    /// The file type with `DT_*` value `dt`, if there is one.
    pub fn from_dirent_type(dt: u32) -> (r: Option<FileType>)
        ensures
            r matches Some(t) ==> spec_dirent_type(t) == dt,
            r is None ==> forall|t: FileType| spec_dirent_type(t) != dt,
    {
        if dt == DT_REG {
            Some(FileType::Regular)
        } else if dt == DT_DIR {
            Some(FileType::Directory)
        } else if dt == DT_LNK {
            Some(FileType::Symlink)
        } else if dt == DT_CHR {
            Some(FileType::CharDevice)
        } else if dt == DT_BLK {
            Some(FileType::BlockDevice)
        } else if dt == DT_FIFO {
            Some(FileType::Fifo)
        } else if dt == DT_SOCK {
            Some(FileType::Socket)
        } else {
            None
        }
    }

    /// The `S_IF*` bits of a mode of this type.
    pub fn mode_bits(&self) -> (r: u32)
        ensures
            r == spec_mode_bits(*self),
    {
        match self {
            FileType::Regular => S_IFREG,
            FileType::Directory => S_IFDIR,
            FileType::Symlink => S_IFLNK,
            FileType::CharDevice => S_IFCHR,
            FileType::BlockDevice => S_IFBLK,
            FileType::Fifo => S_IFIFO,
            FileType::Socket => S_IFSOCK,
        }
    }
}

/// The permission bits of a mode: set-user-id, set-group-id, sticky, rwx.
pub const PERMISSION_BITS: u32 = 0o7777;

/// A POSIX file mode: type bits and permission bits.
#[derive(Copy, Clone, Debug, Hash, PartialEq, Eq, Structural)]
pub struct FileMode {
    pub mode: u32,
}

impl FileMode {
    /// The mode of type `t` with permissions `perm` (bits outside the
    /// permission bits are dropped).
    pub fn new(t: FileType, perm: u32) -> (r: FileMode)
        ensures
            r.mode == spec_mode_bits(t) | (perm & PERMISSION_BITS),
    {
        FileMode { mode: t.mode_bits() | (perm & PERMISSION_BITS) }
    }

    /// The file type that the mode's type bits name, if any.
    pub fn file_type(&self) -> (r: Option<FileType>)
        ensures
            r matches Some(t) ==> spec_mode_bits(t) == self.mode & S_IFMT,
            r is None ==> forall|t: FileType| spec_mode_bits(t) != self.mode & S_IFMT,
    {
        let bits = self.mode & S_IFMT;
        if bits == S_IFREG {
            Some(FileType::Regular)
        } else if bits == S_IFDIR {
            Some(FileType::Directory)
        } else if bits == S_IFLNK {
            Some(FileType::Symlink)
        } else if bits == S_IFCHR {
            Some(FileType::CharDevice)
        } else if bits == S_IFBLK {
            Some(FileType::BlockDevice)
        } else if bits == S_IFIFO {
            Some(FileType::Fifo)
        } else if bits == S_IFSOCK {
            Some(FileType::Socket)
        } else {
            None
        }
    }

    /// The permission bits.
    pub fn permissions(&self) -> (r: u32)
        ensures
            r == self.mode & PERMISSION_BITS,
    {
        self.mode & PERMISSION_BITS
    }
}

/// A mode built from a file type and permissions gives back that type and
/// those permissions.
pub proof fn lemma_file_mode_parts(t: FileType, perm: u32)
    ensures
        (spec_mode_bits(t) | (perm & PERMISSION_BITS)) & S_IFMT == spec_mode_bits(t),
        (spec_mode_bits(t) | (perm & PERMISSION_BITS)) & PERMISSION_BITS == perm
            & PERMISSION_BITS,
{
    let b = spec_mode_bits(t);
    assert(b & 0o7777u32 == 0 && b & 0o170000u32 == b) by {
        match t {
            FileType::Regular => {
                assert(0o100000u32 & 0o7777u32 == 0 && 0o100000u32 & 0o170000u32 == 0o100000u32)
                    by (bit_vector);
            },
            FileType::Directory => {
                assert(0o040000u32 & 0o7777u32 == 0 && 0o040000u32 & 0o170000u32 == 0o040000u32)
                    by (bit_vector);
            },
            FileType::Symlink => {
                assert(0o120000u32 & 0o7777u32 == 0 && 0o120000u32 & 0o170000u32 == 0o120000u32)
                    by (bit_vector);
            },
            FileType::CharDevice => {
                assert(0o020000u32 & 0o7777u32 == 0 && 0o020000u32 & 0o170000u32 == 0o020000u32)
                    by (bit_vector);
            },
            FileType::BlockDevice => {
                assert(0o060000u32 & 0o7777u32 == 0 && 0o060000u32 & 0o170000u32 == 0o060000u32)
                    by (bit_vector);
            },
            FileType::Fifo => {
                assert(0o010000u32 & 0o7777u32 == 0 && 0o010000u32 & 0o170000u32 == 0o010000u32)
                    by (bit_vector);
            },
            FileType::Socket => {
                assert(0o140000u32 & 0o7777u32 == 0 && 0o140000u32 & 0o170000u32 == 0o140000u32)
                    by (bit_vector);
            },
        }
    }
    assert(b & 0o7777u32 == 0 && b & 0o170000u32 == b ==> (b | (perm & 0o7777u32)) & 0o170000u32
        == b && (b | (perm & 0o7777u32)) & 0o7777u32 == perm & 0o7777u32) by (bit_vector);
}

} // verus!
