//! Decoding failures and POSIX error codes.
use vstd::prelude::*;
use vstd::string::StringExecFns;

use crate::fmt::{decimal, push_decimal};
use crate::request::{opcode_name, spec_opcode_name};

verus! {

/// Raw errno values of the target platform.
pub const EIO: u16 = 5;
pub const ENODEV: u16 = 19;
pub const ENOENT: u16 = 2;
pub const ENOSYS: u16 = 38;

/// A failure to decode a request frame, or an unexpected first request.
#[non_exhaustive]
#[derive(Copy, Clone, Debug, Eq, Hash, PartialEq, Structural)]
pub enum Error {
    /// The opcode needs a node id but the header carried zero.
    MissingNodeId,
    /// The frame ended in the middle of a field.
    UnexpectedEof,
    /// The first request on a CUSE channel carried this opcode instead of `CUSE_INIT`.
    ExpectedCuseInit(u32),
    /// The first request on a FUSE channel carried this opcode instead of `FUSE_INIT`.
    ExpectedFuseInit(u32),
}

/// The name of opcode `op`, or its decimal text where it has none.
pub open spec fn opcode_text(op: u32) -> Seq<char> {
    match spec_opcode_name(op) {
        Some(n) => n,
        None => decimal(op as nat),
    }
}

/// The message that describes each decoding failure.
pub open spec fn error_message(e: Error) -> Seq<char> {
    match e {
        Error::MissingNodeId => "Request field 'fuse_in_header::nodeid' is missing (expected non-zero)"@,
        Error::UnexpectedEof => "unexpected end of file"@,
        Error::ExpectedCuseInit(op) => "Received opcode "@ + opcode_text(op)
            + " from kernel (expected CUSE_INIT)"@,
        Error::ExpectedFuseInit(op) => "Received opcode "@ + opcode_text(op)
            + " from kernel (expected FUSE_INIT)"@,
    }
}

fn push_opcode(out: &mut String, op: u32)
    ensures
        final(out)@ == old(out)@ + opcode_text(op),
{
    match opcode_name(op) {
        Some(n) => out.append(n),
        None => push_decimal(out, op as u64),
    }
}

impl Error {
    /// A message that describes the failure.
    pub fn message(&self) -> (r: String)
        ensures
            r@ == error_message(*self),
    {
        match self {
            Error::MissingNodeId => String::from_str(
                "Request field 'fuse_in_header::nodeid' is missing (expected non-zero)",
            ),
            Error::UnexpectedEof => String::from_str("unexpected end of file"),
            Error::ExpectedCuseInit(op) => {
                let mut out = String::from_str("Received opcode ");
                push_opcode(&mut out, *op);
                out.append(" from kernel (expected CUSE_INIT)");
                out
            },
            Error::ExpectedFuseInit(op) => {
                let mut out = String::from_str("Received opcode ");
                push_opcode(&mut out, *op);
                out.append(" from kernel (expected FUSE_INIT)");
                out
            },
        }
    }
}

/// A POSIX errno value: a non-zero unsigned 16-bit integer.
#[derive(Copy, Clone, Debug, Eq, Hash, PartialOrd, Ord)]
pub struct ErrorCode {
    code: u16,
}

impl View for ErrorCode {
    type V = u16;

    closed spec fn view(&self) -> u16 {
        self.code
    }
}

impl ErrorCode {
    /// Every error code is non-zero.
    #[verifier::type_invariant]
    pub closed spec fn non_zero(self) -> bool {
        self.code != 0
    }

    /// Input/output error.
    pub fn eio() -> (r: ErrorCode)
        ensures
            r@ == EIO,
    {
        ErrorCode { code: EIO }
    }

    /// No such device.
    pub fn enodev() -> (r: ErrorCode)
        ensures
            r@ == ENODEV,
    {
        ErrorCode { code: ENODEV }
    }

    /// No such file or directory.
    pub fn enoent() -> (r: ErrorCode)
        ensures
            r@ == ENOENT,
    {
        ErrorCode { code: ENOENT }
    }

    /// Function not implemented.
    pub fn enosys() -> (r: ErrorCode)
        ensures
            r@ == ENOSYS,
    {
        ErrorCode { code: ENOSYS }
    }

    /// The error code with value `n`, or `None` when `n` is zero.
    pub fn new(n: u16) -> (r: Option<ErrorCode>)
        ensures
            r is Some <==> n != 0,
            r matches Some(e) ==> e@ == n,
    {
        if n == 0 {
            None
        } else {
            Some(ErrorCode { code: n })
        }
    }

    /// The numeric value, which is never zero.
    pub fn get(&self) -> (r: u16)
        ensures
            r == self@,
            r != 0,
    {
        proof {
            use_type_invariant(self);
        }
        self.code
    }

    /// The errno as a reply header carries it: its negation.
    pub fn negated(&self) -> (r: i32)
        ensures
            r == -(self@ as int),
            r < 0,
    {
        proof {
            use_type_invariant(self);
        }
        -(self.code as i32)
    }

    /// The symbolic name of the code, where it is one of the named constants.
    pub fn name(&self) -> (r: Option<&'static str>)
        ensures
            r is Some <==> error_code_name(self@) is Some,
            r matches Some(s) ==> s@ == error_code_name(self@)->0,
    {
        if self.code == EIO {
            Some("EIO")
        } else if self.code == ENODEV {
            Some("ENODEV")
        } else if self.code == ENOENT {
            Some("ENOENT")
        } else if self.code == ENOSYS {
            Some("ENOSYS")
        } else {
            None
        }
    }
}

impl PartialEq for ErrorCode {
    fn eq(&self, other: &ErrorCode) -> (r: bool) {
        self.code == other.code
    }
}

impl vstd::std_specs::cmp::PartialEqSpecImpl for ErrorCode {
    open spec fn obeys_eq_spec() -> bool {
        true
    }

    open spec fn eq_spec(&self, other: &ErrorCode) -> bool {
        self@ == other@
    }
}

impl PartialEq<i16> for ErrorCode {
    fn eq(&self, other: &i16) -> (r: bool) {
        *other > 0 && self.code == *other as u16
    }
}

impl vstd::std_specs::cmp::PartialEqSpecImpl<i16> for ErrorCode {
    open spec fn obeys_eq_spec() -> bool {
        true
    }

    open spec fn eq_spec(&self, other: &i16) -> bool {
        equals_int(*self, *other as int)
    }
}

impl PartialEq<ErrorCode> for i16 {
    fn eq(&self, other: &ErrorCode) -> (r: bool) {
        *self > 0 && other.code == *self as u16
    }
}

impl vstd::std_specs::cmp::PartialEqSpecImpl<ErrorCode> for i16 {
    open spec fn obeys_eq_spec() -> bool {
        true
    }

    open spec fn eq_spec(&self, other: &ErrorCode) -> bool {
        equals_int(*other, *self as int)
    }
}

impl PartialEq<i32> for ErrorCode {
    fn eq(&self, other: &i32) -> (r: bool) {
        *other > 0 && self.code as i32 == *other
    }
}

impl vstd::std_specs::cmp::PartialEqSpecImpl<i32> for ErrorCode {
    open spec fn obeys_eq_spec() -> bool {
        true
    }

    open spec fn eq_spec(&self, other: &i32) -> bool {
        equals_int(*self, *other as int)
    }
}

impl PartialEq<ErrorCode> for i32 {
    fn eq(&self, other: &ErrorCode) -> (r: bool) {
        *self > 0 && other.code as i32 == *self
    }
}

impl vstd::std_specs::cmp::PartialEqSpecImpl<ErrorCode> for i32 {
    open spec fn obeys_eq_spec() -> bool {
        true
    }

    open spec fn eq_spec(&self, other: &ErrorCode) -> bool {
        equals_int(*other, *self as int)
    }
}

impl PartialEq<i64> for ErrorCode {
    fn eq(&self, other: &i64) -> (r: bool) {
        *other > 0 && self.code as i64 == *other
    }
}

impl vstd::std_specs::cmp::PartialEqSpecImpl<i64> for ErrorCode {
    open spec fn obeys_eq_spec() -> bool {
        true
    }

    open spec fn eq_spec(&self, other: &i64) -> bool {
        equals_int(*self, *other as int)
    }
}

impl PartialEq<ErrorCode> for i64 {
    fn eq(&self, other: &ErrorCode) -> (r: bool) {
        *self > 0 && other.code as i64 == *self
    }
}

impl vstd::std_specs::cmp::PartialEqSpecImpl<ErrorCode> for i64 {
    open spec fn obeys_eq_spec() -> bool {
        true
    }

    open spec fn eq_spec(&self, other: &ErrorCode) -> bool {
        equals_int(*other, *self as int)
    }
}

impl PartialEq<isize> for ErrorCode {
    fn eq(&self, other: &isize) -> (r: bool) {
        *other > 0 && self.code as isize == *other
    }
}

impl vstd::std_specs::cmp::PartialEqSpecImpl<isize> for ErrorCode {
    open spec fn obeys_eq_spec() -> bool {
        true
    }

    open spec fn eq_spec(&self, other: &isize) -> bool {
        equals_int(*self, *other as int)
    }
}

impl PartialEq<ErrorCode> for isize {
    fn eq(&self, other: &ErrorCode) -> (r: bool) {
        *self > 0 && other.code as isize == *self
    }
}

impl vstd::std_specs::cmp::PartialEqSpecImpl<ErrorCode> for isize {
    open spec fn obeys_eq_spec() -> bool {
        true
    }

    open spec fn eq_spec(&self, other: &ErrorCode) -> bool {
        equals_int(*other, *self as int)
    }
}

impl PartialEq<u16> for ErrorCode {
    fn eq(&self, other: &u16) -> (r: bool) {
        *other > 0 && self.code as u16 == *other
    }
}

impl vstd::std_specs::cmp::PartialEqSpecImpl<u16> for ErrorCode {
    open spec fn obeys_eq_spec() -> bool {
        true
    }

    open spec fn eq_spec(&self, other: &u16) -> bool {
        equals_int(*self, *other as int)
    }
}

impl PartialEq<ErrorCode> for u16 {
    fn eq(&self, other: &ErrorCode) -> (r: bool) {
        *self > 0 && other.code as u16 == *self
    }
}

impl vstd::std_specs::cmp::PartialEqSpecImpl<ErrorCode> for u16 {
    open spec fn obeys_eq_spec() -> bool {
        true
    }

    open spec fn eq_spec(&self, other: &ErrorCode) -> bool {
        equals_int(*other, *self as int)
    }
}

impl PartialEq<u32> for ErrorCode {
    fn eq(&self, other: &u32) -> (r: bool) {
        *other > 0 && self.code as u32 == *other
    }
}

impl vstd::std_specs::cmp::PartialEqSpecImpl<u32> for ErrorCode {
    open spec fn obeys_eq_spec() -> bool {
        true
    }

    open spec fn eq_spec(&self, other: &u32) -> bool {
        equals_int(*self, *other as int)
    }
}

impl PartialEq<ErrorCode> for u32 {
    fn eq(&self, other: &ErrorCode) -> (r: bool) {
        *self > 0 && other.code as u32 == *self
    }
}

impl vstd::std_specs::cmp::PartialEqSpecImpl<ErrorCode> for u32 {
    open spec fn obeys_eq_spec() -> bool {
        true
    }

    open spec fn eq_spec(&self, other: &ErrorCode) -> bool {
        equals_int(*other, *self as int)
    }
}

impl PartialEq<u64> for ErrorCode {
    fn eq(&self, other: &u64) -> (r: bool) {
        *other > 0 && self.code as u64 == *other
    }
}

impl vstd::std_specs::cmp::PartialEqSpecImpl<u64> for ErrorCode {
    open spec fn obeys_eq_spec() -> bool {
        true
    }

    open spec fn eq_spec(&self, other: &u64) -> bool {
        equals_int(*self, *other as int)
    }
}

impl PartialEq<ErrorCode> for u64 {
    fn eq(&self, other: &ErrorCode) -> (r: bool) {
        *self > 0 && other.code as u64 == *self
    }
}

impl vstd::std_specs::cmp::PartialEqSpecImpl<ErrorCode> for u64 {
    open spec fn obeys_eq_spec() -> bool {
        true
    }

    open spec fn eq_spec(&self, other: &ErrorCode) -> bool {
        equals_int(*other, *self as int)
    }
}

impl PartialEq<usize> for ErrorCode {
    fn eq(&self, other: &usize) -> (r: bool) {
        *other > 0 && self.code as usize == *other
    }
}

impl vstd::std_specs::cmp::PartialEqSpecImpl<usize> for ErrorCode {
    open spec fn obeys_eq_spec() -> bool {
        true
    }

    open spec fn eq_spec(&self, other: &usize) -> bool {
        equals_int(*self, *other as int)
    }
}

impl PartialEq<ErrorCode> for usize {
    fn eq(&self, other: &ErrorCode) -> (r: bool) {
        *self > 0 && other.code as usize == *self
    }
}

impl vstd::std_specs::cmp::PartialEqSpecImpl<ErrorCode> for usize {
    open spec fn obeys_eq_spec() -> bool {
        true
    }

    open spec fn eq_spec(&self, other: &ErrorCode) -> bool {
        equals_int(*other, *self as int)
    }
}

/// Whether an error code equals the integer `n`; only a positive `n` can.
pub open spec fn equals_int(e: ErrorCode, n: int) -> bool {
    n > 0 && e@ as int == n
}

/// No error code equals zero or a negative integer.
pub proof fn lemma_never_equals_non_positive(e: ErrorCode, n: int)
    requires
        n <= 0,
    ensures
        !equals_int(e, n),
{
}

impl From<ErrorCode> for u16 {
    fn from(e: ErrorCode) -> (r: u16) {
        e.code as u16
    }
}

impl vstd::std_specs::convert::FromSpecImpl<ErrorCode> for u16 {
    open spec fn obeys_from_spec() -> bool {
        true
    }

    open spec fn from_spec(e: ErrorCode) -> u16 {
        e@ as u16
    }
}

impl From<ErrorCode> for u32 {
    fn from(e: ErrorCode) -> (r: u32) {
        e.code as u32
    }
}

impl vstd::std_specs::convert::FromSpecImpl<ErrorCode> for u32 {
    open spec fn obeys_from_spec() -> bool {
        true
    }

    open spec fn from_spec(e: ErrorCode) -> u32 {
        e@ as u32
    }
}

impl From<ErrorCode> for i32 {
    fn from(e: ErrorCode) -> (r: i32) {
        e.code as i32
    }
}

impl vstd::std_specs::convert::FromSpecImpl<ErrorCode> for i32 {
    open spec fn obeys_from_spec() -> bool {
        true
    }

    open spec fn from_spec(e: ErrorCode) -> i32 {
        e@ as i32
    }
}

impl From<ErrorCode> for u64 {
    fn from(e: ErrorCode) -> (r: u64) {
        e.code as u64
    }
}

impl vstd::std_specs::convert::FromSpecImpl<ErrorCode> for u64 {
    open spec fn obeys_from_spec() -> bool {
        true
    }

    open spec fn from_spec(e: ErrorCode) -> u64 {
        e@ as u64
    }
}

impl From<ErrorCode> for i64 {
    fn from(e: ErrorCode) -> (r: i64) {
        e.code as i64
    }
}

impl vstd::std_specs::convert::FromSpecImpl<ErrorCode> for i64 {
    open spec fn obeys_from_spec() -> bool {
        true
    }

    open spec fn from_spec(e: ErrorCode) -> i64 {
        e@ as i64
    }
}

/// The name of each errno value that has a named constant.
pub open spec fn error_code_name(n: u16) -> Option<Seq<char>> {
    if n == EIO {
        Some("EIO"@)
    } else if n == ENODEV {
        Some("ENODEV"@)
    } else if n == ENOENT {
        Some("ENOENT"@)
    } else if n == ENOSYS {
        Some("ENOSYS"@)
    } else {
        None
    }
}

} // verus!
