//! The plain-Rust half of the JNI boundary: error codes handed to Kotlin, jboolean
//! conversion and the checks made on an opaque handle before it is dereferenced.

use vstd::prelude::*;

use crate::utils::logger::LogLevel;
use crate::vfs::capabilities::{external_op, op_index, VfsCapabilities, VfsOperation};

verus! {

/// Error codes returned to Kotlin (never panic across FFI).
#[derive(Clone, Copy, PartialEq, Eq, Structural, Debug)]
pub enum JniErrorCode {
    Success,
    NullPointer,
    InvalidHandle,
    JavaException,
    InvalidUtf8,
    InvalidArgument,
    OutOfMemory,
    PtyError,
    VfsError,
    IoError,
    Unknown,
}

/// The numeric value of each code, part of the contract with the Kotlin side.
pub open spec fn jni_code(c: JniErrorCode) -> i32 {
    match c {
        JniErrorCode::Success => 0i32,
        JniErrorCode::NullPointer => -1i32,
        JniErrorCode::InvalidHandle => -2i32,
        JniErrorCode::JavaException => -3i32,
        JniErrorCode::InvalidUtf8 => -4i32,
        JniErrorCode::InvalidArgument => -5i32,
        JniErrorCode::OutOfMemory => -6i32,
        JniErrorCode::PtyError => -7i32,
        JniErrorCode::VfsError => -8i32,
        JniErrorCode::IoError => -9i32,
        JniErrorCode::Unknown => -99i32,
    }
}

/// The variant name, as `Debug` prints it.
pub open spec fn jni_code_name(c: JniErrorCode) -> Seq<char> {
    match c {
        JniErrorCode::Success => "Success"@,
        JniErrorCode::NullPointer => "NullPointer"@,
        JniErrorCode::InvalidHandle => "InvalidHandle"@,
        JniErrorCode::JavaException => "JavaException"@,
        JniErrorCode::InvalidUtf8 => "InvalidUtf8"@,
        JniErrorCode::InvalidArgument => "InvalidArgument"@,
        JniErrorCode::OutOfMemory => "OutOfMemory"@,
        JniErrorCode::PtyError => "PtyError"@,
        JniErrorCode::VfsError => "VfsError"@,
        JniErrorCode::IoError => "IoError"@,
        JniErrorCode::Unknown => "Unknown"@,
    }
}

impl JniErrorCode {
    /// The numeric code.
    pub fn code(&self) -> (v: i32)
        ensures
            v == jni_code(*self),
    {
        match self {
            JniErrorCode::Success => 0,
            JniErrorCode::NullPointer => -1,
            JniErrorCode::InvalidHandle => -2,
            JniErrorCode::JavaException => -3,
            JniErrorCode::InvalidUtf8 => -4,
            JniErrorCode::InvalidArgument => -5,
            JniErrorCode::OutOfMemory => -6,
            JniErrorCode::PtyError => -7,
            JniErrorCode::VfsError => -8,
            JniErrorCode::IoError => -9,
            JniErrorCode::Unknown => -99,
        }
    }

    /// The variant name.
    pub fn name(&self) -> (s: &'static str)
        ensures
            s@ == jni_code_name(*self),
    {
        match self {
            JniErrorCode::Success => "Success",
            JniErrorCode::NullPointer => "NullPointer",
            JniErrorCode::InvalidHandle => "InvalidHandle",
            JniErrorCode::JavaException => "JavaException",
            JniErrorCode::InvalidUtf8 => "InvalidUtf8",
            JniErrorCode::InvalidArgument => "InvalidArgument",
            JniErrorCode::OutOfMemory => "OutOfMemory",
            JniErrorCode::PtyError => "PtyError",
            JniErrorCode::VfsError => "VfsError",
            JniErrorCode::IoError => "IoError",
            JniErrorCode::Unknown => "Unknown",
        }
    }
}

impl From<JniErrorCode> for i32 {
    fn from(code: JniErrorCode) -> (v: i32) {
        code.code()
    }
}

impl vstd::std_specs::convert::FromSpecImpl<JniErrorCode> for i32 {
    open spec fn obeys_from_spec() -> bool {
        true
    }

    open spec fn from_spec(code: JniErrorCode) -> i32 {
        jni_code(code)
    }
}

/// Result type for JNI operations.
pub type JniResult<T> = Result<T, JniErrorCode>;

/// The `jboolean` for a `bool`.
pub open spec fn jboolean_of(b: bool) -> u8 {
    if b {
        1u8
    } else {
        0u8
    }
}

/// The `bool` a `jboolean` stands for.
pub open spec fn bool_of(v: u8) -> bool {
    v != 0
}

/// A `bool` sent to Java and read back is the same `bool`.
pub proof fn lemma_jboolean_roundtrip(b: bool)
    ensures
        bool_of(jboolean_of(b)) == b,
{
}

/// A `bool` as a JNI `jboolean` (1 or 0).
pub fn to_jboolean(b: bool) -> (v: u8)
    ensures
        v == jboolean_of(b),
{
    if b {
        1
    } else {
        0
    }
}

/// A JNI `jboolean` as a `bool`: any non-zero value is true.
pub fn from_jboolean(b: u8) -> (v: bool)
    ensures
        v == bool_of(b),
{
    b != 0
}

/// The address a handle stands for (its bits read as unsigned).
pub open spec fn handle_address(handle: i64) -> u64 {
    handle as u64
}

/// The check made before a handle is turned into a pointer to a `T`: the null
/// handle and an address not aligned for `T` are invalid; otherwise the address is
/// handed back.
pub fn handle_to_ptr<T>(handle: i64) -> (r: JniResult<u64>)
    ensures
        handle == 0 ==> r == Err::<u64, JniErrorCode>(JniErrorCode::InvalidHandle),
        handle != 0 && (handle_address(handle) as nat) % vstd::layout::align_of::<T>() != 0 ==> r == Err::<
            u64,
            JniErrorCode,
        >(JniErrorCode::InvalidHandle),
        handle != 0 && (handle_address(handle) as nat) % vstd::layout::align_of::<T>() == 0 ==> r == Ok::<
            u64,
            JniErrorCode,
        >(handle_address(handle)),
{
    if handle == 0 {
        return Err(JniErrorCode::InvalidHandle);
    }
    vstd::layout::layout_for_type_is_valid::<T>();
    let align = core::mem::align_of::<T>() as u64;
    let addr = handle as u64;
    if addr % align != 0 {
        return Err(JniErrorCode::InvalidHandle);
    }
    Ok(addr)
}

/// The handle passed to Java for the address of a value.
pub fn ptr_to_handle(addr: u64) -> (h: i64)
    ensures
        handle_address(h) == addr,
{
    let h = addr as i64;
    assert(h as u64 == addr) by (bit_vector)
        requires
            h == addr as i64,
    ;
    h
}

/// An address handed to Java as a handle comes back as the same address, when it
/// is non-null and aligned for `T`.
pub proof fn lemma_handle_roundtrip<T>(addr: u64, h: i64)
    requires
        handle_address(h) == addr,
        addr != 0,
        (addr as nat) % vstd::layout::align_of::<T>() == 0,
    ensures
        h != 0,
        (handle_address(h) as nat) % vstd::layout::align_of::<T>() == 0,
{
    assert(h == 0 ==> h as u64 == 0) by (bit_vector);
}

/// The check made before the value behind a handle is released: the null handle is
/// a no-op (`None`, already freed); any other handle must pass `handle_to_ptr`.
pub fn release_target<T>(handle: i64) -> (r: JniResult<Option<u64>>)
    ensures
        handle == 0 ==> r == Ok::<Option<u64>, JniErrorCode>(None),
        handle != 0 && (handle_address(handle) as nat) % vstd::layout::align_of::<T>() != 0 ==> r == Err::<
            Option<u64>,
            JniErrorCode,
        >(JniErrorCode::InvalidHandle),
        handle != 0 && (handle_address(handle) as nat) % vstd::layout::align_of::<T>() == 0 ==> r == Ok::<
            Option<u64>,
            JniErrorCode,
        >(Some(handle_address(handle))),
{
    if handle == 0 {
        return Ok(None);
    }
    match handle_to_ptr::<T>(handle) {
        Ok(addr) => Ok(Some(addr)),
        Err(e) => Err(e),
    }
}

/// Types that can be safely passed across the JNI boundary.
pub trait JniSafe: Sized + Send + 'static {}

impl JniSafe for String {}

impl JniSafe for Vec<u8> {}

impl JniSafe for i32 {}

impl JniSafe for i64 {}

impl JniSafe for bool {}

/// How a call into the JVM ended, as the JNI layer observed it.
pub enum JniCallOutcome<T> {
    /// The call returned a value of the expected type.
    Value(T),
    /// The call itself failed.
    CallFailed,
    /// The call returned a value of another type.
    WrongType,
}

/// The result of a JVM method call: a null receiver is `NullPointer` (the call is
/// not made), a pending Java exception is `JavaException` whatever the call gave,
/// a failed call is `Unknown` and a value of the wrong type `InvalidArgument`.
pub fn jni_call_result<T>(receiver_null: bool, exception_raised: bool, outcome: JniCallOutcome<T>) -> (r: JniResult<T>)
    ensures
        receiver_null ==> r == Err::<T, JniErrorCode>(JniErrorCode::NullPointer),
        !receiver_null && exception_raised ==> r == Err::<T, JniErrorCode>(JniErrorCode::JavaException),
        !receiver_null && !exception_raised ==> match outcome {
            JniCallOutcome::Value(v) => r == Ok::<T, JniErrorCode>(v),
            JniCallOutcome::CallFailed => r == Err::<T, JniErrorCode>(JniErrorCode::Unknown),
            JniCallOutcome::WrongType => r == Err::<T, JniErrorCode>(JniErrorCode::InvalidArgument),
        },
{
    if receiver_null {
        return Err(JniErrorCode::NullPointer);
    }
    if exception_raised {
        return Err(JniErrorCode::JavaException);
    }
    match outcome {
        JniCallOutcome::Value(v) => Ok(v),
        JniCallOutcome::CallFailed => Err(JniErrorCode::Unknown),
        JniCallOutcome::WrongType => Err(JniErrorCode::InvalidArgument),
    }
}

/// The result of reading a Java string: null is `NullPointer`, a string that could
/// not be decoded is `InvalidUtf8`.
pub fn jni_string_result(is_null: bool, decoded: Option<String>) -> (r: JniResult<String>)
    ensures
        is_null ==> r == Err::<String, JniErrorCode>(JniErrorCode::NullPointer),
        !is_null ==> match decoded {
            Some(s) => r == Ok::<String, JniErrorCode>(s),
            None => r == Err::<String, JniErrorCode>(JniErrorCode::InvalidUtf8),
        },
{
    if is_null {
        return Err(JniErrorCode::NullPointer);
    }
    match decoded {
        Some(s) => Ok(s),
        None => Err(JniErrorCode::InvalidUtf8),
    }
}

/// The capabilities Kotlin asks about: SAF external storage or internal storage.
pub fn capabilities_for(is_saf: bool) -> (c: VfsCapabilities)
    ensures
        is_saf ==> crate::vfs::capabilities::is_saf_caps(c),
        !is_saf ==> crate::vfs::capabilities::is_internal_caps(c),
{
    if is_saf {
        VfsCapabilities::saf_external()
    } else {
        VfsCapabilities::internal_storage()
    }
}

/// Whether the operation with wire code `code` (only the codes of Read through
/// Mkdir, 0 to 10, are known) is supported on SAF storage or on internal storage.
/// Unknown codes are not supported.
pub fn supports_operation_code(code: i32, is_saf: bool) -> (r: bool)
    ensures
        !(0 <= code <= 10) ==> !r,
        0 <= code <= 10 ==> exists|op: VfsOperation| op_index(op) == code && r == (!is_saf || external_op(op)),
{
    match VfsOperation::from_code(code) {
        Some(op) => {
            let caps = capabilities_for(is_saf);
            caps.supports(op)
        },
        None => false,
    }
}

/// The level of a log message sent from Kotlin: 0 debug, 1 info, 2 warning,
/// 3 error, anything else debug.
pub fn kotlin_log_level(level: i32) -> (l: LogLevel)
    ensures
        l == match level {
            1 => LogLevel::Info,
            2 => LogLevel::Warn,
            3 => LogLevel::Error,
            _ => LogLevel::Debug,
        },
{
    match level {
        1 => LogLevel::Info,
        2 => LogLevel::Warn,
        3 => LogLevel::Error,
        _ => LogLevel::Debug,
    }
}

} // verus!
