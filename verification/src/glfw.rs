//! GLFW bindings: the computing half.
//!
//! The foreign windowing calls live outside the library. The functions here
//! marshal their text arguments, translate their raw results into typed
//! handles and errors, and translate the error codes their call-ins deliver.

use vstd::prelude::*;
use vstd::string::{StringExecFns, StringSliceAdditionalSpecFns};

use crate::marshal;

verus! {

/// Context client API major version hint and attribute.
pub const CONTEXT_VERSION_MAJOR: i32 = 0x00022002;

/// Context client API minor version hint and attribute.
pub const CONTEXT_VERSION_MINOR: i32 = 0x00022003;

/// OpenGL profile hint and attribute.
pub const OPENGL_PROFILE: i32 = 0x00022008;

/// Request core OpenGL profile.
pub const OPENGL_CORE_PROFILE: i32 = 0x00032001;

/// GLFW error.
#[derive(Debug, Clone, Copy, PartialEq, Eq, Structural)]
pub enum Error {
    /// Error when calling `glfwInit`.
    GlfwInit,

    /// Error when calling `glfwCreateWindow`.
    GlfwCreateWindow,

    /// Error when calling `glfwGetProcAddress`.
    GlfwGetProcAddress,

    /// Invalid C string.
    InvalidCString(marshal::InvalidText),
}

impl Error {
    /// A human-readable description of the error.
    pub fn describe(&self) -> (r: &'static str)
        ensures
            r@ == self.spec_describe(),
    {
        match self {
            Error::GlfwInit => "failed to initialize GLFW",
            Error::GlfwCreateWindow => "failed to create GLFW window",
            Error::GlfwGetProcAddress => "failed to get function address",
            Error::InvalidCString(_) => "invalid C string",
        }
    }

    /// The description `describe` returns.
    pub open spec fn spec_describe(&self) -> Seq<char> {
        match self {
            Error::GlfwInit => "failed to initialize GLFW"@,
            Error::GlfwCreateWindow => "failed to create GLFW window"@,
            Error::GlfwGetProcAddress => "failed to get function address"@,
            Error::InvalidCString(_) => "invalid C string"@,
        }
    }
}

/// Error codes.
#[derive(Debug, Clone, Copy, PartialEq, Eq, Structural)]
pub enum ErrorCode {
    /// No error has occurred.
    NoError,
    /// GLFW has not been initialized.
    NotInitialized,
    /// No context is current for this thread.
    NoCurrentContext,
    /// One of the arguments to the function was an invalid enum value.
    InvalidEnum,
    /// One of the arguments to the function was an invalid value.
    InvalidValue,
    /// A memory allocation failed.
    OutOfMemory,
    /// GLFW could not find support for the requested API on the system.
    ApiUnavailable,
    /// The requested OpenGL or OpenGL ES version is not available.
    VersionUnavailable,
    /// A platform-specific error occurred that does not match any of the
    /// more specific categories.
    PlatformError,
    /// The requested format is not supported or available.
    FormatUnavailable,
    /// The specified window does not have an OpenGL or OpenGL ES context.
    NoWindowContext,
    /// Unknown, carrying the raw code for forward compatibility.
    Unknown(i32),
}

impl ErrorCode {
    /// The raw code of each variant; an unknown variant carries its code.
    pub open spec fn spec_to_code(self) -> i32 {
        match self {
            ErrorCode::NoError => 0,
            ErrorCode::NotInitialized => 0x00010001,
            ErrorCode::NoCurrentContext => 0x00010002,
            ErrorCode::InvalidEnum => 0x00010003,
            ErrorCode::InvalidValue => 0x00010004,
            ErrorCode::OutOfMemory => 0x00010005,
            ErrorCode::ApiUnavailable => 0x00010006,
            ErrorCode::VersionUnavailable => 0x00010007,
            ErrorCode::PlatformError => 0x00010008,
            ErrorCode::FormatUnavailable => 0x00010009,
            ErrorCode::NoWindowContext => 0x0001000a,
            ErrorCode::Unknown(v) => v,
        }
    }

    /// Whether a raw code names a variant of its own.
    pub open spec fn is_named_code(c: i32) -> bool {
        c == 0 || 0x00010001 <= c <= 0x0001000a
    }

    /// The variant each raw code decodes to.
    pub open spec fn spec_from_code(c: i32) -> ErrorCode {
        if c == 0 {
            ErrorCode::NoError
        } else if c == 0x00010001 {
            ErrorCode::NotInitialized
        } else if c == 0x00010002 {
            ErrorCode::NoCurrentContext
        } else if c == 0x00010003 {
            ErrorCode::InvalidEnum
        } else if c == 0x00010004 {
            ErrorCode::InvalidValue
        } else if c == 0x00010005 {
            ErrorCode::OutOfMemory
        } else if c == 0x00010006 {
            ErrorCode::ApiUnavailable
        } else if c == 0x00010007 {
            ErrorCode::VersionUnavailable
        } else if c == 0x00010008 {
            ErrorCode::PlatformError
        } else if c == 0x00010009 {
            ErrorCode::FormatUnavailable
        } else if c == 0x0001000a {
            ErrorCode::NoWindowContext
        } else {
            ErrorCode::Unknown(c)
        }
    }

    /// Decodes a raw error code. Never fails: a code outside the table
    /// yields the unknown variant carrying exactly that code.
    pub fn from_code(c: i32) -> (e: ErrorCode)
        ensures
            e == ErrorCode::spec_from_code(c),
    {
        if c == 0 {
            ErrorCode::NoError
        } else if c == 0x00010001 {
            ErrorCode::NotInitialized
        } else if c == 0x00010002 {
            ErrorCode::NoCurrentContext
        } else if c == 0x00010003 {
            ErrorCode::InvalidEnum
        } else if c == 0x00010004 {
            ErrorCode::InvalidValue
        } else if c == 0x00010005 {
            ErrorCode::OutOfMemory
        } else if c == 0x00010006 {
            ErrorCode::ApiUnavailable
        } else if c == 0x00010007 {
            ErrorCode::VersionUnavailable
        } else if c == 0x00010008 {
            ErrorCode::PlatformError
        } else if c == 0x00010009 {
            ErrorCode::FormatUnavailable
        } else if c == 0x0001000a {
            ErrorCode::NoWindowContext
        } else {
            ErrorCode::Unknown(c)
        }
    }

    /// Encodes the variant back to its raw code, losslessly.
    pub fn to_code(self) -> (c: i32)
        ensures
            c == self.spec_to_code(),
    {
        match self {
            ErrorCode::NoError => 0,
            ErrorCode::NotInitialized => 0x00010001,
            ErrorCode::NoCurrentContext => 0x00010002,
            ErrorCode::InvalidEnum => 0x00010003,
            ErrorCode::InvalidValue => 0x00010004,
            ErrorCode::OutOfMemory => 0x00010005,
            ErrorCode::ApiUnavailable => 0x00010006,
            ErrorCode::VersionUnavailable => 0x00010007,
            ErrorCode::PlatformError => 0x00010008,
            ErrorCode::FormatUnavailable => 0x00010009,
            ErrorCode::NoWindowContext => 0x0001000a,
            ErrorCode::Unknown(v) => v,
        }
    }

    /// A human-readable label for the variant.
    pub fn label(&self) -> (r: &'static str)
        ensures
            r@ == self.spec_label(),
    {
        match self {
            ErrorCode::NoError => "No error has occurred",
            ErrorCode::NotInitialized => "GLFW has not been initialized",
            ErrorCode::NoCurrentContext => "No context is current for this thread",
            ErrorCode::InvalidEnum => "One of the arguments to the function was an invalid enum value",
            ErrorCode::InvalidValue => "One of the arguments to the function was an invalid value",
            ErrorCode::OutOfMemory => "A memory allocation failed",
            ErrorCode::ApiUnavailable => "GLFW could not find support for the requested API on the system",
            ErrorCode::VersionUnavailable => "The requested OpenGL or OpenGL ES version is not available",
            ErrorCode::PlatformError => "A platform-specific error occurred that does not match any of the more specific categories",
            ErrorCode::FormatUnavailable => "The requested format is not supported or available",
            ErrorCode::NoWindowContext => "The specified window does not have an OpenGL or OpenGL ES context",
            ErrorCode::Unknown(_) => "Unknown",
        }
    }

    /// Renders the variant for people: a named variant as its label, an
    /// unknown variant as its raw code in hexadecimal.
    pub fn display(&self) -> (r: String)
        ensures
            r@ == self.spec_display(),
    {
        match self {
            ErrorCode::Unknown(v) => {
                proof {
                    reveal_strlit("Unknown (");
                    reveal_strlit("0x");
                    reveal_strlit(")");
                }
                let mut s = String::from_str("Unknown (");
                s.append("0x");
                crate::hex::append_hex(&mut s, #[verifier::truncate] (*v as u32));
                s.append(")");
                proof {
                    assert(s@ =~= self.spec_display());
                }
                s
            },
            _ => String::from_str(self.label()),
        }
    }

    /// The rendering `display` returns.
    pub open spec fn spec_display(&self) -> Seq<char> {
        match self {
            ErrorCode::Unknown(v) => "Unknown ("@ + crate::hex::spec_hex_prefixed(
                (*v as u32) as nat,
            ) + ")"@,
            _ => self.spec_label(),
        }
    }

    /// The label `label` returns.
    pub open spec fn spec_label(&self) -> Seq<char> {
        match self {
            ErrorCode::NoError => "No error has occurred"@,
            ErrorCode::NotInitialized => "GLFW has not been initialized"@,
            ErrorCode::NoCurrentContext => "No context is current for this thread"@,
            ErrorCode::InvalidEnum => "One of the arguments to the function was an invalid enum value"@,
            ErrorCode::InvalidValue => "One of the arguments to the function was an invalid value"@,
            ErrorCode::OutOfMemory => "A memory allocation failed"@,
            ErrorCode::ApiUnavailable => "GLFW could not find support for the requested API on the system"@,
            ErrorCode::VersionUnavailable => "The requested OpenGL or OpenGL ES version is not available"@,
            ErrorCode::PlatformError => "A platform-specific error occurred that does not match any of the more specific categories"@,
            ErrorCode::FormatUnavailable => "The requested format is not supported or available"@,
            ErrorCode::NoWindowContext => "The specified window does not have an OpenGL or OpenGL ES context"@,
            ErrorCode::Unknown(_) => "Unknown"@,
        }
    }
}

/// Every named variant round-trips through its code: decoding what a named
/// variant encodes to yields the same variant back.
pub proof fn lemma_error_code_round_trip(e: ErrorCode)
    requires
        !(e is Unknown),
    ensures
        ErrorCode::spec_from_code(e.spec_to_code()) == e,
{
}

/// Every raw code round-trips: re-encoding a decoded code yields exactly the
/// code, and a code outside the table decodes to the unknown variant
/// carrying exactly that code.
pub proof fn lemma_error_code_raw_round_trip(c: i32)
    ensures
        ErrorCode::spec_from_code(c).spec_to_code() == c,
        !ErrorCode::is_named_code(c) ==> ErrorCode::spec_from_code(c) == ErrorCode::Unknown(c),
{
}

/// A window handle: the raw address of a foreign window object. Carries no
/// ownership; destruction is a separate foreign call.
#[derive(Debug, Clone, Copy, PartialEq, Eq, Hash, Structural)]
pub struct Window(usize);

impl Window {
    /// The raw address the handle wraps.
    pub closed spec fn spec_addr(&self) -> usize {
        self.0
    }

    /// Wraps the raw address of a foreign window object.
    pub fn from_addr(addr: usize) -> (w: Window)
        ensures
            w.spec_addr() == addr,
    {
        Window(addr)
    }

    /// Returns the raw address, for handing back to foreign calls.
    pub fn addr(&self) -> (a: usize)
        ensures
            a == self.spec_addr(),
    {
        self.0
    }
}

/// A monitor handle: the raw address of a foreign monitor object.
#[derive(Debug, Clone, Copy, PartialEq, Eq, Hash, Structural)]
pub struct Monitor(usize);

impl Monitor {
    /// The raw address the handle wraps.
    pub closed spec fn spec_addr(&self) -> usize {
        self.0
    }

    /// Wraps the raw address of a foreign monitor object.
    pub fn from_addr(addr: usize) -> (m: Monitor)
        ensures
            m.spec_addr() == addr,
    {
        Monitor(addr)
    }

    /// Returns the raw address, for handing back to foreign calls.
    pub fn addr(&self) -> (a: usize)
        ensures
            a == self.spec_addr(),
    {
        self.0
    }
}

/// A resolved foreign function address.
#[derive(Debug, Clone, Copy, PartialEq, Eq, Hash, Structural)]
pub struct GlProc(usize);

impl GlProc {
    /// The raw address the handle wraps.
    pub closed spec fn spec_addr(&self) -> usize {
        self.0
    }

    /// Wraps a resolved foreign function address.
    pub fn from_addr(addr: usize) -> (p: GlProc)
        ensures
            p.spec_addr() == addr,
    {
        GlProc(addr)
    }

    /// Returns the raw address, for casting to the entry point's signature.
    pub fn addr(&self) -> (a: usize)
        ensures
            a == self.spec_addr(),
    {
        self.0
    }
}

/// Translates the result of the foreign initialization call: zero means the
/// library failed to initialize.
pub fn init_result(result: i32) -> (r: Result<(), Error>)
    ensures
        r == (if result == 0 {
            Err::<(), Error>(Error::GlfwInit)
        } else {
            Ok::<(), Error>(())
        }),
{
    if result == 0 {
        Err(Error::GlfwInit)
    } else {
        Ok(())
    }
}

/// Marshals a window title for the foreign window-creation call. A title
/// with an embedded null byte is rejected before any foreign call is made.
pub fn create_window_title(title: &str) -> (r: Result<Vec<u8>, Error>)
    ensures
        r is Err <==> marshal::has_nul(title.spec_bytes()),
        match r {
            Ok(v) => v@ == title.spec_bytes().push(0u8),
            Err(e) => e matches Error::InvalidCString(t)
                && t.position < title.spec_bytes().len()
                && title.spec_bytes()[t.position as int] == 0,
        },
{
    match marshal::to_c_bytes(title) {
        Ok(v) => Ok(v),
        Err(t) => Err(Error::InvalidCString(t)),
    }
}

/// Translates the raw result of the foreign window-creation call: a null
/// address means creation failed, any other address is the new window.
pub fn window_from_raw(addr: usize) -> (r: Result<Window, Error>)
    ensures
        r is Err <==> addr == 0,
        r matches Err(e) ==> e == Error::GlfwCreateWindow,
        r matches Ok(w) ==> w.spec_addr() == addr,
{
    if addr == 0 {
        Err(Error::GlfwCreateWindow)
    } else {
        Ok(Window(addr))
    }
}

/// Marshals an entry-point name for the foreign address-resolution call. A
/// name with an embedded null byte is rejected before any foreign call is
/// made.
pub fn proc_name(procname: &str) -> (r: Result<Vec<u8>, Error>)
    ensures
        r is Err <==> marshal::has_nul(procname.spec_bytes()),
        match r {
            Ok(v) => v@ == procname.spec_bytes().push(0u8),
            Err(e) => e matches Error::InvalidCString(t)
                && t.position < procname.spec_bytes().len()
                && procname.spec_bytes()[t.position as int] == 0,
        },
{
    match marshal::to_c_bytes(procname) {
        Ok(v) => Ok(v),
        Err(t) => Err(Error::InvalidCString(t)),
    }
}

/// Translates the raw result of the foreign address-resolution call: a null
/// address means the symbol is unresolvable, any other address is the entry
/// point.
pub fn proc_from_raw(addr: usize) -> (r: Result<GlProc, Error>)
    ensures
        r is Err <==> addr == 0,
        r matches Err(e) ==> e == Error::GlfwGetProcAddress,
        r matches Ok(p) ==> p.spec_addr() == addr,
{
    if addr == 0 {
        Err(Error::GlfwGetProcAddress)
    } else {
        Ok(GlProc(addr))
    }
}

/// Decodes the foreign close-flag query: any non-zero value means the
/// window was asked to close.
pub fn should_close_from_flag(flag: i32) -> (r: bool)
    ensures
        r == (flag != 0),
{
    flag != 0
}

} // verus!

