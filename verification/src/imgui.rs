//! Dear ImGui bindings: the computing half.
//!
//! The foreign GUI calls live outside the library. This module holds the
//! typed handles, the marshalling of widget labels and formats, and the
//! translation of backend initialization results.

use vstd::prelude::*;
use vstd::string::StringSliceAdditionalSpecFns;

use crate::marshal;

verus! {

/// Do not show input fields in color picker widget.
pub const COLOR_EDIT_FLAGS_NO_INPUTS: i32 = 0x20;

/// Enable keyboard controls.
pub const CONFIG_FLAGS_NAV_ENABLE_KEYBOARD: i32 = 0x1;

/// Enable docking mode.
pub const CONFIG_FLAGS_DOCKING_ENABLE: i32 = 0x80;

/// Always autoresize window.
pub const WINDOW_FLAGS_ALWAYS_AUTORESIZE: i32 = 0x40;

/// Dear ImGui error.
#[derive(Debug, Clone, Copy, PartialEq, Eq, Structural)]
pub enum Error {
    /// Error when calling `ImGui_ImplGlfw_InitForOpenGL`.
    ImGuiImplGlfwInitForOpenGL,

    /// Error when calling `ImGui_ImplOpenGL3_Init`.
    ImGuiImplOpenGL3Init,

    /// Invalid C string.
    InvalidCString(marshal::InvalidText),
}

impl Error {
    /// A human-readable description of the error.
    pub fn describe(&self) -> (r: &'static str)
        ensures
            r@ == self.spec_describe(),
    {
        match self {
            Error::ImGuiImplGlfwInitForOpenGL => "failed to initialize ImGui GLFW backend",
            Error::ImGuiImplOpenGL3Init => "failed to initialize ImGui OpenGL backend",
            Error::InvalidCString(_) => "invalid C string",
        }
    }

    /// The description `describe` returns.
    pub open spec fn spec_describe(&self) -> Seq<char> {
        match self {
            Error::ImGuiImplGlfwInitForOpenGL => "failed to initialize ImGui GLFW backend"@,
            Error::ImGuiImplOpenGL3Init => "failed to initialize ImGui OpenGL backend"@,
            Error::InvalidCString(_) => "invalid C string"@,
        }
    }
}

/// A GUI context handle: the raw address of a foreign context object.
#[derive(Debug, Clone, Copy, PartialEq, Eq, Hash, Structural)]
pub struct Context(usize);

impl Context {
    /// The raw address the handle wraps.
    pub closed spec fn spec_addr(&self) -> usize {
        self.0
    }

    /// Wraps the raw address of a foreign context object.
    pub fn from_addr(addr: usize) -> (c: Context)
        ensures
            c.spec_addr() == addr,
    {
        Context(addr)
    }

    /// Returns the raw address, for handing back to foreign calls.
    pub fn addr(&self) -> (a: usize)
        ensures
            a == self.spec_addr(),
    {
        self.0
    }
}

/// A font-atlas handle: the raw address of a foreign font-atlas object.
#[derive(Debug, Clone, Copy, PartialEq, Eq, Hash, Structural)]
pub struct FontAtlas(usize);

impl FontAtlas {
    /// The raw address the handle wraps.
    pub closed spec fn spec_addr(&self) -> usize {
        self.0
    }

    /// Wraps the raw address of a foreign font-atlas object.
    pub fn from_addr(addr: usize) -> (f: FontAtlas)
        ensures
            f.spec_addr() == addr,
    {
        FontAtlas(addr)
    }

    /// Returns the raw address, for handing back to foreign calls.
    pub fn addr(&self) -> (a: usize)
        ensures
            a == self.spec_addr(),
    {
        self.0
    }
}

/// A draw-data handle: the raw address of the foreign draw data required to
/// render a frame.
#[derive(Debug, Clone, Copy, PartialEq, Eq, Hash, Structural)]
pub struct DrawData(usize);

impl DrawData {
    /// The raw address the handle wraps.
    pub closed spec fn spec_addr(&self) -> usize {
        self.0
    }

    /// Wraps the raw address of foreign draw data.
    pub fn from_addr(addr: usize) -> (d: DrawData)
        ensures
            d.spec_addr() == addr,
    {
        DrawData(addr)
    }

    /// Returns the raw address, for handing back to foreign calls.
    pub fn addr(&self) -> (a: usize)
        ensures
            a == self.spec_addr(),
    {
        self.0
    }
}

/// Marshals a widget label or text for a foreign widget call. A label with
/// an embedded null byte is rejected before any foreign call is made.
pub fn marshal_label(label: &str) -> (r: Result<Vec<u8>, Error>)
    ensures
        r is Err <==> marshal::has_nul(label.spec_bytes()),
        match r {
            Ok(v) => v@ == label.spec_bytes().push(0u8),
            Err(e) => e matches Error::InvalidCString(t)
                && t.position < label.spec_bytes().len()
                && label.spec_bytes()[t.position as int] == 0,
        },
{
    match marshal::to_c_bytes(label) {
        Ok(v) => Ok(v),
        Err(t) => Err(Error::InvalidCString(t)),
    }
}

/// The null-terminated bytes of the slider's default display format, the
/// text `%.3f`.
pub open spec fn default_format_c() -> Seq<u8> {
    seq![37u8, 46u8, 51u8, 102u8, 0u8]
}

/// Marshals a slider display format for the foreign slider call, falling
/// back to the default format when none is given. A format with an embedded
/// null byte is rejected before any foreign call is made.
pub fn marshal_format(format: Option<&str>) -> (r: Result<Vec<u8>, Error>)
    ensures
        match format {
            Some(f) => {
                &&& r is Err <==> marshal::has_nul(f.spec_bytes())
                &&& (r matches Ok(v) ==> v@ == f.spec_bytes().push(0u8))
                &&& (r matches Err(e) ==> e is InvalidCString)
            },
            None => r matches Ok(v) && v@ == default_format_c(),
        },
{
    match format {
        Some(f) => match marshal::to_c_bytes(f) {
            Ok(v) => Ok(v),
            Err(t) => Err(Error::InvalidCString(t)),
        },
        None => {
            let mut v: Vec<u8> = Vec::new();
            v.push(37);
            v.push(46);
            v.push(51);
            v.push(102);
            v.push(0);
            proof {
                assert(v@ =~= default_format_c());
            }
            Ok(v)
        },
    }
}

/// Translates the result of the foreign GLFW-backend initialization call:
/// zero means the backend failed to initialize.
pub fn glfw_backend_init_result(result: i32) -> (r: Result<(), Error>)
    ensures
        r == (if result == 0 {
            Err::<(), Error>(Error::ImGuiImplGlfwInitForOpenGL)
        } else {
            Ok::<(), Error>(())
        }),
{
    if result == 0 {
        Err(Error::ImGuiImplGlfwInitForOpenGL)
    } else {
        Ok(())
    }
}

/// Translates the result of the foreign OpenGL-backend initialization call:
/// zero means the backend failed to initialize.
pub fn opengl_backend_init_result(result: i32) -> (r: Result<(), Error>)
    ensures
        r == (if result == 0 {
            Err::<(), Error>(Error::ImGuiImplOpenGL3Init)
        } else {
            Ok::<(), Error>(())
        }),
{
    if result == 0 {
        Err(Error::ImGuiImplOpenGL3Init)
    } else {
        Ok(())
    }
}

} // verus!
