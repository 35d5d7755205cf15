//! Utilities for creating demos: bindings to a windowing library, an
//! OpenGL-style graphics API and an immediate-mode GUI library, plus a small
//! image-decoding helper.
//!
//! This crate holds the part of the bindings that computes: argument
//! marshalling, enum/code translation, opaque handles with their zero
//! sentinels, the callback registry and the function-resolution cache. The
//! foreign calls themselves live outside the library and exchange plain
//! values with it.

use vstd::prelude::*;

pub mod gl;
pub mod glfw;
pub mod hex;
pub mod imgui;
pub mod marshal;
pub mod registry;
pub mod resolver;
pub mod stb_image;

verus! {

/// This error type aggregates the rest of the errors used by the crate.
#[derive(Debug, Clone, PartialEq, Eq)]
pub enum Error {
    /// GLFW error.
    Glfw(glfw::Error),

    /// OpenGL error.
    Gl(gl::Error),

    /// Dear ImGui error.
    ImGui(imgui::Error),

    /// stb_image error.
    StbImage(stb_image::Error),
}

impl Error {
    /// A human-readable description of the error's origin.
    pub fn describe(&self) -> (r: &'static str)
        ensures
            r@ == self.spec_describe(),
    {
        match self {
            Error::Glfw(_) => "GLFW error",
            Error::Gl(_) => "OpenGL error",
            Error::ImGui(_) => "Dear ImGui error",
            Error::StbImage(_) => "stb_image error",
        }
    }

    /// The description `describe` returns.
    pub open spec fn spec_describe(&self) -> Seq<char> {
        match self {
            Error::Glfw(_) => "GLFW error"@,
            Error::Gl(_) => "OpenGL error"@,
            Error::ImGui(_) => "Dear ImGui error"@,
            Error::StbImage(_) => "stb_image error"@,
        }
    }
}

impl From<glfw::Error> for Error {
    fn from(err: glfw::Error) -> (r: Error) {
        Error::Glfw(err)
    }
}

impl vstd::std_specs::convert::FromSpecImpl<glfw::Error> for Error {
    open spec fn obeys_from_spec() -> bool {
        true
    }

    open spec fn from_spec(err: glfw::Error) -> Error {
        Error::Glfw(err)
    }
}

impl From<gl::Error> for Error {
    fn from(err: gl::Error) -> (r: Error) {
        Error::Gl(err)
    }
}

impl vstd::std_specs::convert::FromSpecImpl<gl::Error> for Error {
    open spec fn obeys_from_spec() -> bool {
        true
    }

    open spec fn from_spec(err: gl::Error) -> Error {
        Error::Gl(err)
    }
}

impl From<imgui::Error> for Error {
    fn from(err: imgui::Error) -> (r: Error) {
        Error::ImGui(err)
    }
}

impl vstd::std_specs::convert::FromSpecImpl<imgui::Error> for Error {
    open spec fn obeys_from_spec() -> bool {
        true
    }

    open spec fn from_spec(err: imgui::Error) -> Error {
        Error::ImGui(err)
    }
}

impl From<stb_image::Error> for Error {
    fn from(err: stb_image::Error) -> (r: Error) {
        Error::StbImage(err)
    }
}

impl vstd::std_specs::convert::FromSpecImpl<stb_image::Error> for Error {
    open spec fn obeys_from_spec() -> bool {
        true
    }

    open spec fn from_spec(err: stb_image::Error) -> Error {
        Error::StbImage(err)
    }
}

} // verus!
