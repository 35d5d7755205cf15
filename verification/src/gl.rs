//! OpenGL bindings: the computing half.
//!
//! The foreign graphics calls live outside the library. This module holds
//! the typed handles with their zero sentinels, the debug-message code
//! translation, and the marshalling and result translation that the thin
//! call wrappers perform around each foreign entry point.

use vstd::prelude::*;
use vstd::string::{StringExecFns, StringSliceAdditionalSpecFns};

use crate::marshal;

verus! {

/// Indicates the buffers currently enabled for color writing.
pub const COLOR_BUFFER_BIT: u32 = 0x00004000;

/// Triangles primitive.
pub const TRIANGLES: u32 = 0x0004;

/// 2D texture.
pub const TEXTURE_2D: u32 = 0x0de1;

/// Unsigned integer data type.
pub const UNSIGNED_INT: u32 = 0x1405;

/// Unsigned byte data type.
pub const UNSIGNED_BYTE: u32 = 0x1401;

/// Float data type.
pub const FLOAT: u32 = 0x1406;

/// RGB format.
pub const RGB: u32 = 0x1907;

/// Linear filtering.
pub const LINEAR: u32 = 0x2601;

/// Linearly interpolates between the two closest mipmaps and samples the
/// interpolated level via linear interpolation.
pub const LINEAR_MIPMAP_LINEAR: u32 = 0x2703;

/// Texture magnifying filter.
pub const TEXTURE_MAG_FILTER: u32 = 0x2800;

/// Texture minifying filter.
pub const TEXTURE_MIN_FILTER: u32 = 0x2801;

/// S-axis texture wrapping.
pub const TEXTURE_WRAP_S: u32 = 0x2802;

/// T-axis texture wrapping.
pub const TEXTURE_WRAP_T: u32 = 0x2803;

/// Repeats the texture image.
pub const REPEAT: u32 = 0x2901;

/// Vertex data.
pub const ARRAY_BUFFER: u32 = 0x8892;

/// Indices used for indexed rendering.
pub const ELEMENT_ARRAY_BUFFER: u32 = 0x8893;

/// The data store contents are modified by the application, and used as the
/// source for GL drawing and image specification commands. The data store
/// contents will be modified once and used many times.
pub const STATIC_DRAW: u32 = 0x88e4;

/// Fragment shader type.
pub const FRAGMENT_SHADER: u32 = 0x8b30;

/// Vertex shader type.
pub const VERTEX_SHADER: u32 = 0x8b31;

/// If enabled, debug messages are produced by a debug context.
pub const DEBUG_OUTPUT: u32 = 0x92e0;

/// OpenGL error.
#[derive(Debug, Clone, PartialEq, Eq)]
pub enum Error {
    /// Non-active uniform variable in program.
    NonActiveUniform(String),

    /// Invalid C string.
    InvalidCString(marshal::InvalidText),
}

impl Error {
    /// A human-readable description of the error.
    pub fn describe(&self) -> (r: &'static str)
        ensures
            r@ == self.spec_describe(),
    {
        match self {
            Error::NonActiveUniform(_) => "non-active uniform variable in program",
            Error::InvalidCString(_) => "invalid C string",
        }
    }

    /// The description `describe` returns.
    pub open spec fn spec_describe(&self) -> Seq<char> {
        match self {
            Error::NonActiveUniform(_) => "non-active uniform variable in program"@,
            Error::InvalidCString(_) => "invalid C string"@,
        }
    }
}

/// Shader object.
#[derive(Debug, Clone, Copy, PartialEq, Eq, Structural)]
pub struct Shader(u32);

impl Shader {
    /// The raw name the handle wraps.
    pub closed spec fn spec_raw(&self) -> u32 {
        self.0
    }

    /// Wraps the raw name a foreign creation call returned.
    pub fn from_raw(raw: u32) -> (s: Shader)
        ensures
            s.spec_raw() == raw,
    {
        Shader(raw)
    }

    /// Returns the raw name, for handing back to foreign calls.
    pub fn raw(&self) -> (r: u32)
        ensures
            r == self.spec_raw(),
    {
        self.0
    }
}

/// Program object.
#[derive(Debug, Clone, Copy, PartialEq, Eq, Structural)]
pub struct Program(u32);

impl Program {
    /// The raw name the handle wraps.
    pub closed spec fn spec_raw(&self) -> u32 {
        self.0
    }

    /// Wraps the raw name a foreign creation call returned.
    pub fn from_raw(raw: u32) -> (p: Program)
        ensures
            p.spec_raw() == raw,
    {
        Program(raw)
    }

    /// Returns the raw name, for handing back to foreign calls.
    pub fn raw(&self) -> (r: u32)
        ensures
            r == self.spec_raw(),
    {
        self.0
    }
}

/// Vertex array object.
#[derive(Debug, Clone, Copy, PartialEq, Eq, Structural)]
pub struct VertexArray(u32);

impl VertexArray {
    /// The raw name the handle wraps.
    pub closed spec fn spec_raw(&self) -> u32 {
        self.0
    }

    /// Returns the reserved vertex array object zero: the distinguished
    /// bind-to-nothing sentinel.
    pub fn zero() -> (v: VertexArray)
        ensures
            v.spec_raw() == 0,
    {
        VertexArray(0)
    }

    /// Wraps the raw name a foreign generation call returned.
    pub fn from_raw(raw: u32) -> (v: VertexArray)
        ensures
            v.spec_raw() == raw,
    {
        VertexArray(raw)
    }

    /// Returns the raw name, for handing back to foreign calls.
    pub fn raw(&self) -> (r: u32)
        ensures
            r == self.spec_raw(),
    {
        self.0
    }
}

/// Buffer object.
#[derive(Debug, Clone, Copy, PartialEq, Eq, Structural)]
pub struct Buffer(u32);

impl Buffer {
    /// The raw name the handle wraps.
    pub closed spec fn spec_raw(&self) -> u32 {
        self.0
    }

    /// Returns the reserved buffer object zero: the distinguished
    /// bind-to-nothing sentinel.
    pub fn zero() -> (b: Buffer)
        ensures
            b.spec_raw() == 0,
    {
        Buffer(0)
    }

    /// Wraps the raw name a foreign generation call returned.
    pub fn from_raw(raw: u32) -> (b: Buffer)
        ensures
            b.spec_raw() == raw,
    {
        Buffer(raw)
    }

    /// Returns the raw name, for handing back to foreign calls.
    pub fn raw(&self) -> (r: u32)
        ensures
            r == self.spec_raw(),
    {
        self.0
    }
}

/// Texture object.
#[derive(Debug, Clone, Copy, PartialEq, Eq, Structural)]
pub struct Texture(u32);

impl Texture {
    /// The raw name the handle wraps.
    pub closed spec fn spec_raw(&self) -> u32 {
        self.0
    }

    /// Returns the reserved texture object zero: the distinguished
    /// bind-to-nothing sentinel.
    pub fn zero() -> (t: Texture)
        ensures
            t.spec_raw() == 0,
    {
        Texture(0)
    }

    /// Wraps the raw name a foreign generation call returned.
    pub fn from_raw(raw: u32) -> (t: Texture)
        ensures
            t.spec_raw() == raw,
    {
        Texture(raw)
    }

    /// Returns the raw name, for handing back to foreign calls.
    pub fn raw(&self) -> (r: u32)
        ensures
            r == self.spec_raw(),
    {
        self.0
    }
}

/// The zero buffer handle is one fixed value: repeated zero constructions
/// compare equal, and any handle whose raw name is non-zero — as every
/// handle a foreign generation call allocates is — is distinct from it.
pub proof fn lemma_buffer_zero_sentinel(z1: Buffer, z2: Buffer, g: Buffer)
    requires
        z1.spec_raw() == 0,
        z2.spec_raw() == 0,
        g.spec_raw() != 0,
    ensures
        z1 == z2,
        g != z1,
{
}

/// The zero vertex-array handle is one fixed value, distinct from every
/// handle whose raw name is non-zero.
pub proof fn lemma_vertex_array_zero_sentinel(z1: VertexArray, z2: VertexArray, g: VertexArray)
    requires
        z1.spec_raw() == 0,
        z2.spec_raw() == 0,
        g.spec_raw() != 0,
    ensures
        z1 == z2,
        g != z1,
{
}

/// The zero texture handle is one fixed value, distinct from every handle
/// whose raw name is non-zero.
pub proof fn lemma_texture_zero_sentinel(z1: Texture, z2: Texture, g: Texture)
    requires
        z1.spec_raw() == 0,
        z2.spec_raw() == 0,
        g.spec_raw() != 0,
    ensures
        z1 == z2,
        g != z1,
{
}

/// Uniform location.
#[derive(Debug, Clone, Copy, PartialEq, Eq, Structural)]
pub struct UniformLocation(i32);

impl UniformLocation {
    /// The raw location the handle wraps.
    pub closed spec fn spec_loc(&self) -> i32 {
        self.0
    }

    /// Returns the raw location, for handing back to foreign calls.
    pub fn loc(&self) -> (r: i32)
        ensures
            r == self.spec_loc(),
    {
        self.0
    }
}

/// Texture parameter.
#[derive(Debug, Clone, Copy, PartialEq, Eq, Structural)]
pub enum TexParam {
    /// Integer texture parameter for scalar commands.
    Int(i32),
}

impl TexParam {
    /// The raw value a scalar texture-parameter call takes.
    pub fn value(&self) -> (r: i32)
        ensures
            *self matches TexParam::Int(v) && r == v,
    {
        match self {
            TexParam::Int(v) => *v,
        }
    }
}

/// Debug source.
#[derive(Debug, Clone, Copy, PartialEq, Eq, Structural)]
pub enum DebugSource {
    /// API.
    Api,
    /// Window system.
    WindowSystem,
    /// Shader compiler.
    ShaderCompiler,
    /// Third party.
    ThirdParty,
    /// Application.
    Application,
    /// Other.
    Other,
    /// Unknown, carrying the raw code for forward compatibility.
    Unknown(u32),
}

impl DebugSource {
    /// The raw code of each variant; an unknown variant carries its code.
    pub open spec fn spec_to_code(self) -> u32 {
        match self {
            DebugSource::Api => 0x8246,
            DebugSource::WindowSystem => 0x8247,
            DebugSource::ShaderCompiler => 0x8248,
            DebugSource::ThirdParty => 0x8249,
            DebugSource::Application => 0x824a,
            DebugSource::Other => 0x824b,
            DebugSource::Unknown(v) => v,
        }
    }

    /// Whether a raw code names a variant of its own.
    pub open spec fn is_named_code(c: u32) -> bool {
        0x8246 <= c <= 0x824b
    }

    /// The variant each raw code decodes to.
    pub open spec fn spec_from_code(c: u32) -> DebugSource {
        if c == 0x8246 {
            DebugSource::Api
        } else if c == 0x8247 {
            DebugSource::WindowSystem
        } else if c == 0x8248 {
            DebugSource::ShaderCompiler
        } else if c == 0x8249 {
            DebugSource::ThirdParty
        } else if c == 0x824a {
            DebugSource::Application
        } else if c == 0x824b {
            DebugSource::Other
        } else {
            DebugSource::Unknown(c)
        }
    }

    /// Decodes a raw debug-source code. Never fails: a code outside the
    /// table yields the unknown variant carrying exactly that code.
    pub fn from_code(c: u32) -> (e: DebugSource)
        ensures
            e == DebugSource::spec_from_code(c),
    {
        if c == 0x8246 {
            DebugSource::Api
        } else if c == 0x8247 {
            DebugSource::WindowSystem
        } else if c == 0x8248 {
            DebugSource::ShaderCompiler
        } else if c == 0x8249 {
            DebugSource::ThirdParty
        } else if c == 0x824a {
            DebugSource::Application
        } else if c == 0x824b {
            DebugSource::Other
        } else {
            DebugSource::Unknown(c)
        }
    }

    /// Encodes the variant back to its raw code, losslessly.
    pub fn to_code(self) -> (c: u32)
        ensures
            c == self.spec_to_code(),
    {
        match self {
            DebugSource::Api => 0x8246,
            DebugSource::WindowSystem => 0x8247,
            DebugSource::ShaderCompiler => 0x8248,
            DebugSource::ThirdParty => 0x8249,
            DebugSource::Application => 0x824a,
            DebugSource::Other => 0x824b,
            DebugSource::Unknown(v) => v,
        }
    }

    /// A human-readable label for the variant.
    pub fn label(&self) -> (r: &'static str)
        ensures
            r@ == self.spec_label(),
    {
        match self {
            DebugSource::Api => "API",
            DebugSource::WindowSystem => "Window system",
            DebugSource::ShaderCompiler => "Shader compiler",
            DebugSource::ThirdParty => "Third party",
            DebugSource::Application => "Application",
            DebugSource::Other => "Other",
            DebugSource::Unknown(_) => "Unknown",
        }
    }

    /// Renders the variant for people: a named variant as its label, an
    /// unknown variant as its raw code in hexadecimal.
    pub fn display(&self) -> (r: String)
        ensures
            r@ == self.spec_display(),
    {
        match self {
            DebugSource::Unknown(v) => {
                proof {
                    reveal_strlit("Unknown (");
                    reveal_strlit("0x");
                    reveal_strlit(")");
                }
                let mut s = String::from_str("Unknown (");
                s.append("0x");
                crate::hex::append_hex(&mut s, *v);
                s.append(")");
                proof {
                    assert(s@ =~= self.spec_display());
                }
                s
            },
            _ => String::from_str(self.label()),
        }
    }

    /// The rendering `display` returns.
    pub open spec fn spec_display(&self) -> Seq<char> {
        match self {
            DebugSource::Unknown(v) => "Unknown ("@ + crate::hex::spec_hex_prefixed(*v as nat) + ")"@,
            _ => self.spec_label(),
        }
    }

    /// The label `label` returns.
    pub open spec fn spec_label(&self) -> Seq<char> {
        match self {
            DebugSource::Api => "API"@,
            DebugSource::WindowSystem => "Window system"@,
            DebugSource::ShaderCompiler => "Shader compiler"@,
            DebugSource::ThirdParty => "Third party"@,
            DebugSource::Application => "Application"@,
            DebugSource::Other => "Other"@,
            DebugSource::Unknown(_) => "Unknown"@,
        }
    }
}

/// Every named debug-source variant round-trips through its code.
pub proof fn lemma_debug_source_round_trip(e: DebugSource)
    requires
        !(e is Unknown),
    ensures
        DebugSource::spec_from_code(e.spec_to_code()) == e,
{
}

/// Every raw debug-source code round-trips, and a code outside the table
/// decodes to the unknown variant carrying exactly that code.
pub proof fn lemma_debug_source_raw_round_trip(c: u32)
    ensures
        DebugSource::spec_from_code(c).spec_to_code() == c,
        !DebugSource::is_named_code(c) ==> DebugSource::spec_from_code(c) == DebugSource::Unknown(c),
{
}

/// Debug type.
#[derive(Debug, Clone, Copy, PartialEq, Eq, Structural)]
pub enum DebugType {
    /// Error.
    Error,
    /// Deprecated behavior.
    DeprecatedBehavior,
    /// Undefined behavior.
    UndefinedBehavior,
    /// Portability.
    Portability,
    /// Performance.
    Performance,
    /// Marker.
    Marker,
    /// Push group.
    PushGroup,
    /// Pop group.
    PopGroup,
    /// Other.
    Other,
    /// Unknown, carrying the raw code for forward compatibility.
    Unknown(u32),
}

impl DebugType {
    /// The raw code of each variant; an unknown variant carries its code.
    pub open spec fn spec_to_code(self) -> u32 {
        match self {
            DebugType::Error => 0x824c,
            DebugType::DeprecatedBehavior => 0x824d,
            DebugType::UndefinedBehavior => 0x824e,
            DebugType::Portability => 0x824f,
            DebugType::Performance => 0x8250,
            DebugType::Marker => 0x8268,
            DebugType::PushGroup => 0x8269,
            DebugType::PopGroup => 0x826a,
            DebugType::Other => 0x8251,
            DebugType::Unknown(v) => v,
        }
    }

    /// Whether a raw code names a variant of its own.
    pub open spec fn is_named_code(c: u32) -> bool {
        0x824c <= c <= 0x8251 || 0x8268 <= c <= 0x826a
    }

    /// The variant each raw code decodes to.
    pub open spec fn spec_from_code(c: u32) -> DebugType {
        if c == 0x824c {
            DebugType::Error
        } else if c == 0x824d {
            DebugType::DeprecatedBehavior
        } else if c == 0x824e {
            DebugType::UndefinedBehavior
        } else if c == 0x824f {
            DebugType::Portability
        } else if c == 0x8250 {
            DebugType::Performance
        } else if c == 0x8268 {
            DebugType::Marker
        } else if c == 0x8269 {
            DebugType::PushGroup
        } else if c == 0x826a {
            DebugType::PopGroup
        } else if c == 0x8251 {
            DebugType::Other
        } else {
            DebugType::Unknown(c)
        }
    }

    /// Decodes a raw debug-type code. Never fails: a code outside the table
    /// yields the unknown variant carrying exactly that code.
    pub fn from_code(c: u32) -> (e: DebugType)
        ensures
            e == DebugType::spec_from_code(c),
    {
        if c == 0x824c {
            DebugType::Error
        } else if c == 0x824d {
            DebugType::DeprecatedBehavior
        } else if c == 0x824e {
            DebugType::UndefinedBehavior
        } else if c == 0x824f {
            DebugType::Portability
        } else if c == 0x8250 {
            DebugType::Performance
        } else if c == 0x8268 {
            DebugType::Marker
        } else if c == 0x8269 {
            DebugType::PushGroup
        } else if c == 0x826a {
            DebugType::PopGroup
        } else if c == 0x8251 {
            DebugType::Other
        } else {
            DebugType::Unknown(c)
        }
    }

    /// Encodes the variant back to its raw code, losslessly.
    pub fn to_code(self) -> (c: u32)
        ensures
            c == self.spec_to_code(),
    {
        match self {
            DebugType::Error => 0x824c,
            DebugType::DeprecatedBehavior => 0x824d,
            DebugType::UndefinedBehavior => 0x824e,
            DebugType::Portability => 0x824f,
            DebugType::Performance => 0x8250,
            DebugType::Marker => 0x8268,
            DebugType::PushGroup => 0x8269,
            DebugType::PopGroup => 0x826a,
            DebugType::Other => 0x8251,
            DebugType::Unknown(v) => v,
        }
    }

    /// A human-readable label for the variant.
    pub fn label(&self) -> (r: &'static str)
        ensures
            r@ == self.spec_label(),
    {
        match self {
            DebugType::Error => "Error",
            DebugType::DeprecatedBehavior => "Deprecated behavior",
            DebugType::UndefinedBehavior => "Undefined behavior",
            DebugType::Portability => "Portability",
            DebugType::Performance => "Performance",
            DebugType::Marker => "Marker",
            DebugType::PushGroup => "Push group",
            DebugType::PopGroup => "Pop group",
            DebugType::Other => "Other",
            DebugType::Unknown(_) => "Unknown",
        }
    }

    /// Renders the variant for people: a named variant as its label, an
    /// unknown variant as its raw code in hexadecimal.
    pub fn display(&self) -> (r: String)
        ensures
            r@ == self.spec_display(),
    {
        match self {
            DebugType::Unknown(v) => {
                proof {
                    reveal_strlit("Unknown (");
                    reveal_strlit("0x");
                    reveal_strlit(")");
                }
                let mut s = String::from_str("Unknown (");
                s.append("0x");
                crate::hex::append_hex(&mut s, *v);
                s.append(")");
                proof {
                    assert(s@ =~= self.spec_display());
                }
                s
            },
            _ => String::from_str(self.label()),
        }
    }

    /// The rendering `display` returns.
    pub open spec fn spec_display(&self) -> Seq<char> {
        match self {
            DebugType::Unknown(v) => "Unknown ("@ + crate::hex::spec_hex_prefixed(*v as nat) + ")"@,
            _ => self.spec_label(),
        }
    }

    /// The label `label` returns.
    pub open spec fn spec_label(&self) -> Seq<char> {
        match self {
            DebugType::Error => "Error"@,
            DebugType::DeprecatedBehavior => "Deprecated behavior"@,
            DebugType::UndefinedBehavior => "Undefined behavior"@,
            DebugType::Portability => "Portability"@,
            DebugType::Performance => "Performance"@,
            DebugType::Marker => "Marker"@,
            DebugType::PushGroup => "Push group"@,
            DebugType::PopGroup => "Pop group"@,
            DebugType::Other => "Other"@,
            DebugType::Unknown(_) => "Unknown"@,
        }
    }
}

/// Every named debug-type variant round-trips through its code.
pub proof fn lemma_debug_type_round_trip(e: DebugType)
    requires
        !(e is Unknown),
    ensures
        DebugType::spec_from_code(e.spec_to_code()) == e,
{
}

/// Every raw debug-type code round-trips, and a code outside the table
/// decodes to the unknown variant carrying exactly that code.
pub proof fn lemma_debug_type_raw_round_trip(c: u32)
    ensures
        DebugType::spec_from_code(c).spec_to_code() == c,
        !DebugType::is_named_code(c) ==> DebugType::spec_from_code(c) == DebugType::Unknown(c),
{
}

/// Debug severity.
#[derive(Debug, Clone, Copy, PartialEq, Eq, Structural)]
pub enum DebugSeverity {
    /// High.
    High,
    /// Medium.
    Medium,
    /// Low.
    Low,
    /// Notification.
    Notification,
    /// Unknown, carrying the raw code for forward compatibility.
    Unknown(u32),
}

impl DebugSeverity {
    /// The raw code of each variant; an unknown variant carries its code.
    pub open spec fn spec_to_code(self) -> u32 {
        match self {
            DebugSeverity::High => 0x9146,
            DebugSeverity::Medium => 0x9147,
            DebugSeverity::Low => 0x9148,
            DebugSeverity::Notification => 0x826b,
            DebugSeverity::Unknown(v) => v,
        }
    }

    /// Whether a raw code names a variant of its own.
    pub open spec fn is_named_code(c: u32) -> bool {
        0x9146 <= c <= 0x9148 || c == 0x826b
    }

    /// The variant each raw code decodes to.
    pub open spec fn spec_from_code(c: u32) -> DebugSeverity {
        if c == 0x9146 {
            DebugSeverity::High
        } else if c == 0x9147 {
            DebugSeverity::Medium
        } else if c == 0x9148 {
            DebugSeverity::Low
        } else if c == 0x826b {
            DebugSeverity::Notification
        } else {
            DebugSeverity::Unknown(c)
        }
    }

    /// Decodes a raw debug-severity code. Never fails: a code outside the
    /// table yields the unknown variant carrying exactly that code.
    pub fn from_code(c: u32) -> (e: DebugSeverity)
        ensures
            e == DebugSeverity::spec_from_code(c),
    {
        if c == 0x9146 {
            DebugSeverity::High
        } else if c == 0x9147 {
            DebugSeverity::Medium
        } else if c == 0x9148 {
            DebugSeverity::Low
        } else if c == 0x826b {
            DebugSeverity::Notification
        } else {
            DebugSeverity::Unknown(c)
        }
    }

    /// Encodes the variant back to its raw code, losslessly.
    pub fn to_code(self) -> (c: u32)
        ensures
            c == self.spec_to_code(),
    {
        match self {
            DebugSeverity::High => 0x9146,
            DebugSeverity::Medium => 0x9147,
            DebugSeverity::Low => 0x9148,
            DebugSeverity::Notification => 0x826b,
            DebugSeverity::Unknown(v) => v,
        }
    }

    /// A human-readable label for the variant.
    pub fn label(&self) -> (r: &'static str)
        ensures
            r@ == self.spec_label(),
    {
        match self {
            DebugSeverity::High => "High",
            DebugSeverity::Medium => "Medium",
            DebugSeverity::Low => "Low",
            DebugSeverity::Notification => "Notification",
            DebugSeverity::Unknown(_) => "Unknown",
        }
    }

    /// Renders the variant for people: a named variant as its label, an
    /// unknown variant as its raw code in hexadecimal.
    pub fn display(&self) -> (r: String)
        ensures
            r@ == self.spec_display(),
    {
        match self {
            DebugSeverity::Unknown(v) => {
                proof {
                    reveal_strlit("Unknown (");
                    reveal_strlit("0x");
                    reveal_strlit(")");
                }
                let mut s = String::from_str("Unknown (");
                s.append("0x");
                crate::hex::append_hex(&mut s, *v);
                s.append(")");
                proof {
                    assert(s@ =~= self.spec_display());
                }
                s
            },
            _ => String::from_str(self.label()),
        }
    }

    /// The rendering `display` returns.
    pub open spec fn spec_display(&self) -> Seq<char> {
        match self {
            DebugSeverity::Unknown(v) => "Unknown ("@ + crate::hex::spec_hex_prefixed(*v as nat) + ")"@,
            _ => self.spec_label(),
        }
    }

    /// The label `label` returns.
    pub open spec fn spec_label(&self) -> Seq<char> {
        match self {
            DebugSeverity::High => "High"@,
            DebugSeverity::Medium => "Medium"@,
            DebugSeverity::Low => "Low"@,
            DebugSeverity::Notification => "Notification"@,
            DebugSeverity::Unknown(_) => "Unknown"@,
        }
    }
}

/// Every named debug-severity variant round-trips through its code.
pub proof fn lemma_debug_severity_round_trip(e: DebugSeverity)
    requires
        !(e is Unknown),
    ensures
        DebugSeverity::spec_from_code(e.spec_to_code()) == e,
{
}

/// Every raw debug-severity code round-trips, and a code outside the table
/// decodes to the unknown variant carrying exactly that code.
pub proof fn lemma_debug_severity_raw_round_trip(c: u32)
    ensures
        DebugSeverity::spec_from_code(c).spec_to_code() == c,
        !DebugSeverity::is_named_code(c) ==> DebugSeverity::spec_from_code(c)
            == DebugSeverity::Unknown(c),
{
}

/// Builds the handles a foreign generation call filled in: handle `i`
/// corresponds to raw name `i`, in the order the foreign library assigned.
pub fn buffers_from_raw(ids: &Vec<u32>) -> (r: Vec<Buffer>)
    ensures
        r@.len() == ids@.len(),
        forall|i: int| 0 <= i < ids@.len() ==> (#[trigger] r@[i]).spec_raw() == ids@[i],
{
    let n = ids.len();
    let mut r: Vec<Buffer> = Vec::new();
    let mut i: usize = 0;
    while i < n
        invariant
            n == ids@.len(),
            i <= n,
            r@.len() == i,
            forall|j: int| 0 <= j < i ==> (#[trigger] r@[j]).spec_raw() == ids@[j],
        decreases n - i,
    {
        r.push(Buffer(ids[i]));
        i = i + 1;
    }
    r
}

/// Builds the handles a foreign generation call filled in, in order.
pub fn textures_from_raw(ids: &Vec<u32>) -> (r: Vec<Texture>)
    ensures
        r@.len() == ids@.len(),
        forall|i: int| 0 <= i < ids@.len() ==> (#[trigger] r@[i]).spec_raw() == ids@[i],
{
    let n = ids.len();
    let mut r: Vec<Texture> = Vec::new();
    let mut i: usize = 0;
    while i < n
        invariant
            n == ids@.len(),
            i <= n,
            r@.len() == i,
            forall|j: int| 0 <= j < i ==> (#[trigger] r@[j]).spec_raw() == ids@[j],
        decreases n - i,
    {
        r.push(Texture(ids[i]));
        i = i + 1;
    }
    r
}

/// Builds the handles a foreign generation call filled in, in order.
pub fn vertex_arrays_from_raw(ids: &Vec<u32>) -> (r: Vec<VertexArray>)
    ensures
        r@.len() == ids@.len(),
        forall|i: int| 0 <= i < ids@.len() ==> (#[trigger] r@[i]).spec_raw() == ids@[i],
{
    let n = ids.len();
    let mut r: Vec<VertexArray> = Vec::new();
    let mut i: usize = 0;
    while i < n
        invariant
            n == ids@.len(),
            i <= n,
            r@.len() == i,
            forall|j: int| 0 <= j < i ==> (#[trigger] r@[j]).spec_raw() == ids@[j],
        decreases n - i,
    {
        r.push(VertexArray(ids[i]));
        i = i + 1;
    }
    r
}

/// Lays the raw names of a batch of buffer handles out for a foreign
/// deletion call, preserving order.
pub fn buffer_ids(buffers: &Vec<Buffer>) -> (r: Vec<u32>)
    ensures
        r@.len() == buffers@.len(),
        forall|i: int| 0 <= i < buffers@.len() ==> r@[i] == (#[trigger] buffers@[i]).spec_raw(),
{
    let n = buffers.len();
    let mut r: Vec<u32> = Vec::new();
    let mut i: usize = 0;
    while i < n
        invariant
            n == buffers@.len(),
            i <= n,
            r@.len() == i,
            forall|j: int| 0 <= j < i ==> r@[j] == (#[trigger] buffers@[j]).spec_raw(),
        decreases n - i,
    {
        r.push(buffers[i].raw());
        i = i + 1;
    }
    r
}

/// Lays the raw names of a batch of vertex-array handles out for a foreign
/// deletion call, preserving order.
pub fn vertex_array_ids(arrays: &Vec<VertexArray>) -> (r: Vec<u32>)
    ensures
        r@.len() == arrays@.len(),
        forall|i: int| 0 <= i < arrays@.len() ==> r@[i] == (#[trigger] arrays@[i]).spec_raw(),
{
    let n = arrays.len();
    let mut r: Vec<u32> = Vec::new();
    let mut i: usize = 0;
    while i < n
        invariant
            n == arrays@.len(),
            i <= n,
            r@.len() == i,
            forall|j: int| 0 <= j < i ==> r@[j] == (#[trigger] arrays@[j]).spec_raw(),
        decreases n - i,
    {
        r.push(arrays[i].raw());
        i = i + 1;
    }
    r
}

/// Marshals a uniform name for the foreign location-lookup call. A name
/// with an embedded null byte is rejected before any foreign call is made.
pub fn uniform_name(name: &str) -> (r: Result<Vec<u8>, Error>)
    ensures
        r is Err <==> marshal::has_nul(name.spec_bytes()),
        match r {
            Ok(v) => v@ == name.spec_bytes().push(0u8),
            Err(e) => e matches Error::InvalidCString(t)
                && t.position < name.spec_bytes().len()
                && name.spec_bytes()[t.position as int] == 0,
        },
{
    match marshal::to_c_bytes(name) {
        Ok(v) => Ok(v),
        Err(t) => Err(Error::InvalidCString(t)),
    }
}

/// Translates the raw result of the foreign uniform-location lookup: the
/// not-found sentinel `-1` means the name is not an active uniform of the
/// program, any other value is its location.
pub fn uniform_location_from_raw(loc: i32, name: &str) -> (r: Result<UniformLocation, Error>)
    ensures
        r is Err <==> loc == -1,
        r matches Err(e) ==> e matches Error::NonActiveUniform(s) && s@ == name@,
        r matches Ok(l) ==> l.spec_loc() == loc,
{
    if loc == -1 {
        Err(Error::NonActiveUniform(name.to_owned()))
    } else {
        Ok(UniformLocation(loc))
    }
}

/// Marshals shader sources for the foreign source-upload call: each source
/// becomes its null-terminated bytes, in order. A source with an embedded
/// null byte is rejected before any foreign call is made.
pub fn marshal_sources(sources: &Vec<&str>) -> (r: Result<Vec<Vec<u8>>, Error>)
    ensures
        r is Err <==> exists|i: int|
            0 <= i < sources@.len() && marshal::has_nul((#[trigger] sources@[i]).spec_bytes()),
        match r {
            Ok(vs) => vs@.len() == sources@.len() && forall|i: int|
                0 <= i < sources@.len()
                    ==> (#[trigger] vs@[i])@ == sources@[i].spec_bytes().push(0u8),
            Err(e) => e is InvalidCString,
        },
{
    let n = sources.len();
    let mut vs: Vec<Vec<u8>> = Vec::new();
    let mut i: usize = 0;
    while i < n
        invariant
            n == sources@.len(),
            i <= n,
            vs@.len() == i,
            forall|j: int| 0 <= j < i ==> !marshal::has_nul((#[trigger] sources@[j]).spec_bytes()),
            forall|j: int| 0 <= j < i
                ==> (#[trigger] vs@[j])@ == sources@[j].spec_bytes().push(0u8),
        decreases n - i,
    {
        match marshal::to_c_bytes(sources[i]) {
            Ok(v) => {
                vs.push(v);
            },
            Err(t) => {
                return Err(Error::InvalidCString(t));
            },
        }
        i = i + 1;
    }
    Ok(vs)
}

/// Lays the byte length of each shader source out for the foreign
/// source-upload call, narrowing each to the width the call takes.
pub fn source_lengths(sources: &Vec<&str>) -> (r: Vec<i32>)
    ensures
        r@.len() == sources@.len(),
        forall|i: int| 0 <= i < sources@.len()
            ==> r@[i] == ((#[trigger] sources@[i]).spec_bytes().len() as usize) as i32,
{
    let n = sources.len();
    let mut r: Vec<i32> = Vec::new();
    let mut i: usize = 0;
    while i < n
        invariant
            n == sources@.len(),
            i <= n,
            r@.len() == i,
            forall|j: int| 0 <= j < i
                ==> r@[j] == ((#[trigger] sources@[j]).spec_bytes().len() as usize) as i32,
        decreases n - i,
    {
        let len = sources[i].len();
        r.push(#[verifier::truncate] (len as i32));
        i = i + 1;
    }
    r
}

} // verus!
