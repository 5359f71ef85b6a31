//! The vocabulary shared with the host: WebGL enumerants, the calls a stage
//! can ask for, and what the host reports back.
//!
//! The host keeps the graphics objects themselves (one shader per kind, one
//! program, one framebuffer, one texture, one buffer, one vertex array, the
//! looked-up attribute and uniform locations). A call names them by role, so
//! that every call is a plain value.

use vstd::prelude::*;
use crate::clock::Elapsed;

verus! {

pub const DEPTH_BUFFER_BIT: u32 = 0x0100;

pub const COLOR_BUFFER_BIT: u32 = 0x4000;

pub const TRIANGLES: u32 = 0x0004;

pub const TEXTURE_2D: u32 = 0x0DE1;

pub const UNSIGNED_BYTE: u32 = 0x1401;

pub const FLOAT: u32 = 0x1406;

pub const RGBA: u32 = 0x1908;

pub const LINEAR: u32 = 0x2601;

pub const TEXTURE_MAG_FILTER: u32 = 0x2800;

pub const TEXTURE_MIN_FILTER: u32 = 0x2801;

pub const TEXTURE0: u32 = 0x84C0;

pub const ARRAY_BUFFER: u32 = 0x8892;

pub const STATIC_DRAW: u32 = 0x88E4;

pub const FRAGMENT_SHADER: u32 = 0x8B30;

pub const VERTEX_SHADER: u32 = 0x8B31;

pub const COMPILE_STATUS: u32 = 0x8B81;

pub const LINK_STATUS: u32 = 0x8B82;

pub const COLOR_ATTACHMENT1: u32 = 0x8CE1;

pub const FRAMEBUFFER: u32 = 0x8D40;

/// The two programmable stages of the pipeline.
#[derive(Clone, Copy, Debug, PartialEq, Eq)]
pub enum ShaderKind {
    Vertex,
    Fragment,
}

impl ShaderKind {
    /// The enumerant that selects this stage when a shader object is created.
    pub open spec fn gl_enum_spec(self) -> u32 {
        match self {
            ShaderKind::Vertex => VERTEX_SHADER,
            ShaderKind::Fragment => FRAGMENT_SHADER,
        }
    }

    #[verifier::when_used_as_spec(gl_enum_spec)]
    pub fn gl_enum(self) -> (e: u32)
        ensures
            e == self.gl_enum_spec(),
    {
        match self {
            ShaderKind::Vertex => VERTEX_SHADER,
            ShaderKind::Fragment => FRAGMENT_SHADER,
        }
    }
}

/// The vertex attributes that the program declares.
#[derive(Clone, Copy, Debug, PartialEq, Eq)]
pub enum Attribute {
    Position,
}

impl Attribute {
    /// The attribute's identifier in the shader sources.
    pub open spec fn name_spec(self) -> Seq<char> {
        "position"@
    }

    pub fn name(self) -> (n: &'static str)
        ensures
            n@ == self.name_spec(),
    {
        "position"
    }
}

/// The uniforms that are written before every draw.
#[derive(Clone, Copy, Debug, PartialEq, Eq)]
pub enum Uniform {
    /// A `vec2`: the viewport's width and height in pixels.
    Resolution,
    /// A `float`: the seconds that have passed since start-up.
    Time,
}

impl Uniform {
    /// The uniform's identifier in the shader sources.
    pub open spec fn name_spec(self) -> Seq<char> {
        match self {
            Uniform::Resolution => "u_resolution"@,
            Uniform::Time => "u_time"@,
        }
    }

    pub fn name(self) -> (n: &'static str)
        ensures
            n@ == self.name_spec(),
    {
        match self {
            Uniform::Resolution => "u_resolution",
            Uniform::Time => "u_time",
        }
    }
}

/// One call on the rendering context. Each variant stands for the method of
/// the same name and carries that method's numeric arguments; objects are
/// named by role.
#[derive(Clone, Copy, Debug, PartialEq, Eq)]
pub enum GlCall {
    /// Creates the shader object of `kind`.
    CreateShader { kind: ShaderKind },
    /// Hands the source text of that stage to its shader object.
    ShaderSource { shader: ShaderKind },
    CompileShader { shader: ShaderKind },
    GetShaderParameter { shader: ShaderKind, pname: u32 },
    GetShaderInfoLog { shader: ShaderKind },
    CreateProgram,
    AttachShader { shader: ShaderKind },
    LinkProgram,
    GetProgramParameter { pname: u32 },
    GetProgramInfoLog,
    CreateFramebuffer,
    CreateTexture,
    /// Looks up where the program expects `attribute`.
    GetAttribLocation { attribute: Attribute },
    CreateBuffer,
    /// Binds the quad's buffer to `target`.
    BindBuffer { target: u32 },
    /// Uploads `data`, each coordinate widened to a 32-bit float, into the
    /// buffer bound to `target`.
    BufferData { target: u32, data: [i8; 18], usage: u32 },
    CreateVertexArray,
    BindVertexArray,
    VertexAttribPointer {
        index: u32,
        size: i32,
        data_type: u32,
        normalized: bool,
        stride: i32,
        offset: i32,
    },
    /// Enables the array at the location that was looked up for `attribute`.
    EnableVertexAttribArray { attribute: Attribute },
    UseProgram,
    Viewport { x: i32, y: i32, width: i32, height: i32 },
    ActiveTexture { unit: u32 },
    /// Binds the render target's texture to `target`.
    BindTexture { target: u32 },
    TexParameteri { target: u32, pname: u32, param: i32 },
    /// Allocates storage for the bound texture, without initial pixels.
    TexImage2d {
        target: u32,
        level: i32,
        internal_format: i32,
        width: i32,
        height: i32,
        border: i32,
        format: u32,
        data_type: u32,
    },
    /// Attaches the render target's texture to its framebuffer.
    FramebufferTexture2d { target: u32, attachment: u32, textarget: u32, level: i32 },
    /// Looks up where the program expects `uniform`.
    GetUniformLocation { uniform: Uniform },
    /// Writes a `vec2` uniform; the host converts both components to floats.
    Uniform2fv { uniform: Uniform, v0: u32, v1: u32 },
    /// Writes a `float` uniform: `elapsed` in seconds, as a 32-bit float.
    Uniform1f { uniform: Uniform, elapsed: Elapsed },
    /// Sets the clear colour. A channel holds 0 to 255, 255 for full
    /// intensity.
    ClearColor { red: u8, green: u8, blue: u8, alpha: u8 },
    Clear { mask: u32 },
    DrawArrays { mode: u32, first: i32, count: i32 },
}

/// What the host observed when it performed a call.
#[derive(Clone, Debug, PartialEq, Eq)]
pub enum GlReply {
    /// The call returned, with nothing to report.
    Done,
    /// The call raised an exception.
    Raised,
    /// Whether the object that was asked for exists now.
    Created(bool),
    /// A queried parameter read as a boolean; `None` where it is no boolean.
    Flag(Option<bool>),
    /// A queried log; `None` where the driver holds none.
    Text(Option<String>),
}

} // verus!
