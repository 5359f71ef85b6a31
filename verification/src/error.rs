//! What can go wrong. Every failure during start-up is fatal: the host
//! reports the diagnostic and stops.

use vstd::prelude::*;
use crate::gl::ShaderKind;

verus! {

/// The objects and storage that start-up allocates on the graphics device.
#[derive(Clone, Copy, Debug, PartialEq, Eq)]
pub enum Resource {
    Buffer,
    VertexArray,
    Framebuffer,
    Texture,
    TextureStorage,
}

/// Why start-up failed.
#[derive(Clone, Debug, PartialEq, Eq)]
pub enum StartupError {
    /// The host found no drawable surface. Only the host raises this.
    SurfaceAcquisition,
    /// A shader could not be created or did not compile; `message` is the
    /// compiler's text where it gave one.
    ShaderCompile { kind: ShaderKind, message: String },
    /// The program could not be created or did not link; `message` is the
    /// linker's text where it gave one.
    ProgramLink { message: String },
    /// The device did not provide `resource`.
    ResourceAllocation { resource: Resource },
}

/// The model of a [`StartupError`]: the same, with texts as sequences.
pub enum Fault {
    SurfaceAcquisition,
    ShaderCompile { kind: ShaderKind, message: Seq<char> },
    ProgramLink { message: Seq<char> },
    ResourceAllocation { resource: Resource },
}

impl View for StartupError {
    type V = Fault;

    open spec fn view(&self) -> Fault {
        match *self {
            StartupError::SurfaceAcquisition => Fault::SurfaceAcquisition,
            StartupError::ShaderCompile { kind, message } => Fault::ShaderCompile {
                kind,
                message: message@,
            },
            StartupError::ProgramLink { message } => Fault::ProgramLink { message: message@ },
            StartupError::ResourceAllocation { resource } => Fault::ResourceAllocation {
                resource,
            },
        }
    }
}

impl Resource {
    /// What the host reports when the resource is missing.
    pub open spec fn diagnostic(self) -> Seq<char> {
        match self {
            Resource::Buffer => "should have a buffer"@,
            Resource::VertexArray => "should have a vertex array object"@,
            Resource::Framebuffer => "should have a framebuffer"@,
            Resource::Texture => "should have a texture"@,
            Resource::TextureStorage => "expect tex image 2d result"@,
        }
    }
}

impl Fault {
    /// The text for the host's error channel.
    pub open spec fn diagnostic(self) -> Seq<char> {
        match self {
            Fault::SurfaceAcquisition => "should have a canvas in this context"@,
            Fault::ShaderCompile { kind, message } => message,
            Fault::ProgramLink { message } => message,
            Fault::ResourceAllocation { resource } => resource.diagnostic(),
        }
    }
}

impl StartupError {
    /// The text for the host's error channel: the driver's own words for a
    /// shader or program, a fixed phrase otherwise.
    pub fn diagnostic(&self) -> (text: String)
        ensures
            text@ == self@.diagnostic(),
    {
        match self {
            StartupError::SurfaceAcquisition => "should have a canvas in this context".to_owned(),
            StartupError::ShaderCompile { kind, message } => message.clone(),
            StartupError::ProgramLink { message } => message.clone(),
            StartupError::ResourceAllocation { resource } => match resource {
                Resource::Buffer => "should have a buffer".to_owned(),
                Resource::VertexArray => "should have a vertex array object".to_owned(),
                Resource::Framebuffer => "should have a framebuffer".to_owned(),
                Resource::Texture => "should have a texture".to_owned(),
                Resource::TextureStorage => "expect tex image 2d result".to_owned(),
            },
        }
    }
}

/// Why a stage refused an operation.
#[derive(Clone, Copy, Debug, PartialEq, Eq)]
pub enum StageError {
    /// `init` was asked for a second time.
    AlreadyInitialized,
}

} // verus!
