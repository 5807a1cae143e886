//! The presentation surface: its configuration, and the ways in which
//! acquiring a frame from it can fail.

use vstd::prelude::*;

verus! {

/// `wgpu::TextureFormat`, the pixel format of a texture. The library picks one
/// from the list that the adapter reports and carries it along; it never looks
/// inside.
#[verifier::external_type_specification]
#[verifier::external_body]
pub struct ExTextureFormat(wgpu::TextureFormat);

/// How frames are handed to the display.
#[derive(Clone, Copy, Debug, PartialEq, Eq, Structural)]
pub enum PresentMode {
    AutoVsync,
    AutoNoVsync,
    /// Frames queue up and are shown one per vertical blank.
    Fifo,
    FifoRelaxed,
    Immediate,
    Mailbox,
}

/// How the alpha channel of the surface is composited with what lies behind
/// the window.
#[derive(Clone, Copy, Debug, PartialEq, Eq, Structural)]
pub enum AlphaMode {
    /// Left to the presentation layer.
    Auto,
    Opaque,
    PreMultiplied,
    PostMultiplied,
    Inherit,
}

/// What the textures of the surface may be used for.
#[derive(Clone, Copy, Debug, PartialEq, Eq, Structural)]
pub struct TextureUsage {
    pub copy_src: bool,
    pub copy_dst: bool,
    pub texture_binding: bool,
    pub storage_binding: bool,
    pub render_attachment: bool,
}

impl TextureUsage {
    /// Use as the colour target of a render pass, and nothing else.
    pub open spec fn render_target() -> TextureUsage {
        TextureUsage {
            copy_src: false,
            copy_dst: false,
            texture_binding: false,
            storage_binding: false,
            render_attachment: true,
        }
    }
}

/// A configuration of the presentation surface.
#[derive(Clone, Copy, Debug, PartialEq)]
pub struct SurfaceConfig {
    pub usage: TextureUsage,
    pub format: wgpu::TextureFormat,
    pub width: u32,
    pub height: u32,
    pub present_mode: PresentMode,
    pub alpha_mode: AlphaMode,
}

impl SurfaceConfig {
    /// A configuration may be applied to a surface only with both dimensions
    /// positive: a back buffer without pixels is not defined.
    pub open spec fn is_valid(self) -> bool {
        self.width > 0 && self.height > 0
    }

    /// The configuration that the runner uses for a surface of the given
    /// format and size: a render target presented in step with the display.
    pub open spec fn presenting(format: wgpu::TextureFormat, width: u32, height: u32)
        -> SurfaceConfig {
        SurfaceConfig {
            usage: TextureUsage::render_target(),
            format,
            width,
            height,
            present_mode: PresentMode::Fifo,
            alpha_mode: AlphaMode::Auto,
        }
    }

    /// This configuration at another size.
    pub open spec fn with_size(self, width: u32, height: u32) -> SurfaceConfig {
        SurfaceConfig { width, height, ..self }
    }

    /// The runner's configuration for a surface of the given format and size,
    /// or `None` when a dimension is zero.
    pub fn new(format: wgpu::TextureFormat, width: u32, height: u32) -> (config: Option<
        SurfaceConfig,
    >)
        ensures
            width > 0 && height > 0 ==> config == Some(
                SurfaceConfig::presenting(format, width, height),
            ),
            width == 0 || height == 0 ==> config is None,
            config matches Some(c) ==> c.is_valid(),
    {
        if width > 0 && height > 0 {
            Some(
                SurfaceConfig {
                    usage: TextureUsage {
                        copy_src: false,
                        copy_dst: false,
                        texture_binding: false,
                        storage_binding: false,
                        render_attachment: true,
                    },
                    format,
                    width,
                    height,
                    present_mode: PresentMode::Fifo,
                    alpha_mode: AlphaMode::Auto,
                },
            )
        } else {
            None
        }
    }

    /// Picks the format to present in and builds the runner's configuration
    /// for it. The format is the first that the adapter reports as supported.
    /// There is no configuration when the adapter reports none or when a
    /// dimension is zero.
    pub fn from_supported(supported: &Vec<wgpu::TextureFormat>, width: u32, height: u32) -> (config:
        Option<SurfaceConfig>)
        ensures
            supported@.len() > 0 && width > 0 && height > 0 ==> config == Some(
                SurfaceConfig::presenting(supported@[0], width, height),
            ),
            supported@.len() == 0 || width == 0 || height == 0 ==> config is None,
            config matches Some(c) ==> c.is_valid(),
    {
        match first_format(supported) {
            Some(format) => SurfaceConfig::new(format, width, height),
            None => None,
        }
    }
}

/// The first of the formats that the adapter reports, if it reports any.
pub fn first_format(supported: &Vec<wgpu::TextureFormat>) -> (format: Option<wgpu::TextureFormat>)
    ensures
        supported@.len() > 0 ==> format == Some(supported@[0]),
        supported@.len() == 0 ==> format is None,
{
    if supported.len() > 0 {
        Some(supported[0])
    } else {
        None
    }
}

/// Why the surface handed out no frame, as the graphics layer reports it.
#[derive(Clone, Copy, Debug, PartialEq, Eq, Structural)]
pub enum SurfaceFault {
    /// Waiting for the next frame took too long.
    Timeout,
    /// The surface no longer matches the window.
    Outdated,
    /// The swap chain is gone and has to be made again.
    Lost,
    /// No memory is left for a new frame.
    OutOfMemory,
}

/// What a failed acquisition means for the run.
#[derive(Clone, Copy, Debug, PartialEq, Eq, Structural)]
pub enum SurfaceError {
    /// The surface is out of step with the window: configuring it again
    /// mends it.
    Recoverable,
    /// Nothing is wrong: the next frame may well succeed.
    Transient,
    /// The run cannot go on.
    Fatal,
}

impl SurfaceFault {
    /// The class of each fault.
    pub open spec fn class(self) -> SurfaceError {
        match self {
            SurfaceFault::Timeout => SurfaceError::Transient,
            SurfaceFault::Outdated => SurfaceError::Recoverable,
            SurfaceFault::Lost => SurfaceError::Recoverable,
            SurfaceFault::OutOfMemory => SurfaceError::Fatal,
        }
    }

    /// Sorts the fault into one of the three classes: a stale or lost surface
    /// is recoverable, a timeout transient, exhausted memory fatal.
    pub fn classify(self) -> (error: SurfaceError)
        ensures
            error == self.class(),
    {
        match self {
            SurfaceFault::Timeout => SurfaceError::Transient,
            SurfaceFault::Outdated | SurfaceFault::Lost => SurfaceError::Recoverable,
            SurfaceFault::OutOfMemory => SurfaceError::Fatal,
        }
    }
}

} // verus!
