//! The presentable surface: its capabilities, its configuration and the
//! context that keeps both consistent across resizes.

use vstd::prelude::*;

verus! {

/// `wgpu::TextureFormat`, carried through without looking inside.
#[verifier::external_type_specification]
#[verifier::external_body]
pub struct ExTextureFormat(wgpu::TextureFormat);

/// `wgpu::PresentMode`, carried through without looking inside.
#[verifier::external_type_specification]
#[verifier::external_body]
pub struct ExPresentMode(wgpu::PresentMode);

/// `wgpu::CompositeAlphaMode`, carried through without looking inside.
#[verifier::external_type_specification]
#[verifier::external_body]
pub struct ExCompositeAlphaMode(wgpu::CompositeAlphaMode);

/// Whether the GPU interface counts `format` among the gamma-corrected
/// (sRGB) formats.
pub uninterp spec fn format_is_gamma_corrected(format: wgpu::TextureFormat) -> bool;

/// Calls `wgpu::TextureFormat::is_srgb`, which compares the format with
/// itself stripped of its sRGB suffix. The answer depends on the format
/// alone and is named by `format_is_gamma_corrected`.
#[verifier::external_body]
fn format_is_srgb(format: &wgpu::TextureFormat) -> (srgb: bool)
    ensures
        srgb == format_is_gamma_corrected(*format),
{
    format.is_srgb()
}

/// A width and a height in physical pixels.
#[derive(Clone, Copy, Debug, PartialEq, Eq, Structural)]
pub struct Size {
    pub width: u32,
    pub height: u32,
}

impl Size {
    /// Both dimensions are positive.
    pub open spec fn has_area(self) -> bool {
        self.width > 0 && self.height > 0
    }

    /// The size of `width` by `height` pixels.
    pub fn new(width: u32, height: u32) -> (size: Size)
        ensures
            size == (Size { width, height }),
    {
        Size { width, height }
    }

    /// Whether a surface of this size can be configured.
    pub fn is_drawable(&self) -> (drawable: bool)
        ensures
            drawable == self.has_area(),
    {
        self.width > 0 && self.height > 0
    }
}

/// How a texture may be used, as a set of bits. The bit values are those of
/// the GPU interface, so a host converts without a table.
#[derive(Clone, Copy, Debug, PartialEq, Eq, Structural)]
pub struct TextureUsages {
    pub bits: u32,
}

/// The texture can be copied into.
pub const TEXTURE_USAGE_COPY_DST: u32 = 2;

/// The texture can be bound for sampling.
pub const TEXTURE_USAGE_TEXTURE_BINDING: u32 = 4;

/// The texture can be rendered to.
pub const TEXTURE_USAGE_RENDER_ATTACHMENT: u32 = 16;

/// What a surface offers on the chosen adapter, each list in the adapter's
/// order of preference.
pub struct SurfaceCapabilities {
    pub formats: Vec<wgpu::TextureFormat>,
    pub present_modes: Vec<wgpu::PresentMode>,
    pub alpha_modes: Vec<wgpu::CompositeAlphaMode>,
}

/// What is applied to the surface before it can be drawn to. No additional
/// view formats are ever requested, so no list of them is kept.
#[derive(Clone, Copy, Debug, PartialEq, Eq)]
pub struct SurfaceConfiguration {
    pub usage: TextureUsages,
    pub format: wgpu::TextureFormat,
    pub width: u32,
    pub height: u32,
    pub present_mode: wgpu::PresentMode,
    pub desired_maximum_frame_latency: u32,
    pub alpha_mode: wgpu::CompositeAlphaMode,
}

impl SurfaceConfiguration {
    /// The size this configuration gives the surface.
    pub open spec fn extent(self) -> Size {
        Size { width: self.width, height: self.height }
    }

    /// This configuration at another size, everything else kept.
    pub open spec fn with_size(self, size: Size) -> SurfaceConfiguration {
        SurfaceConfiguration { width: size.width, height: size.height, ..self }
    }
}

/// Why a context could not be set up. Each of these ends startup.
#[derive(Clone, Copy, Debug, PartialEq, Eq, Structural)]
pub enum InitError {
    /// No adapter can present to the surface.
    NoAdapter,
    /// The adapter gave no device and queue.
    NoDevice,
    /// The surface offers no format on this adapter.
    NoSurfaceFormat,
    /// The surface offers no present mode on this adapter.
    NoPresentMode,
    /// The surface offers no alpha-compositing mode on this adapter.
    NoAlphaMode,
    /// The window has no area, so there is nothing to configure.
    ZeroArea,
}

/// `index` is the preferred position in `formats`: that of the first
/// gamma-corrected format, or the first position when no format is
/// gamma-corrected.
pub open spec fn is_preferred(formats: Seq<wgpu::TextureFormat>, index: int) -> bool {
    &&& 0 <= index < formats.len()
    &&& forall|j: int| 0 <= j < index ==> !format_is_gamma_corrected(#[trigger] formats[j])
    &&& format_is_gamma_corrected(formats[index]) || (index == 0 && forall|j: int|
        0 <= j < formats.len() ==> !format_is_gamma_corrected(#[trigger] formats[j]))
}

/// At most one position is preferred.
pub proof fn lemma_preferred_is_unique(formats: Seq<wgpu::TextureFormat>, first: int, second: int)
    requires
        is_preferred(formats, first),
        is_preferred(formats, second),
    ensures
        first == second,
{
    if first < second {
        assert(!format_is_gamma_corrected(formats[first]));
    } else if second < first {
        assert(!format_is_gamma_corrected(formats[second]));
    }
}

/// The format a surface is configured with: the first gamma-corrected one
/// that it offers, or its first format when none is gamma-corrected.
/// A surface that offers no format has none.
pub fn select_surface_format(formats: &Vec<wgpu::TextureFormat>) -> (chosen: Option<
    wgpu::TextureFormat,
>)
    ensures
        formats.len() == 0 <==> chosen is None,
        chosen matches Some(format) ==> exists|i: int|
            is_preferred(formats@, i) && format == formats[i],
{
    if formats.len() == 0 {
        return None;
    }
    let mut i: usize = 0;
    while i < formats.len()
        invariant
            i <= formats.len(),
            forall|j: int| 0 <= j < i ==> !format_is_gamma_corrected(#[trigger] formats[j]),
        decreases formats.len() - i,
    {
        if format_is_srgb(&formats[i]) {
            assert(is_preferred(formats@, i as int));
            return Some(formats[i]);
        }
        i += 1;
    }
    assert(is_preferred(formats@, 0));
    Some(formats[0])
}

/// How much power the adapter should draw.
#[derive(Clone, Copy, Debug, PartialEq, Eq, Structural)]
pub enum PowerPreference {
    Unspecified,
    LowPower,
    HighPerformance,
}

/// What is asked of an adapter: no preference on power, no fallback
/// adapter, and that it can present to the window's surface.
#[derive(Clone, Copy, Debug, PartialEq, Eq, Structural)]
pub struct AdapterRequest {
    pub power_preference: PowerPreference,
    pub force_fallback_adapter: bool,
    pub compatible_with_surface: bool,
}

/// The one request for an adapter that startup makes.
pub fn adapter_request() -> (request: AdapterRequest)
    ensures
        request == (AdapterRequest {
            power_preference: PowerPreference::Unspecified,
            force_fallback_adapter: false,
            compatible_with_surface: true,
        }),
{
    AdapterRequest {
        power_preference: PowerPreference::Unspecified,
        force_fallback_adapter: false,
        compatible_with_surface: true,
    }
}

/// How the device handshake went. It is complete before anything else is
/// built.
pub enum Handshake {
    /// No adapter can present to the surface.
    NoAdapter,
    /// The adapter gave no device and queue.
    NoDevice,
    /// Adapter, device and queue are there; the surface offers this.
    Ready(SurfaceCapabilities),
}

/// What stands in the way of a context, if anything: the first of no
/// adapter, no device, no surface format, no present mode, no alpha mode,
/// and a window without area.
pub open spec fn startup_fault(size: Size, handshake: Handshake) -> Option<InitError> {
    match handshake {
        Handshake::NoAdapter => Some(InitError::NoAdapter),
        Handshake::NoDevice => Some(InitError::NoDevice),
        Handshake::Ready(caps) => if caps.formats.len() == 0 {
            Some(InitError::NoSurfaceFormat)
        } else if caps.present_modes.len() == 0 {
            Some(InitError::NoPresentMode)
        } else if caps.alpha_modes.len() == 0 {
            Some(InitError::NoAlphaMode)
        } else if !size.has_area() {
            Some(InitError::ZeroArea)
        } else {
            None
        },
    }
}

/// The surface's configuration and the size it was last given.
///
/// The two always agree, and the size always has area: a surface is
/// reconfigured, never configured empty.
pub struct DeviceContext {
    config: SurfaceConfiguration,
    size: Size,
}

impl DeviceContext {
    #[verifier::type_invariant]
    spec fn inv(self) -> bool {
        self.wf()
    }

    /// The stored size has area and is the configuration's size.
    pub open spec fn wf(self) -> bool {
        &&& self.size().has_area()
        &&& self.config().extent() == self.size()
    }

    /// The size last given to the surface.
    pub closed spec fn spec_size(&self) -> Size {
        self.size
    }

    /// The configuration last given to the surface.
    pub closed spec fn spec_config(&self) -> SurfaceConfiguration {
        self.config
    }

    /// The context after a resize request: at `new_size` when that has
    /// area, unchanged otherwise.
    pub closed spec fn resized(self, new_size: Size) -> DeviceContext {
        if new_size.has_area() {
            DeviceContext { config: self.config.with_size(new_size), size: new_size }
        } else {
            self
        }
    }

    /// Sets a context up for a window of `size` once the handshake is over.
    /// The format is the preferred one, the present mode and the alpha
    /// mode are the first ones offered, and the surface serves as a render
    /// attachment with no frame-latency wish. What stands in the way is
    /// said by `startup_fault`, and each of its answers ends startup.
    pub fn initialize(size: Size, handshake: &Handshake) -> (made: Result<
        DeviceContext,
        InitError,
    >)
        ensures
            match startup_fault(size, *handshake) {
                Some(fault) => made == Err::<DeviceContext, InitError>(fault),
                None => {
                    &&& handshake matches Handshake::Ready(caps)
                    &&& made matches Ok(context)
                    &&& context.wf()
                    &&& context.size() == size
                    &&& context.config().extent() == size
                    &&& context.config().usage.bits == TEXTURE_USAGE_RENDER_ATTACHMENT
                    &&& context.config().desired_maximum_frame_latency == 0
                    &&& context.config().present_mode == caps.present_modes[0]
                    &&& context.config().alpha_mode == caps.alpha_modes[0]
                    &&& exists|i: int|
                        is_preferred(caps.formats@, i) && context.config().format
                            == caps.formats[i]
                },
            },
    {
        let caps = match handshake {
            Handshake::NoAdapter => {
                return Err(InitError::NoAdapter);
            },
            Handshake::NoDevice => {
                return Err(InitError::NoDevice);
            },
            Handshake::Ready(caps) => caps,
        };
        let format = match select_surface_format(&caps.formats) {
            Some(format) => format,
            None => {
                return Err(InitError::NoSurfaceFormat);
            },
        };
        if caps.present_modes.len() == 0 {
            return Err(InitError::NoPresentMode);
        }
        if caps.alpha_modes.len() == 0 {
            return Err(InitError::NoAlphaMode);
        }
        if !size.is_drawable() {
            return Err(InitError::ZeroArea);
        }
        let config = SurfaceConfiguration {
            usage: TextureUsages { bits: TEXTURE_USAGE_RENDER_ATTACHMENT },
            format,
            width: size.width,
            height: size.height,
            present_mode: caps.present_modes[0],
            desired_maximum_frame_latency: 0,
            alpha_mode: caps.alpha_modes[0],
        };
        Ok(DeviceContext { config, size })
    }

    /// The size last given to the surface.
    #[verifier::when_used_as_spec(spec_size)]
    pub fn size(&self) -> (size: Size)
        ensures
            size == self.spec_size(),
            self.wf(),
            size.has_area(),
    {
        proof {
            use_type_invariant(self);
        }
        self.size
    }

    /// The configuration last given to the surface.
    #[verifier::when_used_as_spec(spec_config)]
    pub fn config(&self) -> (config: SurfaceConfiguration)
        ensures
            config == self.spec_config(),
            self.wf(),
            config.extent() == self.size(),
    {
        proof {
            use_type_invariant(self);
        }
        self.config
    }

    /// Stores `size` and hands back the configuration to apply to the
    /// surface. A size without area cannot be configured.
    pub fn configure(&mut self, size: Size) -> (applied: SurfaceConfiguration)
        requires
            size.has_area(),
        ensures
            final(self).wf(),
            *final(self) == old(self).resized(size),
            final(self).size() == size,
            final(self).config() == old(self).config().with_size(size),
            applied == final(self).config(),
    {
        let config = SurfaceConfiguration {
            usage: self.config.usage,
            format: self.config.format,
            width: size.width,
            height: size.height,
            present_mode: self.config.present_mode,
            desired_maximum_frame_latency: self.config.desired_maximum_frame_latency,
            alpha_mode: self.config.alpha_mode,
        };
        *self = DeviceContext { config, size };
        config
    }

    /// Reacts to a new window size. With area, the size is stored and the
    /// configuration to apply comes back; with a zero dimension nothing
    /// changes and nothing is to be applied.
    pub fn resize(&mut self, new_size: Size) -> (applied: Option<SurfaceConfiguration>)
        ensures
            final(self).wf(),
            *final(self) == old(self).resized(new_size),
            new_size.has_area() ==> {
                &&& final(self).size() == new_size
                &&& final(self).config() == old(self).config().with_size(new_size)
                &&& applied == Some(final(self).config())
            },
            !new_size.has_area() ==> {
                &&& *final(self) == *old(self)
                &&& applied is None
            },
    {
        proof {
            use_type_invariant(&*self);
        }
        if new_size.is_drawable() {
            Some(self.configure(new_size))
        } else {
            None
        }
    }
}

/// A resize to a size with area stores exactly that size, in the context
/// and in the configuration, and touches nothing else.
pub proof fn lemma_resize_takes_the_size(context: DeviceContext, size: Size)
    requires
        size.has_area(),
    ensures
        context.resized(size).wf(),
        context.resized(size).size() == size,
        context.resized(size).config() == context.config().with_size(size),
        context.resized(size).config().extent() == size,
        context.resized(size).config().format == context.config().format,
{
}

/// A resize to a size with a zero dimension changes nothing.
pub proof fn lemma_resize_without_area_is_noop(context: DeviceContext, size: Size)
    requires
        !size.has_area(),
    ensures
        context.resized(size) == context,
{
}

/// Resizing twice to the same size leaves what resizing once leaves.
pub proof fn lemma_resize_idempotent(context: DeviceContext, size: Size)
    ensures
        context.resized(size).resized(size) == context.resized(size),
{
}

/// Resizing a context to the size it already has changes nothing.
pub proof fn lemma_resize_to_current_size(context: DeviceContext)
    requires
        context.wf(),
    ensures
        context.resized(context.size()) == context,
{
}

} // verus!
