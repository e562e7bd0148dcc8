//! What the fragment shader reads: the layout that declares a texture and
//! a sampler, and the bind group that puts a texture resource behind them.

use vstd::prelude::*;
use crate::texture::{Extent3d, SamplerDescriptor, TextureResource};

verus! {

/// The shader stages that can see a binding, as a set of bits with the GPU
/// interface's bit values.
#[derive(Clone, Copy, Debug, PartialEq, Eq, Structural)]
pub struct ShaderStages {
    pub bits: u32,
}

/// The vertex stage sees the binding.
pub const SHADER_STAGE_VERTEX: u32 = 1;

/// The fragment stage sees the binding.
pub const SHADER_STAGE_FRAGMENT: u32 = 2;

/// The compute stage sees the binding.
pub const SHADER_STAGE_COMPUTE: u32 = 4;

/// What sampling a texture yields.
#[derive(Clone, Copy, Debug, PartialEq, Eq, Structural)]
pub enum TextureSampleType {
    Float { filterable: bool },
    Depth,
    Sint,
    Uint,
}

/// The shape in which a texture is viewed.
#[derive(Clone, Copy, Debug, PartialEq, Eq, Structural)]
pub enum TextureViewDimension {
    D1,
    D2,
    D2Array,
    Cube,
    CubeArray,
    D3,
}

/// What a sampler binding allows.
#[derive(Clone, Copy, Debug, PartialEq, Eq, Structural)]
pub enum SamplerBindingType {
    Filtering,
    NonFiltering,
    Comparison,
}

/// What a binding holds.
#[derive(Clone, Copy, Debug, PartialEq, Eq, Structural)]
pub enum BindingType {
    Texture { sample_type: TextureSampleType, view_dimension: TextureViewDimension, multisampled: bool },
    Sampler(SamplerBindingType),
}

/// One declared binding: its slot, who sees it and what it holds. None of
/// the bindings here is an array.
#[derive(Clone, Copy, Debug, PartialEq, Eq, Structural)]
pub struct BindGroupLayoutEntry {
    pub binding: u32,
    pub visibility: ShaderStages,
    pub ty: BindingType,
}

/// The bindings that a bind group must fill.
#[derive(Clone, Debug, PartialEq, Eq)]
pub struct BindGroupLayout {
    pub entries: Vec<BindGroupLayoutEntry>,
}

/// Binding 0: a two-dimensional texture that is sampled as filterable
/// floats, not multisampled, visible to the fragment stage.
pub open spec fn texture_binding() -> BindGroupLayoutEntry {
    BindGroupLayoutEntry {
        binding: 0,
        visibility: ShaderStages { bits: SHADER_STAGE_FRAGMENT },
        ty: BindingType::Texture {
            sample_type: TextureSampleType::Float { filterable: true },
            view_dimension: TextureViewDimension::D2,
            multisampled: false,
        },
    }
}

/// Binding 1: a filtering sampler, visible to the fragment stage.
pub open spec fn sampler_binding() -> BindGroupLayoutEntry {
    BindGroupLayoutEntry {
        binding: 1,
        visibility: ShaderStages { bits: SHADER_STAGE_FRAGMENT },
        ty: BindingType::Sampler(SamplerBindingType::Filtering),
    }
}

/// The fixed binding scheme: the texture, then the sampler, and nothing
/// else.
pub open spec fn binding_scheme() -> Seq<BindGroupLayoutEntry> {
    seq![texture_binding(), sampler_binding()]
}

impl BindGroupLayout {
    /// This layout declares the fixed binding scheme, entry for entry.
    pub open spec fn follows_scheme(&self) -> bool {
        self.entries@ == binding_scheme()
    }

    /// Whether this layout declares the fixed binding scheme.
    pub fn matches_scheme(&self) -> (matches: bool)
        ensures
            matches == self.follows_scheme(),
    {
        if self.entries.len() != 2 {
            return false;
        }
        let texture = BindGroupLayoutEntry {
            binding: 0,
            visibility: ShaderStages { bits: SHADER_STAGE_FRAGMENT },
            ty: BindingType::Texture {
                sample_type: TextureSampleType::Float { filterable: true },
                view_dimension: TextureViewDimension::D2,
                multisampled: false,
            },
        };
        let sampler = BindGroupLayoutEntry {
            binding: 1,
            visibility: ShaderStages { bits: SHADER_STAGE_FRAGMENT },
            ty: BindingType::Sampler(SamplerBindingType::Filtering),
        };
        let matches = self.entries[0] == texture && self.entries[1] == sampler;
        proof {
            if matches {
                assert(self.entries@ =~= binding_scheme());
            }
        }
        matches
    }
}

/// Declares the bindings of the fragment shader: exactly the two entries
/// of the fixed binding scheme.
pub fn build_bind_group_layout() -> (layout: BindGroupLayout)
    ensures
        layout.follows_scheme(),
        layout.entries@.len() == 2,
        layout.entries@[0] == texture_binding(),
        layout.entries@[1] == sampler_binding(),
{
    let mut entries: Vec<BindGroupLayoutEntry> = Vec::new();
    entries.push(
        BindGroupLayoutEntry {
            binding: 0,
            visibility: ShaderStages { bits: SHADER_STAGE_FRAGMENT },
            ty: BindingType::Texture {
                sample_type: TextureSampleType::Float { filterable: true },
                view_dimension: TextureViewDimension::D2,
                multisampled: false,
            },
        },
    );
    entries.push(
        BindGroupLayoutEntry {
            binding: 1,
            visibility: ShaderStages { bits: SHADER_STAGE_FRAGMENT },
            ty: BindingType::Sampler(SamplerBindingType::Filtering),
        },
    );
    assert(entries@ =~= binding_scheme());
    BindGroupLayout { entries }
}

/// What stands behind a binding.
#[derive(Clone, Copy, Debug, PartialEq, Eq, Structural)]
pub enum BindingResource {
    /// The default view of the texture.
    TextureView,
    /// The texture's sampler.
    Sampler,
}

/// One filled binding.
#[derive(Clone, Copy, Debug, PartialEq, Eq, Structural)]
pub struct BindGroupEntry {
    pub binding: u32,
    pub resource: BindingResource,
}

/// `resource` is the kind of thing that a binding of type `ty` holds.
pub open spec fn holds(ty: BindingType, resource: BindingResource) -> bool {
    match ty {
        BindingType::Texture { .. } => resource == BindingResource::TextureView,
        BindingType::Sampler(_) => resource == BindingResource::Sampler,
    }
}

/// Every entry fills the binding declared at its place with the kind of
/// resource declared there, and no declared binding is left open.
pub open spec fn fills(layout: Seq<BindGroupLayoutEntry>, entries: Seq<BindGroupEntry>) -> bool {
    &&& entries.len() == layout.len()
    &&& forall|i: int|
        0 <= i < entries.len() ==> {
            &&& (#[trigger] entries[i]).binding == layout[i].binding
            &&& holds(layout[i].ty, entries[i].resource)
        }
}

/// The entries of every bind group here: the texture's view at binding 0,
/// its sampler at binding 1.
pub open spec fn texture_entries() -> Seq<BindGroupEntry> {
    seq![
        BindGroupEntry { binding: 0, resource: BindingResource::TextureView },
        BindGroupEntry { binding: 1, resource: BindingResource::Sampler },
    ]
}

/// Why a bind group was not made.
#[derive(Clone, Copy, Debug, PartialEq, Eq, Structural)]
pub enum BindError {
    /// The layout does not declare the fixed binding scheme.
    LayoutMismatch,
}

/// A texture's view and sampler behind the bindings of the fixed scheme.
pub struct BindGroup {
    entries: Vec<BindGroupEntry>,
    texture_size: Extent3d,
    sampler: SamplerDescriptor,
}

impl BindGroup {
    #[verifier::type_invariant]
    spec fn inv(self) -> bool {
        self.entries@ == texture_entries()
    }

    /// The filled bindings, in the order of the layout.
    pub closed spec fn entries(&self) -> Seq<BindGroupEntry> {
        self.entries@
    }

    /// Size of the texture whose view is bound.
    pub closed spec fn texture_size(&self) -> Extent3d {
        self.texture_size
    }

    /// The sampler that is bound.
    pub closed spec fn sampler(&self) -> SamplerDescriptor {
        self.sampler
    }

    /// The bindings are those of the fixed scheme, filled as it asks.
    pub open spec fn wf(&self) -> bool {
        &&& self.entries() == texture_entries()
        &&& fills(binding_scheme(), self.entries())
    }

    /// The filled bindings, in the order of the layout.
    pub fn bound_entries(&self) -> (entries: &Vec<BindGroupEntry>)
        ensures
            entries@ == self.entries(),
            self.wf(),
    {
        proof {
            use_type_invariant(self);
            lemma_texture_entries_fill_scheme();
        }
        &self.entries
    }

    /// Size of the texture whose view is bound.
    pub fn bound_texture_size(&self) -> (size: Extent3d)
        ensures
            size == self.texture_size(),
    {
        self.texture_size
    }

    /// The sampler that is bound.
    pub fn bound_sampler(&self) -> (sampler: SamplerDescriptor)
        ensures
            sampler == self.sampler(),
    {
        self.sampler
    }
}

/// The texture's view and sampler fill the fixed binding scheme.
pub proof fn lemma_texture_entries_fill_scheme()
    ensures
        fills(binding_scheme(), texture_entries()),
{
}

/// A layout that the texture's view and sampler fill and that is seen by
/// the fragment stage only, as a filterable two-dimensional float texture
/// and a filtering sampler, is the fixed binding scheme.
pub proof fn lemma_scheme_is_the_only_fit(layout: Seq<BindGroupLayoutEntry>)
    requires
        fills(layout, texture_entries()),
        forall|i: int|
            0 <= i < layout.len() ==> (#[trigger] layout[i]).visibility == (ShaderStages {
                bits: SHADER_STAGE_FRAGMENT,
            }),
        forall|i: int|
            0 <= i < layout.len() ==> ((#[trigger] layout[i]).ty matches BindingType::Texture {
                sample_type,
                view_dimension,
                multisampled,
            } ==> sample_type == (TextureSampleType::Float { filterable: true }) && view_dimension
                == TextureViewDimension::D2 && !multisampled),
        forall|i: int|
            0 <= i < layout.len() ==> ((#[trigger] layout[i]).ty matches BindingType::Sampler(kind)
                ==> kind == SamplerBindingType::Filtering),
    ensures
        layout == binding_scheme(),
{
    assert(texture_entries()[0].binding == layout[0].binding);
    assert(texture_entries()[1].binding == layout[1].binding);
    assert(layout =~= binding_scheme());
}

/// Puts the view and the sampler of `texture` behind the bindings that
/// `layout` declares. This succeeds for the fixed binding scheme and for no
/// other layout: nothing is bound against a layout that asks for something
/// else.
pub fn build_bind_group(layout: &BindGroupLayout, texture: &TextureResource) -> (made: Result<
    BindGroup,
    BindError,
>)
    ensures
        layout.follows_scheme() <==> made is Ok,
        made matches Ok(group) ==> {
            &&& group.wf()
            &&& group.entries() == texture_entries()
            &&& fills(layout.entries@, group.entries())
            &&& group.texture_size() == (Extent3d {
                width: texture.width(),
                height: texture.height(),
                depth_or_array_layers: 1,
            })
            &&& group.sampler() == crate::texture::linear_clamped_sampler()
        },
        made matches Err(error) ==> error == BindError::LayoutMismatch,
{
    if !layout.matches_scheme() {
        return Err(BindError::LayoutMismatch);
    }
    let mut entries: Vec<BindGroupEntry> = Vec::new();
    entries.push(BindGroupEntry { binding: 0, resource: BindingResource::TextureView });
    entries.push(BindGroupEntry { binding: 1, resource: BindingResource::Sampler });
    assert(entries@ =~= texture_entries());
    proof {
        lemma_texture_entries_fill_scheme();
    }
    Ok(BindGroup { entries, texture_size: texture.copy_size(), sampler: texture.sampler() })
}

} // verus!
