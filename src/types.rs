use vstd::prelude::*;

verus! {

/// A Direct3D 12 resource-state bitmask (`D3D12_RESOURCE_STATES`).
pub type ResourceStates = u32;

/// A DXGI pixel format (`DXGI_FORMAT`).
pub type DxgiFormat = u32;

/// `D3D12_RESOURCE_STATE_COMMON`: the state a resource is in when no other is recorded.
pub const D3D12_RESOURCE_STATE_COMMON: ResourceStates = 0;

/// `DXGI_FORMAT_UNKNOWN`: no format has been given.
pub const DXGI_FORMAT_UNKNOWN: DxgiFormat = 0;

/// `DXGI_STANDARD_MULTISAMPLE_QUALITY_PATTERN`: the standard sample pattern.
pub const DXGI_STANDARD_MULTISAMPLE_QUALITY_PATTERN: u32 = 0xffff_ffff;

/// Whether a GPU resource needs hardware content protection.
#[derive(Clone, Copy, Debug, PartialEq, Eq, Structural)]
pub enum Protected {
    No,
    Yes,
    Unknown,
}

/// The multisampling, format and protection configuration of a GPU surface.
#[derive(Clone, Copy, Debug, PartialEq, Eq, Structural)]
pub struct SurfaceInfo {
    pub sample_count: u32,
    pub level_count: u32,
    pub protected: Protected,
    pub format: DxgiFormat,
    pub sample_quality_pattern: u32,
}

impl SurfaceInfo {
    /// The canonical configuration: no multisampling, no protection, unknown format.
    pub open spec fn spec_default() -> SurfaceInfo {
        SurfaceInfo {
            sample_count: 1,
            level_count: 0,
            protected: Protected::No,
            format: DXGI_FORMAT_UNKNOWN,
            sample_quality_pattern: DXGI_STANDARD_MULTISAMPLE_QUALITY_PATTERN,
        }
    }
}

impl Default for SurfaceInfo {
    fn default() -> (r: SurfaceInfo)
        ensures
            r == SurfaceInfo::spec_default(),
    {
        SurfaceInfo {
            sample_count: 1,
            level_count: 0,
            protected: Protected::No,
            format: DXGI_FORMAT_UNKNOWN,
            sample_quality_pattern: DXGI_STANDARD_MULTISAMPLE_QUALITY_PATTERN,
        }
    }
}

/// A GPU texture resource together with the metadata the engine needs to use it.
///
/// `R` is the owning COM pointer to the resource and `A` the owning handle to
/// the custom allocator that backs it, if there is one.
#[derive(Clone, Debug)]
pub struct TextureResourceInfo<R, A> {
    pub resource: R,
    pub alloc: Option<A>,
    pub resource_state: ResourceStates,
    pub format: DxgiFormat,
    pub sample_count: u32,
    pub level_count: u32,
    pub sample_quality_pattern: u32,
    pub protected: Protected,
}

impl<R, A> TextureResourceInfo<R, A> {
    /// The description of `resource` with every other field at its default.
    pub open spec fn spec_from_resource(resource: R) -> TextureResourceInfo<R, A> {
        TextureResourceInfo {
            resource,
            alloc: None,
            resource_state: D3D12_RESOURCE_STATE_COMMON,
            format: DXGI_FORMAT_UNKNOWN,
            sample_count: 1,
            level_count: 0,
            sample_quality_pattern: DXGI_STANDARD_MULTISAMPLE_QUALITY_PATTERN,
            protected: Protected::No,
        }
    }

    /// This description with only the resource state replaced.
    pub open spec fn spec_with_state(self, resource_state: ResourceStates) -> TextureResourceInfo<
        R,
        A,
    > {
        TextureResourceInfo { resource_state, ..self }
    }

    /// Describes `resource`, taking over the reference it holds, with the
    /// default state, format, sampling and protection and no custom allocator.
    pub fn from_resource(resource: R) -> (r: TextureResourceInfo<R, A>)
        ensures
            r == Self::spec_from_resource(resource),
            r.resource == resource,
            r.alloc is None,
            r.resource_state == D3D12_RESOURCE_STATE_COMMON,
            r.format == DXGI_FORMAT_UNKNOWN,
            r.sample_count == 1,
            r.level_count == 0,
            r.sample_quality_pattern == DXGI_STANDARD_MULTISAMPLE_QUALITY_PATTERN,
            r.protected == Protected::No,
    {
        TextureResourceInfo {
            resource,
            alloc: None,
            resource_state: D3D12_RESOURCE_STATE_COMMON,
            format: DXGI_FORMAT_UNKNOWN,
            sample_count: 1,
            level_count: 0,
            sample_quality_pattern: DXGI_STANDARD_MULTISAMPLE_QUALITY_PATTERN,
            protected: Protected::No,
        }
    }

    /// Consumes this description and returns it with the resource state
    /// replaced; the resource and allocator move over, so no reference is added.
    pub fn with_state(self, resource_state: ResourceStates) -> (r: TextureResourceInfo<R, A>)
        ensures
            r == self.spec_with_state(resource_state),
            r.resource_state == resource_state,
            r.resource == self.resource,
            r.alloc == self.alloc,
            r.format == self.format,
            r.sample_count == self.sample_count,
            r.level_count == self.level_count,
            r.sample_quality_pattern == self.sample_quality_pattern,
            r.protected == self.protected,
    {
        TextureResourceInfo { resource_state, ..self }
    }
}

impl<R, A> From<R> for TextureResourceInfo<R, A> {
    fn from(resource: R) -> (r: TextureResourceInfo<R, A>) {
        Self::from_resource(resource)
    }
}

impl<R, A> vstd::std_specs::convert::FromSpecImpl<R> for TextureResourceInfo<R, A> {
    open spec fn obeys_from_spec() -> bool {
        true
    }

    open spec fn from_spec(resource: R) -> TextureResourceInfo<R, A> {
        Self::spec_from_resource(resource)
    }
}

/// Describing a resource and then setting its state gives a description
/// with that state that still holds the same resource.
pub proof fn lemma_from_resource_with_state<R, A>(resource: R, resource_state: ResourceStates)
    ensures
        TextureResourceInfo::<R, A>::spec_from_resource(resource).spec_with_state(
            resource_state,
        ).resource_state == resource_state,
        TextureResourceInfo::<R, A>::spec_from_resource(resource).spec_with_state(
            resource_state,
        ).resource == resource,
{
}

/// A GPU synchronization fence and the fence value to wait for or signal.
///
/// `F` is the owning COM pointer to the fence.
#[derive(Clone, Debug)]
pub struct FenceInfo<F> {
    pub fence: F,
    pub value: u64,
}

/// Two surface configurations are equal exactly when every field is; in
/// particular the default equals itself and differs from any configuration
/// with a field that is not the default's.
pub proof fn lemma_surface_info_default_equality(s: SurfaceInfo)
    ensures
        SurfaceInfo::spec_default() == SurfaceInfo::spec_default(),
        s == SurfaceInfo::spec_default() <==> (s.sample_count == 1 && s.level_count == 0
            && s.protected == Protected::No && s.format == DXGI_FORMAT_UNKNOWN
            && s.sample_quality_pattern == DXGI_STANDARD_MULTISAMPLE_QUALITY_PATTERN),
{
}

} // verus!
