use d3d_types::{
    FenceInfo, Protected, TextureResourceInfo, D3D12_RESOURCE_STATE_COMMON, DXGI_FORMAT_UNKNOWN,
    DXGI_STANDARD_MULTISAMPLE_QUALITY_PATTERN,
};

const RENDER_TARGET: u32 = 0x4;

#[test]
fn from_resource_takes_defaults() {
    let info: TextureResourceInfo<usize, u32> = TextureResourceInfo::from_resource(0x1000);
    assert_eq!(info.resource, 0x1000);
    assert!(info.alloc.is_none());
    assert_eq!(info.resource_state, D3D12_RESOURCE_STATE_COMMON);
    assert_eq!(info.resource_state, 0);
    assert_eq!(info.format, DXGI_FORMAT_UNKNOWN);
    assert_eq!(info.format, 0);
    assert_eq!(info.sample_count, 1);
    assert_eq!(info.level_count, 0);
    assert_eq!(info.sample_quality_pattern, DXGI_STANDARD_MULTISAMPLE_QUALITY_PATTERN);
    assert_eq!(info.sample_quality_pattern, 0xffff_ffff);
    assert_eq!(info.protected, Protected::No);
}

#[test]
fn from_matches_from_resource() {
    let a: TextureResourceInfo<usize, u32> = TextureResourceInfo::from(0x2000);
    let b: TextureResourceInfo<usize, u32> = TextureResourceInfo::from_resource(0x2000);
    assert_eq!(a.resource, b.resource);
    assert_eq!(a.resource_state, b.resource_state);
    assert_eq!(a.format, b.format);
    assert_eq!(a.sample_count, b.sample_count);
    assert_eq!(a.level_count, b.level_count);
    assert_eq!(a.sample_quality_pattern, b.sample_quality_pattern);
    assert_eq!(a.protected, b.protected);
}

#[test]
fn with_state_replaces_only_the_state() {
    let mut info: TextureResourceInfo<usize, u32> = TextureResourceInfo::from_resource(0x3000);
    info.alloc = Some(9);
    info.format = 28;
    info.sample_count = 4;
    info.level_count = 5;
    info.sample_quality_pattern = 2;
    info.protected = Protected::Yes;
    let next = info.with_state(RENDER_TARGET);
    assert_eq!(next.resource_state, RENDER_TARGET);
    assert_eq!(next.resource, 0x3000);
    assert_eq!(next.alloc, Some(9));
    assert_eq!(next.format, 28);
    assert_eq!(next.sample_count, 4);
    assert_eq!(next.level_count, 5);
    assert_eq!(next.sample_quality_pattern, 2);
    assert_eq!(next.protected, Protected::Yes);
}

#[test]
fn with_state_moves_the_owned_resource() {
    // A `Box` stands for an owning pointer: it moves into the new value, and
    // nothing else holds it afterwards.
    let info: TextureResourceInfo<Box<u32>, u32> = TextureResourceInfo::from_resource(Box::new(17));
    let next = info.with_state(RENDER_TARGET);
    assert_eq!(*next.resource, 17);
}

#[test]
fn from_resource_then_with_state_end_to_end() {
    let ptr: usize = 0xdead_0000;
    let info: TextureResourceInfo<usize, u32> = TextureResourceInfo::from_resource(ptr);
    let active = info.with_state(RENDER_TARGET);
    assert_eq!(active.resource_state, RENDER_TARGET);
    assert_eq!(active.resource, ptr);
}

#[test]
fn fence_info_holds_fence_and_value() {
    let fence = FenceInfo { fence: 0x4000usize, value: 12 };
    let copy = fence.clone();
    assert_eq!(copy.fence, 0x4000);
    assert_eq!(copy.value, 12);
}
