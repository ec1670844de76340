//! Direct3D 12 backend descriptions for a 2D graphics engine, with the
//! reference-counting discipline of the COM pointers they carry.

mod com;
mod refcount;
mod types;

pub use com::{
    add_ref_op, copies_then_drops, lemma_com_helpers, lemma_copies_then_drops,
    lemma_last_drop_destroys_once, release_op, safe_com_add_ref, safe_com_release,
};
pub use refcount::{count_after, count_after_ops, RefCountOp};

pub use types::{
    lemma_from_resource_with_state, lemma_surface_info_default_equality, DxgiFormat, FenceInfo,
    Protected, ResourceStates, SurfaceInfo, TextureResourceInfo, D3D12_RESOURCE_STATE_COMMON,
    DXGI_FORMAT_UNKNOWN, DXGI_STANDARD_MULTISAMPLE_QUALITY_PATTERN,
};
