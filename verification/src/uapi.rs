//! Values of the iommufd uAPI, read from `iommufd_bindings` and
//! `vmm_sys_util`, each with the value that the bindings state.
use vstd::prelude::*;

verus! {

/// The ioctl type byte of iommufd (`';'`).
pub open spec fn spec_iommufd_type() -> u8 {
    59
}

pub open spec fn spec_cmd_destroy() -> u32 {
    128
}

pub open spec fn spec_cmd_ioas_alloc() -> u32 {
    129
}

pub open spec fn spec_cmd_ioas_map() -> u32 {
    133
}

pub open spec fn spec_cmd_ioas_unmap() -> u32 {
    134
}

pub open spec fn spec_cmd_hwpt_alloc() -> u32 {
    137
}

pub open spec fn spec_cmd_get_hw_info() -> u32 {
    138
}

pub open spec fn spec_cmd_hwpt_invalidate() -> u32 {
    141
}

pub open spec fn spec_cmd_viommu_alloc() -> u32 {
    144
}

pub open spec fn spec_cmd_vdevice_alloc() -> u32 {
    145
}

pub open spec fn spec_cmd_veventq_alloc() -> u32 {
    147
}

/// `IOMMU_HWPT_DATA_NONE`: a HWPT allocated without driver data.
pub open spec fn spec_hwpt_data_none() -> u32 {
    0
}

/// `IOMMU_HWPT_DATA_ARM_SMMUV3`: stage-1 HWPT data is an ARM SMMUv3 STE.
pub open spec fn spec_hwpt_data_arm_smmuv3() -> u32 {
    2
}

/// `IOMMU_HWPT_ALLOC_NEST_PARENT`: the HWPT may parent nested HWPTs.
pub open spec fn spec_hwpt_alloc_nest_parent() -> u32 {
    1
}

/// `IOMMU_VIOMMU_TYPE_ARM_SMMUV3`.
pub open spec fn spec_viommu_type_arm_smmuv3() -> u32 {
    1
}

/// `IOMMU_VIOMMU_INVALIDATE_DATA_ARM_SMMUV3`.
pub open spec fn spec_viommu_invalidate_data_arm_smmuv3() -> u32 {
    1
}

/// `IOMMU_VEVENTQ_TYPE_ARM_SMMUV3`.
pub open spec fn spec_veventq_type_arm_smmuv3() -> u32 {
    1
}

/// `IOMMU_VEVENTQ_FLAG_LOST_EVENTS`.
pub open spec fn spec_veventq_flag_lost_events() -> u32 {
    1
}

/// Size in bytes of `struct iommufd_vevent_header`.
pub open spec fn spec_vevent_header_size() -> usize {
    8
}

/// Size in bytes of `struct iommu_vevent_arm_smmuv3`.
pub open spec fn spec_vevent_arm_smmuv3_size() -> usize {
    32
}

/// The request code that `vmm_sys_util::ioctl::ioctl_expr` packs from a
/// direction, a type, a number and a size, each shifted into its field of a
/// 32-bit word.
pub open spec fn spec_ioctl_expr(dir: u32, ty: u32, nr: u32, size: u32) -> u64 {
    ((dir << 30u32) | (ty << 8u32) | (nr << 0u32) | (size << 16u32)) as u64
}

/// `vmm_sys_util::ioctl::ioctl_expr`, which returns
/// `(dir << 30) | (ty << 8) | (nr << 0) | (size << 16)` computed on `u32`
/// and widened to the request type.
#[verifier::external_body]
pub(crate) fn ioctl_expr(dir: u32, ty: u32, nr: u32, size: u32) -> (r: u64)
    ensures
        r == spec_ioctl_expr(dir, ty, nr, size),
{
    vmm_sys_util::ioctl::ioctl_expr(dir, ty, nr, size) as u64
}

/// `vmm_sys_util::ioctl::_IOC_NONE`, the direction of an ioctl that moves
/// no data through its size field: 0.
#[verifier::external_body]
pub(crate) fn ioc_none() -> (r: u32)
    ensures
        r == 0,
{
    vmm_sys_util::ioctl::_IOC_NONE
}

/// `iommufd_bindings::iommufd::IOMMUFD_TYPE`: 59.
#[verifier::external_body]
pub(crate) fn iommufd_type() -> (r: u8)
    ensures
        r == spec_iommufd_type(),
{
    iommufd_bindings::iommufd::IOMMUFD_TYPE
}

/// `iommufd_bindings::iommufd::IOMMUFD_CMD_DESTROY`: 128.
#[verifier::external_body]
pub(crate) fn cmd_destroy() -> (r: u32)
    ensures
        r == spec_cmd_destroy(),
{
    iommufd_bindings::iommufd::IOMMUFD_CMD_DESTROY
}

/// `iommufd_bindings::iommufd::IOMMUFD_CMD_IOAS_ALLOC`: 129.
#[verifier::external_body]
pub(crate) fn cmd_ioas_alloc() -> (r: u32)
    ensures
        r == spec_cmd_ioas_alloc(),
{
    iommufd_bindings::iommufd::IOMMUFD_CMD_IOAS_ALLOC
}

/// `iommufd_bindings::iommufd::IOMMUFD_CMD_IOAS_MAP`: 133.
#[verifier::external_body]
pub(crate) fn cmd_ioas_map() -> (r: u32)
    ensures
        r == spec_cmd_ioas_map(),
{
    iommufd_bindings::iommufd::IOMMUFD_CMD_IOAS_MAP
}

/// `iommufd_bindings::iommufd::IOMMUFD_CMD_IOAS_UNMAP`: 134.
#[verifier::external_body]
pub(crate) fn cmd_ioas_unmap() -> (r: u32)
    ensures
        r == spec_cmd_ioas_unmap(),
{
    iommufd_bindings::iommufd::IOMMUFD_CMD_IOAS_UNMAP
}

/// `iommufd_bindings::iommufd::IOMMUFD_CMD_HWPT_ALLOC`: 137.
#[verifier::external_body]
pub(crate) fn cmd_hwpt_alloc() -> (r: u32)
    ensures
        r == spec_cmd_hwpt_alloc(),
{
    iommufd_bindings::iommufd::IOMMUFD_CMD_HWPT_ALLOC
}

/// `iommufd_bindings::iommufd::IOMMUFD_CMD_GET_HW_INFO`: 138.
#[verifier::external_body]
pub(crate) fn cmd_get_hw_info() -> (r: u32)
    ensures
        r == spec_cmd_get_hw_info(),
{
    iommufd_bindings::iommufd::IOMMUFD_CMD_GET_HW_INFO
}

/// `iommufd_bindings::iommufd::IOMMUFD_CMD_HWPT_INVALIDATE`: 141.
#[verifier::external_body]
pub(crate) fn cmd_hwpt_invalidate() -> (r: u32)
    ensures
        r == spec_cmd_hwpt_invalidate(),
{
    iommufd_bindings::iommufd::IOMMUFD_CMD_HWPT_INVALIDATE
}

/// `iommufd_bindings::iommufd::IOMMUFD_CMD_VIOMMU_ALLOC`: 144.
#[verifier::external_body]
pub(crate) fn cmd_viommu_alloc() -> (r: u32)
    ensures
        r == spec_cmd_viommu_alloc(),
{
    iommufd_bindings::iommufd::IOMMUFD_CMD_VIOMMU_ALLOC
}

/// `iommufd_bindings::iommufd::IOMMUFD_CMD_VDEVICE_ALLOC`: 145.
#[verifier::external_body]
pub(crate) fn cmd_vdevice_alloc() -> (r: u32)
    ensures
        r == spec_cmd_vdevice_alloc(),
{
    iommufd_bindings::iommufd::IOMMUFD_CMD_VDEVICE_ALLOC
}

/// `iommufd_bindings::iommufd::IOMMUFD_CMD_VEVENTQ_ALLOC`: 147.
#[verifier::external_body]
pub(crate) fn cmd_veventq_alloc() -> (r: u32)
    ensures
        r == spec_cmd_veventq_alloc(),
{
    iommufd_bindings::iommufd::IOMMUFD_CMD_VEVENTQ_ALLOC
}

/// `iommufd_bindings::iommufd::iommu_hwpt_data_type_IOMMU_HWPT_DATA_NONE`: 0.
#[verifier::external_body]
pub(crate) fn hwpt_data_none() -> (r: u32)
    ensures
        r == spec_hwpt_data_none(),
{
    iommufd_bindings::iommufd::iommu_hwpt_data_type_IOMMU_HWPT_DATA_NONE
}

/// `iommufd_bindings::iommufd::iommu_hwpt_data_type_IOMMU_HWPT_DATA_ARM_SMMUV3`: 2.
#[verifier::external_body]
pub(crate) fn hwpt_data_arm_smmuv3() -> (r: u32)
    ensures
        r == spec_hwpt_data_arm_smmuv3(),
{
    iommufd_bindings::iommufd::iommu_hwpt_data_type_IOMMU_HWPT_DATA_ARM_SMMUV3
}

/// `iommufd_bindings::iommufd::iommufd_hwpt_alloc_flags_IOMMU_HWPT_ALLOC_NEST_PARENT`: 1.
#[verifier::external_body]
pub(crate) fn hwpt_alloc_nest_parent() -> (r: u32)
    ensures
        r == spec_hwpt_alloc_nest_parent(),
{
    iommufd_bindings::iommufd::iommufd_hwpt_alloc_flags_IOMMU_HWPT_ALLOC_NEST_PARENT
}

/// `iommufd_bindings::iommufd::iommu_viommu_type_IOMMU_VIOMMU_TYPE_ARM_SMMUV3`: 1.
#[verifier::external_body]
pub(crate) fn viommu_type_arm_smmuv3() -> (r: u32)
    ensures
        r == spec_viommu_type_arm_smmuv3(),
{
    iommufd_bindings::iommufd::iommu_viommu_type_IOMMU_VIOMMU_TYPE_ARM_SMMUV3
}

/// `iommufd_bindings::iommufd::iommu_hwpt_invalidate_data_type_IOMMU_VIOMMU_INVALIDATE_DATA_ARM_SMMUV3`: 1.
#[verifier::external_body]
pub(crate) fn viommu_invalidate_data_arm_smmuv3() -> (r: u32)
    ensures
        r == spec_viommu_invalidate_data_arm_smmuv3(),
{
    iommufd_bindings::iommufd::iommu_hwpt_invalidate_data_type_IOMMU_VIOMMU_INVALIDATE_DATA_ARM_SMMUV3
}

/// `iommufd_bindings::iommufd::iommu_veventq_type_IOMMU_VEVENTQ_TYPE_ARM_SMMUV3`: 1.
#[verifier::external_body]
pub(crate) fn veventq_type_arm_smmuv3() -> (r: u32)
    ensures
        r == spec_veventq_type_arm_smmuv3(),
{
    iommufd_bindings::iommufd::iommu_veventq_type_IOMMU_VEVENTQ_TYPE_ARM_SMMUV3
}

/// `iommufd_bindings::iommufd::iommu_veventq_flag_IOMMU_VEVENTQ_FLAG_LOST_EVENTS`: 1.
#[verifier::external_body]
pub(crate) fn veventq_flag_lost_events() -> (r: u32)
    ensures
        r == spec_veventq_flag_lost_events(),
{
    iommufd_bindings::iommufd::iommu_veventq_flag_IOMMU_VEVENTQ_FLAG_LOST_EVENTS
}

/// `std::mem::size_of::<iommufd_bindings::iommufd::iommufd_vevent_header>()`:
/// 8, which the bindings assert at compile time.
#[verifier::external_body]
pub(crate) fn vevent_header_size() -> (r: usize)
    ensures
        r == spec_vevent_header_size(),
{
    std::mem::size_of::<iommufd_bindings::iommufd::iommufd_vevent_header>()
}

/// `std::mem::size_of::<iommufd_bindings::iommufd::iommu_vevent_arm_smmuv3>()`:
/// 32, which the bindings assert at compile time.
#[verifier::external_body]
pub(crate) fn vevent_arm_smmuv3_size() -> (r: usize)
    ensures
        r == spec_vevent_arm_smmuv3_size(),
{
    std::mem::size_of::<iommufd_bindings::iommufd::iommu_vevent_arm_smmuv3>()
}

} // verus!
