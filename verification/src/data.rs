//! The payloads and requests of the iommufd uAPI that this crate builds and
//! reads, as plain values.
use vstd::prelude::*;

verus! {

/// `struct iommu_hwpt_arm_smmuv3`: the guest's ARM SMMUv3 stream table
/// entry for a nested stage-1 HWPT.
#[derive(Clone, Copy, Debug, PartialEq, Eq)]
pub struct IommuHwptArmSmmuv3 {
    pub ste: [u64; 2],
}

/// `struct iommu_hwpt_vtd_s1`: Intel VT-d stage-1 page table data.
#[derive(Clone, Copy, Debug, PartialEq, Eq, Structural)]
pub struct IommuHwptVtdS1 {
    pub flags: u64,
    pub pgtbl_addr: u64,
    pub addr_width: u32,
}

/// `struct iommu_viommu_arm_smmuv3_invalidate`: one ARM SMMUv3 invalidation
/// command.
#[derive(Clone, Copy, Debug, PartialEq, Eq)]
pub struct IommuViommuArmSmmuv3Invalidate {
    pub cmd: [u64; 2],
}

/// `struct iommu_hwpt_vtd_s1_invalidate`: one Intel VT-d stage-1
/// invalidation request.
#[derive(Clone, Copy, Debug, PartialEq, Eq, Structural)]
pub struct IommuHwptVtdS1Invalidate {
    pub addr: u64,
    pub npages: u64,
    pub flags: u32,
}

/// `struct iommu_hw_info_arm_smmuv3`: ARM SMMUv3 hardware information.
#[derive(Clone, Copy, Debug, PartialEq, Eq)]
pub struct IommuHwInfoArmSmmuv3 {
    pub flags: u32,
    pub idr: [u32; 6],
    pub iidr: u32,
    pub aidr: u32,
}

/// `struct iommu_hw_info_vtd`: Intel VT-d hardware information.
#[derive(Clone, Copy, Debug, PartialEq, Eq, Structural)]
pub struct IommuHwInfoVtd {
    pub flags: u32,
    pub cap_reg: u64,
    pub ecap_reg: u64,
}

/// An invalidation command for a nested HWPT.
#[derive(Debug, Copy, Clone)]
pub enum IommufdInvalidateData {
    Smmuv3(IommuViommuArmSmmuv3Invalidate),
    Vtd(IommuHwptVtdS1Invalidate),
}

/// The buffer into which the kernel writes a device's hardware information.
#[derive(Debug, Copy, Clone)]
pub enum IommufdHwInfoData {
    Smmuv3(IommuHwInfoArmSmmuv3),
    Vtd(IommuHwInfoVtd),
}

/// The driver data of a stage-1 HWPT.
#[derive(Debug, Copy, Clone)]
pub enum IommufdHwptData {
    Smmuv3(IommuHwptArmSmmuv3),
    Vtd(IommuHwptVtdS1),
}

/// The fields of an `IOMMU_HWPT_ALLOC` request. The driver data, when there
/// is some, is an ARM SMMUv3 STE.
#[derive(Debug, Copy, Clone)]
pub struct HwptAllocRequest {
    pub flags: u32,
    pub dev_id: u32,
    pub pt_id: u32,
    pub data_type: u32,
    pub data: Option<IommuHwptArmSmmuv3>,
}

/// The fields of an `IOMMU_VIOMMU_ALLOC` request.
#[derive(Debug, Copy, Clone, PartialEq, Eq, Structural)]
pub struct ViommuAllocRequest {
    pub viommu_type: u32,
    pub dev_id: u32,
    pub hwpt_id: u32,
}

/// The fields of an `IOMMU_VDEVICE_ALLOC` request.
#[derive(Debug, Copy, Clone, PartialEq, Eq, Structural)]
pub struct VdeviceAllocRequest {
    pub viommu_id: u32,
    pub dev_id: u32,
    pub virt_id: u64,
}

/// The fields of an `IOMMU_HWPT_INVALIDATE` request that carries ARM SMMUv3
/// commands.
#[derive(Debug, Copy, Clone)]
pub struct HwptInvalidateRequest {
    pub hwpt_id: u32,
    pub data_type: u32,
    pub entry_num: u32,
    pub entry: IommuViommuArmSmmuv3Invalidate,
}

/// The fields of an `IOMMU_GET_HW_INFO` request that reads ARM SMMUv3
/// hardware information.
#[derive(Debug, Copy, Clone, PartialEq, Eq, Structural)]
pub struct HwInfoRequest {
    pub dev_id: u32,
}

/// The fields of an `IOMMU_VEVENTQ_ALLOC` request.
#[derive(Debug, Copy, Clone, PartialEq, Eq, Structural)]
pub struct VeventqAllocRequest {
    pub viommu_id: u32,
    pub veventq_type: u32,
    pub veventq_depth: u32,
}

} // verus!
