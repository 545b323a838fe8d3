//! Verified decisions of the iommufd uAPI wrappers: the ioctl request
//! codes, the requests that build and tear down vIOMMUs and vDevices, the
//! mapping of failed ioctls to errors, and the decoding of ARM SMMUv3
//! virtual events.
use vstd::prelude::*;

pub mod uapi;
pub mod codes;
pub mod error;
pub mod data;
pub mod viommu;
pub mod vdevice;
pub mod vevent;

pub use codes::{
    IommufdCmd, IOMMUFD_GET_HW_INFO, IOMMUFD_HWPT_INVALIDATE, IOMMU_DESTROY, IOMMU_HWPT_ALLOC,
    IOMMU_IOAS_ALLOC, IOMMU_IOAS_MAP, IOMMU_IOAS_UNMAP, IOMMU_VDEVICE_ALLOC, IOMMU_VEVENTQ_ALLOC,
    IOMMU_VIOMMU_ALLOC,
};
pub use data::{
    HwInfoRequest, HwptAllocRequest, HwptInvalidateRequest, IommuHwInfoArmSmmuv3, IommuHwInfoVtd,
    IommuHwptArmSmmuv3, IommuHwptVtdS1, IommuHwptVtdS1Invalidate, IommuViommuArmSmmuv3Invalidate,
    IommufdHwInfoData, IommufdHwptData, IommufdInvalidateData, VdeviceAllocRequest,
    VeventqAllocRequest, ViommuAllocRequest,
};
pub use error::{ioctl_error, ioctl_result, IommufdError};
pub use vdevice::IommufdVDevice;
pub use vevent::{
    decode_arm_smmuv3_events, ArmSmmuv3VEvent, HostByteOrder, IommuVeventArmSmmuv3,
    IommufdVeventHeader,
};
pub use viommu::{
    IommufdVIommu, VIommuObject, VIommuSetup, VIommuSetupProgress, VIommuSetupRequest,
    SMMU_STE_CFG_BYPASS, SMMU_STE_VALID,
};

verus! {

/// The result of the iommufd operations.
pub type Result<T> = std::result::Result<T, IommufdError>;

} // verus!
