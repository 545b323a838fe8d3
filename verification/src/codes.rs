//! Request codes of the iommufd ioctls.
use vstd::prelude::*;
use crate::uapi::{
    cmd_destroy, cmd_get_hw_info, cmd_hwpt_alloc, cmd_hwpt_invalidate, cmd_ioas_alloc, cmd_ioas_map, cmd_ioas_unmap, cmd_vdevice_alloc, cmd_veventq_alloc, cmd_viommu_alloc, ioc_none, ioctl_expr, iommufd_type, spec_cmd_destroy, spec_cmd_get_hw_info, spec_cmd_hwpt_alloc, spec_cmd_hwpt_invalidate, spec_cmd_ioas_alloc, spec_cmd_ioas_map, spec_cmd_ioas_unmap, spec_cmd_vdevice_alloc, spec_cmd_veventq_alloc, spec_cmd_viommu_alloc, spec_ioctl_expr, spec_iommufd_type,
};

verus! {

/// The request code of the iommufd ioctl with command number `nr`: an ioctl
/// of iommufd's type that moves no data through its size field.
pub open spec fn spec_iommufd_io(nr: u32) -> u64 {
    spec_ioctl_expr(0, spec_iommufd_type() as u32, nr, 0)
}

fn iommufd_io(nr: u32) -> (r: u64)
    ensures
        r == spec_iommufd_io(nr),
{
    let dir = ioc_none();
    let ty = iommufd_type();
    ioctl_expr(dir, ty as u32, nr, 0)
}

/// An iommufd request code holds the command number in its low byte and
/// iommufd's type byte above it; direction and size are zero.
pub proof fn lemma_iommufd_io_fields(nr: u32)
    requires
        nr < 256,
    ensures
        spec_iommufd_io(nr) == 59 * 256 + nr,
        spec_iommufd_io(nr) % 256 == nr,
        spec_iommufd_io(nr) / 256 == spec_iommufd_type(),
{
    let ty: u32 = 59;
    assert(((0u32 << 30u32) | (ty << 8u32) | (nr << 0u32) | (0u32 << 16u32)) as u64
        == 59 * 256 + nr) by (bit_vector)
        requires
            ty == 59,
            nr < 256,
    ;
}

/// `IOMMU_DESTROY`.
#[allow(non_snake_case)]
pub fn IOMMU_DESTROY() -> (r: u64)
    ensures
        r == spec_iommufd_io(spec_cmd_destroy()),
        r == 15232,
{
    proof {
        lemma_iommufd_io_fields(spec_cmd_destroy());
    }
    iommufd_io(cmd_destroy())
}

/// `IOMMU_IOAS_ALLOC`.
#[allow(non_snake_case)]
pub fn IOMMU_IOAS_ALLOC() -> (r: u64)
    ensures
        r == spec_iommufd_io(spec_cmd_ioas_alloc()),
        r == 15233,
{
    proof {
        lemma_iommufd_io_fields(spec_cmd_ioas_alloc());
    }
    iommufd_io(cmd_ioas_alloc())
}

/// `IOMMU_IOAS_MAP`.
#[allow(non_snake_case)]
pub fn IOMMU_IOAS_MAP() -> (r: u64)
    ensures
        r == spec_iommufd_io(spec_cmd_ioas_map()),
        r == 15237,
{
    proof {
        lemma_iommufd_io_fields(spec_cmd_ioas_map());
    }
    iommufd_io(cmd_ioas_map())
}

/// `IOMMU_IOAS_UNMAP`.
#[allow(non_snake_case)]
pub fn IOMMU_IOAS_UNMAP() -> (r: u64)
    ensures
        r == spec_iommufd_io(spec_cmd_ioas_unmap()),
        r == 15238,
{
    proof {
        lemma_iommufd_io_fields(spec_cmd_ioas_unmap());
    }
    iommufd_io(cmd_ioas_unmap())
}

/// `IOMMU_HWPT_ALLOC`.
#[allow(non_snake_case)]
pub fn IOMMU_HWPT_ALLOC() -> (r: u64)
    ensures
        r == spec_iommufd_io(spec_cmd_hwpt_alloc()),
        r == 15241,
{
    proof {
        lemma_iommufd_io_fields(spec_cmd_hwpt_alloc());
    }
    iommufd_io(cmd_hwpt_alloc())
}

/// `IOMMU_GET_HW_INFO`.
#[allow(non_snake_case)]
pub fn IOMMUFD_GET_HW_INFO() -> (r: u64)
    ensures
        r == spec_iommufd_io(spec_cmd_get_hw_info()),
        r == 15242,
{
    proof {
        lemma_iommufd_io_fields(spec_cmd_get_hw_info());
    }
    iommufd_io(cmd_get_hw_info())
}

/// `IOMMU_HWPT_INVALIDATE`.
#[allow(non_snake_case)]
pub fn IOMMUFD_HWPT_INVALIDATE() -> (r: u64)
    ensures
        r == spec_iommufd_io(spec_cmd_hwpt_invalidate()),
        r == 15245,
{
    proof {
        lemma_iommufd_io_fields(spec_cmd_hwpt_invalidate());
    }
    iommufd_io(cmd_hwpt_invalidate())
}

/// `IOMMU_VIOMMU_ALLOC`.
#[allow(non_snake_case)]
pub fn IOMMU_VIOMMU_ALLOC() -> (r: u64)
    ensures
        r == spec_iommufd_io(spec_cmd_viommu_alloc()),
        r == 15248,
{
    proof {
        lemma_iommufd_io_fields(spec_cmd_viommu_alloc());
    }
    iommufd_io(cmd_viommu_alloc())
}

/// `IOMMU_VDEVICE_ALLOC`.
#[allow(non_snake_case)]
pub fn IOMMU_VDEVICE_ALLOC() -> (r: u64)
    ensures
        r == spec_iommufd_io(spec_cmd_vdevice_alloc()),
        r == 15249,
{
    proof {
        lemma_iommufd_io_fields(spec_cmd_vdevice_alloc());
    }
    iommufd_io(cmd_vdevice_alloc())
}

/// `IOMMU_VEVENTQ_ALLOC`.
#[allow(non_snake_case)]
pub fn IOMMU_VEVENTQ_ALLOC() -> (r: u64)
    ensures
        r == spec_iommufd_io(spec_cmd_veventq_alloc()),
        r == 15251,
{
    proof {
        lemma_iommufd_io_fields(spec_cmd_veventq_alloc());
    }
    iommufd_io(cmd_veventq_alloc())
}

/// The iommufd ioctls that this crate issues.
#[derive(Clone, Copy, Debug, PartialEq, Eq, Structural)]
pub enum IommufdCmd {
    Destroy,
    IoasAlloc,
    IoasMap,
    IoasUnmap,
    HwptAlloc,
    GetHwInfo,
    HwptInvalidate,
    ViommuAlloc,
    VdeviceAlloc,
    VeventqAlloc,
}

impl IommufdCmd {
    /// The uAPI command number of the ioctl.
    pub open spec fn spec_nr(self) -> u32 {
        match self {
            IommufdCmd::Destroy => spec_cmd_destroy(),
            IommufdCmd::IoasAlloc => spec_cmd_ioas_alloc(),
            IommufdCmd::IoasMap => spec_cmd_ioas_map(),
            IommufdCmd::IoasUnmap => spec_cmd_ioas_unmap(),
            IommufdCmd::HwptAlloc => spec_cmd_hwpt_alloc(),
            IommufdCmd::GetHwInfo => spec_cmd_get_hw_info(),
            IommufdCmd::HwptInvalidate => spec_cmd_hwpt_invalidate(),
            IommufdCmd::ViommuAlloc => spec_cmd_viommu_alloc(),
            IommufdCmd::VdeviceAlloc => spec_cmd_vdevice_alloc(),
            IommufdCmd::VeventqAlloc => spec_cmd_veventq_alloc(),
        }
    }

    /// The request code to pass to `ioctl` for this command.
    pub fn request_code(&self) -> (r: u64)
        ensures
            r == spec_iommufd_io(self.spec_nr()),
            *self == IommufdCmd::Destroy ==> r == 15232,
            *self == IommufdCmd::IoasAlloc ==> r == 15233,
            *self == IommufdCmd::IoasMap ==> r == 15237,
            *self == IommufdCmd::IoasUnmap ==> r == 15238,
            *self == IommufdCmd::HwptAlloc ==> r == 15241,
            *self == IommufdCmd::GetHwInfo ==> r == 15242,
            *self == IommufdCmd::HwptInvalidate ==> r == 15245,
            *self == IommufdCmd::ViommuAlloc ==> r == 15248,
            *self == IommufdCmd::VdeviceAlloc ==> r == 15249,
            *self == IommufdCmd::VeventqAlloc ==> r == 15251,
    {
        match self {
            IommufdCmd::Destroy => IOMMU_DESTROY(),
            IommufdCmd::IoasAlloc => IOMMU_IOAS_ALLOC(),
            IommufdCmd::IoasMap => IOMMU_IOAS_MAP(),
            IommufdCmd::IoasUnmap => IOMMU_IOAS_UNMAP(),
            IommufdCmd::HwptAlloc => IOMMU_HWPT_ALLOC(),
            IommufdCmd::GetHwInfo => IOMMUFD_GET_HW_INFO(),
            IommufdCmd::HwptInvalidate => IOMMUFD_HWPT_INVALIDATE(),
            IommufdCmd::ViommuAlloc => IOMMU_VIOMMU_ALLOC(),
            IommufdCmd::VdeviceAlloc => IOMMU_VDEVICE_ALLOC(),
            IommufdCmd::VeventqAlloc => IOMMU_VEVENTQ_ALLOC(),
        }
    }
}

/// Distinct iommufd commands have distinct request codes, each with the
/// command number in its low byte and iommufd's type byte above it.
pub proof fn lemma_request_codes_distinct(a: IommufdCmd, b: IommufdCmd)
    ensures
        spec_iommufd_io(a.spec_nr()) % 256 == a.spec_nr(),
        spec_iommufd_io(a.spec_nr()) / 256 == spec_iommufd_type(),
        a != b ==> spec_iommufd_io(a.spec_nr()) != spec_iommufd_io(b.spec_nr()),
        a == IommufdCmd::Destroy ==> spec_iommufd_io(a.spec_nr()) == 15232,
        a == IommufdCmd::IoasAlloc ==> spec_iommufd_io(a.spec_nr()) == 15233,
        a == IommufdCmd::IoasMap ==> spec_iommufd_io(a.spec_nr()) == 15237,
        a == IommufdCmd::IoasUnmap ==> spec_iommufd_io(a.spec_nr()) == 15238,
        a == IommufdCmd::HwptAlloc ==> spec_iommufd_io(a.spec_nr()) == 15241,
        a == IommufdCmd::GetHwInfo ==> spec_iommufd_io(a.spec_nr()) == 15242,
        a == IommufdCmd::HwptInvalidate ==> spec_iommufd_io(a.spec_nr()) == 15245,
        a == IommufdCmd::ViommuAlloc ==> spec_iommufd_io(a.spec_nr()) == 15248,
        a == IommufdCmd::VdeviceAlloc ==> spec_iommufd_io(a.spec_nr()) == 15249,
        a == IommufdCmd::VeventqAlloc ==> spec_iommufd_io(a.spec_nr()) == 15251,
{
    lemma_iommufd_io_fields(a.spec_nr());
    lemma_iommufd_io_fields(b.spec_nr());
}

} // verus!
