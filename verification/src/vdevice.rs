//! A vDevice: a device behind a vIOMMU, with its optional stage-1 HWPT.
use vstd::prelude::*;
use crate::data::{HwInfoRequest, HwptAllocRequest, IommufdHwInfoData, IommufdHwptData, VdeviceAllocRequest};
use crate::error::IommufdError;
use crate::viommu::{IommufdVIommu, spec_s1_hwpt_request};
use crate::uapi::hwpt_data_arm_smmuv3;

verus! {

/// The ids of a vDevice: the vIOMMU it sits behind, the physical device,
/// its virtual id in the guest, the vDevice object and, once allocated, its
/// stage-1 HWPT.
#[derive(Clone, Copy, Debug, PartialEq, Eq, Structural)]
pub struct IommufdVDevice {
    pub viommu_id: u32,
    pub dev_id: u32,
    pub virt_id: u64,
    pub vdevice_id: u32,
    pub s1_hwpt_id: Option<u32>,
}

impl IommufdVDevice {
    pub open spec fn spec_alloc_request(
        viommu: IommufdVIommu,
        dev_id: u32,
        virt_id: u64,
    ) -> VdeviceAllocRequest {
        VdeviceAllocRequest { viommu_id: viommu.viommu_id, dev_id, virt_id }
    }

    /// The `IOMMU_VDEVICE_ALLOC` request that puts device `dev_id` behind
    /// the vIOMMU with virtual id `virt_id`.
    pub fn alloc_request(viommu: &IommufdVIommu, dev_id: u32, virt_id: u64) -> (r: VdeviceAllocRequest)
        ensures
            r == Self::spec_alloc_request(*viommu, dev_id, virt_id),
            r.viommu_id == viommu.viommu_id,
            r.dev_id == dev_id,
            r.virt_id == virt_id,
    {
        VdeviceAllocRequest { viommu_id: viommu.viommu_id, dev_id, virt_id }
    }

    /// The vDevice that the allocation returned as `vdevice_id`; it holds no
    /// stage-1 HWPT yet.
    pub fn new(viommu: &IommufdVIommu, dev_id: u32, virt_id: u64, vdevice_id: u32) -> (r: Self)
        ensures
            r == (IommufdVDevice {
                viommu_id: viommu.viommu_id,
                dev_id,
                virt_id,
                vdevice_id,
                s1_hwpt_id: None,
            }),
    {
        IommufdVDevice { viommu_id: viommu.viommu_id, dev_id, virt_id, vdevice_id, s1_hwpt_id: None }
    }

    /// A stage-1 HWPT request, field by field: ARM SMMUv3 data is passed as
    /// the guest gave it, to a HWPT nested on the vIOMMU for this device;
    /// VT-d data is refused.
    pub open spec fn s1_request_is_well_formed(
        self,
        hwpt_data: IommufdHwptData,
        r: Result<HwptAllocRequest, IommufdError>,
    ) -> bool {
        match hwpt_data {
            IommufdHwptData::Smmuv3(d) => r matches Ok(q) && q.data == Some(d) && q.pt_id
                == self.viommu_id && q.dev_id == self.dev_id && q.flags == 0 && q.data_type == 2,
            IommufdHwptData::Vtd(_) => r == Err::<HwptAllocRequest, IommufdError>(
                IommufdError::VtdUnsupported,
            ),
        }
    }

    pub open spec fn spec_s1_hwpt_request(self, hwpt_data: IommufdHwptData) -> Result<
        HwptAllocRequest,
        IommufdError,
    > {
        if self.s1_hwpt_id is Some {
            Err(IommufdError::S1HwptAlreadyAllocated(self.vdevice_id))
        } else {
            match hwpt_data {
                IommufdHwptData::Smmuv3(data) => Ok(
                    spec_s1_hwpt_request(self.dev_id, self.viommu_id, data.ste),
                ),
                IommufdHwptData::Vtd(_) => Err(IommufdError::VtdUnsupported),
            }
        }
    }

    /// The `IOMMU_HWPT_ALLOC` request for the vDevice's stage-1 HWPT, nested
    /// on the vIOMMU. A vDevice holds at most one; VT-d data is refused.
    pub fn s1_hwpt_request(&self, hwpt_data: &IommufdHwptData) -> (r: Result<
        HwptAllocRequest,
        IommufdError,
    >)
        ensures
            r == self.spec_s1_hwpt_request(*hwpt_data),
            self.s1_hwpt_id is Some ==> r == Err::<HwptAllocRequest, IommufdError>(
                IommufdError::S1HwptAlreadyAllocated(self.vdevice_id),
            ),
            self.s1_hwpt_id is None ==> self.s1_request_is_well_formed(*hwpt_data, r),
    {
        if self.s1_hwpt_id.is_some() {
            return Err(IommufdError::S1HwptAlreadyAllocated(self.vdevice_id));
        }
        match hwpt_data {
            IommufdHwptData::Smmuv3(data) => Ok(
                HwptAllocRequest {
                    flags: 0,
                    dev_id: self.dev_id,
                    pt_id: self.viommu_id,
                    data_type: hwpt_data_arm_smmuv3(),
                    data: Some(*data),
                },
            ),
            IommufdHwptData::Vtd(_) => Err(IommufdError::VtdUnsupported),
        }
    }

    /// The vDevice after its stage-1 HWPT allocation ended with `outcome`.
    pub open spec fn spec_after_s1_hwpt_alloc(self, outcome: Result<u32, IommufdError>) -> Self {
        match outcome {
            Ok(id) => IommufdVDevice { s1_hwpt_id: Some(id), ..self },
            Err(_) => self,
        }
    }

    /// Records the outcome of the stage-1 HWPT allocation: the vDevice holds
    /// the new HWPT, or is left as it was if the allocation failed.
    pub fn s1_hwpt_allocated(&mut self, outcome: Result<u32, IommufdError>) -> (r: Result<
        u32,
        IommufdError,
    >)
        requires
            old(self).s1_hwpt_id is None,
        ensures
            *final(self) == old(self).spec_after_s1_hwpt_alloc(outcome),
            r == outcome,
            outcome matches Ok(id) ==> final(self).s1_hwpt_id == Some(id),
            outcome is Err ==> final(self).s1_hwpt_id is None,
            final(self).viommu_id == old(self).viommu_id,
            final(self).dev_id == old(self).dev_id,
            final(self).virt_id == old(self).virt_id,
            final(self).vdevice_id == old(self).vdevice_id,
    {
        match outcome {
            Ok(id) => {
                self.s1_hwpt_id = Some(id);
                Ok(id)
            },
            Err(e) => Err(e),
        }
    }

    /// The stage-1 HWPT to destroy, if the vDevice holds one.
    pub fn s1_hwpt_to_destroy(&self) -> (r: Option<u32>)
        ensures
            r == self.s1_hwpt_id,
    {
        self.s1_hwpt_id
    }

    /// The vDevice after the destruction of its stage-1 HWPT ended with
    /// `outcome`.
    pub open spec fn spec_after_s1_hwpt_destroy(self, outcome: Result<(), IommufdError>) -> Self {
        match outcome {
            Ok(_) => IommufdVDevice { s1_hwpt_id: None, ..self },
            Err(_) => self,
        }
    }

    /// Records the outcome of destroying the stage-1 HWPT: the vDevice no
    /// longer holds one, or still holds it if the destruction failed.
    pub fn s1_hwpt_destroyed(&mut self, outcome: Result<(), IommufdError>) -> (r: Result<
        (),
        IommufdError,
    >)
        ensures
            *final(self) == old(self).spec_after_s1_hwpt_destroy(outcome),
            r == outcome,
            outcome is Ok ==> final(self).s1_hwpt_id is None,
            outcome is Err ==> final(self).s1_hwpt_id == old(self).s1_hwpt_id,
            final(self).viommu_id == old(self).viommu_id,
            final(self).dev_id == old(self).dev_id,
            final(self).virt_id == old(self).virt_id,
            final(self).vdevice_id == old(self).vdevice_id,
    {
        if outcome.is_ok() {
            self.s1_hwpt_id = None;
        }
        outcome
    }

    pub open spec fn spec_hw_info_request(self, hw_info_data: IommufdHwInfoData) -> Result<
        HwInfoRequest,
        IommufdError,
    > {
        match hw_info_data {
            IommufdHwInfoData::Smmuv3(_) => Ok(HwInfoRequest { dev_id: self.dev_id }),
            IommufdHwInfoData::Vtd(_) => Err(IommufdError::VtdUnsupported),
        }
    }

    /// The `IOMMU_GET_HW_INFO` request that reads the device's ARM SMMUv3
    /// hardware information. VT-d is refused.
    pub fn hw_info_request(&self, hw_info_data: &IommufdHwInfoData) -> (r: Result<
        HwInfoRequest,
        IommufdError,
    >)
        ensures
            r == self.spec_hw_info_request(*hw_info_data),
            hw_info_data is Smmuv3 ==> r == Ok::<HwInfoRequest, IommufdError>(
                HwInfoRequest { dev_id: self.dev_id },
            ),
            hw_info_data is Vtd ==> r == Err::<HwInfoRequest, IommufdError>(
                IommufdError::VtdUnsupported,
            ),
    {
        match hw_info_data {
            IommufdHwInfoData::Smmuv3(_) => Ok(HwInfoRequest { dev_id: self.dev_id }),
            IommufdHwInfoData::Vtd(_) => Err(IommufdError::VtdUnsupported),
        }
    }

    /// The objects to destroy when the vDevice goes away: the stage-1 HWPT
    /// first, if there is one, then the vDevice.
    pub open spec fn spec_teardown_order(self) -> Seq<u32> {
        match self.s1_hwpt_id {
            Some(id) => seq![id, self.vdevice_id],
            None => seq![self.vdevice_id],
        }
    }

    /// The objects to destroy when the vDevice goes away, the stage-1 HWPT
    /// before the vDevice.
    pub fn teardown_order(&self) -> (r: Vec<u32>)
        ensures
            r@ == self.spec_teardown_order(),
            r@.len() >= 1,
            r@.last() == self.vdevice_id,
            self.s1_hwpt_id matches Some(id) ==> r@ == seq![id, self.vdevice_id],
            self.s1_hwpt_id is None ==> r@ == seq![self.vdevice_id],
    {
        let mut r: Vec<u32> = Vec::new();
        if let Some(id) = self.s1_hwpt_id {
            r.push(id);
        }
        r.push(self.vdevice_id);
        assert(r@ =~= self.spec_teardown_order());
        r
    }
}

/// A vDevice holds at most one stage-1 HWPT: while it holds one, a request
/// for another is refused with `S1HwptAlreadyAllocated` and its vDevice id,
/// whatever the data.
pub proof fn lemma_one_s1_hwpt_per_vdevice(dev: IommufdVDevice, hwpt_data: IommufdHwptData)
    requires
        dev.s1_hwpt_id is Some,
    ensures
        dev.spec_s1_hwpt_request(hwpt_data) == Err::<HwptAllocRequest, IommufdError>(
            IommufdError::S1HwptAlreadyAllocated(dev.vdevice_id),
        ),
{
}

/// Allocating a stage-1 HWPT and then destroying it, both successfully,
/// gives back the vDevice as it was; while the HWPT is held, teardown
/// destroys it before the vDevice. A failed allocation or destruction
/// leaves the vDevice unchanged.
pub proof fn lemma_s1_hwpt_alloc_destroy(dev: IommufdVDevice, id: u32, e: IommufdError)
    requires
        dev.s1_hwpt_id is None,
    ensures
        dev.spec_after_s1_hwpt_alloc(Ok(id)).s1_hwpt_id == Some(id),
        dev.spec_after_s1_hwpt_alloc(Ok(id)).spec_teardown_order() == seq![id, dev.vdevice_id],
        dev.spec_after_s1_hwpt_alloc(Ok(id)).spec_after_s1_hwpt_destroy(Ok(())) == dev,
        dev.spec_teardown_order() == seq![dev.vdevice_id],
        dev.spec_after_s1_hwpt_alloc(Err(e)) == dev,
        dev.spec_after_s1_hwpt_alloc(Ok(id)).spec_after_s1_hwpt_destroy(Err(e))
            == dev.spec_after_s1_hwpt_alloc(Ok(id)),
{
}

/// The vDevice allocation names the vIOMMU, the device and the virtual id
/// exactly as given, for all inputs.
pub proof fn lemma_alloc_request_carries_ids(viommu: IommufdVIommu, dev_id: u32, virt_id: u64)
    ensures
        IommufdVDevice::spec_alloc_request(viommu, dev_id, virt_id).viommu_id == viommu.viommu_id,
        IommufdVDevice::spec_alloc_request(viommu, dev_id, virt_id).dev_id == dev_id,
        IommufdVDevice::spec_alloc_request(viommu, dev_id, virt_id).virt_id == virt_id,
{
}

/// While a vDevice holds no stage-1 HWPT, ARM SMMUv3 data gives a request
/// that carries the guest's STE unchanged, nested on the vIOMMU for this
/// device; VT-d data is refused.
pub proof fn lemma_s1_hwpt_request_carries_ste(
    dev: IommufdVDevice,
    d: crate::data::IommuHwptArmSmmuv3,
    t: crate::data::IommuHwptVtdS1,
)
    requires
        dev.s1_hwpt_id is None,
    ensures
        dev.spec_s1_hwpt_request(IommufdHwptData::Smmuv3(d)) matches Ok(q) && q.data == Some(d)
            && q.pt_id == dev.viommu_id && q.dev_id == dev.dev_id && q.flags == 0 && q.data_type
            == 2,
        dev.spec_s1_hwpt_request(IommufdHwptData::Vtd(t)) == Err::<HwptAllocRequest, IommufdError>(
            IommufdError::VtdUnsupported,
        ),
{
}

/// Hardware information of an ARM SMMUv3 device can be asked for whatever
/// the vDevice holds, stage-1 HWPT or not; only VT-d is refused.
pub proof fn lemma_hw_info_request_any_state(
    dev: IommufdVDevice,
    d: crate::data::IommuHwInfoArmSmmuv3,
    t: crate::data::IommuHwInfoVtd,
    s1: Option<u32>,
)
    ensures
        dev.spec_hw_info_request(IommufdHwInfoData::Smmuv3(d)) == Ok::<HwInfoRequest, IommufdError>(
            HwInfoRequest { dev_id: dev.dev_id },
        ),
        (IommufdVDevice { s1_hwpt_id: s1, ..dev }).spec_hw_info_request(IommufdHwInfoData::Smmuv3(d))
            == dev.spec_hw_info_request(IommufdHwInfoData::Smmuv3(d)),
        dev.spec_hw_info_request(IommufdHwInfoData::Vtd(t)) == Err::<HwInfoRequest, IommufdError>(
            IommufdError::VtdUnsupported,
        ),
{
}

} // verus!
