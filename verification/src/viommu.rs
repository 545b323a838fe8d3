//! A vIOMMU: its creation, the requests it issues, and its teardown.
use vstd::prelude::*;
use crate::data::{
    HwptAllocRequest, HwptInvalidateRequest, IommuHwptArmSmmuv3, IommufdInvalidateData,
    VeventqAllocRequest, ViommuAllocRequest,
};
use crate::error::IommufdError;
use crate::uapi::{
    hwpt_alloc_nest_parent, hwpt_data_arm_smmuv3, hwpt_data_none, spec_hwpt_alloc_nest_parent,
    spec_hwpt_data_arm_smmuv3, spec_hwpt_data_none, spec_veventq_type_arm_smmuv3,
    spec_viommu_invalidate_data_arm_smmuv3, spec_viommu_type_arm_smmuv3, veventq_type_arm_smmuv3,
    viommu_invalidate_data_arm_smmuv3, viommu_type_arm_smmuv3,
};

verus! {

/// STE.V, bit 0 of an ARM SMMUv3 stream table entry: the entry is valid
/// ("5.2 Stream Table Entry" in the SMMUv3 specification).
pub const SMMU_STE_VALID: u64 = 0x1;

/// STE.Config bypass, bit 3 of an ARM SMMUv3 stream table entry: stage 1
/// translation is bypassed.
pub const SMMU_STE_CFG_BYPASS: u64 = 0x8;

/// The object ids of a vIOMMU instance: the vIOMMU itself, the stage-2 HWPT
/// that all devices behind it share, and the bypass and abort stage-1 HWPTs
/// nested on it.
#[derive(Clone, Copy, Debug, PartialEq, Eq, Structural)]
pub struct IommufdVIommu {
    pub viommu_id: u32,
    pub dev_id: u32,
    pub s2_hwpt_id: u32,
    pub bypass_hwpt_id: u32,
    pub abort_hwpt_id: u32,
}

/// The objects that a vIOMMU owns.
#[derive(Clone, Copy, Debug, PartialEq, Eq, Structural)]
pub enum VIommuObject {
    BypassHwpt,
    AbortHwpt,
    VIommu,
    S2Hwpt,
}

proof fn lemma_bypass_ste_word()
    ensures
        SMMU_STE_CFG_BYPASS | SMMU_STE_VALID == 9,
{
    assert(0x8u64 | 0x1u64 == 9u64) by (bit_vector);
}

/// The stage-2 HWPT of a vIOMMU: a nesting parent on the IOAS, without
/// driver data.
pub open spec fn spec_s2_hwpt_request(ioas_id: u32, dev_id: u32) -> HwptAllocRequest {
    HwptAllocRequest {
        flags: spec_hwpt_alloc_nest_parent(),
        dev_id,
        pt_id: ioas_id,
        data_type: spec_hwpt_data_none(),
        data: None,
    }
}

/// The ARM SMMUv3 vIOMMU, on the stage-2 HWPT.
pub open spec fn spec_viommu_request(dev_id: u32, s2_hwpt_id: u32) -> ViommuAllocRequest {
    ViommuAllocRequest { viommu_type: spec_viommu_type_arm_smmuv3(), dev_id, hwpt_id: s2_hwpt_id }
}

/// A stage-1 HWPT nested on the vIOMMU with the given STE.
pub open spec fn spec_s1_hwpt_request(dev_id: u32, viommu_id: u32, ste: [u64; 2]) -> HwptAllocRequest {
    HwptAllocRequest {
        flags: 0,
        dev_id,
        pt_id: viommu_id,
        data_type: spec_hwpt_data_arm_smmuv3(),
        data: Some(IommuHwptArmSmmuv3 { ste }),
    }
}

/// The STE of the bypass HWPT, used while the guest has not initialised
/// its virtual IOMMU: valid, stage 1 bypassed.
pub open spec fn spec_bypass_ste() -> [u64; 2] {
    [SMMU_STE_CFG_BYPASS | SMMU_STE_VALID, 0x0]
}

/// The STE of the abort HWPT, used when the guest configures the device to
/// abort: valid, no configuration.
pub open spec fn spec_abort_ste() -> [u64; 2] {
    [SMMU_STE_VALID, 0x0]
}

fn s1_hwpt_request(dev_id: u32, viommu_id: u32, ste: [u64; 2]) -> (r: HwptAllocRequest)
    ensures
        r == spec_s1_hwpt_request(dev_id, viommu_id, ste),
{
    HwptAllocRequest {
        flags: 0,
        dev_id,
        pt_id: viommu_id,
        data_type: hwpt_data_arm_smmuv3(),
        data: Some(IommuHwptArmSmmuv3 { ste }),
    }
}

/// The allocations that create a vIOMMU, in order: the stage-2 HWPT, the
/// vIOMMU on it, then the bypass and abort stage-1 HWPTs on the vIOMMU.
/// Each stage holds the ids that the earlier allocations returned.
#[derive(Clone, Copy, Debug, PartialEq, Eq, Structural)]
pub enum VIommuSetup {
    S2Hwpt { ioas_id: u32, dev_id: u32 },
    Viommu { dev_id: u32, s2_hwpt_id: u32 },
    BypassHwpt { dev_id: u32, s2_hwpt_id: u32, viommu_id: u32 },
    AbortHwpt { dev_id: u32, s2_hwpt_id: u32, viommu_id: u32, bypass_hwpt_id: u32 },
}

/// The ioctl that a stage of the creation issues.
#[derive(Debug, Copy, Clone)]
pub enum VIommuSetupRequest {
    Hwpt(HwptAllocRequest),
    Viommu(ViommuAllocRequest),
}

/// Where the creation stands after a stage's ioctl.
#[derive(Debug)]
pub enum VIommuSetupProgress {
    Next(VIommuSetup),
    Done(IommufdVIommu),
    Failed(IommufdError),
}

impl VIommuSetup {
    /// Whether a stage-1 HWPT data type is one that a vIOMMU supports.
    pub open spec fn spec_start(
        ioas_id: u32,
        dev_id: u32,
        s1_hwpt_data_type: u32,
    ) -> Result<VIommuSetup, IommufdError> {
        if s1_hwpt_data_type == spec_hwpt_data_arm_smmuv3() {
            Ok(VIommuSetup::S2Hwpt { ioas_id, dev_id })
        } else {
            Err(IommufdError::UnsupportedS1HwptDataType(s1_hwpt_data_type))
        }
    }

    /// What each stage asks the kernel for, field by field: the stage-2
    /// HWPT is a nesting parent on the IOAS without driver data; the vIOMMU
    /// is an ARM SMMUv3 one on the stage-2 HWPT; the bypass and abort HWPTs
    /// are ARM SMMUv3 stage-1 HWPTs nested on the vIOMMU, whose STEs are
    /// "valid, bypass" and "valid" alone.
    pub open spec fn request_is_well_formed(self, r: VIommuSetupRequest) -> bool {
        match self {
            VIommuSetup::S2Hwpt { ioas_id, dev_id } => r matches VIommuSetupRequest::Hwpt(q) && q.flags
                == 1 && q.dev_id == dev_id && q.pt_id == ioas_id && q.data_type == 0 && q.data is None,
            VIommuSetup::Viommu { dev_id, s2_hwpt_id } => r matches VIommuSetupRequest::Viommu(q)
                && q.viommu_type == 1 && q.dev_id == dev_id && q.hwpt_id == s2_hwpt_id,
            VIommuSetup::BypassHwpt { dev_id, viommu_id, .. } => r matches VIommuSetupRequest::Hwpt(q)
                && q.flags == 0 && q.dev_id == dev_id && q.pt_id == viommu_id && q.data_type == 2
                && (q.data matches Some(d) && d.ste[0] == 9 && d.ste[1] == 0),
            VIommuSetup::AbortHwpt { dev_id, viommu_id, .. } => r matches VIommuSetupRequest::Hwpt(q)
                && q.flags == 0 && q.dev_id == dev_id && q.pt_id == viommu_id && q.data_type == 2
                && (q.data matches Some(d) && d.ste[0] == 1 && d.ste[1] == 0),
        }
    }

    /// Where a stage goes when its allocation returns `id`: each later stage
    /// keeps the ids of the earlier ones, and the last yields the vIOMMU.
    pub open spec fn advances_to(self, id: u32, r: VIommuSetupProgress) -> bool {
        match self {
            VIommuSetup::S2Hwpt { dev_id, .. } => r matches VIommuSetupProgress::Next(n) && n
                == (VIommuSetup::Viommu { dev_id, s2_hwpt_id: id }),
            VIommuSetup::Viommu { dev_id, s2_hwpt_id } => r matches VIommuSetupProgress::Next(n)
                && n == (VIommuSetup::BypassHwpt { dev_id, s2_hwpt_id, viommu_id: id }),
            VIommuSetup::BypassHwpt { dev_id, s2_hwpt_id, viommu_id } => r matches VIommuSetupProgress::Next(
                n,
            ) && n == (VIommuSetup::AbortHwpt {
                dev_id,
                s2_hwpt_id,
                viommu_id,
                bypass_hwpt_id: id,
            }),
            VIommuSetup::AbortHwpt { dev_id, s2_hwpt_id, viommu_id, bypass_hwpt_id } => r matches VIommuSetupProgress::Done(
                v,
            ) && v == (IommufdVIommu {
                viommu_id,
                dev_id,
                s2_hwpt_id,
                bypass_hwpt_id,
                abort_hwpt_id: id,
            }),
        }
    }

    pub open spec fn spec_request(self) -> VIommuSetupRequest {
        match self {
            VIommuSetup::S2Hwpt { ioas_id, dev_id } => VIommuSetupRequest::Hwpt(
                spec_s2_hwpt_request(ioas_id, dev_id),
            ),
            VIommuSetup::Viommu { dev_id, s2_hwpt_id } => VIommuSetupRequest::Viommu(
                spec_viommu_request(dev_id, s2_hwpt_id),
            ),
            VIommuSetup::BypassHwpt { dev_id, viommu_id, .. } => VIommuSetupRequest::Hwpt(
                spec_s1_hwpt_request(dev_id, viommu_id, spec_bypass_ste()),
            ),
            VIommuSetup::AbortHwpt { dev_id, viommu_id, .. } => VIommuSetupRequest::Hwpt(
                spec_s1_hwpt_request(dev_id, viommu_id, spec_abort_ste()),
            ),
        }
    }

    pub open spec fn spec_advance(self, outcome: Result<u32, IommufdError>) -> VIommuSetupProgress {
        match outcome {
            Err(e) => VIommuSetupProgress::Failed(e),
            Ok(id) => match self {
                VIommuSetup::S2Hwpt { dev_id, .. } => VIommuSetupProgress::Next(
                    VIommuSetup::Viommu { dev_id, s2_hwpt_id: id },
                ),
                VIommuSetup::Viommu { dev_id, s2_hwpt_id } => VIommuSetupProgress::Next(
                    VIommuSetup::BypassHwpt { dev_id, s2_hwpt_id, viommu_id: id },
                ),
                VIommuSetup::BypassHwpt { dev_id, s2_hwpt_id, viommu_id } => VIommuSetupProgress::Next(
                    VIommuSetup::AbortHwpt { dev_id, s2_hwpt_id, viommu_id, bypass_hwpt_id: id },
                ),
                VIommuSetup::AbortHwpt { dev_id, s2_hwpt_id, viommu_id, bypass_hwpt_id } =>
                    VIommuSetupProgress::Done(
                    IommufdVIommu { viommu_id, dev_id, s2_hwpt_id, bypass_hwpt_id, abort_hwpt_id: id },
                ),
            },
        }
    }

    /// Starts the creation of a vIOMMU on the IOAS `ioas_id` for the device
    /// `dev_id`. Only ARM SMMUv3 stage-1 HWPTs are supported; another data
    /// type is refused before any ioctl.
    pub fn start(ioas_id: u32, dev_id: u32, s1_hwpt_data_type: u32) -> (r: Result<
        VIommuSetup,
        IommufdError,
    >)
        ensures
            r == Self::spec_start(ioas_id, dev_id, s1_hwpt_data_type),
            s1_hwpt_data_type == 2 ==> r == Ok::<VIommuSetup, IommufdError>(
                VIommuSetup::S2Hwpt { ioas_id, dev_id },
            ),
            s1_hwpt_data_type != 2 ==> r == Err::<VIommuSetup, IommufdError>(
                IommufdError::UnsupportedS1HwptDataType(s1_hwpt_data_type),
            ),
    {
        if s1_hwpt_data_type != hwpt_data_arm_smmuv3() {
            return Err(IommufdError::UnsupportedS1HwptDataType(s1_hwpt_data_type));
        }
        Ok(VIommuSetup::S2Hwpt { ioas_id, dev_id })
    }

    /// The allocation that this stage issues.
    pub fn request(&self) -> (r: VIommuSetupRequest)
        ensures
            r == self.spec_request(),
            self.request_is_well_formed(r),
    {
        proof {
            lemma_bypass_ste_word();
        }
        match *self {
            VIommuSetup::S2Hwpt { ioas_id, dev_id } => VIommuSetupRequest::Hwpt(
                HwptAllocRequest {
                    flags: hwpt_alloc_nest_parent(),
                    dev_id,
                    pt_id: ioas_id,
                    data_type: hwpt_data_none(),
                    data: None,
                },
            ),
            VIommuSetup::Viommu { dev_id, s2_hwpt_id } => VIommuSetupRequest::Viommu(
                ViommuAllocRequest {
                    viommu_type: viommu_type_arm_smmuv3(),
                    dev_id,
                    hwpt_id: s2_hwpt_id,
                },
            ),
            VIommuSetup::BypassHwpt { dev_id, viommu_id, .. } => VIommuSetupRequest::Hwpt(
                s1_hwpt_request(dev_id, viommu_id, [SMMU_STE_CFG_BYPASS | SMMU_STE_VALID, 0x0]),
            ),
            VIommuSetup::AbortHwpt { dev_id, viommu_id, .. } => VIommuSetupRequest::Hwpt(
                s1_hwpt_request(dev_id, viommu_id, [SMMU_STE_VALID, 0x0]),
            ),
        }
    }

    /// Takes the outcome of this stage's allocation: the id it returned, or
    /// its error, which ends the creation.
    pub fn advance(self, outcome: Result<u32, IommufdError>) -> (r: VIommuSetupProgress)
        ensures
            r == self.spec_advance(outcome),
            outcome is Err ==> r == VIommuSetupProgress::Failed(outcome->Err_0),
            outcome is Ok ==> self.advances_to(outcome->Ok_0, r),
    {
        match outcome {
            Err(e) => VIommuSetupProgress::Failed(e),
            Ok(id) => match self {
                VIommuSetup::S2Hwpt { dev_id, .. } => VIommuSetupProgress::Next(
                    VIommuSetup::Viommu { dev_id, s2_hwpt_id: id },
                ),
                VIommuSetup::Viommu { dev_id, s2_hwpt_id } => VIommuSetupProgress::Next(
                    VIommuSetup::BypassHwpt { dev_id, s2_hwpt_id, viommu_id: id },
                ),
                VIommuSetup::BypassHwpt { dev_id, s2_hwpt_id, viommu_id } => VIommuSetupProgress::Next(
                    VIommuSetup::AbortHwpt { dev_id, s2_hwpt_id, viommu_id, bypass_hwpt_id: id },
                ),
                VIommuSetup::AbortHwpt { dev_id, s2_hwpt_id, viommu_id, bypass_hwpt_id } =>
                    VIommuSetupProgress::Done(
                    IommufdVIommu { viommu_id, dev_id, s2_hwpt_id, bypass_hwpt_id, abort_hwpt_id: id },
                ),
            },
        }
    }
}

impl IommufdVIommu {
    pub open spec fn spec_invalidate_request(self, cmd: IommufdInvalidateData) -> Result<
        HwptInvalidateRequest,
        IommufdError,
    > {
        match cmd {
            IommufdInvalidateData::Smmuv3(entry) => Ok(
                HwptInvalidateRequest {
                    hwpt_id: self.viommu_id,
                    data_type: spec_viommu_invalidate_data_arm_smmuv3(),
                    entry_num: 1,
                    entry,
                },
            ),
            IommufdInvalidateData::Vtd(_) => Err(IommufdError::VtdUnsupported),
        }
    }

    /// The `IOMMU_HWPT_INVALIDATE` request that carries one ARM SMMUv3
    /// command to the vIOMMU. VT-d commands are refused.
    pub fn invalidate_request(&self, cmd: &IommufdInvalidateData) -> (r: Result<
        HwptInvalidateRequest,
        IommufdError,
    >)
        ensures
            r == self.spec_invalidate_request(*cmd),
            cmd matches IommufdInvalidateData::Smmuv3(c) ==> (r matches Ok(q) && q.hwpt_id
                == self.viommu_id && q.data_type == 1 && q.entry_num == 1 && q.entry == c),
            cmd is Vtd ==> r == Err::<HwptInvalidateRequest, IommufdError>(
                IommufdError::VtdUnsupported,
            ),
    {
        match cmd {
            IommufdInvalidateData::Smmuv3(entry) => Ok(
                HwptInvalidateRequest {
                    hwpt_id: self.viommu_id,
                    data_type: viommu_invalidate_data_arm_smmuv3(),
                    entry_num: 1,
                    entry: *entry,
                },
            ),
            IommufdInvalidateData::Vtd(_) => Err(IommufdError::VtdUnsupported),
        }
    }

    /// Whether the kernel handled the command, from the entry count that it
    /// wrote back: `false` if nothing was invalidated.
    pub fn invalidated(entry_num: u32) -> (r: bool)
        ensures
            r == (entry_num == 1),
    {
        entry_num == 1
    }

    pub open spec fn spec_veventq_request(self, depth: u32) -> VeventqAllocRequest {
        VeventqAllocRequest {
            viommu_id: self.viommu_id,
            veventq_type: spec_veventq_type_arm_smmuv3(),
            veventq_depth: depth,
        }
    }

    /// The request that allocates an ARM SMMUv3 vEVENTQ bound to this
    /// vIOMMU, in which the kernel may queue `depth` vEVENTs.
    pub fn veventq_request(&self, depth: u32) -> (r: VeventqAllocRequest)
        ensures
            r == self.spec_veventq_request(depth),
            r.viommu_id == self.viommu_id,
            r.veventq_type == 1,
            r.veventq_depth == depth,
    {
        VeventqAllocRequest {
            viommu_id: self.viommu_id,
            veventq_type: veventq_type_arm_smmuv3(),
            veventq_depth: depth,
        }
    }

    /// The objects to destroy when the vIOMMU goes away, children first:
    /// destroying a parent before its children fails with EBUSY.
    pub open spec fn spec_teardown_order(self) -> Seq<(VIommuObject, u32)> {
        seq![
            (VIommuObject::BypassHwpt, self.bypass_hwpt_id),
            (VIommuObject::AbortHwpt, self.abort_hwpt_id),
            (VIommuObject::VIommu, self.viommu_id),
            (VIommuObject::S2Hwpt, self.s2_hwpt_id),
        ]
    }

    /// The objects to destroy when the vIOMMU goes away, children first.
    pub fn teardown_order(&self) -> (r: Vec<(VIommuObject, u32)>)
        ensures
            r@ == self.spec_teardown_order(),
            r@.len() == 4,
            r@[0] == (VIommuObject::BypassHwpt, self.bypass_hwpt_id),
            r@[1] == (VIommuObject::AbortHwpt, self.abort_hwpt_id),
            r@[2] == (VIommuObject::VIommu, self.viommu_id),
            r@[3] == (VIommuObject::S2Hwpt, self.s2_hwpt_id),
    {
        let r = vec![
            (VIommuObject::BypassHwpt, self.bypass_hwpt_id),
            (VIommuObject::AbortHwpt, self.abort_hwpt_id),
            (VIommuObject::VIommu, self.viommu_id),
            (VIommuObject::S2Hwpt, self.s2_hwpt_id),
        ];
        assert(r@ =~= self.spec_teardown_order());
        r
    }
}

/// Creating a vIOMMU whose four allocations return `s2`, `viommu`, `bypass`
/// and `abort` issues, in order: the stage-2 nesting parent HWPT on the
/// IOAS, the ARM SMMUv3 vIOMMU on that HWPT, then the bypass and the abort
/// stage-1 HWPTs on the vIOMMU; it yields a vIOMMU that holds those ids,
/// whose teardown destroys each of them once, children before parents. A
/// failed allocation at any stage ends the creation with its error.
pub proof fn lemma_viommu_creation(
    ioas_id: u32,
    dev_id: u32,
    s2: u32,
    viommu: u32,
    bypass: u32,
    abort: u32,
    e: IommufdError,
)
    ensures
        ({
            let st0 = VIommuSetup::S2Hwpt { ioas_id, dev_id };
            let st1 = VIommuSetup::Viommu { dev_id, s2_hwpt_id: s2 };
            let st2 = VIommuSetup::BypassHwpt { dev_id, s2_hwpt_id: s2, viommu_id: viommu };
            let st3 = VIommuSetup::AbortHwpt {
                dev_id,
                s2_hwpt_id: s2,
                viommu_id: viommu,
                bypass_hwpt_id: bypass,
            };
            let v = IommufdVIommu {
                viommu_id: viommu,
                dev_id,
                s2_hwpt_id: s2,
                bypass_hwpt_id: bypass,
                abort_hwpt_id: abort,
            };
            &&& VIommuSetup::spec_start(ioas_id, dev_id, spec_hwpt_data_arm_smmuv3()) == Ok::<
                VIommuSetup,
                IommufdError,
            >(st0)
            &&& st0.spec_request() == VIommuSetupRequest::Hwpt(spec_s2_hwpt_request(ioas_id, dev_id))
            &&& st0.spec_advance(Ok(s2)) == VIommuSetupProgress::Next(st1)
            &&& st1.spec_request() == VIommuSetupRequest::Viommu(spec_viommu_request(dev_id, s2))
            &&& st1.spec_advance(Ok(viommu)) == VIommuSetupProgress::Next(st2)
            &&& st2.spec_request() == VIommuSetupRequest::Hwpt(
                spec_s1_hwpt_request(dev_id, viommu, spec_bypass_ste()),
            )
            &&& st2.spec_advance(Ok(bypass)) == VIommuSetupProgress::Next(st3)
            &&& st3.spec_request() == VIommuSetupRequest::Hwpt(
                spec_s1_hwpt_request(dev_id, viommu, spec_abort_ste()),
            )
            &&& st3.spec_advance(Ok(abort)) == VIommuSetupProgress::Done(v)
            &&& v.spec_teardown_order() == seq![
                (VIommuObject::BypassHwpt, bypass),
                (VIommuObject::AbortHwpt, abort),
                (VIommuObject::VIommu, viommu),
                (VIommuObject::S2Hwpt, s2),
            ]
            &&& st0.spec_advance(Err(e)) == VIommuSetupProgress::Failed(e)
            &&& st1.spec_advance(Err(e)) == VIommuSetupProgress::Failed(e)
            &&& st2.spec_advance(Err(e)) == VIommuSetupProgress::Failed(e)
            &&& st3.spec_advance(Err(e)) == VIommuSetupProgress::Failed(e)
        }),
{
}

/// A vIOMMU is created only for ARM SMMUv3 stage-1 HWPTs: any other data
/// type is refused with `UnsupportedS1HwptDataType`, before any ioctl.
pub proof fn lemma_viommu_refuses_other_types(ioas_id: u32, dev_id: u32, s1_hwpt_data_type: u32)
    requires
        s1_hwpt_data_type != spec_hwpt_data_arm_smmuv3(),
    ensures
        VIommuSetup::spec_start(ioas_id, dev_id, s1_hwpt_data_type) == Err::<VIommuSetup, IommufdError>(
            IommufdError::UnsupportedS1HwptDataType(s1_hwpt_data_type),
        ),
{
}

/// Every stage of the creation asks for what it should: the fields of
/// each request, and the stage that follows each successful allocation,
/// are fixed by the ids gathered so far.
pub proof fn lemma_setup_stage_requests(st: VIommuSetup, id: u32, e: IommufdError)
    ensures
        st.request_is_well_formed(st.spec_request()),
        st.advances_to(id, st.spec_advance(Ok(id))),
        st.spec_advance(Err(e)) == VIommuSetupProgress::Failed(e),
{
    lemma_bypass_ste_word();
}

/// The vEVENTQ request carries the caller's depth, whatever it is, on this
/// vIOMMU, for an ARM SMMUv3 queue.
pub proof fn lemma_veventq_request_carries_depth(v: IommufdVIommu, depth: u32)
    ensures
        v.spec_veventq_request(depth).veventq_depth == depth,
        v.spec_veventq_request(depth).viommu_id == v.viommu_id,
        v.spec_veventq_request(depth).veventq_type == 1,
{
}

/// An ARM SMMUv3 invalidation goes to the vIOMMU with the guest's command
/// unchanged, as one entry; a VT-d one is refused.
pub proof fn lemma_invalidate_request_carries_command(
    v: IommufdVIommu,
    c: crate::data::IommuViommuArmSmmuv3Invalidate,
    t: crate::data::IommuHwptVtdS1Invalidate,
)
    ensures
        v.spec_invalidate_request(IommufdInvalidateData::Smmuv3(c)) matches Ok(q) && q.entry == c
            && q.entry.cmd[0] == c.cmd[0] && q.entry.cmd[1] == c.cmd[1] && q.hwpt_id == v.viommu_id
            && q.entry_num == 1 && q.data_type == 1,
        v.spec_invalidate_request(IommufdInvalidateData::Vtd(t)) == Err::<
            HwptInvalidateRequest,
            IommufdError,
        >(IommufdError::VtdUnsupported),
{
}

/// Teardown destroys the four objects of the vIOMMU, each once: the two
/// stage-1 HWPTs before the vIOMMU they are nested on, and the vIOMMU
/// before the stage-2 HWPT it sits on.
pub proof fn lemma_viommu_teardown_children_first(v: IommufdVIommu)
    ensures
        v.spec_teardown_order().len() == 4,
        v.spec_teardown_order()[0] == (VIommuObject::BypassHwpt, v.bypass_hwpt_id),
        v.spec_teardown_order()[1] == (VIommuObject::AbortHwpt, v.abort_hwpt_id),
        v.spec_teardown_order()[2] == (VIommuObject::VIommu, v.viommu_id),
        v.spec_teardown_order()[3] == (VIommuObject::S2Hwpt, v.s2_hwpt_id),
{
}

} // verus!
