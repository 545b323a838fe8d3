use iommufd_ioctls::{
    HwInfoRequest, IommuHwInfoArmSmmuv3, IommuHwInfoVtd, IommuHwptArmSmmuv3, IommuHwptVtdS1,
    IommuHwptVtdS1Invalidate, IommuViommuArmSmmuv3Invalidate, IommufdError, IommufdHwInfoData,
    IommufdHwptData, IommufdInvalidateData, IommufdVDevice, IommufdVIommu, VIommuObject,
    VIommuSetup, VIommuSetupProgress, VIommuSetupRequest, SMMU_STE_CFG_BYPASS, SMMU_STE_VALID,
};
use vmm_sys_util::errno::Error as SysError;

const IOMMU_HWPT_DATA_ARM_SMMUV3: u32 = 2;

fn viommu() -> IommufdVIommu {
    IommufdVIommu {
        viommu_id: 20,
        dev_id: 7,
        s2_hwpt_id: 10,
        bypass_hwpt_id: 30,
        abort_hwpt_id: 40,
    }
}

#[test]
fn viommu_creation_issues_four_allocations_in_order() {
    let setup = VIommuSetup::start(3, 7, IOMMU_HWPT_DATA_ARM_SMMUV3).unwrap();

    // Stage-2 nesting parent on the IOAS, without driver data.
    match setup.request() {
        VIommuSetupRequest::Hwpt(r) => {
            assert_eq!((r.flags, r.dev_id, r.pt_id, r.data_type), (1, 7, 3, 0));
            assert!(r.data.is_none());
        }
        other => panic!("unexpected {:?}", other),
    }
    let setup = match setup.advance(Ok(10)) {
        VIommuSetupProgress::Next(s) => s,
        other => panic!("unexpected {:?}", other),
    };

    // The ARM SMMUv3 vIOMMU on the stage-2 HWPT.
    match setup.request() {
        VIommuSetupRequest::Viommu(r) => {
            assert_eq!((r.viommu_type, r.dev_id, r.hwpt_id), (1, 7, 10));
        }
        other => panic!("unexpected {:?}", other),
    }
    let setup = match setup.advance(Ok(20)) {
        VIommuSetupProgress::Next(s) => s,
        other => panic!("unexpected {:?}", other),
    };

    // Bypass stage-1 HWPT nested on the vIOMMU.
    match setup.request() {
        VIommuSetupRequest::Hwpt(r) => {
            assert_eq!((r.flags, r.dev_id, r.pt_id, r.data_type), (0, 7, 20, 2));
            assert_eq!(r.data, Some(IommuHwptArmSmmuv3 { ste: [0x9, 0x0] }));
        }
        other => panic!("unexpected {:?}", other),
    }
    let setup = match setup.advance(Ok(30)) {
        VIommuSetupProgress::Next(s) => s,
        other => panic!("unexpected {:?}", other),
    };

    // Abort stage-1 HWPT nested on the vIOMMU.
    match setup.request() {
        VIommuSetupRequest::Hwpt(r) => {
            assert_eq!((r.flags, r.dev_id, r.pt_id, r.data_type), (0, 7, 20, 2));
            assert_eq!(r.data, Some(IommuHwptArmSmmuv3 { ste: [0x1, 0x0] }));
        }
        other => panic!("unexpected {:?}", other),
    }
    match setup.advance(Ok(40)) {
        VIommuSetupProgress::Done(v) => assert_eq!(v, viommu()),
        other => panic!("unexpected {:?}", other),
    }
}

#[test]
fn ste_bits() {
    assert_eq!(SMMU_STE_VALID, 1 << 0);
    assert_eq!(SMMU_STE_CFG_BYPASS, 1 << 3);
}

#[test]
fn viommu_creation_refuses_other_data_types() {
    for t in [0u32, 1, 3, 100] {
        match VIommuSetup::start(3, 7, t) {
            Err(IommufdError::UnsupportedS1HwptDataType(x)) => assert_eq!(x, t),
            other => panic!("unexpected {:?}", other),
        }
    }
}

#[test]
fn viommu_creation_stops_at_a_failed_allocation() {
    let setup = VIommuSetup::start(3, 7, IOMMU_HWPT_DATA_ARM_SMMUV3).unwrap();
    let setup = match setup.advance(Ok(10)) {
        VIommuSetupProgress::Next(s) => s,
        other => panic!("unexpected {:?}", other),
    };
    match setup.advance(Err(IommufdError::IommuViommuAlloc(SysError::new(95)))) {
        VIommuSetupProgress::Failed(IommufdError::IommuViommuAlloc(e)) => assert_eq!(e.errno(), 95),
        other => panic!("unexpected {:?}", other),
    }
}

#[test]
fn viommu_teardown_destroys_children_first() {
    assert_eq!(
        viommu().teardown_order(),
        vec![
            (VIommuObject::BypassHwpt, 30),
            (VIommuObject::AbortHwpt, 40),
            (VIommuObject::VIommu, 20),
            (VIommuObject::S2Hwpt, 10),
        ]
    );
}

#[test]
fn viommu_invalidate_request() {
    let cmd = IommufdInvalidateData::Smmuv3(IommuViommuArmSmmuv3Invalidate { cmd: [0x11, 0x22] });
    let r = viommu().invalidate_request(&cmd).unwrap();
    assert_eq!((r.hwpt_id, r.data_type, r.entry_num), (20, 1, 1));
    assert_eq!(r.entry.cmd, [0x11, 0x22]);

    let vtd = IommufdInvalidateData::Vtd(IommuHwptVtdS1Invalidate { addr: 0, npages: 1, flags: 0 });
    assert!(matches!(viommu().invalidate_request(&vtd), Err(IommufdError::VtdUnsupported)));
}

#[test]
fn viommu_invalidated_only_when_the_entry_was_handled() {
    assert!(IommufdVIommu::invalidated(1));
    assert!(!IommufdVIommu::invalidated(0));
    assert!(!IommufdVIommu::invalidated(2));
}

#[test]
fn viommu_veventq_request() {
    let r = viommu().veventq_request(64);
    assert_eq!((r.viommu_id, r.veventq_type, r.veventq_depth), (20, 1, 64));
}

#[test]
fn vdevice_alloc_and_new() {
    let r = IommufdVDevice::alloc_request(&viommu(), 7, 0x100);
    assert_eq!((r.viommu_id, r.dev_id, r.virt_id), (20, 7, 0x100));
    let d = IommufdVDevice::new(&viommu(), 7, 0x100, 50);
    assert_eq!(
        d,
        IommufdVDevice { viommu_id: 20, dev_id: 7, virt_id: 0x100, vdevice_id: 50, s1_hwpt_id: None }
    );
    assert_eq!(d.teardown_order(), vec![50]);
}

#[test]
fn vdevice_s1_hwpt_lifecycle() {
    let mut d = IommufdVDevice::new(&viommu(), 7, 0x100, 50);
    let data = IommufdHwptData::Smmuv3(IommuHwptArmSmmuv3 { ste: [0xabc1, 0x2] });
    let r = d.s1_hwpt_request(&data).unwrap();
    assert_eq!((r.flags, r.dev_id, r.pt_id, r.data_type), (0, 7, 20, 2));
    assert_eq!(r.data, Some(IommuHwptArmSmmuv3 { ste: [0xabc1, 0x2] }));

    assert_eq!(d.s1_hwpt_allocated(Ok(60)).unwrap(), 60);
    assert_eq!(d.s1_hwpt_id, Some(60));
    assert_eq!(d.teardown_order(), vec![60, 50]);

    // A second stage-1 HWPT is refused.
    assert!(matches!(
        d.s1_hwpt_request(&data),
        Err(IommufdError::S1HwptAlreadyAllocated(50))
    ));

    // A failed destroy keeps the HWPT.
    let e = d.s1_hwpt_destroyed(Err(IommufdError::IommuDestroy(SysError::new(16))));
    assert!(matches!(e, Err(IommufdError::IommuDestroy(_))));
    assert_eq!(d.s1_hwpt_to_destroy(), Some(60));

    assert!(d.s1_hwpt_destroyed(Ok(())).is_ok());
    assert_eq!(d.s1_hwpt_to_destroy(), None);
    assert_eq!(d, IommufdVDevice::new(&viommu(), 7, 0x100, 50));
}

#[test]
fn vdevice_failed_s1_hwpt_allocation_changes_nothing() {
    let mut d = IommufdVDevice::new(&viommu(), 7, 0x100, 50);
    let r = d.s1_hwpt_allocated(Err(IommufdError::IommuHwptAlloc(SysError::new(12))));
    assert!(matches!(r, Err(IommufdError::IommuHwptAlloc(_))));
    assert_eq!(d.s1_hwpt_id, None);
}

#[test]
fn vdevice_refuses_vtd() {
    let d = IommufdVDevice::new(&viommu(), 7, 0x100, 50);
    let vtd = IommufdHwptData::Vtd(IommuHwptVtdS1 { flags: 0, pgtbl_addr: 0x1000, addr_width: 48 });
    assert!(matches!(d.s1_hwpt_request(&vtd), Err(IommufdError::VtdUnsupported)));
    let info = IommufdHwInfoData::Vtd(IommuHwInfoVtd { flags: 0, cap_reg: 0, ecap_reg: 0 });
    assert!(matches!(d.hw_info_request(&info), Err(IommufdError::VtdUnsupported)));
}

#[test]
fn vdevice_hw_info_request() {
    let d = IommufdVDevice::new(&viommu(), 7, 0x100, 50);
    let info = IommufdHwInfoData::Smmuv3(IommuHwInfoArmSmmuv3 {
        flags: 0,
        idr: [0; 6],
        iidr: 0,
        aidr: 0,
    });
    assert_eq!(d.hw_info_request(&info).unwrap(), HwInfoRequest { dev_id: 7 });
}
