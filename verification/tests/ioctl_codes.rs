use iommufd_ioctls::{
    ioctl_error, ioctl_result, IommufdCmd, IommufdError, IOMMUFD_GET_HW_INFO,
    IOMMUFD_HWPT_INVALIDATE, IOMMU_DESTROY, IOMMU_HWPT_ALLOC, IOMMU_IOAS_ALLOC, IOMMU_IOAS_MAP,
    IOMMU_IOAS_UNMAP, IOMMU_VDEVICE_ALLOC, IOMMU_VEVENTQ_ALLOC, IOMMU_VIOMMU_ALLOC,
};
use vmm_sys_util::errno::Error as SysError;

#[test]
fn test_iommufd_ioctl_code() {
    assert_eq!(IOMMU_DESTROY(), 15232);
    assert_eq!(IOMMU_IOAS_ALLOC(), 15233);
    assert_eq!(IOMMU_IOAS_MAP(), 15237);
    assert_eq!(IOMMU_IOAS_UNMAP(), 15238);
    assert_eq!(IOMMU_HWPT_ALLOC(), 15241);
    assert_eq!(IOMMUFD_GET_HW_INFO(), 15242);
    assert_eq!(IOMMUFD_HWPT_INVALIDATE(), 15245);
    assert_eq!(IOMMU_VIOMMU_ALLOC(), 15248);
    assert_eq!(IOMMU_VDEVICE_ALLOC(), 15249);
    assert_eq!(IOMMU_VEVENTQ_ALLOC(), 15251);
}

const ALL_CMDS: [IommufdCmd; 10] = [
    IommufdCmd::Destroy,
    IommufdCmd::IoasAlloc,
    IommufdCmd::IoasMap,
    IommufdCmd::IoasUnmap,
    IommufdCmd::HwptAlloc,
    IommufdCmd::GetHwInfo,
    IommufdCmd::HwptInvalidate,
    IommufdCmd::ViommuAlloc,
    IommufdCmd::VdeviceAlloc,
    IommufdCmd::VeventqAlloc,
];

#[test]
fn request_code_of_each_command() {
    assert_eq!(IommufdCmd::Destroy.request_code(), IOMMU_DESTROY());
    assert_eq!(IommufdCmd::IoasAlloc.request_code(), IOMMU_IOAS_ALLOC());
    assert_eq!(IommufdCmd::IoasMap.request_code(), IOMMU_IOAS_MAP());
    assert_eq!(IommufdCmd::IoasUnmap.request_code(), IOMMU_IOAS_UNMAP());
    assert_eq!(IommufdCmd::HwptAlloc.request_code(), IOMMU_HWPT_ALLOC());
    assert_eq!(IommufdCmd::GetHwInfo.request_code(), IOMMUFD_GET_HW_INFO());
    assert_eq!(IommufdCmd::HwptInvalidate.request_code(), IOMMUFD_HWPT_INVALIDATE());
    assert_eq!(IommufdCmd::ViommuAlloc.request_code(), IOMMU_VIOMMU_ALLOC());
    assert_eq!(IommufdCmd::VdeviceAlloc.request_code(), IOMMU_VDEVICE_ALLOC());
    assert_eq!(IommufdCmd::VeventqAlloc.request_code(), IOMMU_VEVENTQ_ALLOC());
}

#[test]
fn request_codes_are_distinct_and_carry_type_and_number() {
    for (i, a) in ALL_CMDS.iter().enumerate() {
        let code = a.request_code();
        // iommufd's type byte ';' above the command number; no direction, no size.
        assert_eq!(code >> 8, 59);
        assert!(code & 0xff >= 0x80);
        for (j, b) in ALL_CMDS.iter().enumerate() {
            if i != j {
                assert_ne!(code, b.request_code());
            }
        }
    }
}

#[test]
fn ioctl_result_accepts_non_negative_returns() {
    for cmd in ALL_CMDS {
        assert!(ioctl_result(cmd, 0, SysError::new(0)).is_ok());
        assert!(ioctl_result(cmd, 7, SysError::new(22)).is_ok());
    }
}

#[test]
fn ioctl_result_maps_failures_to_their_command() {
    let e = SysError::new(16);
    let check = |cmd: IommufdCmd, ok: fn(&IommufdError) -> bool| {
        let r = ioctl_result(cmd, -1, e);
        let err = r.unwrap_err();
        assert!(ok(&err), "{:?} gave {:?}", cmd, err);
    };
    check(IommufdCmd::Destroy, |x| matches!(x, IommufdError::IommuDestroy(v) if v.errno() == 16));
    check(IommufdCmd::IoasAlloc, |x| matches!(x, IommufdError::IommuIoasAlloc(v) if v.errno() == 16));
    check(IommufdCmd::IoasMap, |x| matches!(x, IommufdError::IommuIoasMap(v) if v.errno() == 16));
    check(IommufdCmd::IoasUnmap, |x| matches!(x, IommufdError::IommuIoasUnmap(v) if v.errno() == 16));
    check(IommufdCmd::HwptAlloc, |x| matches!(x, IommufdError::IommuHwptAlloc(v) if v.errno() == 16));
    check(IommufdCmd::GetHwInfo, |x| matches!(x, IommufdError::IommuGetHwInfo(v) if v.errno() == 16));
    check(IommufdCmd::HwptInvalidate, |x| {
        matches!(x, IommufdError::IommuHwptInvalidate(v) if v.errno() == 16)
    });
    check(IommufdCmd::ViommuAlloc, |x| {
        matches!(x, IommufdError::IommuViommuAlloc(v) if v.errno() == 16)
    });
    check(IommufdCmd::VdeviceAlloc, |x| {
        matches!(x, IommufdError::IommuVdeviceAlloc(v) if v.errno() == 16)
    });
    check(IommufdCmd::VeventqAlloc, |x| {
        matches!(x, IommufdError::IommuVeventqAlloc(v) if v.errno() == 16)
    });
}

#[test]
fn ioctl_error_keeps_errno() {
    let err = ioctl_error(IommufdCmd::HwptAlloc, SysError::new(95));
    assert!(matches!(err, IommufdError::IommuHwptAlloc(v) if v.errno() == 95));
    let r = ioctl_result(IommufdCmd::Destroy, -22, SysError::new(22));
    assert!(matches!(r, Err(IommufdError::IommuDestroy(v)) if v == SysError::new(22)));
}
