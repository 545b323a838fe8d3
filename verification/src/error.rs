//! Errors of the iommufd ioctls and of the objects built on them.
use vstd::prelude::*;
use crate::codes::IommufdCmd;

verus! {

/// `vmm_sys_util::errno::Error`: the errno that a failed ioctl left.
#[verifier::external_type_specification]
#[verifier::external_body]
pub struct ExSysError(vmm_sys_util::errno::Error);

/// `std::io::Error`: why the iommufd device node could not be opened.
#[verifier::external_type_specification]
#[verifier::external_body]
pub struct ExIoError(std::io::Error);

/// Errors of the iommufd ioctls and of the objects built on them.
#[derive(Debug)]
pub enum IommufdError {
    OpenIommufd(std::io::Error),
    IommuDestroy(vmm_sys_util::errno::Error),
    IommuIoasAlloc(vmm_sys_util::errno::Error),
    IommuIoasMap(vmm_sys_util::errno::Error),
    IommuIoasUnmap(vmm_sys_util::errno::Error),
    IommuHwptAlloc(vmm_sys_util::errno::Error),
    IommuViommuAlloc(vmm_sys_util::errno::Error),
    IommuVdeviceAlloc(vmm_sys_util::errno::Error),
    IommuGetHwInfo(vmm_sys_util::errno::Error),
    IommuHwptInvalidate(vmm_sys_util::errno::Error),
    IommuVeventqAlloc(vmm_sys_util::errno::Error),
    UnsupportedS1HwptDataType(u32),
    VtdUnsupported,
    S1HwptAlreadyAllocated(u32),
}

/// The error that reports a failure of `cmd` with errno `errno`.
pub open spec fn spec_ioctl_error(cmd: IommufdCmd, errno: vmm_sys_util::errno::Error) -> IommufdError {
    match cmd {
        IommufdCmd::Destroy => IommufdError::IommuDestroy(errno),
        IommufdCmd::IoasAlloc => IommufdError::IommuIoasAlloc(errno),
        IommufdCmd::IoasMap => IommufdError::IommuIoasMap(errno),
        IommufdCmd::IoasUnmap => IommufdError::IommuIoasUnmap(errno),
        IommufdCmd::HwptAlloc => IommufdError::IommuHwptAlloc(errno),
        IommufdCmd::GetHwInfo => IommufdError::IommuGetHwInfo(errno),
        IommufdCmd::HwptInvalidate => IommufdError::IommuHwptInvalidate(errno),
        IommufdCmd::ViommuAlloc => IommufdError::IommuViommuAlloc(errno),
        IommufdCmd::VdeviceAlloc => IommufdError::IommuVdeviceAlloc(errno),
        IommufdCmd::VeventqAlloc => IommufdError::IommuVeventqAlloc(errno),
    }
}

/// The error that reports a failure of `cmd` with errno `errno`.
pub fn ioctl_error(cmd: IommufdCmd, errno: vmm_sys_util::errno::Error) -> (r: IommufdError)
    ensures
        r == spec_ioctl_error(cmd, errno),
        cmd == IommufdCmd::Destroy ==> r == IommufdError::IommuDestroy(errno),
        cmd == IommufdCmd::IoasAlloc ==> r == IommufdError::IommuIoasAlloc(errno),
        cmd == IommufdCmd::IoasMap ==> r == IommufdError::IommuIoasMap(errno),
        cmd == IommufdCmd::IoasUnmap ==> r == IommufdError::IommuIoasUnmap(errno),
        cmd == IommufdCmd::HwptAlloc ==> r == IommufdError::IommuHwptAlloc(errno),
        cmd == IommufdCmd::GetHwInfo ==> r == IommufdError::IommuGetHwInfo(errno),
        cmd == IommufdCmd::HwptInvalidate ==> r == IommufdError::IommuHwptInvalidate(errno),
        cmd == IommufdCmd::ViommuAlloc ==> r == IommufdError::IommuViommuAlloc(errno),
        cmd == IommufdCmd::VdeviceAlloc ==> r == IommufdError::IommuVdeviceAlloc(errno),
        cmd == IommufdCmd::VeventqAlloc ==> r == IommufdError::IommuVeventqAlloc(errno),
{
    match cmd {
        IommufdCmd::Destroy => IommufdError::IommuDestroy(errno),
        IommufdCmd::IoasAlloc => IommufdError::IommuIoasAlloc(errno),
        IommufdCmd::IoasMap => IommufdError::IommuIoasMap(errno),
        IommufdCmd::IoasUnmap => IommufdError::IommuIoasUnmap(errno),
        IommufdCmd::HwptAlloc => IommufdError::IommuHwptAlloc(errno),
        IommufdCmd::GetHwInfo => IommufdError::IommuGetHwInfo(errno),
        IommufdCmd::HwptInvalidate => IommufdError::IommuHwptInvalidate(errno),
        IommufdCmd::ViommuAlloc => IommufdError::IommuViommuAlloc(errno),
        IommufdCmd::VdeviceAlloc => IommufdError::IommuVdeviceAlloc(errno),
        IommufdCmd::VeventqAlloc => IommufdError::IommuVeventqAlloc(errno),
    }
}

/// The outcome of an iommufd ioctl that returned `ret`, with `errno` the
/// errno read right after it: a negative return is a failure of `cmd`.
pub fn ioctl_result(cmd: IommufdCmd, ret: i32, errno: vmm_sys_util::errno::Error) -> (r: Result<
    (),
    IommufdError,
>)
    ensures
        ret >= 0 ==> r is Ok,
        ret < 0 ==> r == Err::<(), IommufdError>(spec_ioctl_error(cmd, errno)),
{
    if ret < 0 {
        Err(ioctl_error(cmd, errno))
    } else {
        Ok(())
    }
}

/// A failed ioctl's error names the command that failed and keeps its
/// errno: two failures report the same error only when they are failures of
/// the same command with the same errno.
pub proof fn lemma_ioctl_error_identifies_failure(
    a: IommufdCmd,
    ea: vmm_sys_util::errno::Error,
    b: IommufdCmd,
    eb: vmm_sys_util::errno::Error,
)
    ensures
        spec_ioctl_error(a, ea) == spec_ioctl_error(b, eb) <==> (a == b && ea == eb),
{
}

/// Each ioctl's failure is reported under its own error, with the errno
/// that the failure left.
pub proof fn lemma_ioctl_error_per_command(errno: vmm_sys_util::errno::Error)
    ensures
        spec_ioctl_error(IommufdCmd::Destroy, errno) == IommufdError::IommuDestroy(errno),
        spec_ioctl_error(IommufdCmd::IoasAlloc, errno) == IommufdError::IommuIoasAlloc(errno),
        spec_ioctl_error(IommufdCmd::IoasMap, errno) == IommufdError::IommuIoasMap(errno),
        spec_ioctl_error(IommufdCmd::IoasUnmap, errno) == IommufdError::IommuIoasUnmap(errno),
        spec_ioctl_error(IommufdCmd::HwptAlloc, errno) == IommufdError::IommuHwptAlloc(errno),
        spec_ioctl_error(IommufdCmd::GetHwInfo, errno) == IommufdError::IommuGetHwInfo(errno),
        spec_ioctl_error(IommufdCmd::HwptInvalidate, errno) == IommufdError::IommuHwptInvalidate(errno),
        spec_ioctl_error(IommufdCmd::ViommuAlloc, errno) == IommufdError::IommuViommuAlloc(errno),
        spec_ioctl_error(IommufdCmd::VdeviceAlloc, errno) == IommufdError::IommuVdeviceAlloc(errno),
        spec_ioctl_error(IommufdCmd::VeventqAlloc, errno) == IommufdError::IommuVeventqAlloc(errno),
{
}

} // verus!
