# iommufd_ioctls

Safe wrappers over the Linux iommufd uAPI, with the decisions verified by
Verus.

- `src/` is the verified library: the ioctl request codes (`codes`), the
  mapping of failed ioctls to errors (`error`), the uAPI payloads and
  requests as plain values (`data`), the creation, invalidation, vEVENTQ
  and teardown requests of a vIOMMU (`viommu`), the stage-1 HWPT life cycle
  of a vDevice (`vdevice`), and the decoding of ARM SMMUv3 virtual events
  (`vevent`). `uapi` reads the uAPI constants from `iommufd_bindings` and
  `vmm_sys_util`.
- `app/` holds the `/dev/iommu` handle and performs the ioctls and reads
  that the library's requests describe.
- `tests/` exercises the library on concrete values.
