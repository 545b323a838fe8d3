[package]
name = "iommufd_ioctls"
version = "0.3.0"
edition = "2021"
publish = false

[dependencies]
iommufd-bindings = "*"
vmm-sys-util = "*"
thiserror = "*"
