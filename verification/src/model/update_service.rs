//! The software update service.

use vstd::prelude::*;

verus! {

/// https://redfish.dmtf.org/schemas/v1/UpdateService.v1_14_0.json
#[derive(Debug, Clone, Default)]
pub struct UpdateService {
    pub http_push_uri: String,
    pub max_image_size_bytes: i32,
    pub multipart_http_push_uri: String,
}

#[derive(Clone, Copy, Debug, PartialEq, Eq, Structural)]
pub enum TransferProtocolType {
    FTP,
    SFTP,
    HTTP,
    HTTPS,
    SCP,
    TFTP,
    OEM,
    NFS,
}

#[derive(Clone, Copy, Debug, PartialEq, Eq, Structural)]
pub enum ComponentType {
    BMC,
    UEFI,
    EROTBMC,
    EROTBIOS,
    CPLMID,
    CPLDMB,
    PSU { num: u32 },
    PCIeSwitch { num: u32 },
    PCIeRetimer { num: u32 },
    HGXBMC,
    Unknown,
}

} // verus!
