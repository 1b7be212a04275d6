//! Nvidia Viking (AMI BMC) extensions: BIOS attribute groups.

use vstd::prelude::*;

use crate::model::{EnableDisable, EnabledDisabled};

verus! {

/// A boot device.
#[derive(Clone, Copy, Debug, PartialEq, Eq, Structural)]
pub enum BootDevices {
    /// No device (`None`).
    NoDevice,
    Pxe,
    Floppy,
    Cd,
    Usb,
    Hdd,
    BiosSetup,
    Utilities,
    Diags,
    UefiShell,
    UefiTarget,
    SDCard,
    UefiHttp,
    RemoteDrive,
    UefiBootNext,
}

impl BootDevices {
    pub open spec fn text(self) -> Seq<char> {
        match self {
            BootDevices::NoDevice => "None"@,
            BootDevices::Pxe => "Pxe"@,
            BootDevices::Floppy => "Floppy"@,
            BootDevices::Cd => "Cd"@,
            BootDevices::Usb => "Usb"@,
            BootDevices::Hdd => "Hdd"@,
            BootDevices::BiosSetup => "BiosSetup"@,
            BootDevices::Utilities => "Utilities"@,
            BootDevices::Diags => "Diags"@,
            BootDevices::UefiShell => "UefiShell"@,
            BootDevices::UefiTarget => "UefiTarget"@,
            BootDevices::SDCard => "SDCard"@,
            BootDevices::UefiHttp => "UefiHttp"@,
            BootDevices::RemoteDrive => "RemoteDrive"@,
            BootDevices::UefiBootNext => "UefiBootNext"@,
        }
    }

    /// The name of the boot device.
    pub fn to_string(&self) -> (r: String)
        ensures
            r@ == self.text(),
    {
        match self {
            BootDevices::NoDevice => "None".to_string(),
            BootDevices::Pxe => "Pxe".to_string(),
            BootDevices::Floppy => "Floppy".to_string(),
            BootDevices::Cd => "Cd".to_string(),
            BootDevices::Usb => "Usb".to_string(),
            BootDevices::Hdd => "Hdd".to_string(),
            BootDevices::BiosSetup => "BiosSetup".to_string(),
            BootDevices::Utilities => "Utilities".to_string(),
            BootDevices::Diags => "Diags".to_string(),
            BootDevices::UefiShell => "UefiShell".to_string(),
            BootDevices::UefiTarget => "UefiTarget".to_string(),
            BootDevices::SDCard => "SDCard".to_string(),
            BootDevices::UefiHttp => "UefiHttp".to_string(),
            BootDevices::RemoteDrive => "RemoteDrive".to_string(),
            BootDevices::UefiBootNext => "UefiBootNext".to_string(),
        }
    }
}

#[derive(Debug, Clone)]
pub struct BiosAttributes {
    pub acpi_spcr_baud_rate: String,
    pub acpi_spcr_console_redirection_enable: bool,
    pub acpi_spcr_flow_control: String,
    pub acpi_spcr_port: String,
    pub acpi_spcr_terminal_type: String,
    pub baud_rate0: String,
    pub boot_option1: String,
    pub boot_option2: String,
    pub boot_option3: String,
    pub boot_option4: String,
    pub boot_option5: String,
    pub boot_option6: String,
    pub boot_order: String,
    pub console_redirection_enable0: bool,
    pub enable_sgx: EnabledDisabled,
    pub kcs_interface_disable: String,
    pub ipv4_http: EnabledDisabled,
    pub ipv4_pxe: EnabledDisabled,
    pub ipv6_http: EnabledDisabled,
    pub ipv6_pxe: EnabledDisabled,
    pub processor_hyper_threading_disable: EnabledDisabled,
    pub processor_ltsx_enable: EnableDisable,
    pub processor_smx_enable: EnableDisable,
    pub processor_vmx_enable: EnableDisable,
    pub redfish_enable: EnabledDisabled,
    pub secure_boot_mode: String,
    pub secure_boot_support: EnabledDisabled,
    pub sriov_enable: EnableDisable,
    pub terminal_type0: String,
    pub tpm_operation: String,
    pub tpm_support: EnableDisable,
    pub vtd_support: EnableDisable,
}

#[derive(Debug, Clone)]
pub struct Bios {
    pub odata_context: String,
    pub attributes: BiosAttributes,
}

#[derive(Debug, Clone)]
pub struct BiosLockdownAttributes {
    pub kcs_interface_disable: String,
    pub redfish_enable: EnabledDisabled,
}

#[derive(Debug, Clone)]
pub struct SetBiosLockdownAttributes {
    pub attributes: BiosLockdownAttributes,
}

#[derive(Debug, Clone)]
pub struct BiosSerialConsoleAttributes {
    pub acpi_spcr_baud_rate: String,
    pub acpi_spcr_console_redirection_enable: bool,
    pub acpi_spcr_flow_control: String,
    pub acpi_spcr_port: String,
    pub acpi_spcr_terminal_type: String,
    pub baud_rate0: String,
    pub console_redirection_enable0: bool,
    pub terminal_type0: String,
}

#[derive(Debug, Clone)]
pub struct SetBiosSerialConsoleAttributes {
    pub attributes: BiosSerialConsoleAttributes,
}

#[derive(Debug, Clone)]
pub struct BmcSerialConsoleAttributes {
    pub bit_rate: String,
    pub data_bits: String,
    pub flow_control: String,
    pub interface_enabled: bool,
    pub parity: String,
    pub stop_bits: String,
}

#[derive(Debug, Clone)]
pub struct TpmAttributes {
    pub tpm_operation: String,
    pub tpm_support: EnableDisable,
}

#[derive(Debug, Clone)]
pub struct SetTpmAttributes {
    pub attributes: TpmAttributes,
}

#[derive(Debug, Clone)]
pub struct VirtAttributes {
    pub sriov_enable: EnableDisable,
    pub vtd_support: EnableDisable,
}

#[derive(Debug, Clone)]
pub struct SetVirtAttributes {
    pub attributes: VirtAttributes,
}

#[derive(Debug, Clone)]
pub struct SgxAttributes {
    pub enable_sgx: EnabledDisabled,
    pub processor_ltsx_enable: EnableDisable,
    pub processor_smx_enable: EnableDisable,
    pub processor_vmx_enable: EnableDisable,
}

#[derive(Debug, Clone)]
pub struct SetSgxAttributes {
    pub attributes: SgxAttributes,
}

#[derive(Debug, Clone)]
pub struct UefiHttpAttributes {
    pub ipv4_http: EnabledDisabled,
    pub ipv4_pxe: EnabledDisabled,
    pub ipv6_http: EnabledDisabled,
    pub ipv6_pxe: EnabledDisabled,
}

#[derive(Debug, Clone)]
pub struct SetUefiHttpAttributes {
    pub attributes: UefiHttpAttributes,
}

/// Each `BootDevices` is sent under its own name.
pub proof fn lemma_boot_devices_names()
    ensures
        BootDevices::NoDevice.text() == "None"@,
        BootDevices::Pxe.text() == "Pxe"@,
        BootDevices::Floppy.text() == "Floppy"@,
        BootDevices::Cd.text() == "Cd"@,
        BootDevices::Usb.text() == "Usb"@,
        BootDevices::Hdd.text() == "Hdd"@,
        BootDevices::BiosSetup.text() == "BiosSetup"@,
        BootDevices::Utilities.text() == "Utilities"@,
        BootDevices::Diags.text() == "Diags"@,
        BootDevices::UefiShell.text() == "UefiShell"@,
        BootDevices::UefiTarget.text() == "UefiTarget"@,
        BootDevices::SDCard.text() == "SDCard"@,
        BootDevices::UefiHttp.text() == "UefiHttp"@,
        BootDevices::RemoteDrive.text() == "RemoteDrive"@,
        BootDevices::UefiBootNext.text() == "UefiBootNext"@,
{
}

} // verus!
