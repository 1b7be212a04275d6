//! Lenovo extensions.

use vstd::prelude::*;

use crate::model::{BiosCommon, EnabledDisabled, ODataId};
use crate::text;

verus! {

#[derive(Debug)]
pub struct Manager {
    pub agentless_capabilities: Vec<String>,
    pub kcs_enabled: bool,
    pub recipients_settings: RecipientSettings,
}

/// Retry settings of event recipients. The two intervals are floating point
/// numbers in the document; they are kept as their IEEE bit patterns.
#[derive(Debug, Clone)]
pub struct RecipientSettings {
    pub retry_count: i64,
    pub retry_interval: u64,
    pub rntry_retry_interval: u64,
}

#[derive(Debug)]
pub struct System {
    pub scheduled_power_actions: ODataId,
    pub front_panel_usb: FrontPanelUSB,
    pub metrics: ODataId,
    pub system_status: String,
    pub number_of_reboots: i64,
    pub history_sys_perf: ODataId,
    pub odata_type: String,
    pub total_power_on_hours: i64,
    pub sensors: ODataId,
    pub boot_settings: ODataId,
}

#[derive(Debug)]
pub struct FrontPanelUSB {
    inactivity_timeout_mins: i64,
    id_button: String,
    port_switching_to: String,
    fp_mode: FrontPanelUSBMode,
}

impl FrontPanelUSB {
    pub fn new(
        inactivity_timeout_mins: i64,
        id_button: String,
        port_switching_to: String,
        fp_mode: FrontPanelUSBMode,
    ) -> (r: FrontPanelUSB)
        ensures
            r.mode() == fp_mode,
    {
        FrontPanelUSB { inactivity_timeout_mins, id_button, port_switching_to, fp_mode }
    }

    pub closed spec fn mode(&self) -> FrontPanelUSBMode {
        self.fp_mode
    }

    /// The front panel USB mode.
    pub fn fp_mode(&self) -> (r: FrontPanelUSBMode)
        ensures
            r == self.mode(),
    {
        self.fp_mode
    }
}

/// Who owns the front panel USB port.
#[derive(Clone, Copy, Debug, PartialEq, Eq, Structural)]
pub enum FrontPanelUSBMode {
    /// "Host Only Mode": the secure option.
    Server,
    /// "Shared Mode: owned by host": the default.
    Shared,
}

impl FrontPanelUSBMode {
    pub open spec fn text(self) -> Seq<char> {
        match self {
            FrontPanelUSBMode::Server => "Server"@,
            FrontPanelUSBMode::Shared => "Shared"@,
        }
    }

    /// The mode a name stands for.
    pub open spec fn parse_text(s: Seq<char>) -> Option<FrontPanelUSBMode> {
        if s == "Server"@ {
            Some(FrontPanelUSBMode::Server)
        } else if s == "Shared"@ {
            Some(FrontPanelUSBMode::Shared)
        } else {
            None
        }
    }

    /// The text of the error for a value that names no mode.
    pub open spec fn parse_error_text(s: Seq<char>) -> Seq<char> {
        "Invalid FrontPanelUSBMode value: "@ + s
    }

    /// The name of the mode.
    pub fn to_string(&self) -> (r: String)
        ensures
            r@ == self.text(),
    {
        match self {
            FrontPanelUSBMode::Server => "Server".to_string(),
            FrontPanelUSBMode::Shared => "Shared".to_string(),
        }
    }

    /// The mode a name stands for.
    pub fn from_str(s: &str) -> (r: Result<FrontPanelUSBMode, FrontPanelUSBModeParseError>)
        ensures
            match Self::parse_text(s@) {
                Some(m) => r == Ok::<FrontPanelUSBMode, FrontPanelUSBModeParseError>(m),
                None => r matches Err(e) && e.0@ == Self::parse_error_text(s@),
            },
    {
        proof {
            reveal_strlit("Server");
            reveal_strlit("Shared");
            assert("Server"@[1] != "Shared"@[1]);
        }
        if text::str_eq(s, "Server") {
            Ok(FrontPanelUSBMode::Server)
        } else if text::str_eq(s, "Shared") {
            Ok(FrontPanelUSBMode::Shared)
        } else {
            Err(FrontPanelUSBModeParseError(text::concat("Invalid FrontPanelUSBMode value: ", s)))
        }
    }
}

/// A value that names no front panel USB mode, with the message.
#[derive(Debug)]
pub struct FrontPanelUSBModeParseError(pub String);

/// A kind of boot option. The BMC knows more names; the library uses these two.
#[derive(Clone, Copy, Debug, PartialEq, Eq, Structural)]
pub enum BootOptionName {
    HardDisk,
    Network,
}

impl BootOptionName {
    pub open spec fn text(self) -> Seq<char> {
        match self {
            BootOptionName::HardDisk => "HardDisk"@,
            BootOptionName::Network => "Network"@,
        }
    }

    /// The name of the boot option kind.
    pub fn to_string(&self) -> (r: String)
        ensures
            r@ == self.text(),
    {
        match self {
            BootOptionName::HardDisk => "HardDisk".to_string(),
            BootOptionName::Network => "Network".to_string(),
        }
    }
}

/// A boot source override target.
#[derive(Clone, Copy, Debug, PartialEq, Eq, Structural)]
pub enum BootSource {
    /// No override (`None`).
    NoSource,
    Pxe,
    Cd,
    Usb,
    Hdd,
    BiosSetup,
    Diags,
    UefiTarget,
}

impl BootSource {
    pub open spec fn text(self) -> Seq<char> {
        match self {
            BootSource::NoSource => "None"@,
            BootSource::Pxe => "Pxe"@,
            BootSource::Cd => "Cd"@,
            BootSource::Usb => "Usb"@,
            BootSource::Hdd => "Hdd"@,
            BootSource::BiosSetup => "BiosSetup"@,
            BootSource::Diags => "Diags"@,
            BootSource::UefiTarget => "UefiTarget"@,
        }
    }

    /// The name of the boot source.
    pub fn to_string(&self) -> (r: String)
        ensures
            r@ == self.text(),
    {
        match self {
            BootSource::NoSource => "None".to_string(),
            BootSource::Pxe => "Pxe".to_string(),
            BootSource::Cd => "Cd".to_string(),
            BootSource::Usb => "Usb".to_string(),
            BootSource::Hdd => "Hdd".to_string(),
            BootSource::BiosSetup => "BiosSetup".to_string(),
            BootSource::Diags => "Diags".to_string(),
            BootSource::UefiTarget => "UefiTarget".to_string(),
        }
    }
}

/// Attributes part of the response of a Lenovo server for Systems/:id/Bios.
#[derive(Debug, Clone)]
pub struct BiosAttributes {
    pub tpm: BiosAttributesTPM,
    pub processors: BiosAttributesProcessors,
    pub memory_mirror_mode: EnabledDisabled,
    pub legacy_bios: EnabledDisabled,
    pub boot_modes_system_boot_mode: BootMode,
    pub secure_boot_configuration_secure_boot_status: EnabledDisabled,
    pub secure_boot_configuration_secure_boot_setting: EnabledDisabled,
}

#[derive(Clone, Copy, Debug, PartialEq, Eq, Structural)]
pub enum BootMode {
    UEFIMode,
    LegacyMode,
}

#[derive(Debug, Clone)]
pub struct BiosAttributesProcessors {
    pub cpu_state_control: String,
    pub adjacent_cache_prefetch: String,
    pub hyper_threading: String,
    pub intel_virtualization_technology: String,
}

#[derive(Debug, Clone)]
pub struct BiosAttributesTPM {
    pub device_operation: TPMOperation,
    pub sha1_pcrbank: EnabledDisabled,
    /// For example "TPM2.0 Device present."
    pub device_status: String,
}

#[derive(Clone, Copy, Debug, PartialEq, Eq, Structural)]
pub enum TPMOperation {
    /// No operation (`None`).
    NoOperation,
    UpdateToTPM2_0FirmwareVersion7_2_2_0,
    /// Reset.
    Clear,
}

#[derive(Debug, Clone)]
pub struct Bios {
    pub common: BiosCommon,
    pub attributes: BiosAttributes,
}

/// A front panel USB mode reads back from its name, and a name that reads as a
/// mode is that mode's name.
pub proof fn lemma_front_panel_usb_mode_round_trip(m: FrontPanelUSBMode, s: Seq<char>)
    ensures
        FrontPanelUSBMode::parse_text(m.text()) == Some(m),
        FrontPanelUSBMode::parse_text(s) == Some(m) ==> m.text() == s,
{
    reveal_strlit("Server");
    reveal_strlit("Shared");
    assert("Server"@[1] != "Shared"@[1]);
}

/// Each boot source is sent under its Redfish name (the override target
/// `Hdd` as "Hdd", `Cd` as "Cd", and so on, no override as "None"), and
/// distinct boot sources have distinct names.
pub proof fn lemma_boot_source_names(a: BootSource, b: BootSource)
    ensures
        BootSource::NoSource.text() == "None"@,
        BootSource::Pxe.text() == "Pxe"@,
        BootSource::Cd.text() == "Cd"@,
        BootSource::Usb.text() == "Usb"@,
        BootSource::Hdd.text() == "Hdd"@,
        BootSource::BiosSetup.text() == "BiosSetup"@,
        BootSource::Diags.text() == "Diags"@,
        BootSource::UefiTarget.text() == "UefiTarget"@,
        a.text() == b.text() ==> a == b,
{
    reveal_strlit("None");
    reveal_strlit("Pxe");
    reveal_strlit("Cd");
    reveal_strlit("Usb");
    reveal_strlit("Hdd");
    reveal_strlit("BiosSetup");
    reveal_strlit("Diags");
    reveal_strlit("UefiTarget");
    if a.text() == b.text() && a != b {
        assert(a.text().len() == b.text().len());
        assert(a.text()[0] == b.text()[0]);
    }
}

/// Each `FrontPanelUSBMode` is sent under its own name.
pub proof fn lemma_front_panel_u_s_b_mode_names()
    ensures
        FrontPanelUSBMode::Server.text() == "Server"@,
        FrontPanelUSBMode::Shared.text() == "Shared"@,
{
}

/// Each `BootOptionName` is sent under its own name.
pub proof fn lemma_boot_option_name_names()
    ensures
        BootOptionName::HardDisk.text() == "HardDisk"@,
        BootOptionName::Network.text() == "Network"@,
{
}

} // verus!
