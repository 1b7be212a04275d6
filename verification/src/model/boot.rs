//! Boot source override settings of a computer system.

use vstd::prelude::*;

verus! {

/// The device to boot from when the override applies.
#[derive(Clone, Copy, Debug, PartialEq, Eq, Structural)]
pub enum BootSourceOverrideTarget {
    /// No override target (`None`).
    NoTarget,
    Pxe,
    Hdd,
    UefiHttp,
}

impl BootSourceOverrideTarget {
    pub open spec fn text(self) -> Seq<char> {
        match self {
            BootSourceOverrideTarget::NoTarget => "None"@,
            BootSourceOverrideTarget::Pxe => "Pxe"@,
            BootSourceOverrideTarget::Hdd => "Hdd"@,
            BootSourceOverrideTarget::UefiHttp => "UefiHttp"@,
        }
    }

    /// The name of the value.
    pub fn to_string(&self) -> (r: String)
        ensures
            r@ == self.text(),
    {
        match self {
            BootSourceOverrideTarget::NoTarget => "None".to_string(),
            BootSourceOverrideTarget::Pxe => "Pxe".to_string(),
            BootSourceOverrideTarget::Hdd => "Hdd".to_string(),
            BootSourceOverrideTarget::UefiHttp => "UefiHttp".to_string(),
        }
    }
}

/// Whether the override applies once, always, or not at all.
#[derive(Clone, Copy, Debug, PartialEq, Eq, Structural)]
pub enum BootSourceOverrideEnabled {
    Once,
    Continuous,
    Disabled,
}

impl BootSourceOverrideEnabled {
    pub open spec fn text(self) -> Seq<char> {
        match self {
            BootSourceOverrideEnabled::Once => "Once"@,
            BootSourceOverrideEnabled::Continuous => "Continuous"@,
            BootSourceOverrideEnabled::Disabled => "Disabled"@,
        }
    }

    /// The name of the value.
    pub fn to_string(&self) -> (r: String)
        ensures
            r@ == self.text(),
    {
        match self {
            BootSourceOverrideEnabled::Once => "Once".to_string(),
            BootSourceOverrideEnabled::Continuous => "Continuous".to_string(),
            BootSourceOverrideEnabled::Disabled => "Disabled".to_string(),
        }
    }
}

/// The firmware mode the override boots in.
#[derive(Clone, Copy, Debug, PartialEq, Eq, Structural)]
pub enum BootSourceOverrideMode {
    UEFI,
    Legacy,
}

impl BootSourceOverrideMode {
    pub open spec fn text(self) -> Seq<char> {
        match self {
            BootSourceOverrideMode::UEFI => "UEFI"@,
            BootSourceOverrideMode::Legacy => "Legacy"@,
        }
    }

    /// The name of the value.
    pub fn to_string(&self) -> (r: String)
        ensures
            r@ == self.text(),
    {
        match self {
            BootSourceOverrideMode::UEFI => "UEFI".to_string(),
            BootSourceOverrideMode::Legacy => "Legacy".to_string(),
        }
    }
}

/// Each `BootSourceOverrideTarget` is sent under its own name.
pub proof fn lemma_boot_source_override_target_names()
    ensures
        BootSourceOverrideTarget::NoTarget.text() == "None"@,
        BootSourceOverrideTarget::Pxe.text() == "Pxe"@,
        BootSourceOverrideTarget::Hdd.text() == "Hdd"@,
        BootSourceOverrideTarget::UefiHttp.text() == "UefiHttp"@,
{
}

/// Each `BootSourceOverrideEnabled` is sent under its own name.
pub proof fn lemma_boot_source_override_enabled_names()
    ensures
        BootSourceOverrideEnabled::Once.text() == "Once"@,
        BootSourceOverrideEnabled::Continuous.text() == "Continuous"@,
        BootSourceOverrideEnabled::Disabled.text() == "Disabled"@,
{
}

/// Each `BootSourceOverrideMode` is sent under its own name.
pub proof fn lemma_boot_source_override_mode_names()
    ensures
        BootSourceOverrideMode::UEFI.text() == "UEFI"@,
        BootSourceOverrideMode::Legacy.text() == "Legacy"@,
{
}

} // verus!
