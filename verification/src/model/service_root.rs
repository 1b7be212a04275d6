//! The service root of a Redfish service, and which vendor it belongs to.

use vstd::prelude::*;

use super::{OData, ODataId};
use crate::json::JsonValue;
use crate::text;

verus! {

/// https://redfish.dmtf.org/schemas/v1/ServiceRoot.v1_16_0.json
///
/// `oem` and `update_service` hold the members of those JSON objects, in the
/// order the document gives them.
#[derive(Debug)]
pub struct ServiceRoot {
    pub odata: OData,
    pub product: Option<String>,
    pub redfish_version: String,
    pub vendor: Option<String>,
    pub uuid: Option<String>,
    pub oem: Option<Vec<(String, JsonValue)>>,
    pub update_service: Option<Vec<(String, JsonValue)>>,
    pub account_service: Option<ODataId>,
    pub certificate_service: Option<ODataId>,
    pub chassis: Option<ODataId>,
    pub event_service: Option<ODataId>,
    pub license_service: Option<ODataId>,
    pub fabrics: Option<ODataId>,
    pub managers: Option<ODataId>,
    pub session_service: Option<ODataId>,
    pub systems: Option<ODataId>,
    pub tasks: Option<ODataId>,
    pub telemetry_service: Option<ODataId>,
}

/// The vendors the library tells apart.
#[derive(Clone, Copy, Debug, PartialEq, Eq, Structural)]
pub enum RedfishVendor {
    Lenovo,
    Dell,
    NvidiaDpu,
    Supermicro,
    /// Viking
    AMI,
    Hpe,
    NvidiaGH200,
    Unknown,
}

impl RedfishVendor {
    pub open spec fn text(self) -> Seq<char> {
        match self {
            RedfishVendor::Lenovo => "Lenovo"@,
            RedfishVendor::Dell => "Dell"@,
            RedfishVendor::NvidiaDpu => "NvidiaDpu"@,
            RedfishVendor::Supermicro => "Supermicro"@,
            RedfishVendor::AMI => "AMI"@,
            RedfishVendor::Hpe => "Hpe"@,
            RedfishVendor::NvidiaGH200 => "NvidiaGH200"@,
            RedfishVendor::Unknown => "Unknown"@,
        }
    }

    /// The name of the vendor.
    pub fn to_string(&self) -> (r: String)
        ensures
            r@ == self.text(),
    {
        match self {
            RedfishVendor::Lenovo => "Lenovo".to_string(),
            RedfishVendor::Dell => "Dell".to_string(),
            RedfishVendor::NvidiaDpu => "NvidiaDpu".to_string(),
            RedfishVendor::Supermicro => "Supermicro".to_string(),
            RedfishVendor::AMI => "AMI".to_string(),
            RedfishVendor::Hpe => "Hpe".to_string(),
            RedfishVendor::NvidiaGH200 => "NvidiaGH200".to_string(),
            RedfishVendor::Unknown => "Unknown".to_string(),
        }
    }
}

/// The vendor that a vendor name in lower case and a product name stand for:
/// an Nvidia product `P3809` is a GH200.
pub open spec fn vendor_of_lower(lower: Seq<char>, product: Option<Seq<char>>) -> RedfishVendor {
    if lower == "ami"@ {
        RedfishVendor::AMI
    } else if lower == "dell"@ {
        RedfishVendor::Dell
    } else if lower == "hpe"@ {
        RedfishVendor::Hpe
    } else if lower == "lenovo"@ {
        RedfishVendor::Lenovo
    } else if lower == "nvidia"@ {
        if product == Some("P3809"@) {
            RedfishVendor::NvidiaGH200
        } else {
            RedfishVendor::NvidiaDpu
        }
    } else if lower == "supermicro"@ {
        RedfishVendor::Supermicro
    } else {
        RedfishVendor::Unknown
    }
}

/// The vendor that a vendor name and a product name stand for: the name is
/// compared in lower case.
pub open spec fn vendor_of(name: Seq<char>, product: Option<Seq<char>>) -> RedfishVendor {
    vendor_of_lower(text::lowercase(name), product)
}

/// The vendor that a vendor name, already in lower case, and a product name
/// stand for.
pub fn vendor_from_lowercase(lower: &str, product: &Option<String>) -> (r: RedfishVendor)
    ensures
        r == vendor_of_lower(
            lower@,
            match product {
                Some(p) => Some(p@),
                None => None,
            },
        ),
{
    if text::str_eq(lower, "ami") {
        RedfishVendor::AMI
    } else if text::str_eq(lower, "dell") {
        RedfishVendor::Dell
    } else if text::str_eq(lower, "hpe") {
        RedfishVendor::Hpe
    } else if text::str_eq(lower, "lenovo") {
        RedfishVendor::Lenovo
    } else if text::str_eq(lower, "nvidia") {
        let is_gh200 = match product {
            Some(p) => text::str_eq(p.as_str(), "P3809"),
            None => false,
        };
        if is_gh200 {
            RedfishVendor::NvidiaGH200
        } else {
            RedfishVendor::NvidiaDpu
        }
    } else if text::str_eq(lower, "supermicro") {
        RedfishVendor::Supermicro
    } else {
        RedfishVendor::Unknown
    }
}

impl ServiceRoot {
    /// The vendor name: the `Vendor` key, or else the first key of `Oem`.
    pub open spec fn vendor_name(&self) -> Option<Seq<char>> {
        match self.vendor {
            Some(v) => Some(v@),
            None => match self.oem {
                Some(o) => if o@.len() > 0 {
                    Some(o@[0].0@)
                } else {
                    None
                },
                None => None,
            },
        }
    }

    pub open spec fn product_name(&self) -> Option<Seq<char>> {
        match self.product {
            Some(p) => Some(p@),
            None => None,
        }
    }

    /// Vendor provided by Redfish ServiceRoot.
    ///
    /// If there is no "Vendor" key in ServiceRoot, the "Oem" entry is used: it
    /// has a single key, which is the vendor name.
    pub fn vendor_string(&self) -> (r: Option<String>)
        ensures
            match r {
                Some(s) => self.vendor_name() == Some(s@),
                None => self.vendor_name() is None,
            },
    {
        match &self.vendor {
            Some(v) => Some(v.clone()),
            None => match &self.oem {
                Some(o) => {
                    if o.len() > 0 {
                        Some(o[0].0.clone())
                    } else {
                        None
                    }
                },
                None => None,
            },
        }
    }

    /// The vendor, when the service root names one.
    pub fn vendor(&self) -> (r: Option<RedfishVendor>)
        ensures
            r == match self.vendor_name() {
                Some(v) => Some(vendor_of(v, self.product_name())),
                None => None,
            },
    {
        let v = match self.vendor_string() {
            Some(v) => v,
            None => return None,
        };
        let l = text::to_lowercase(v.as_str());
        Some(vendor_from_lowercase(l.as_str(), &self.product))
    }
}

/// Each `RedfishVendor` is sent under its own name.
pub proof fn lemma_redfish_vendor_names()
    ensures
        RedfishVendor::Lenovo.text() == "Lenovo"@,
        RedfishVendor::Dell.text() == "Dell"@,
        RedfishVendor::NvidiaDpu.text() == "NvidiaDpu"@,
        RedfishVendor::Supermicro.text() == "Supermicro"@,
        RedfishVendor::AMI.text() == "AMI"@,
        RedfishVendor::Hpe.text() == "Hpe"@,
        RedfishVendor::NvidiaGH200.text() == "NvidiaGH200"@,
        RedfishVendor::Unknown.text() == "Unknown"@,
{
}

/// The vendor is found by its lower-case name: "ami", "dell", "hpe",
/// "lenovo", "nvidia" (a GH200 when the product is `P3809`, else a DPU) and
/// "supermicro"; any other name is an unknown vendor.
pub proof fn lemma_vendor_by_lower_name(lower: Seq<char>, product: Option<Seq<char>>)
    ensures
        (vendor_of_lower(lower, product) == RedfishVendor::AMI) <==> lower == "ami"@,
        (vendor_of_lower(lower, product) == RedfishVendor::Dell) <==> lower == "dell"@,
        (vendor_of_lower(lower, product) == RedfishVendor::Hpe) <==> lower == "hpe"@,
        (vendor_of_lower(lower, product) == RedfishVendor::Lenovo) <==> lower == "lenovo"@,
        (vendor_of_lower(lower, product) == RedfishVendor::NvidiaGH200) <==> (lower == "nvidia"@
            && product == Some("P3809"@)),
        (vendor_of_lower(lower, product) == RedfishVendor::NvidiaDpu) <==> (lower == "nvidia"@
            && product != Some("P3809"@)),
        (vendor_of_lower(lower, product) == RedfishVendor::Supermicro) <==> lower == "supermicro"@,
{
    reveal_strlit("ami");
    reveal_strlit("dell");
    reveal_strlit("hpe");
    reveal_strlit("lenovo");
    reveal_strlit("nvidia");
    reveal_strlit("supermicro");
    assert("ami"@[0] != "hpe"@[0]);
    assert("lenovo"@[0] != "nvidia"@[0]);
    assert("ami"@.len() != "dell"@.len());
    assert("dell"@.len() != "lenovo"@.len());
    assert("lenovo"@.len() != "supermicro"@.len());
}

} // verus!
