//! The calls that use the Redfish standard without any OEM extensions.

use vstd::prelude::*;

use crate::error::{is_invalid_key_type, is_missing_key, RedfishError};
use crate::json::{
    deep_clone, json_eq, push_member, require_key, require_object, view_entries, JsonValue,
    JsonView,
};
use crate::manager::Managers;
use crate::model::{ODataId, SystemPowerControl, Systems};
use crate::network::{get_of, post_of, NetworkConfig, Request};
use crate::text;

verus! {

/// The id that the first member of a collection names: the last segment of its
/// `@odata.id`, or `1` (the DMTF suggested default) for an empty collection.
pub open spec fn id_from_members(members: Seq<ODataId>) -> Seq<char> {
    if members.len() == 0 {
        "1"@
    } else {
        text::last_segment(members[0].odata_id@, '/')
    }
}

/// The id that the first member of a collection names.
pub fn first_member_id(members: &Vec<ODataId>) -> (r: String)
    ensures
        r@ == id_from_members(members@),
{
    if members.len() == 0 {
        "1".to_string()
    } else {
        text::last_segment_of(members[0].odata_id.as_str(), '/')
    }
}

/// The members of `attrs` whose value `current` does not hold under the same key.
pub open spec fn attribute_diff(
    attrs: Seq<(Seq<char>, JsonView)>,
    current: JsonView,
) -> Seq<(Seq<char>, JsonView)> {
    attrs.filter(|e: (Seq<char>, JsonView)| current.get(e.0) != Some(e.1))
}

/// Once the current document holds every requested attribute with its
/// requested value, nothing is reported as pending.
pub proof fn lemma_applied_attributes_not_pending(
    attrs: Seq<(Seq<char>, JsonView)>,
    current: JsonView,
)
    requires
        forall|i: int|
            0 <= i < attrs.len() ==> current.get(#[trigger] attrs[i].0) == Some(attrs[i].1),
    ensures
        attribute_diff(attrs, current).len() == 0,
{
    let pred = |e: (Seq<char>, JsonView)| current.get(e.0) != Some(e.1);
    let d = attrs.filter(pred);
    if d.len() > 0 {
        attrs.lemma_filter_pred(pred, 0);
        assert(d.contains(d[0]));
        attrs.lemma_filter_contains_rev(pred, d[0]);
        let j = choose|j: int| 0 <= j < attrs.len() && attrs[j] == d[0];
        assert(current.get(attrs[j].0) == Some(attrs[j].1));
    }
}

/// A requested attribute is reported as pending exactly when the current
/// document does not hold it with the requested value.
pub proof fn lemma_pending_iff_differs(
    attrs: Seq<(Seq<char>, JsonView)>,
    current: JsonView,
    entry: (Seq<char>, JsonView),
)
    requires
        attrs.contains(entry),
    ensures
        attribute_diff(attrs, current).contains(entry) <==> current.get(entry.0) != Some(entry.1),
{
    let pred = |e: (Seq<char>, JsonView)| current.get(e.0) != Some(e.1);
    let d = attrs.filter(pred);
    let i = choose|i: int| 0 <= i < attrs.len() && attrs[i] == entry;
    if pred(entry) {
        attrs.lemma_filter_contains(pred, i);
    }
    if d.contains(entry) {
        let k = choose|k: int| 0 <= k < d.len() && d[k] == entry;
        attrs.lemma_filter_pred(pred, k);
    }
}

/// The members of `pending` whose value differs from the one `current` holds
/// under the same key (or that `current` lacks), in the order of `pending`.
pub fn diff_attributes(pending: &Vec<(String, JsonValue)>, current: &JsonValue) -> (r: Vec<
    (String, JsonValue),
>)
    ensures
        view_entries(r@) == attribute_diff(view_entries(pending@), current@),
{
    broadcast use crate::json::group_json_view;
    broadcast use vstd::seq_lib::group_seq_properties;

    let ghost pv = view_entries(pending@);
    let ghost pred = |e: (Seq<char>, JsonView)| current@.get(e.0) != Some(e.1);
    let n = pending.len();
    let mut out: Vec<(String, JsonValue)> = Vec::new();
    proof {
        crate::json::lemma_view_entries(pending@);
    }
    for i in 0..n
        invariant
            n == pending@.len(),
            pv == view_entries(pending@),
            pv.len() == n,
            forall|j: int| 0 <= j < n ==> #[trigger] pv[j] == (pending@[j].0@, pending@[j].1@),
            pred == (|e: (Seq<char>, JsonView)| current@.get(e.0) != Some(e.1)),
            view_entries(out@) == pv.take(i as int).filter(pred),
    {
        let k = &pending[i].0;
        let v = &pending[i].1;
        assert(pv[i as int] == (k@, v@));
        let differs = match current.get(k.as_str()) {
            Some(c) => !json_eq(c, v),
            None => true,
        };
        assert(differs == pred(pv[i as int]));
        proof {
            pv.take(i as int).lemma_filter_push(pv[i as int], pred);
        }
        if differs {
            push_member(&mut out, k.as_str(), deep_clone(v));
        }
        assert(pv.take(i + 1) =~= pv.take(i as int).push(pv[i as int]));
    }
    assert(pv.take(n as int) =~= pv);
    out
}

/// A connection to a BMC, with the ids of the computer system and of the
/// manager that the calls go to.
#[derive(Debug)]
pub struct RedfishStandard {
    pub config: NetworkConfig,
    manager_id: String,
    system_id: String,
}

impl RedfishStandard {
    pub closed spec fn sid(&self) -> Seq<char> {
        self.system_id@
    }

    pub closed spec fn mid(&self) -> Seq<char> {
        self.manager_id@
    }

    pub closed spec fn network(&self) -> NetworkConfig {
        self.config
    }

    /// A connection whose system and manager ids are not known yet (empty):
    /// `set_system_id` and `set_manager_id` fill them in from the `Systems/`
    /// and `Managers/` collections.
    pub fn new(config: NetworkConfig) -> (r: RedfishStandard)
        ensures
            r.network() == config,
            r.sid() == Seq::<char>::empty(),
            r.mid() == Seq::<char>::empty(),
    {
        RedfishStandard { config, manager_id: String::new(), system_id: String::new() }
    }

    /// Sets the system id from the `Systems/` collection. Needed for all
    /// `Systems/{system_id}/...` calls.
    pub fn set_system_id(&mut self, systems: &Systems)
        ensures
            final(self).sid() == id_from_members(systems.members@),
            final(self).mid() == old(self).mid(),
            final(self).network() == old(self).network(),
    {
        self.system_id = first_member_id(&systems.members);
    }

    /// Sets the manager id from the `Managers/` collection. Needed for all
    /// `Managers/{manager_id}/...` calls.
    pub fn set_manager_id(&mut self, managers: &Managers)
        ensures
            final(self).mid() == id_from_members(managers.members@),
            final(self).sid() == old(self).sid(),
            final(self).network() == old(self).network(),
    {
        self.manager_id = first_member_id(&managers.members);
    }

    pub fn system_id(&self) -> (r: &str)
        ensures
            r@ == self.sid(),
    {
        self.system_id.as_str()
    }

    pub fn manager_id(&self) -> (r: &str)
        ensures
            r@ == self.mid(),
    {
        self.manager_id.as_str()
    }

    /// `Systems/{system_id}` followed by `suffix`.
    pub fn system_path(&self, suffix: &str) -> (r: String)
        ensures
            r@ == "Systems/"@ + self.sid() + suffix@,
    {
        let mut p = text::owned("Systems/");
        text::append(&mut p, self.system_id.as_str());
        text::append(&mut p, suffix);
        p
    }

    /// `Managers/{manager_id}` followed by `suffix`.
    pub fn manager_path(&self, suffix: &str) -> (r: String)
        ensures
            r@ == "Managers/"@ + self.mid() + suffix@,
    {
        let mut p = text::owned("Managers/");
        text::append(&mut p, self.manager_id.as_str());
        text::append(&mut p, suffix);
        p
    }

    /// `Chassis/{system_id}` followed by `suffix`.
    pub fn chassis_path(&self, suffix: &str) -> (r: String)
        ensures
            r@ == "Chassis/"@ + self.sid() + suffix@,
    {
        let mut p = text::owned("Chassis/");
        text::append(&mut p, self.system_id.as_str());
        text::append(&mut p, suffix);
        p
    }

    /// `Systems/{system_id}/SmartStorage/ArrayControllers/{controller_id}` followed by `suffix`.
    fn controller_path(&self, controller_id: u64, suffix: &str) -> (r: String)
        ensures
            r@ == "Systems/"@ + self.sid() + "/SmartStorage/ArrayControllers/"@ + text::decimal(
                controller_id as nat,
            ) + suffix@,
    {
        let mut p = self.system_path("/SmartStorage/ArrayControllers/");
        let c = text::u64_to_string(controller_id);
        text::append(&mut p, c.as_str());
        text::append(&mut p, suffix);
        p
    }

    /// The request for the computer system.
    pub fn get_system(&self) -> (r: Request)
        ensures
            r@ == get_of("Systems/"@ + self.sid() + "/"@),
    {
        Request::get(self.system_path("/"))
    }

    /// The request whose answer, the computer system, holds the power state.
    pub fn get_power_state(&self) -> (r: Request)
        ensures
            r@ == get_of("Systems/"@ + self.sid() + "/"@),
    {
        self.get_system()
    }

    /// The body that asks for a reset of type `action`.
    pub open spec fn power_body(action: SystemPowerControl) -> JsonView {
        JsonView::Object(seq![("ResetType"@, JsonView::String(action.text()))])
    }

    /// The request that changes the power state: on, off, reboot, etc.
    pub fn power(&self, action: SystemPowerControl) -> (r: Request)
        ensures
            r@ == post_of(
                "Systems/"@ + self.sid() + "/Actions/ComputerSystem.Reset"@,
                Self::power_body(action),
            ),
    {
        let mut body: Vec<(String, JsonValue)> = Vec::new();
        push_member(&mut body, "ResetType", JsonValue::String(action.to_string()));
        assert(view_entries(body@) =~= seq![("ResetType"@, JsonView::String(action.text()))]);
        Request::post(self.system_path("/Actions/ComputerSystem.Reset"), JsonValue::Object(body))
    }

    /// The request for the UEFI Secure Boot state of the system.
    pub fn get_secure_boot(&self) -> (r: Request)
        ensures
            r@ == get_of("Systems/"@ + self.sid() + "/SecureBoot"@),
    {
        Request::get(self.system_path("/SecureBoot"))
    }

    /// The request for the update service.
    pub fn get_update_service(&self) -> (r: Request)
        ensures
            r@ == get_of("UpdateService"@),
    {
        Request::get(text::owned("UpdateService"))
    }

    /// The request for the chassis collection.
    pub fn get_chassis_all(&self) -> (r: Request)
        ensures
            r@ == get_of("Chassis/"@),
    {
        Request::get(text::owned("Chassis/"))
    }

    /// The request for the boot options.
    pub fn get_boot_options(&self) -> (r: Request)
        ensures
            r@ == get_of("Systems/"@ + self.sid() + "/BootOptions"@),
    {
        Request::get(self.system_path("/BootOptions"))
    }

    /// The request for all the BIOS attributes. Very OEM specific.
    pub fn bios_attributes(&self) -> (r: Request)
        ensures
            r@ == get_of("Systems/"@ + self.sid() + "/Bios"@),
    {
        Request::get(self.system_path("/Bios"))
    }

    /// The pending BIOS attributes: the members of `Attributes` in the pending
    /// document (fetched from the vendor's pending URL) whose value differs from
    /// the one under `Attributes` in the current BIOS document.
    pub fn pending(pending: &JsonValue, current: &JsonValue) -> (r: Vec<(String, JsonValue)>)
        requires
            pending@.get("Attributes"@) matches Some(a) && a.as_object() is Some,
            current@.get("Attributes"@) is Some,
        ensures
            view_entries(r@) == attribute_diff(
                pending@.get("Attributes"@).unwrap().as_object().unwrap(),
                current@.get("Attributes"@).unwrap(),
            ),
    {
        let p = pending.get("Attributes").unwrap();
        let attrs = p.as_object().unwrap();
        let c = current.get("Attributes").unwrap();
        diff_attributes(attrs, c)
    }

    /// As `pending`, for services that may leave a key out: `MissingKey` when
    /// either document has no `Attributes`, `InvalidKeyType` when the pending
    /// one is not an object.
    pub fn pending_attributes(pending: &JsonValue, current: &JsonValue, url: &str) -> (r: Result<
        Vec<(String, JsonValue)>,
        RedfishError,
    >)
        ensures
            match r {
                Ok(d) => pending@.get("Attributes"@) matches Some(a) && a.as_object() matches Some(
                    o,
                ) && current@.get("Attributes"@) matches Some(c) && view_entries(d@)
                    == attribute_diff(o, c),
                Err(e) => {
                    ||| pending@.get("Attributes"@) is None && is_missing_key(
                        e,
                        "Attributes"@,
                        url@,
                    )
                    ||| pending@.get("Attributes"@) matches Some(a) && a.as_object() is None
                        && is_invalid_key_type(e, "Attributes"@, "Object"@, url@)
                    ||| pending@.get("Attributes"@) matches Some(a) && a.as_object() is Some
                        && current@.get("Attributes"@) is None && is_missing_key(
                        e,
                        "Attributes"@,
                        url@,
                    )
                },
            },
    {
        let p = require_key(pending, "Attributes", url)?;
        let attrs = require_object(p, "Attributes", url)?;
        let c = require_key(current, "Attributes", url)?;
        Ok(diff_attributes(attrs, c))
    }

    /// The request for an array controller. Not currently used.
    pub fn get_array_controller(&self, controller_id: u64) -> (r: Request)
        ensures
            r@ == get_of(
                "Systems/"@ + self.sid() + "/SmartStorage/ArrayControllers/"@ + text::decimal(
                    controller_id as nat,
                ) + "/"@,
            ),
    {
        Request::get(self.controller_path(controller_id, "/"))
    }

    /// The request for the array controllers. Not currently used.
    pub fn get_array_controllers(&self) -> (r: Request)
        ensures
            r@ == get_of("Systems/"@ + self.sid() + "/SmartStorage/ArrayControllers/"@),
    {
        Request::get(self.system_path("/SmartStorage/ArrayControllers/"))
    }

    /// The request for the power status. Not currently used.
    pub fn get_power_status(&self) -> (r: Request)
        ensures
            r@ == get_of("Chassis/"@ + self.sid() + "/Power/"@),
    {
        Request::get(self.chassis_path("/Power/"))
    }

    /// The request for the thermal status. Not currently used.
    pub fn get_thermal_status(&self) -> (r: Request)
        ensures
            r@ == get_of("Chassis/"@ + self.sid() + "/Thermal/"@),
    {
        Request::get(self.chassis_path("/Thermal/"))
    }

    /// The request for the smart array status. Not currently used.
    pub fn get_smart_array_status(&self, controller_id: u64) -> (r: Request)
        ensures
            r@ == get_of(
                "Systems/"@ + self.sid() + "/SmartStorage/ArrayControllers/"@ + text::decimal(
                    controller_id as nat,
                ) + "/"@,
            ),
    {
        Request::get(self.controller_path(controller_id, "/"))
    }

    /// The request for the logical drives of a controller. Not currently used.
    pub fn get_logical_drives(&self, controller_id: u64) -> (r: Request)
        ensures
            r@ == get_of(
                "Systems/"@ + self.sid() + "/SmartStorage/ArrayControllers/"@ + text::decimal(
                    controller_id as nat,
                ) + "/LogicalDrives/"@,
            ),
    {
        Request::get(self.controller_path(controller_id, "/LogicalDrives/"))
    }

    /// The request for a physical drive of a controller. Not currently used.
    pub fn get_physical_drive(&self, drive_id: u64, controller_id: u64) -> (r: Request)
        ensures
            r@ == get_of(
                "Systems/"@ + self.sid() + "/SmartStorage/ArrayControllers/"@ + text::decimal(
                    controller_id as nat,
                ) + "/DiskDrives/"@ + text::decimal(drive_id as nat) + "/"@,
            ),
    {
        let mut p = self.controller_path(controller_id, "/DiskDrives/");
        let d = text::u64_to_string(drive_id);
        text::append(&mut p, d.as_str());
        text::append(&mut p, "/");
        Request::get(p)
    }

    /// The request for the physical drives of a controller. Not currently used.
    pub fn get_physical_drives(&self, controller_id: u64) -> (r: Request)
        ensures
            r@ == get_of(
                "Systems/"@ + self.sid() + "/SmartStorage/ArrayControllers/"@ + text::decimal(
                    controller_id as nat,
                ) + "/DiskDrives/"@,
            ),
    {
        Request::get(self.controller_path(controller_id, "/DiskDrives/"))
    }

    /// The request for the storage enclosures of a controller. Not currently used.
    pub fn get_storage_enclosures(&self, controller_id: u64) -> (r: Request)
        ensures
            r@ == get_of(
                "Systems/"@ + self.sid() + "/SmartStorage/ArrayControllers/"@ + text::decimal(
                    controller_id as nat,
                ) + "/StorageEnclosures/"@,
            ),
    {
        Request::get(self.controller_path(controller_id, "/StorageEnclosures/"))
    }

    /// The request for a storage enclosure of a controller. Not currently used.
    pub fn get_storage_enclosure(&self, controller_id: u64, enclosure_id: u64) -> (r: Request)
        ensures
            r@ == get_of(
                "Systems/"@ + self.sid() + "/SmartStorage/ArrayControllers/"@ + text::decimal(
                    controller_id as nat,
                ) + "/StorageEnclosures/"@ + text::decimal(enclosure_id as nat) + "/"@,
            ),
    {
        let mut p = self.controller_path(controller_id, "/StorageEnclosures/");
        let e = text::u64_to_string(enclosure_id);
        text::append(&mut p, e.as_str());
        text::append(&mut p, "/");
        Request::get(p)
    }
}

} // verus!
