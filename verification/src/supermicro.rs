//! Supermicro servers.

use vstd::prelude::*;

use crate::error::{InvalidValueError, RedfishError, is_missing_key, is_invalid_key_type, is_not_supported};
use crate::json::{
    bool_member, bool_member_error, bool_member_of, bool_member_ok, holds_all, lookup,
    push_member, require_key, str_member, str_member_error, str_member_of, str_member_ok,
    view_entries, view_values, JsonValue, JsonView,
};
use crate::manager::Commandshell;
use crate::model::boot::{BootSourceOverrideEnabled, BootSourceOverrideMode, BootSourceOverrideTarget};
use crate::model::oem::supermicro::Privilege;
use crate::model::account_service::ManagerAccount;
use crate::model::EnabledDisabled;
use crate::network::{get_of, patch_of, views, Request, RequestView};
use crate::standard::{attribute_diff, RedfishStandard};
use crate::text;
use crate::{Boot, LockdownStatus, LockdownStatusInternal};

verus! {

/// A one-member object.
pub open spec fn obj1(key: Seq<char>, value: JsonView) -> JsonView {
    JsonView::Object(seq![(key, value)])
}

/// The `@odata.id` that a JSON document decodes to as an `ODataId`: an object
/// with a string member `@odata.id`, or an array holding exactly one string.
pub open spec fn odata_id_of(v: JsonView) -> Option<Seq<char>> {
    match v {
        JsonView::Object(_) => match v.get("@odata.id"@) {
            Some(JsonView::String(s)) => Some(s),
            _ => None,
        },
        JsonView::Array(a) => if a.len() == 1 && a[0] is String {
            Some(a[0]->String_0)
        } else {
            None
        },
        _ => None,
    }
}

/// Every element of `a` decodes to an `ODataId`.
pub open spec fn all_odata_ids(a: Seq<JsonView>) -> bool {
    forall|i: int| 0 <= i < a.len() ==> #[trigger] odata_id_of(a[i]) is Some
}

/// The ids (last path segments) of the links in `a`.
pub open spec fn member_ids(a: Seq<JsonView>) -> Seq<Seq<char>> {
    Seq::new(a.len(), |i: int| text::last_segment(odata_id_of(a[i]).unwrap(), '/'))
}

/// `body` holds a `Members` array of links.
pub open spec fn members_ok(body: JsonView) -> bool {
    body.get("Members"@) matches Some(JsonView::Array(a)) && all_odata_ids(a)
}

/// The text of a list of strings.
pub open spec fn strings_view(v: Seq<String>) -> Seq<Seq<char>> {
    v.map_values(|s: String| s@)
}

/// The lockdown state that the host interface, the KCS privilege and the
/// system lockdown flag stand for.
pub open spec fn lockdown_state(is_hi_on: bool, kcs: Privilege, is_syslockdown: bool) -> LockdownStatusInternal {
    if is_syslockdown && kcs == Privilege::Callback && !is_hi_on {
        LockdownStatusInternal::Enabled
    } else if !is_syslockdown && kcs == Privilege::Administrator && is_hi_on {
        LockdownStatusInternal::Disabled
    } else {
        LockdownStatusInternal::Partial
    }
}

/// The message that reports the three values.
pub open spec fn lockdown_message(is_hi_on: bool, kcs: Privilege, is_syslockdown: bool) -> Seq<char> {
    "SysLockdownEnabled="@ + text::bool_text(is_syslockdown) + ", kcs_privilege="@ + kcs.text()
        + ", host_interface_enabled="@ + text::bool_text(is_hi_on)
}

/// The member of the BIOS attributes that `set_tpms` sends for `e`: the TPM
/// type for each `DeviceSelect` attribute not already set to it.
pub open spec fn tpm_selection(attrs: Seq<(Seq<char>, JsonView)>, tpm_type: Seq<char>) -> Seq<(Seq<char>, JsonView)> {
    attrs.filter(|e: (Seq<char>, JsonView)| text::is_prefix_of("DeviceSelect"@, e.0) && e.1 != JsonView::String(tpm_type))
        .map_values(|e: (Seq<char>, JsonView)| (e.0, JsonView::String(tpm_type)))
}

/// One step of locking or unlocking: a request, or setting every host
/// interface (whose ids the `HostInterfaces` collection lists) as given.
#[derive(Debug)]
pub enum LockdownStep {
    Send(Request),
    SetHostInterfaces(EnabledDisabled),
}

/// The model of a step.
pub enum LockdownStepView {
    Send(RequestView),
    SetHostInterfaces(EnabledDisabled),
}

impl View for LockdownStep {
    type V = LockdownStepView;

    open spec fn view(&self) -> LockdownStepView {
        match self {
            LockdownStep::Send(r) => LockdownStepView::Send(r@),
            LockdownStep::SetHostInterfaces(t) => LockdownStepView::SetHostInterfaces(*t),
        }
    }
}

pub open spec fn step_views(s: Seq<LockdownStep>) -> Seq<LockdownStepView> {
    s.map_values(|x: LockdownStep| x@)
}

/// The ids of the links under `Members` of a collection document, as
/// `serde_json` decodes them to `Vec<ODataId>`: `MissingKey` without
/// `Members`, `InvalidKeyType` when it is not such a list.
pub fn get_members(body: &JsonValue, url: &str) -> (r: Result<Vec<String>, RedfishError>)
    ensures
        match r {
            Ok(ids) => members_ok(body@) && strings_view(ids@) == member_ids(body@.get("Members"@).unwrap()->Array_0),
            Err(e) => !members_ok(body@) && {
                ||| body@.get("Members"@) is None && is_missing_key(e, "Members"@, url@)
                ||| body@.get("Members"@) is Some && is_invalid_key_type(e, "Members"@, "Vec<ODataId>"@, url@)
            },
        },
{
    broadcast use crate::json::group_json_view;

    let members = require_key(body, "Members", url)?;
    let arr = match members.as_array() {
        Some(a) => a,
        None => return Err(RedfishError::invalid_key_type("Members", "Vec<ODataId>", url)),
    };
    let ghost av = view_values(arr@);
    assert(body@.get("Members"@) == Some(JsonView::Array(av)));
    let n = arr.len();
    let mut ids: Vec<String> = Vec::new();
    for i in 0..n
        invariant
            n == arr@.len(),
            av == view_values(arr@),
            av.len() == n,
            forall|j: int| 0 <= j < n ==> #[trigger] av[j] == arr@[j]@,
            forall|j: int| 0 <= j < i ==> #[trigger] odata_id_of(av[j]) is Some,
            strings_view(ids@) == member_ids(av).take(i as int),
            body@.get("Members"@) == Some(JsonView::Array(av)),
    {
        let id = match odata_id_text(&arr[i]) {
            Some(s) => s,
            None => {
                assert(!all_odata_ids(av)) by {
                    assert(odata_id_of(av[i as int]) is None);
                }
                return Err(RedfishError::invalid_key_type("Members", "Vec<ODataId>", url));
            },
        };
        let seg = text::last_segment_of(id.as_str(), '/');
        let ghost before = ids@;
        ids.push(seg);
        assert(strings_view(ids@) =~= member_ids(av).take(i + 1)) by {
            assert(strings_view(ids@) =~= strings_view(before).push(seg@));
        }
    }
    assert(member_ids(av).take(n as int) =~= member_ids(av));
    Ok(ids)
}

/// The `@odata.id` that a document decodes to as an `ODataId`.
fn odata_id_text(v: &JsonValue) -> (r: Option<&String>)
    ensures
        match r {
            Some(s) => odata_id_of(v@) == Some(s@),
            None => odata_id_of(v@) is None,
        },
{
    broadcast use crate::json::group_json_view;

    match v {
        JsonValue::Object(entries) => {
            assert(v@ == JsonView::Object(view_entries(entries@)));
            match v.get("@odata.id") {
                Some(x) => match x {
                    JsonValue::String(s) => {
                        assert(x@ == JsonView::String(s@));
                        Some(s)
                    },
                    _ => {
                        assert(!(x@ is String));
                        None
                    },
                },
                None => None,
            }
        },
        JsonValue::Array(a) => {
            proof {
                crate::json::lemma_view_values(a@);
            }
            assert(v@ == JsonView::Array(view_values(a@)));
            if a.len() == 1 {
                assert(view_values(a@)[0] == a@[0]@);
                match &a[0] {
                    JsonValue::String(s) => Some(s),
                    _ => None,
                }
            } else {
                None
            }
        },
        _ => None,
    }
}

/// A Supermicro server.
#[derive(Debug)]
pub struct Bmc {
    s: RedfishStandard,
}

impl Bmc {
    pub closed spec fn standard(&self) -> RedfishStandard {
        self.s
    }

    pub open spec fn sid(&self) -> Seq<char> {
        self.standard().sid()
    }

    pub open spec fn mid(&self) -> Seq<char> {
        self.standard().mid()
    }

    pub fn new(s: RedfishStandard) -> (r: Result<Bmc, RedfishError>)
        ensures
            r matches Ok(b) && b.standard() == s,
    {
        Ok(Bmc { s })
    }

    /// The connection this server is reached through.
    pub fn standard_ref(&self) -> (r: &RedfishStandard)
        ensures
            *r == self.standard(),
    {
        &self.s
    }

    pub open spec fn kcs_path(&self) -> Seq<char> {
        "Managers/"@ + self.mid() + "/Oem/Supermicro/KCSInterface"@
    }

    pub open spec fn syslockdown_path(&self) -> Seq<char> {
        "Managers/"@ + self.mid() + "/Oem/Supermicro/SysLockdown"@
    }

    pub open spec fn host_interfaces_path(&self) -> Seq<char> {
        "Managers/"@ + self.mid() + "/HostInterfaces"@
    }

    pub open spec fn host_interface_path(&self, iface_id: Seq<char>) -> Seq<char> {
        "Managers/"@ + self.mid() + "/HostInterfaces/"@ + iface_id
    }

    /// The body that sets the KCS privilege.
    pub open spec fn kcs_body(privilege: Privilege) -> JsonView {
        obj1("Privilege"@, JsonView::String(privilege.text()))
    }

    /// The body that turns system lockdown on or off.
    pub open spec fn syslockdown_body(target: EnabledDisabled) -> JsonView {
        obj1("SysLockdownEnabled"@, JsonView::Bool(target == EnabledDisabled::Enabled))
    }

    /// The body that enables or disables a host interface.
    pub open spec fn host_interface_body(target: EnabledDisabled) -> JsonView {
        obj1("InterfaceEnabled"@, JsonView::Bool(target == EnabledDisabled::Enabled))
    }

    pub open spec fn kcs_request(&self, privilege: Privilege) -> RequestView {
        patch_of(self.kcs_path(), Self::kcs_body(privilege))
    }

    pub open spec fn syslockdown_request(&self, target: EnabledDisabled) -> RequestView {
        patch_of(self.syslockdown_path(), Self::syslockdown_body(target))
    }

    pub open spec fn host_interface_request(&self, iface_id: Seq<char>, target: EnabledDisabled) -> RequestView {
        patch_of(self.host_interface_path(iface_id), Self::host_interface_body(target))
    }

    /// The request for the KCS interface settings.
    pub fn kcs_interface_request(&self) -> (r: Request)
        ensures
            r@ == get_of(self.kcs_path()),
    {
        Request::get(self.s.manager_path("/Oem/Supermicro/KCSInterface"))
    }

    /// The KCS privilege from the KCS interface document: `MissingKey` or
    /// `InvalidKeyType` as the `Privilege` member is missing, not a string, or
    /// names no privilege.
    pub fn get_kcs_privilege(&self, body: &JsonValue) -> (r: Result<Privilege, RedfishError>)
        ensures
            match r {
                Ok(p) => str_member_ok(body@, "Privilege"@) && Privilege::parse_text(
                    str_member(body@, "Privilege"@),
                ) == Some(p),
                Err(e) => {
                    ||| !str_member_ok(body@, "Privilege"@) && str_member_error(
                        body@,
                        "Privilege"@,
                        self.kcs_path(),
                        e,
                    )
                    ||| str_member_ok(body@, "Privilege"@) && Privilege::parse_text(
                        str_member(body@, "Privilege"@),
                    ) is None && is_invalid_key_type(
                        e,
                        "Privilege"@,
                        "oem::supermicro::Privilege"@,
                        self.kcs_path(),
                    )
                },
            },
    {
        let url = self.s.manager_path("/Oem/Supermicro/KCSInterface");
        let p_str = str_member_of(body, "Privilege", url.as_str())?;
        match Privilege::from_str(p_str.as_str()) {
            Some(p) => Ok(p),
            None => Err(
                RedfishError::invalid_key_type(
                    "Privilege",
                    "oem::supermicro::Privilege",
                    url.as_str(),
                ),
            ),
        }
    }

    /// The request that sets the KCS privilege.
    pub fn set_kcs_privilege(&self, privilege: Privilege) -> (r: Request)
        ensures
            r@ == self.kcs_request(privilege),
    {
        let mut body: Vec<(String, JsonValue)> = Vec::new();
        push_member(&mut body, "Privilege", JsonValue::String(privilege.to_string()));
        assert(view_entries(body@) =~= seq![("Privilege"@, JsonView::String(privilege.text()))]);
        Request::patch(self.s.manager_path("/Oem/Supermicro/KCSInterface"), JsonValue::Object(body))
    }

    /// The request for the host interface collection.
    pub fn host_interfaces_request(&self) -> (r: Request)
        ensures
            r@ == get_of(self.host_interfaces_path()),
    {
        Request::get(self.s.manager_path("/HostInterfaces"))
    }

    /// The id of the single host interface, from the host interface collection
    /// at `Managers/{manager_id}/HostInterfaces`: the errors of `get_members` for
    /// that url, or `InvalidValue` on `Members` when there is not exactly one
    /// interface.
    pub fn single_host_interface(&self, body: &JsonValue) -> (r: Result<String, RedfishError>)
        ensures
            match r {
                Ok(id) => members_ok(body@) && member_ids(body@.get("Members"@).unwrap()->Array_0)
                    == seq![id@],
                Err(e) => {
                    let url = self.host_interfaces_path();
                    ||| !members_ok(body@) && body@.get("Members"@) is None && is_missing_key(e, "Members"@, url)
                    ||| !members_ok(body@) && body@.get("Members"@) is Some && is_invalid_key_type(
                        e,
                        "Members"@,
                        "Vec<ODataId>"@,
                        url,
                    )
                    ||| members_ok(body@) && {
                        let n = member_ids(body@.get("Members"@).unwrap()->Array_0).len();
                        &&& n != 1
                        &&& e matches RedfishError::InvalidValue { url: u, field: f, err: InvalidValueError(m) }
                        &&& u@ == url
                        &&& f@ == "Members"@
                        &&& m@ == "Expected a single host interface, found "@ + text::decimal(n)
                    }
                },
            },
    {
        let url = self.s.manager_path("/HostInterfaces");
        let ids = match get_members(body, url.as_str()) {
            Ok(ids) => ids,
            Err(e) => return Err(e),
        };
        let num_interfaces = ids.len();
        assert(strings_view(ids@).len() == ids@.len());
        if num_interfaces != 1 {
            let count = text::u64_to_string(num_interfaces as u64);
            let msg = text::concat("Expected a single host interface, found ", count.as_str());
            return Err(
                RedfishError::InvalidValue {
                    url,
                    field: "Members".to_string(),
                    err: InvalidValueError(msg),
                },
            );
        }
        let mut ids = ids;
        let id = ids.pop().unwrap();
        assert(strings_view(ids@) =~= Seq::<Seq<char>>::empty());
        Ok(id)
    }

    /// The request for one host interface.
    pub fn host_interface_get(&self, iface_id: &str) -> (r: Request)
        ensures
            r@ == get_of(self.host_interface_path(iface_id@)),
    {
        let mut p = self.s.manager_path("/HostInterfaces/");
        text::append(&mut p, iface_id);
        Request::get(p)
    }

    /// Whether the host interface `iface_id` is enabled, from its document.
    pub fn is_host_interface_enabled(&self, iface_id: &str, body: &JsonValue) -> (r: Result<bool, RedfishError>)
        ensures
            match r {
                Ok(b) => bool_member_ok(body@, "InterfaceEnabled"@) && b == bool_member(body@, "InterfaceEnabled"@),
                Err(e) => !bool_member_ok(body@, "InterfaceEnabled"@) && bool_member_error(
                    body@,
                    "InterfaceEnabled"@,
                    self.host_interface_path(iface_id@),
                    e,
                ),
            },
    {
        let mut url = self.s.manager_path("/HostInterfaces/");
        text::append(&mut url, iface_id);
        bool_member_of(body, "InterfaceEnabled", url.as_str())
    }

    /// The request that enables (or disables) one host interface, which allows
    /// remote BMC access.
    pub fn set_host_interface(&self, iface_id: &str, target: EnabledDisabled) -> (r: Request)
        ensures
            r@ == self.host_interface_request(iface_id@, target),
    {
        let mut url = self.s.manager_path("/HostInterfaces/");
        text::append(&mut url, iface_id);
        let mut body: Vec<(String, JsonValue)> = Vec::new();
        push_member(&mut body, "InterfaceEnabled", JsonValue::Bool(target == EnabledDisabled::Enabled));
        assert(view_entries(body@) =~= seq![("InterfaceEnabled"@, JsonView::Bool(target == EnabledDisabled::Enabled))]);
        Request::patch(url, JsonValue::Object(body))
    }

    /// The requests that set every host interface the collection lists.
    pub fn set_host_interfaces(&self, iface_ids: &Vec<String>, target: EnabledDisabled) -> (r: Vec<Request>)
        ensures
            views(r@) == iface_ids@.map_values(|id: String| self.host_interface_request(id@, target)),
    {
        let n = iface_ids.len();
        let mut out: Vec<Request> = Vec::new();
        for i in 0..n
            invariant
                n == iface_ids@.len(),
                views(out@) == iface_ids@.take(i as int).map_values(|id: String| self.host_interface_request(id@, target)),
        {
            let ghost old = out@;
            let req = self.set_host_interface(iface_ids[i].as_str(), target);
            out.push(req);
            assert(views(out@) =~= views(old).push(req@));
            assert(iface_ids@.take(i + 1) =~= iface_ids@.take(i as int).push(iface_ids@[i as int]));
            assert(views(out@) =~= iface_ids@.take(i + 1).map_values(|id: String| self.host_interface_request(id@, target)));
        }
        assert(iface_ids@.take(n as int) =~= iface_ids@);
        out
    }

    /// The request for the system lockdown setting.
    pub fn syslockdown_request_get(&self) -> (r: Request)
        ensures
            r@ == get_of(self.syslockdown_path()),
    {
        Request::get(self.s.manager_path("/Oem/Supermicro/SysLockdown"))
    }

    /// Whether system lockdown is on, from the system lockdown document.
    pub fn get_syslockdown(&self, body: &JsonValue) -> (r: Result<bool, RedfishError>)
        ensures
            match r {
                Ok(b) => bool_member_ok(body@, "SysLockdownEnabled"@) && b == bool_member(body@, "SysLockdownEnabled"@),
                Err(e) => !bool_member_ok(body@, "SysLockdownEnabled"@) && bool_member_error(
                    body@,
                    "SysLockdownEnabled"@,
                    self.syslockdown_path(),
                    e,
                ),
            },
    {
        let url = self.s.manager_path("/Oem/Supermicro/SysLockdown");
        bool_member_of(body, "SysLockdownEnabled", url.as_str())
    }

    /// The request that turns system lockdown on (or off).
    pub fn set_syslockdown(&self, target: EnabledDisabled) -> (r: Request)
        ensures
            r@ == self.syslockdown_request(target),
    {
        let mut body: Vec<(String, JsonValue)> = Vec::new();
        push_member(&mut body, "SysLockdownEnabled", JsonValue::Bool(target.is_enabled()));
        assert(view_entries(body@) =~= seq![("SysLockdownEnabled"@, JsonView::Bool(target == EnabledDisabled::Enabled))]);
        Request::patch(self.s.manager_path("/Oem/Supermicro/SysLockdown"), JsonValue::Object(body))
    }

    /// The steps, in order, that lock (`Enabled`) or unlock (`Disabled`) the
    /// server. System lockdown is turned on last and off first.
    pub fn lockdown(&self, target: EnabledDisabled) -> (r: Vec<LockdownStep>)
        ensures
            step_views(r@) == match target {
                EnabledDisabled::Enabled => seq![
                    LockdownStepView::SetHostInterfaces(EnabledDisabled::Disabled),
                    LockdownStepView::Send(self.kcs_request(Privilege::Callback)),
                    LockdownStepView::Send(self.syslockdown_request(EnabledDisabled::Enabled)),
                ],
                EnabledDisabled::Disabled => seq![
                    LockdownStepView::Send(self.syslockdown_request(EnabledDisabled::Disabled)),
                    LockdownStepView::Send(self.kcs_request(Privilege::Administrator)),
                    LockdownStepView::SetHostInterfaces(EnabledDisabled::Enabled),
                ],
            },
    {
        let mut plan: Vec<LockdownStep> = Vec::new();
        match target {
            EnabledDisabled::Enabled => {
                plan.push(LockdownStep::SetHostInterfaces(EnabledDisabled::Disabled));
                plan.push(LockdownStep::Send(self.set_kcs_privilege(Privilege::Callback)));
                plan.push(LockdownStep::Send(self.set_syslockdown(EnabledDisabled::Enabled)));
            },
            EnabledDisabled::Disabled => {
                plan.push(LockdownStep::Send(self.set_syslockdown(EnabledDisabled::Disabled)));
                plan.push(LockdownStep::Send(self.set_kcs_privilege(Privilege::Administrator)));
                plan.push(LockdownStep::SetHostInterfaces(EnabledDisabled::Enabled));
            },
        }
        assert(step_views(plan@) =~= match target {
            EnabledDisabled::Enabled => seq![
                LockdownStepView::SetHostInterfaces(EnabledDisabled::Disabled),
                LockdownStepView::Send(self.kcs_request(Privilege::Callback)),
                LockdownStepView::Send(self.syslockdown_request(EnabledDisabled::Enabled)),
            ],
            EnabledDisabled::Disabled => seq![
                LockdownStepView::Send(self.syslockdown_request(EnabledDisabled::Disabled)),
                LockdownStepView::Send(self.kcs_request(Privilege::Administrator)),
                LockdownStepView::SetHostInterfaces(EnabledDisabled::Enabled),
            ],
        });
        plan
    }

    /// Whether the server is locked down, from the host interface state, the
    /// KCS privilege and the system lockdown flag.
    pub fn lockdown_status(is_hi_on: bool, kcs_privilege: Privilege, is_syslockdown: bool) -> (r: LockdownStatus)
        ensures
            r.state() == lockdown_state(is_hi_on, kcs_privilege, is_syslockdown),
            r.message_view() == lockdown_message(is_hi_on, kcs_privilege, is_syslockdown),
    {
        let mut message = text::owned("SysLockdownEnabled=");
        let a = text::bool_to_string(is_syslockdown);
        text::append(&mut message, a.as_str());
        text::append(&mut message, ", kcs_privilege=");
        let b = kcs_privilege.to_string();
        text::append(&mut message, b.as_str());
        text::append(&mut message, ", host_interface_enabled=");
        let c = text::bool_to_string(is_hi_on);
        text::append(&mut message, c.as_str());
        let is_locked = is_syslockdown && kcs_privilege == Privilege::Callback && !is_hi_on;
        let is_unlocked = !is_syslockdown && kcs_privilege == Privilege::Administrator && is_hi_on;
        let status = if is_locked {
            LockdownStatusInternal::Enabled
        } else if is_unlocked {
            LockdownStatusInternal::Disabled
        } else {
            LockdownStatusInternal::Partial
        };
        LockdownStatus::from_parts(status, message)
    }

    /// The body that enables the SSH and IPMI command shell, one session at a time.
    pub open spec fn serial_console_body() -> JsonView {
        JsonView::Object(
            seq![
                (
                    "ConnectTypesSupported"@,
                    JsonView::Array(seq![JsonView::String("SSH"@), JsonView::String("IPMI"@)]),
                ),
                ("Enabled"@, JsonView::Null),
                ("MaxConcurrentSessions"@, JsonView::Number(crate::json::JsonNumber::PosInt(1))),
                ("ServiceEnabled"@, JsonView::Bool(true)),
            ],
        )
    }

    /// The request that enables SSH access to the console.
    pub fn setup_serial_console(&self) -> (r: Request)
        ensures
            r@ == patch_of("Managers/"@ + self.mid(), Self::serial_console_body()),
    {
        let mut types: Vec<JsonValue> = Vec::new();
        crate::json::push_element(&mut types, JsonValue::string("SSH"));
        crate::json::push_element(&mut types, JsonValue::string("IPMI"));
        let mut body: Vec<(String, JsonValue)> = Vec::new();
        push_member(&mut body, "ConnectTypesSupported", JsonValue::Array(types));
        push_member(&mut body, "Enabled", JsonValue::Null);
        push_member(&mut body, "MaxConcurrentSessions", JsonValue::Number(crate::json::JsonNumber::PosInt(1)));
        push_member(&mut body, "ServiceEnabled", JsonValue::Bool(true));
        assert(view_values(types@) =~= seq![JsonView::String("SSH"@), JsonView::String("IPMI"@)]);
        assert(view_entries(body@) =~= Self::serial_console_body()->Object_0);
        Request::patch(text::concat("Managers/", self.s.manager_id()), JsonValue::Object(body))
    }

    /// Whether the serial console is enabled: the command shell service is on,
    /// allows a session, and the serial interface has the Supermicro defaults.
    pub fn serial_console_status(serial_console: &Commandshell, interface_is_default: bool) -> (r: LockdownStatus)
        ensures
            r.state() == if serial_console.service_enabled && serial_console.max_concurrent_sessions != 0
                && interface_is_default {
                LockdownStatusInternal::Enabled
            } else {
                LockdownStatusInternal::Disabled
            },
            r.message_view() == Seq::<char>::empty(),
    {
        let is_enabled = serial_console.service_enabled && serial_console.max_concurrent_sessions
            != 0 && interface_is_default;
        let status = if is_enabled {
            LockdownStatusInternal::Enabled
        } else {
            LockdownStatusInternal::Disabled
        };
        LockdownStatus::from_parts(status, String::new())
    }

    /// The body that overrides the boot source: UEFI, once or continuously.
    pub open spec fn boot_body(target: BootSourceOverrideTarget, once: bool) -> JsonView {
        obj1(
            "Boot"@,
            JsonView::Object(
                seq![
                    ("BootSourceOverrideTarget"@, JsonView::String(target.text())),
                    (
                        "BootSourceOverrideEnabled"@,
                        JsonView::String(
                            if once {
                                BootSourceOverrideEnabled::Once.text()
                            } else {
                                BootSourceOverrideEnabled::Continuous.text()
                            },
                        ),
                    ),
                    ("BootSourceOverrideMode"@, JsonView::String(BootSourceOverrideMode::UEFI.text())),
                ],
            ),
        )
    }

    /// The request that boots `target`, once or until told otherwise. Setting
    /// an override is more reliable than changing the boot order, which needs
    /// string matching on the display name of every boot option.
    pub fn set_boot(&self, target: Boot, once: bool) -> (r: Request)
        ensures
            r@ == patch_of(
                "Systems/"@ + self.sid(),
                Self::boot_body(
                    match target {
                        Boot::Pxe => BootSourceOverrideTarget::Pxe,
                        Boot::HardDisk => BootSourceOverrideTarget::Hdd,
                    },
                    once,
                ),
            ),
    {
        let t = match target {
            Boot::Pxe => BootSourceOverrideTarget::Pxe,
            Boot::HardDisk => BootSourceOverrideTarget::Hdd,
        };
        let e = if once {
            BootSourceOverrideEnabled::Once
        } else {
            BootSourceOverrideEnabled::Continuous
        };
        let mut boot: Vec<(String, JsonValue)> = Vec::new();
        push_member(&mut boot, "BootSourceOverrideTarget", JsonValue::String(t.to_string()));
        push_member(&mut boot, "BootSourceOverrideEnabled", JsonValue::String(e.to_string()));
        push_member(&mut boot, "BootSourceOverrideMode", JsonValue::String(BootSourceOverrideMode::UEFI.to_string()));
        let mut body: Vec<(String, JsonValue)> = Vec::new();
        push_member(&mut body, "Boot", JsonValue::Object(boot));
        assert(view_entries(boot@) =~= Self::boot_body(t, once)->Object_0[0].1->Object_0);
        assert(view_entries(body@) =~= Self::boot_body(t, once)->Object_0);
        Request::patch(text::concat("Systems/", self.s.system_id()), JsonValue::Object(body))
    }

    /// Boots from `target` once, then goes back to the normal boot order.
    pub fn boot_once(&self, target: Boot) -> (r: Request)
        ensures
            r@ == patch_of(
                "Systems/"@ + self.sid(),
                Self::boot_body(
                    match target {
                        Boot::Pxe => BootSourceOverrideTarget::Pxe,
                        Boot::HardDisk => BootSourceOverrideTarget::Hdd,
                    },
                    true,
                ),
            ),
    {
        self.set_boot(target, true)
    }

    /// Boots from `target` first, by a continuous boot override.
    pub fn boot_first(&self, target: Boot) -> (r: Request)
        ensures
            r@ == patch_of(
                "Systems/"@ + self.sid(),
                Self::boot_body(
                    match target {
                        Boot::Pxe => BootSourceOverrideTarget::Pxe,
                        Boot::HardDisk => BootSourceOverrideTarget::Hdd,
                    },
                    false,
                ),
            ),
    {
        self.set_boot(target, false)
    }

    /// The BIOS attributes that enable CPU virtualization, for faster VMs.
    pub open spec fn virt_attrs() -> Seq<(Seq<char>, JsonView)> {
        seq![
            ("IntelVTforDirectedI/O(VT-d)#1E12"@, JsonView::String("Enable"@)),
            ("IntelVirtualizationTechnology#3C2E"@, JsonView::String("Enable"@)),
            ("SR-IOVSupport#0048"@, JsonView::String("Enabled"@)),
        ]
    }

    /// The BIOS attributes that enable network boot over IPv4 and IPv6.
    pub open spec fn uefi_nic_boot_attrs() -> Seq<(Seq<char>, JsonView)> {
        seq![
            ("IPv4HTTPSupport#00F7"@, JsonView::String("Enabled"@)),
            ("IPv4PXESupport#00F6"@, JsonView::String("Enabled"@)),
            ("IPv6HTTPSupport#00F9"@, JsonView::String("Enabled"@)),
            ("IPv6PXESupport#00F8"@, JsonView::String("Enabled"@)),
        ]
    }

    /// The request that enables CPU virtualization support.
    pub fn set_virt_enable(&self) -> (r: Request)
        ensures
            r@ == patch_of("Systems/"@ + self.sid() + "/Bios"@, obj1("Attributes"@, JsonView::Object(Self::virt_attrs()))),
    {
        let mut attrs: Vec<(String, JsonValue)> = Vec::new();
        push_member(&mut attrs, "IntelVTforDirectedI/O(VT-d)#1E12", JsonValue::string("Enable"));
        push_member(&mut attrs, "IntelVirtualizationTechnology#3C2E", JsonValue::string("Enable"));
        push_member(&mut attrs, "SR-IOVSupport#0048", JsonValue::string("Enabled"));
        let mut body: Vec<(String, JsonValue)> = Vec::new();
        push_member(&mut body, "Attributes", JsonValue::Object(attrs));
        assert(view_entries(attrs@) =~= Self::virt_attrs());
        assert(view_entries(body@) =~= seq![("Attributes"@, JsonView::Object(Self::virt_attrs()))]);
        Request::patch(self.s.system_path("/Bios"), JsonValue::Object(body))
    }

    /// The request that enables UEFI network boot.
    pub fn set_uefi_nic_boot(&self) -> (r: Request)
        ensures
            r@ == patch_of("Systems/"@ + self.sid() + "/Bios"@, obj1("Attributes"@, JsonView::Object(Self::uefi_nic_boot_attrs()))),
    {
        let mut attrs: Vec<(String, JsonValue)> = Vec::new();
        push_member(&mut attrs, "IPv4HTTPSupport#00F7", JsonValue::string("Enabled"));
        push_member(&mut attrs, "IPv4PXESupport#00F6", JsonValue::string("Enabled"));
        push_member(&mut attrs, "IPv6HTTPSupport#00F9", JsonValue::string("Enabled"));
        push_member(&mut attrs, "IPv6PXESupport#00F8", JsonValue::string("Enabled"));
        let mut body: Vec<(String, JsonValue)> = Vec::new();
        push_member(&mut body, "Attributes", JsonValue::Object(attrs));
        assert(view_entries(attrs@) =~= Self::uefi_nic_boot_attrs());
        assert(view_entries(body@) =~= seq![("Attributes"@, JsonView::Object(Self::uefi_nic_boot_attrs()))]);
        Request::patch(self.s.system_path("/Bios"), JsonValue::Object(body))
    }

    /// The request that selects the TPM type `tpm_type` (as the BIOS attribute
    /// registry names it) for every `DeviceSelect` attribute not set to it yet,
    /// from the current BIOS attributes; `InvalidKeyType` when they are not an object.
    pub fn set_tpms(&self, tpm_type: &str, attrs: &JsonValue) -> (r: Result<Request, RedfishError>)
        ensures
            match r {
                Ok(req) => attrs@.as_object() matches Some(o) && req@ == patch_of(
                    "Systems/"@ + self.sid() + "/Bios"@,
                    obj1("Attributes"@, JsonView::Object(tpm_selection(o, tpm_type@))),
                ),
                Err(e) => attrs@.as_object() is None && is_invalid_key_type(
                    e,
                    "Attributes"@,
                    "Object"@,
                    "Systems/"@ + self.sid() + "/Bios"@,
                ),
            },
    {
        broadcast use crate::json::group_json_view;

        let url = self.s.system_path("/Bios");
        let entries = match attrs.as_object() {
            Some(o) => o,
            None => return Err(RedfishError::invalid_key_type("Attributes", "Object", url.as_str())),
        };
        let ghost ev = view_entries(entries@);
        let ghost t = tpm_type@;
        let ghost pred = |e: (Seq<char>, JsonView)| text::is_prefix_of("DeviceSelect"@, e.0) && e.1 != JsonView::String(t);
        let ghost f = |e: (Seq<char>, JsonView)| (e.0, JsonView::String(t));
        let n = entries.len();
        let mut new_vals: Vec<(String, JsonValue)> = Vec::new();
        for i in 0..n
            invariant
                n == entries@.len(),
                ev == view_entries(entries@),
                ev.len() == n,
                forall|j: int| 0 <= j < n ==> #[trigger] ev[j] == (entries@[j].0@, entries@[j].1@),
                t == tpm_type@,
                pred == (|e: (Seq<char>, JsonView)| text::is_prefix_of("DeviceSelect"@, e.0) && e.1 != JsonView::String(t)),
                f == (|e: (Seq<char>, JsonView)| (e.0, JsonView::String(t))),
                view_entries(new_vals@) == ev.take(i as int).filter(pred).map_values(f),
        {
            let k = &entries[i].0;
            let v = &entries[i].1;
            assert(ev[i as int] == (k@, v@));
            let same = match v.as_str() {
                Some(s) => text::str_eq(s.as_str(), tpm_type),
                None => false,
            };
            assert(same == (v@ == JsonView::String(t)));
            let select = text::starts_with(k.as_str(), "DeviceSelect") && !same;
            proof {
                ev.take(i as int).lemma_filter_push(ev[i as int], pred);
            }
            if select {
                let ghost before = view_entries(new_vals@);
                push_member(&mut new_vals, k.as_str(), JsonValue::string(tpm_type));
                assert(ev.take(i as int).filter(pred).push(ev[i as int]).map_values(f) =~= before.push(f(ev[i as int])));
            }
            assert(ev.take(i + 1) =~= ev.take(i as int).push(ev[i as int]));
        }
        assert(ev.take(n as int) =~= ev);
        let mut body: Vec<(String, JsonValue)> = Vec::new();
        push_member(&mut body, "Attributes", JsonValue::Object(new_vals));
        assert(tpm_selection(ev, t) =~= ev.filter(pred).map_values(f));
        assert(view_entries(body@) =~= seq![("Attributes"@, JsonView::Object(tpm_selection(ev, t)))]);
        Ok(Request::patch(url, JsonValue::Object(body)))
    }

    /// `Systems/{system_id}/Bios/SD`, where the pending BIOS settings are.
    pub open spec fn bios_sd_path(&self) -> Seq<char> {
        "Systems/"@ + self.sid() + "/Bios/SD"@
    }

    /// The request for the pending BIOS settings.
    pub fn pending_request(&self) -> (r: Request)
        ensures
            r@ == get_of(self.bios_sd_path()),
    {
        Request::get(self.s.system_path("/Bios/SD"))
    }

    /// The pending BIOS attributes, from the pending and the current BIOS
    /// documents. Supermicro leaves out the `Attributes` key when nothing is
    /// pending, so a missing key means nothing pending.
    pub fn pending(&self, pending: &JsonValue, current: &JsonValue) -> (r: Result<
        Vec<(String, JsonValue)>,
        RedfishError,
    >)
        ensures
            match r {
                Ok(d) => {
                    ||| pending@.get("Attributes"@) is None && d@.len() == 0
                    ||| pending@.get("Attributes"@) matches Some(a) && a.as_object() is Some
                        && current@.get("Attributes"@) is None && d@.len() == 0
                    ||| pending@.get("Attributes"@) matches Some(a) && a.as_object() matches Some(
                        o,
                    ) && current@.get("Attributes"@) matches Some(c) && view_entries(d@)
                        == attribute_diff(o, c)
                },
                Err(e) => pending@.get("Attributes"@) matches Some(a) && a.as_object() is None
                    && is_invalid_key_type(e, "Attributes"@, "Object"@, self.bios_sd_path()),
            },
    {
        let url = self.s.system_path("/Bios/SD");
        match RedfishStandard::pending_attributes(pending, current, url.as_str()) {
            Ok(d) => Ok(d),
            Err(RedfishError::MissingKey { .. }) => Ok(Vec::new()),
            Err(e) => Err(e),
        }
    }

    /// Supermicro does not support clearing the TPM.
    pub fn clear_tpm(&self) -> (r: Result<(), RedfishError>)
        ensures
            r matches Err(e) && is_not_supported(e, "clear_tpm"@),
    {
        Err(RedfishError::not_supported("clear_tpm"))
    }

    /// Supermicro does not support changing the UEFI password.
    pub fn change_uefi_password(&self, current_uefi_password: &str, new_uefi_password: &str) -> (r: Result<(), RedfishError>)
        ensures
            r matches Err(e) && is_not_supported(e, "change_uefi_password"@),
    {
        Err(RedfishError::not_supported("change_uefi_password"))
    }

    /// The chassis that PCIe devices are listed under: the first of all
    /// chassis; `NoContent` when there is none.
    pub fn first_chassis(chassis_ids: &Vec<String>) -> (r: Result<String, RedfishError>)
        ensures
            match r {
                Ok(id) => chassis_ids@.len() > 0 && id == chassis_ids@[0],
                Err(e) => chassis_ids@.len() == 0 && e is NoContent,
            },
    {
        if chassis_ids.len() == 0 {
            Err(RedfishError::NoContent)
        } else {
            Ok(chassis_ids[0].clone())
        }
    }

    /// The request for the PCIe devices of a chassis.
    pub fn pcie_devices_request(chassis_id: &str) -> (r: Request)
        ensures
            r@ == get_of("Chassis/"@ + chassis_id@ + "/PCIeDevices"@),
    {
        let mut p = text::owned("Chassis/");
        text::append(&mut p, chassis_id);
        text::append(&mut p, "/PCIeDevices");
        Request::get(p)
    }

    /// The request for one PCIe device of a chassis.
    pub fn get_pcie_device(chassis_id: &str, device_id: &str) -> (r: Request)
        ensures
            r@ == get_of("Chassis/"@ + chassis_id@ + "/PCIeDevices/"@ + device_id@),
    {
        let mut p = text::owned("Chassis/");
        text::append(&mut p, chassis_id);
        text::append(&mut p, "/PCIeDevices/");
        text::append(&mut p, device_id);
        Request::get(p)
    }
}

/// The position of the first account whose user name is `username`.
pub open spec fn first_named(accounts: Seq<ManagerAccount>, username: Seq<char>) -> Option<int>
    decreases accounts.len(),
{
    if accounts.len() == 0 {
        None
    } else {
        match first_named(accounts.drop_last(), username) {
            Some(k) => Some(k),
            None => if accounts.last().username@ == username {
                Some(accounts.len() - 1)
            } else {
                None
            },
        }
    }
}

/// What to do next while looking for the account whose password changes:
/// fetch the next listed account, or send the change.
#[derive(Debug)]
pub enum PasswordChangeStep {
    FetchAccount(Request),
    Change(Request),
}

impl Bmc {
    /// The request for the list of accounts.
    pub fn accounts_request(&self) -> (r: Request)
        ensures
            r@ == get_of("AccountService/Accounts"@),
    {
        Request::get(text::owned("AccountService/Accounts"))
    }

    /// The request for one account.
    pub open spec fn account_request(account_id: Seq<char>) -> RequestView {
        get_of("AccountService/Accounts/"@ + account_id)
    }

    /// The request that sets an account's password.
    pub open spec fn password_request(account_id: Seq<char>, new_password: Seq<char>) -> RequestView {
        patch_of(
            "AccountService/Accounts/"@ + account_id,
            obj1("Password"@, JsonView::String(new_password)),
        )
    }

    /// Changing the password of the account named `username`, one step at a
    /// time. `ids` lists the accounts (as the accounts collection does) and
    /// `fetched` holds the accounts fetched so far, in that order. The first
    /// fetched account with that user name gets the new password (at the
    /// listed id); while none has it, the next listed account is fetched;
    /// when all were fetched and none has it, `UserNotFound`.
    pub fn change_password_step(
        ids: &Vec<String>,
        fetched: &Vec<ManagerAccount>,
        username: &str,
        new_password: &str,
    ) -> (r: Result<PasswordChangeStep, RedfishError>)
        requires
            fetched.len() <= ids.len(),
        ensures
            match first_named(fetched@, username@) {
                Some(k) => r matches Ok(PasswordChangeStep::Change(req)) && req@
                    == Self::password_request(ids@[k]@, new_password@),
                None => if fetched.len() < ids.len() {
                    r matches Ok(PasswordChangeStep::FetchAccount(req)) && req@
                        == Self::account_request(ids@[fetched.len() as int]@)
                } else {
                    r matches Err(RedfishError::UserNotFound(u)) && u@ == username@
                },
            },
    {
        let n = fetched.len();
        let mut k: usize = 0;
        while k < n
            invariant
                n == fetched.len(),
                n <= ids.len(),
                k <= n,
                first_named(fetched@.take(k as int), username@) is None,
            decreases n - k,
        {
            assert(fetched@.take(k + 1).drop_last() =~= fetched@.take(k as int));
            if text::str_eq(fetched[k].username.as_str(), username) {
                proof {
                    lemma_first_named_prefix(fetched@, username@, (k + 1) as int);
                }
                let mut path = text::owned("AccountService/Accounts/");
                text::append(&mut path, ids[k].as_str());
                let mut body: Vec<(String, JsonValue)> = Vec::new();
                push_member(&mut body, "Password", JsonValue::String(text::owned(new_password)));
                return Ok(PasswordChangeStep::Change(Request::patch(path, JsonValue::Object(body))));
            }
            k = k + 1;
        }
        assert(fetched@.take(n as int) =~= fetched@);
        if n < ids.len() {
            let mut path = text::owned("AccountService/Accounts/");
            text::append(&mut path, ids[n].as_str());
            Ok(PasswordChangeStep::FetchAccount(Request::get(path)))
        } else {
            Err(RedfishError::UserNotFound(text::owned(username)))
        }
    }
}

/// Where a prefix of the accounts already has an account with the name, the
/// whole list has its first one there.
proof fn lemma_first_named_prefix(accounts: Seq<ManagerAccount>, username: Seq<char>, m: int)
    requires
        0 <= m <= accounts.len(),
        first_named(accounts.take(m), username) is Some,
    ensures
        first_named(accounts, username) == first_named(accounts.take(m), username),
    decreases accounts.len() - m,
{
    if m < accounts.len() {
        assert(accounts.take(m + 1).drop_last() =~= accounts.take(m));
        lemma_first_named_prefix(accounts, username, m + 1);
    } else {
        assert(accounts.take(m) =~= accounts);
    }
}

/// `doc` is an object that holds every member of the object `written` with the
/// written value.
pub open spec fn reports(doc: JsonView, written: JsonView) -> bool {
    doc is Object && holds_all(doc->Object_0, written->Object_0)
}

/// Lockdown status reads back lockdown: when the host interface document, the
/// KCS interface document and the system lockdown document report what the
/// steps of `lockdown(target)` write (every host interface set to the opposite
/// of `target`, the KCS privilege `Callback` or `Administrator`, system
/// lockdown set to `target`), they can be read, and `lockdown_status` on the
/// values read finds `Enabled` for `Enabled` and `Disabled` for `Disabled`.
pub proof fn lemma_lockdown_status_reads_back_lockdown(
    target: EnabledDisabled,
    host_interface: JsonView,
    kcs_interface: JsonView,
    syslockdown: JsonView,
)
    requires
        reports(
            host_interface,
            Bmc::host_interface_body(
                match target {
                    EnabledDisabled::Enabled => EnabledDisabled::Disabled,
                    EnabledDisabled::Disabled => EnabledDisabled::Enabled,
                },
            ),
        ),
        reports(
            kcs_interface,
            Bmc::kcs_body(
                match target {
                    EnabledDisabled::Enabled => Privilege::Callback,
                    EnabledDisabled::Disabled => Privilege::Administrator,
                },
            ),
        ),
        reports(syslockdown, Bmc::syslockdown_body(target)),
    ensures
        bool_member_ok(host_interface, "InterfaceEnabled"@),
        str_member_ok(kcs_interface, "Privilege"@),
        bool_member_ok(syslockdown, "SysLockdownEnabled"@),
        Privilege::parse_text(str_member(kcs_interface, "Privilege"@)) matches Some(p)
            && lockdown_state(
            bool_member(host_interface, "InterfaceEnabled"@),
            p,
            bool_member(syslockdown, "SysLockdownEnabled"@),
        ) == match target {
            EnabledDisabled::Enabled => LockdownStatusInternal::Enabled,
            EnabledDisabled::Disabled => LockdownStatusInternal::Disabled,
        },
{
    let hw = Bmc::host_interface_body(
        match target {
            EnabledDisabled::Enabled => EnabledDisabled::Disabled,
            EnabledDisabled::Disabled => EnabledDisabled::Enabled,
        },
    )->Object_0;
    let kw = Bmc::kcs_body(
        match target {
            EnabledDisabled::Enabled => Privilege::Callback,
            EnabledDisabled::Disabled => Privilege::Administrator,
        },
    )->Object_0;
    let sw = Bmc::syslockdown_body(target)->Object_0;
    assert(lookup(host_interface->Object_0, hw[0].0) == Some(hw[0].1));
    assert(lookup(kcs_interface->Object_0, kw[0].0) == Some(kw[0].1));
    assert(lookup(syslockdown->Object_0, sw[0].0) == Some(sw[0].1));
    reveal_strlit("Callback");
    reveal_strlit("Administrator");
    reveal_strlit("Operator");
    reveal_strlit("User");
    assert("Callback"@ != "Administrator"@) by {
        assert("Callback"@.len() != "Administrator"@.len());
    }
    assert("Callback"@ != "Operator"@) by {
        assert("Callback"@[0] != "Operator"@[0]);
    }
    assert("Callback"@ != "User"@) by {
        assert("Callback"@.len() != "User"@.len());
    }
}

/// Lockdown is reported complete only when every step of it took effect:
/// the state is `Enabled` exactly when system lockdown is on, the KCS
/// privilege is `Callback` and the host interface is off; `Disabled` exactly
/// when system lockdown is off, the privilege is `Administrator` and the host
/// interface is on; `Partial` otherwise. In particular, with system lockdown
/// off the server is never reported fully locked.
pub proof fn lemma_lockdown_state_needs_every_step(is_hi_on: bool, kcs: Privilege, is_syslockdown: bool)
    ensures
        (lockdown_state(is_hi_on, kcs, is_syslockdown) == LockdownStatusInternal::Enabled) <==> (
        is_syslockdown && kcs == Privilege::Callback && !is_hi_on),
        (lockdown_state(is_hi_on, kcs, is_syslockdown) == LockdownStatusInternal::Disabled) <==> (
        !is_syslockdown && kcs == Privilege::Administrator && is_hi_on),
        (lockdown_state(is_hi_on, kcs, is_syslockdown) == LockdownStatusInternal::Partial) <==> !(
        is_syslockdown && kcs == Privilege::Callback && !is_hi_on) && !(!is_syslockdown && kcs
            == Privilege::Administrator && is_hi_on),
        !is_syslockdown ==> lockdown_state(is_hi_on, kcs, is_syslockdown)
            != LockdownStatusInternal::Enabled,
{
}

/// Lockdown and its undoing send the KCS privilege by its IPMI name: locking
/// patches `Managers/{manager_id}/Oem/Supermicro/KCSInterface` with
/// `{"Privilege": "Callback"}`, unlocking with `{"Privilege": "Administrator"}`;
/// and a KCS document that reports either name reads back as that privilege.
pub proof fn lemma_lockdown_kcs_privilege_names(bmc: Bmc)
    ensures
        bmc.kcs_request(Privilege::Callback) == patch_of(
            "Managers/"@ + bmc.mid() + "/Oem/Supermicro/KCSInterface"@,
            obj1("Privilege"@, JsonView::String("Callback"@)),
        ),
        bmc.kcs_request(Privilege::Administrator) == patch_of(
            "Managers/"@ + bmc.mid() + "/Oem/Supermicro/KCSInterface"@,
            obj1("Privilege"@, JsonView::String("Administrator"@)),
        ),
        Privilege::parse_text("Callback"@) == Some(Privilege::Callback),
        Privilege::parse_text("Administrator"@) == Some(Privilege::Administrator),
        Privilege::parse_text("Operator"@) == Some(Privilege::Operator),
        Privilege::parse_text("User"@) == Some(Privilege::User),
{
    crate::model::oem::supermicro::lemma_privilege_round_trip(Privilege::Callback, "Callback"@);
    crate::model::oem::supermicro::lemma_privilege_round_trip(Privilege::Administrator, "Administrator"@);
    crate::model::oem::supermicro::lemma_privilege_round_trip(Privilege::Operator, "Operator"@);
    crate::model::oem::supermicro::lemma_privilege_round_trip(Privilege::User, "User"@);
}

/// A boot override on Supermicro is a UEFI override of the requested target:
/// the target is "Pxe" for PXE and "Hdd" for a hard disk, the override is
/// "Once" for a single boot and "Continuous" otherwise, and the mode "UEFI".
pub proof fn lemma_supermicro_boot_override(once: bool)
    ensures
        Bmc::boot_body(BootSourceOverrideTarget::Pxe, once) == obj1(
            "Boot"@,
            JsonView::Object(
                seq![
                    ("BootSourceOverrideTarget"@, JsonView::String("Pxe"@)),
                    ("BootSourceOverrideEnabled"@, JsonView::String(if once { "Once"@ } else { "Continuous"@ })),
                    ("BootSourceOverrideMode"@, JsonView::String("UEFI"@)),
                ],
            ),
        ),
        Bmc::boot_body(BootSourceOverrideTarget::Hdd, once) == obj1(
            "Boot"@,
            JsonView::Object(
                seq![
                    ("BootSourceOverrideTarget"@, JsonView::String("Hdd"@)),
                    ("BootSourceOverrideEnabled"@, JsonView::String(if once { "Once"@ } else { "Continuous"@ })),
                    ("BootSourceOverrideMode"@, JsonView::String("UEFI"@)),
                ],
            ),
        ),
{
}

} // verus!
