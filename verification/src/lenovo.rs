//! Lenovo (XClarity Controller) servers.

use vstd::prelude::*;

use crate::error::RedfishError;
use crate::json::{push_member, string_array, view_entries, JsonValue, JsonView};
use crate::model::oem::lenovo::{BootOptionName, BootSource, FrontPanelUSBMode};
use crate::model::{BootOption, BootOptions, EnabledDisabled, ODataId};
use crate::network::{get_of, odata_path, odata_path_of, patch_of, views, Method, Request, RequestView};
use crate::standard::RedfishStandard;
use crate::text;
use crate::Boot;

verus! {

/// A one-member object.
pub open spec fn obj1(key: Seq<char>, value: JsonView) -> JsonView {
    JsonView::Object(seq![(key, value)])
}

/// The text of a list of strings.
pub open spec fn strings_view(v: Seq<String>) -> Seq<Seq<char>> {
    v.map_values(|s: String| s@)
}

/// The position of the last option whose name is `name`.
pub open spec fn last_match_at(opts: Seq<BootOption>, name: Seq<char>) -> Option<int>
    decreases opts.len(),
{
    if opts.len() == 0 {
        None
    } else if opts.last().name@ == name {
        Some(opts.len() - 1)
    } else {
        last_match_at(opts.drop_last(), name)
    }
}

/// The ids of some options, in order.
pub open spec fn ids_of(opts: Seq<BootOption>) -> Seq<Seq<char>> {
    opts.map_values(|o: BootOption| o.id@)
}

/// The boot order with an option named `name` moved to the front: the id of
/// the last option with that name, then the ids of all the other options in
/// their order; nothing when no option has that name.
pub open spec fn boot_order_with_first(opts: Seq<BootOption>, name: Seq<char>) -> Option<
    Seq<Seq<char>>,
> {
    match last_match_at(opts, name) {
        Some(k) => Some(seq![opts[k].id@] + ids_of(opts.remove(k))),
        None => None,
    }
}

/// Where the last option named `name` is: an option with that name, after
/// which none has it; nothing when no option has it.
proof fn lemma_last_match_at(opts: Seq<BootOption>, name: Seq<char>)
    ensures
        match last_match_at(opts, name) {
            Some(k) => 0 <= k < opts.len() && opts[k].name@ == name && forall|j: int|
                k < j < opts.len() ==> #[trigger] opts[j].name@ != name,
            None => forall|j: int| 0 <= j < opts.len() ==> #[trigger] opts[j].name@ != name,
        },
    decreases opts.len(),
{
    if opts.len() > 0 {
        let init = opts.drop_last();
        lemma_last_match_at(init, name);
        assert forall|j: int| 0 <= j < init.len() implies #[trigger] init[j] == opts[j] by {}
        if opts.last().name@ != name {
            match last_match_at(init, name) {
                Some(k) => {
                    assert(init[k] == opts[k]);
                    assert forall|j: int| k < j < opts.len() implies #[trigger] opts[j].name@ != name by {
                        if j < init.len() {
                            assert(init[j] == opts[j]);
                        }
                    }
                },
                None => {
                    assert forall|j: int| 0 <= j < opts.len() implies #[trigger] opts[j].name@ != name by {
                        if j < init.len() {
                            assert(init[j] == opts[j]);
                        }
                    }
                },
            }
        }
    }
}

/// Moving an option named `name` to the front of the boot order keeps every
/// option: a boot order exists exactly when some option has that name; it then
/// starts with the id of such an option, follows with the ids of all the other
/// options in their order, holds as many ids as there are options, and holds
/// each id as often as the options do.
pub proof fn lemma_boot_order_keeps_every_option(opts: Seq<BootOption>, name: Seq<char>)
    ensures
        boot_order_with_first(opts, name) is Some <==> exists|i: int|
            0 <= i < opts.len() && #[trigger] opts[i].name@ == name,
        boot_order_with_first(opts, name) matches Some(ids) ==> {
            &&& ids.len() == opts.len()
            &&& ids.to_multiset() =~= ids_of(opts).to_multiset()
            &&& exists|k: int|
                0 <= k < opts.len() && #[trigger] opts[k].name@ == name && ids[0] == opts[k].id@
                    && ids.drop_first() == ids_of(opts.remove(k))
        },
{
    broadcast use vstd::seq_lib::group_to_multiset_ensures;

    lemma_last_match_at(opts, name);
    match last_match_at(opts, name) {
        Some(k) => {
            let ids = seq![opts[k].id@] + ids_of(opts.remove(k));
            let all = ids_of(opts);
            assert(ids_of(opts.remove(k)) =~= all.remove(k));
            assert(all[k] == opts[k].id@);
            vstd::seq_lib::lemma_multiset_commutative(seq![opts[k].id@], all.remove(k));
            assert(seq![opts[k].id@].to_multiset() =~= vstd::multiset::Multiset::empty().insert(opts[k].id@)) by {
                assert(seq![opts[k].id@] =~= Seq::<Seq<char>>::empty().push(opts[k].id@));
            }
            assert(all.remove(k).to_multiset() =~= all.to_multiset().remove(all[k]));
            assert(ids.drop_first() =~= ids_of(opts.remove(k)));
            assert(ids[0] == opts[k].id@);
        },
        None => {},
    }
}

/// Unlocking undoes locking: `lockdown(Disabled)` sends as many requests as
/// `lockdown(Enabled)`, each with the same method to the same place as its
/// counterpart, and each with another body.
pub proof fn lemma_unlock_changes_what_lock_changes(bmc: Bmc)
    ensures
        bmc.lockdown_plan(EnabledDisabled::Disabled).len() == bmc.lockdown_plan(
            EnabledDisabled::Enabled,
        ).len(),
        forall|i: int|
            0 <= i < bmc.lockdown_plan(EnabledDisabled::Enabled).len() ==> {
                let on = #[trigger] bmc.lockdown_plan(EnabledDisabled::Enabled)[i];
                let off = bmc.lockdown_plan(EnabledDisabled::Disabled)[i];
                &&& on.method == off.method
                &&& on.path == off.path
                &&& on.body != off.body
            },
{
    let on = bmc.lockdown_plan(EnabledDisabled::Enabled);
    let off = bmc.lockdown_plan(EnabledDisabled::Disabled);
    assert forall|i: int| 0 <= i < on.len() implies on[i].method == off[i].method && on[i].path
        == off[i].path && on[i].body != off[i].body by {
        if i == 0 {
            assert(obj1("KCSEnabled"@, JsonView::Bool(false))->Object_0[0] != obj1(
                "KCSEnabled"@,
                JsonView::Bool(true),
            )->Object_0[0]);
            assert(obj1("Lenovo"@, obj1("KCSEnabled"@, JsonView::Bool(false)))->Object_0[0] != obj1(
                "Lenovo"@,
                obj1("KCSEnabled"@, JsonView::Bool(true)),
            )->Object_0[0]);
            assert(on[0].body.unwrap()->Object_0[0] != off[0].body.unwrap()->Object_0[0]);
        } else if i == 1 {
            assert(EnabledDisabled::Disabled.text() != EnabledDisabled::Enabled.text()) by {
                reveal_strlit("Disabled");
                reveal_strlit("Enabled");
                assert(EnabledDisabled::Disabled.text()[0] != EnabledDisabled::Enabled.text()[0]);
            }
            assert(obj1("FWRollback"@, JsonView::String(EnabledDisabled::Disabled.text()))->Object_0[0]
                != obj1("FWRollback"@, JsonView::String(EnabledDisabled::Enabled.text()))->Object_0[0]);
            assert(on[1].body.unwrap()->Object_0[0] != off[1].body.unwrap()->Object_0[0]);
        } else if i == 2 {
            assert(on[2].body.unwrap()->Object_0[0] != off[2].body.unwrap()->Object_0[0]);
        } else {
            assert(FrontPanelUSBMode::Server.text() != FrontPanelUSBMode::Shared.text()) by {
                reveal_strlit("Server");
                reveal_strlit("Shared");
                assert(FrontPanelUSBMode::Server.text()[1] != FrontPanelUSBMode::Shared.text()[1]);
            }
            let a = obj1("FPMode"@, JsonView::String(FrontPanelUSBMode::Server.text()));
            let b = obj1("FPMode"@, JsonView::String(FrontPanelUSBMode::Shared.text()));
            assert(a->Object_0[0] != b->Object_0[0]);
            let a2 = obj1("FrontPanelUSB"@, a);
            let b2 = obj1("FrontPanelUSB"@, b);
            assert(a2->Object_0[0] != b2->Object_0[0]);
            let a3 = obj1("Lenovo"@, a2);
            let b3 = obj1("Lenovo"@, b2);
            assert(a3->Object_0[0] != b3->Object_0[0]);
            assert(on[3].body.unwrap()->Object_0[0] != off[3].body.unwrap()->Object_0[0]);
        }
    }
}

/// A single boot goes where it is asked to: `boot_once(HardDisk)` overrides
/// the boot source target of `Systems/{system_id}` to "Hdd" once, and
/// `boot_once(Pxe)` to "Pxe".
pub proof fn lemma_boot_once_targets(bmc: Bmc)
    ensures
        bmc.boot_override_request(BootSource::Hdd) == patch_of(
            "Systems/"@ + bmc.sid(),
            obj1(
                "Boot"@,
                JsonView::Object(
                    seq![
                        ("BootSourceOverrideEnabled"@, JsonView::String("Once"@)),
                        ("BootSourceOverrideTarget"@, JsonView::String("Hdd"@)),
                    ],
                ),
            ),
        ),
        bmc.boot_override_request(BootSource::Pxe) == patch_of(
            "Systems/"@ + bmc.sid(),
            obj1(
                "Boot"@,
                JsonView::Object(
                    seq![
                        ("BootSourceOverrideEnabled"@, JsonView::String("Once"@)),
                        ("BootSourceOverrideTarget"@, JsonView::String("Pxe"@)),
                    ],
                ),
            ),
        ),
{
}

/// The attributes that set up the serial console.
pub open spec fn serial_console_attrs() -> Seq<(Seq<char>, JsonView)> {
    seq![
        ("DevicesandIOPorts_COMPort1"@, JsonView::String("Enabled"@)),
        ("DevicesandIOPorts_ConsoleRedirection"@, JsonView::String("Enabled"@)),
        ("DevicesandIOPorts_SPRedirection"@, JsonView::String("Enabled"@)),
        ("DevicesandIOPorts_SerialPortSharing"@, JsonView::String("Enabled"@)),
        ("DevicesandIOPorts_COMPortActiveAfterBoot"@, JsonView::String("Enabled"@)),
        ("DevicesandIOPorts_SerialPortAccessMode"@, JsonView::String("Shared"@)),
    ]
}

/// A Lenovo server.
#[derive(Debug)]
pub struct Bmc {
    s: RedfishStandard,
}

impl Bmc {
    pub closed spec fn standard(&self) -> RedfishStandard {
        self.s
    }

    pub fn new(s: RedfishStandard) -> (r: Result<Bmc, RedfishError>)
        ensures
            r matches Ok(b) && b.standard() == s,
    {
        Ok(Bmc { s })
    }

    /// The connection this server is reached through.
    pub fn standard_ref(&self) -> (r: &RedfishStandard)
        ensures
            *r == self.standard(),
    {
        &self.s
    }

    pub open spec fn sid(&self) -> Seq<char> {
        self.standard().sid()
    }

    pub open spec fn mid(&self) -> Seq<char> {
        self.standard().mid()
    }

    pub open spec fn kcs_request(&self, is_allowed: bool) -> RequestView {
        patch_of(
            "Managers/"@ + self.mid(),
            obj1("Oem"@, obj1("Lenovo"@, obj1("KCSEnabled"@, JsonView::Bool(is_allowed)))),
        )
    }

    pub open spec fn firmware_rollback_request(&self, set: EnabledDisabled) -> RequestView {
        patch_of(
            "Managers/"@ + self.mid() + "/Oem/Lenovo/Security"@,
            obj1("Configurator"@, obj1("FWRollback"@, JsonView::String(set.text()))),
        )
    }

    pub open spec fn ethernet_over_usb_request(&self, is_allowed: bool) -> RequestView {
        patch_of(
            "Managers/"@ + self.mid() + "/EthernetInterfaces/ToHost"@,
            obj1("InterfaceEnabled"@, JsonView::Bool(is_allowed)),
        )
    }

    pub open spec fn front_panel_usb_request(&self, mode: FrontPanelUSBMode) -> RequestView {
        patch_of(
            "Systems/"@ + self.sid(),
            obj1(
                "Oem"@,
                obj1(
                    "Lenovo"@,
                    obj1("FrontPanelUSB"@, obj1("FPMode"@, JsonView::String(mode.text()))),
                ),
            ),
        )
    }

    pub open spec fn boot_override_request(&self, target: BootSource) -> RequestView {
        patch_of(
            "Systems/"@ + self.sid(),
            obj1(
                "Boot"@,
                JsonView::Object(
                    seq![
                        ("BootSourceOverrideEnabled"@, JsonView::String("Once"@)),
                        ("BootSourceOverrideTarget"@, JsonView::String(target.text())),
                    ],
                ),
            ),
        )
    }

    /// `Systems/{system_id}/Bios/Pending`, where BIOS changes are staged.
    pub open spec fn bios_pending_path(&self) -> Seq<char> {
        "Systems/"@ + self.sid() + "/Bios/Pending"@
    }

    /// The request that sets the boot order; the BMC takes longer to answer it,
    /// so it waits 10 seconds.
    pub open spec fn boot_order_request(&self, ids: Seq<Seq<char>>) -> RequestView {
        RequestView {
            method: Method::Patch,
            path: "Systems/"@ + self.sid() + "/Pending"@,
            body: Some(
                obj1(
                    "Boot"@,
                    obj1(
                        "BootOrder"@,
                        JsonView::Array(Seq::new(ids.len(), |i: int| JsonView::String(ids[i]))),
                    ),
                ),
            ),
            timeout_secs: Some(10),
        }
    }

    /// The request that allows (or stops) IPMI over KCS access.
    pub fn set_kcs_lenovo(&self, is_allowed: bool) -> (r: Request)
        ensures
            r@ == self.kcs_request(is_allowed),
    {
        let mut kcs: Vec<(String, JsonValue)> = Vec::new();
        push_member(&mut kcs, "KCSEnabled", JsonValue::Bool(is_allowed));
        let mut lenovo: Vec<(String, JsonValue)> = Vec::new();
        push_member(&mut lenovo, "Lenovo", JsonValue::Object(kcs));
        let mut body: Vec<(String, JsonValue)> = Vec::new();
        push_member(&mut body, "Oem", JsonValue::Object(lenovo));
        assert(view_entries(kcs@) =~= seq![("KCSEnabled"@, JsonView::Bool(is_allowed))]);
        assert(view_entries(lenovo@) =~= seq![("Lenovo"@, obj1("KCSEnabled"@, JsonView::Bool(is_allowed)))]);
        assert(view_entries(body@) =~= self.kcs_request(is_allowed).body.unwrap()->Object_0);
        Request::patch(text::concat("Managers/", self.s.manager_id()), JsonValue::Object(body))
    }

    /// The request that sets 'Prevent System Firmware Down-Level'.
    pub fn set_firmware_rollback_lenovo(&self, set: EnabledDisabled) -> (r: Request)
        ensures
            r@ == self.firmware_rollback_request(set),
    {
        let mut inner: Vec<(String, JsonValue)> = Vec::new();
        push_member(&mut inner, "FWRollback", JsonValue::String(set.to_string()));
        let mut body: Vec<(String, JsonValue)> = Vec::new();
        push_member(&mut body, "Configurator", JsonValue::Object(inner));
        assert(view_entries(inner@) =~= seq![("FWRollback"@, JsonView::String(set.text()))]);
        assert(view_entries(body@) =~= self.firmware_rollback_request(set).body.unwrap()->Object_0);
        Request::patch(self.s.manager_path("/Oem/Lenovo/Security"), JsonValue::Object(body))
    }

    /// The request that sets the front panel USB mode.
    pub fn set_front_panel_usb_lenovo(&self, mode: FrontPanelUSBMode) -> (r: Request)
        ensures
            r@ == self.front_panel_usb_request(mode),
    {
        let mut fp: Vec<(String, JsonValue)> = Vec::new();
        push_member(&mut fp, "FPMode", JsonValue::String(mode.to_string()));
        let mut usb: Vec<(String, JsonValue)> = Vec::new();
        push_member(&mut usb, "FrontPanelUSB", JsonValue::Object(fp));
        let mut lenovo: Vec<(String, JsonValue)> = Vec::new();
        push_member(&mut lenovo, "Lenovo", JsonValue::Object(usb));
        let mut body: Vec<(String, JsonValue)> = Vec::new();
        push_member(&mut body, "Oem", JsonValue::Object(lenovo));
        assert(view_entries(fp@) =~= seq![("FPMode"@, JsonView::String(mode.text()))]);
        assert(view_entries(usb@) =~= seq![("FrontPanelUSB"@, obj1("FPMode"@, JsonView::String(mode.text())))]);
        assert(view_entries(lenovo@) =~= seq![("Lenovo"@, obj1("FrontPanelUSB"@, obj1("FPMode"@, JsonView::String(mode.text()))))]);
        assert(view_entries(body@) =~= self.front_panel_usb_request(mode).body.unwrap()->Object_0);
        Request::patch(text::concat("Systems/", self.s.system_id()), JsonValue::Object(body))
    }

    /// The request that allows (or stops) Ethernet over USB to the host.
    pub fn set_ethernet_over_usb(&self, is_allowed: bool) -> (r: Request)
        ensures
            r@ == self.ethernet_over_usb_request(is_allowed),
    {
        let mut body: Vec<(String, JsonValue)> = Vec::new();
        push_member(&mut body, "InterfaceEnabled", JsonValue::Bool(is_allowed));
        assert(view_entries(body@) =~= seq![("InterfaceEnabled"@, JsonView::Bool(is_allowed))]);
        Request::patch(self.s.manager_path("/EthernetInterfaces/ToHost"), JsonValue::Object(body))
    }

    /// The request that boots `target` once.
    pub fn set_boot_override(&self, target: BootSource) -> (r: Request)
        ensures
            r@ == self.boot_override_request(target),
    {
        let mut boot: Vec<(String, JsonValue)> = Vec::new();
        push_member(&mut boot, "BootSourceOverrideEnabled", JsonValue::string("Once"));
        push_member(&mut boot, "BootSourceOverrideTarget", JsonValue::String(target.to_string()));
        let mut body: Vec<(String, JsonValue)> = Vec::new();
        push_member(&mut body, "Boot", JsonValue::Object(boot));
        assert(view_entries(boot@) =~= self.boot_override_request(target).body.unwrap()->Object_0[0].1->Object_0);
        assert(view_entries(body@) =~= self.boot_override_request(target).body.unwrap()->Object_0);
        Request::patch(text::concat("Systems/", self.s.system_id()), JsonValue::Object(body))
    }

    /// The requests, in order, that lock the server ready for tenants.
    pub fn enable_lockdown(&self) -> (r: Vec<Request>)
        ensures
            views(r@) == seq![
                self.kcs_request(false),
                self.firmware_rollback_request(EnabledDisabled::Disabled),
                self.ethernet_over_usb_request(false),
                self.front_panel_usb_request(FrontPanelUSBMode::Server),
            ],
    {
        let mut plan: Vec<Request> = Vec::new();
        plan.push(self.set_kcs_lenovo(false));
        plan.push(self.set_firmware_rollback_lenovo(EnabledDisabled::Disabled));
        plan.push(self.set_ethernet_over_usb(false));
        plan.push(self.set_front_panel_usb_lenovo(FrontPanelUSBMode::Server));
        assert(views(plan@) =~= seq![
            self.kcs_request(false),
            self.firmware_rollback_request(EnabledDisabled::Disabled),
            self.ethernet_over_usb_request(false),
            self.front_panel_usb_request(FrontPanelUSBMode::Server),
        ]);
        plan
    }

    /// The requests, in order, that unlock the server, restoring defaults.
    pub fn disable_lockdown(&self) -> (r: Vec<Request>)
        ensures
            views(r@) == seq![
                self.kcs_request(true),
                self.firmware_rollback_request(EnabledDisabled::Enabled),
                self.ethernet_over_usb_request(true),
                self.front_panel_usb_request(FrontPanelUSBMode::Shared),
            ],
    {
        let mut plan: Vec<Request> = Vec::new();
        plan.push(self.set_kcs_lenovo(true));
        plan.push(self.set_firmware_rollback_lenovo(EnabledDisabled::Enabled));
        plan.push(self.set_ethernet_over_usb(true));
        plan.push(self.set_front_panel_usb_lenovo(FrontPanelUSBMode::Shared));
        assert(views(plan@) =~= seq![
            self.kcs_request(true),
            self.firmware_rollback_request(EnabledDisabled::Enabled),
            self.ethernet_over_usb_request(true),
            self.front_panel_usb_request(FrontPanelUSBMode::Shared),
        ]);
        plan
    }

    /// The requests, in order, that lock (`Enabled`) or unlock (`Disabled`)
    /// the server: IPMI over KCS, firmware rollback, Ethernet over USB and the
    /// front panel USB port.
    pub open spec fn lockdown_plan(&self, target: EnabledDisabled) -> Seq<RequestView> {
        let locking = target == EnabledDisabled::Enabled;
        seq![
            self.kcs_request(!locking),
            self.firmware_rollback_request(
                if locking {
                    EnabledDisabled::Disabled
                } else {
                    EnabledDisabled::Enabled
                },
            ),
            self.ethernet_over_usb_request(!locking),
            self.front_panel_usb_request(
                if locking {
                    FrontPanelUSBMode::Server
                } else {
                    FrontPanelUSBMode::Shared
                },
            ),
        ]
    }

    /// The requests, in order, that lock (`Enabled`) or unlock (`Disabled`) the server.
    pub fn lockdown(&self, target: EnabledDisabled) -> (r: Vec<Request>)
        ensures
            views(r@) == self.lockdown_plan(target),
    {
        match target {
            EnabledDisabled::Enabled => self.enable_lockdown(),
            EnabledDisabled::Disabled => self.disable_lockdown(),
        }
    }

    /// The request that enables the serial console and its redirection.
    pub fn setup_serial_console(&self) -> (r: Request)
        ensures
            r@ == patch_of(self.bios_pending_path(), obj1("Attributes"@, JsonView::Object(serial_console_attrs()))),
    {
        let mut attrs: Vec<(String, JsonValue)> = Vec::new();
        push_member(&mut attrs, "DevicesandIOPorts_COMPort1", JsonValue::String(EnabledDisabled::Enabled.to_string()));
        push_member(&mut attrs, "DevicesandIOPorts_ConsoleRedirection", JsonValue::String(EnabledDisabled::Enabled.to_string()));
        push_member(&mut attrs, "DevicesandIOPorts_SPRedirection", JsonValue::String(EnabledDisabled::Enabled.to_string()));
        push_member(&mut attrs, "DevicesandIOPorts_SerialPortSharing", JsonValue::String(EnabledDisabled::Enabled.to_string()));
        push_member(&mut attrs, "DevicesandIOPorts_COMPortActiveAfterBoot", JsonValue::String(EnabledDisabled::Enabled.to_string()));
        push_member(&mut attrs, "DevicesandIOPorts_SerialPortAccessMode", JsonValue::string("Shared"));
        let mut body: Vec<(String, JsonValue)> = Vec::new();
        push_member(&mut body, "Attributes", JsonValue::Object(attrs));
        assert(view_entries(attrs@) =~= serial_console_attrs());
        assert(view_entries(body@) =~= seq![("Attributes"@, JsonView::Object(serial_console_attrs()))]);
        Request::patch(self.s.system_path("/Bios/Pending"), JsonValue::Object(body))
    }

    /// The request that boots `target` a single time.
    pub fn boot_once(&self, target: Boot) -> (r: Request)
        ensures
            r@ == self.boot_override_request(
                match target {
                    Boot::Pxe => BootSource::Pxe,
                    Boot::HardDisk => BootSource::Hdd,
                },
            ),
    {
        match target {
            Boot::Pxe => self.set_boot_override(BootSource::Pxe),
            Boot::HardDisk => self.set_boot_override(BootSource::Hdd),
        }
    }

    /// The request that resets the TPM.
    pub fn clear_tpm(&self) -> (r: Request)
        ensures
            r@ == patch_of(
                self.bios_pending_path(),
                obj1(
                    "Attributes"@,
                    obj1("TrustedComputingGroup_DeviceOperation"@, JsonView::String("Clear"@)),
                ),
            ),
    {
        let mut attrs: Vec<(String, JsonValue)> = Vec::new();
        push_member(&mut attrs, "TrustedComputingGroup_DeviceOperation", JsonValue::string("Clear"));
        let mut body: Vec<(String, JsonValue)> = Vec::new();
        push_member(&mut body, "Attributes", JsonValue::Object(attrs));
        assert(view_entries(attrs@) =~= seq![("TrustedComputingGroup_DeviceOperation"@, JsonView::String("Clear"@))]);
        assert(view_entries(body@) =~= seq![("Attributes"@, obj1("TrustedComputingGroup_DeviceOperation"@, JsonView::String("Clear"@)))]);
        Request::patch(self.s.system_path("/Bios/Pending"), JsonValue::Object(body))
    }

    /// The request for the pending BIOS attributes, which `RedfishStandard::pending`
    /// compares with the current ones.
    pub fn pending_request(&self) -> (r: Request)
        ensures
            r@ == get_of(self.bios_pending_path()),
    {
        Request::get(self.s.system_path("/Bios/Pending"))
    }

    /// The requests for each boot option of a boot option collection, in order.
    pub fn boot_option_requests(&self, options: &BootOptions) -> (r: Vec<Request>)
        ensures
            views(r@) == options.members@.map_values(|m: ODataId| get_of(odata_path_of(m.odata_id@))),
    {
        let n = options.members.len();
        let mut out: Vec<Request> = Vec::new();
        for i in 0..n
            invariant
                n == options.members@.len(),
                views(out@) == options.members@.take(i as int).map_values(
                    |m: ODataId| get_of(odata_path_of(m.odata_id@)),
                ),
        {
            let ghost old = out@;
            let req = Request::get(odata_path(options.members[i].odata_id.as_str()));
            out.push(req);
            assert(views(out@) =~= views(old).push(req@));
            assert(options.members@.take(i + 1) =~= options.members@.take(i as int).push(options.members@[i as int]));
            assert(views(out@) =~= options.members@.take(i + 1).map_values(
                |m: ODataId| get_of(odata_path_of(m.odata_id@)),
            ));
        }
        assert(options.members@.take(n as int) =~= options.members@);
        out
    }

    /// The boot option ids with the (last) one named `with_name` first; all
    /// the others follow in their order. For example, for `Network` this might be
    /// ["Boot0003", "Boot0002", "Boot0001", "Boot0004"] where Boot0003 is Network.
    /// `None` when no option has that name.
    pub fn get_boot_options_ids_with_first(
        with_name: BootOptionName,
        options: &Vec<BootOption>,
    ) -> (r: Option<Vec<String>>)
        ensures
            match r {
                Some(v) => boot_order_with_first(options@, with_name.text()) == Some(strings_view(v@)),
                None => boot_order_with_first(options@, with_name.text()) is None,
            },
    {
        let with_name_str = with_name.to_string();
        let ghost name = with_name.text();
        let n = options.len();
        let mut found: Option<usize> = None;
        for i in 0..n
            invariant
                n == options@.len(),
                with_name_str@ == name,
                match found {
                    Some(k) => k < i && last_match_at(options@.take(i as int), name) == Some(k as int),
                    None => last_match_at(options@.take(i as int), name) is None,
                },
        {
            let ghost t = options@.take(i + 1);
            assert(t.drop_last() =~= options@.take(i as int));
            assert(t.last() == options@[i as int]);
            if text::str_eq(options[i].name.as_str(), with_name_str.as_str()) {
                found = Some(i);
            }
        }
        assert(options@.take(n as int) =~= options@);
        let k = match found {
            None => {
                return None;
            },
            Some(k) => k,
        };
        let mut ordered: Vec<String> = Vec::new();
        ordered.push(options[k].id.clone());
        let ghost first = options@[k as int].id@;
        for i in 0..n
            invariant
                n == options@.len(),
                k < n,
                first == options@[k as int].id@,
                strings_view(ordered@) == seq![first] + ids_of(
                    if i <= k {
                        options@.take(i as int)
                    } else {
                        options@.take(i as int).remove(k as int)
                    },
                ),
        {
            let ghost before = strings_view(ordered@);
            if i != k {
                ordered.push(options[i].id.clone());
                assert(strings_view(ordered@) =~= before.push(options@[i as int].id@));
                if i < k {
                    assert(options@.take(i + 1) =~= options@.take(i as int).push(options@[i as int]));
                    assert(ids_of(options@.take(i + 1)) =~= ids_of(options@.take(i as int)).push(
                        options@[i as int].id@,
                    ));
                } else {
                    assert(options@.take(i + 1).remove(k as int) =~= options@.take(i as int).remove(
                        k as int,
                    ).push(options@[i as int]));
                    assert(ids_of(options@.take(i + 1).remove(k as int)) =~= ids_of(
                        options@.take(i as int).remove(k as int),
                    ).push(options@[i as int].id@));
                }
                assert(seq![first] + ids_of(
                    if i + 1 <= k {
                        options@.take(i + 1)
                    } else {
                        options@.take(i + 1).remove(k as int)
                    },
                ) =~= before.push(options@[i as int].id@));
            } else {
                assert(options@.take(i + 1).remove(k as int) =~= options@.take(i as int));
            }
        }
        assert(options@.take(n as int) =~= options@);
        Some(ordered)
    }

    /// The request that puts the boot option named `name` first in the boot
    /// order, from the server's boot options; `MissingBootOption` when none has
    /// that name.
    pub fn set_boot_first(&self, name: BootOptionName, options: &Vec<BootOption>) -> (r: Result<
        Request,
        RedfishError,
    >)
        ensures
            match r {
                Ok(req) => boot_order_with_first(options@, name.text()) matches Some(ids)
                    && req@ == self.boot_order_request(ids),
                Err(e) => boot_order_with_first(options@, name.text()) is None
                    && (e matches RedfishError::MissingBootOption(n) && n@ == name.text()),
            },
    {
        let boot_array = match Self::get_boot_options_ids_with_first(name, options) {
            None => {
                return Err(RedfishError::MissingBootOption(name.to_string()));
            },
            Some(b) => b,
        };
        let arr = string_array(&boot_array);
        let mut inner: Vec<(String, JsonValue)> = Vec::new();
        push_member(&mut inner, "BootOrder", arr);
        let mut body: Vec<(String, JsonValue)> = Vec::new();
        push_member(&mut body, "Boot", JsonValue::Object(inner));
        let ghost ids = strings_view(boot_array@);
        assert(Seq::new(boot_array@.len(), |i: int| JsonView::String(boot_array@[i]@)) =~= Seq::new(
            ids.len(),
            |i: int| JsonView::String(ids[i]),
        ));
        assert(view_entries(body@) =~= self.boot_order_request(ids).body.unwrap()->Object_0);
        Ok(
            Request {
                method: Method::Patch,
                path: self.s.system_path("/Pending"),
                body: Some(JsonValue::Object(body)),
                timeout_secs: Some(10),
            },
        )
    }

    /// The request that changes the boot order, putting `target` first.
    pub fn boot_first(&self, target: Boot, options: &Vec<BootOption>) -> (r: Result<
        Request,
        RedfishError,
    >)
        ensures
            ({
                let name = match target {
                    Boot::Pxe => BootOptionName::Network,
                    Boot::HardDisk => BootOptionName::HardDisk,
                };
                match r {
                    Ok(req) => boot_order_with_first(options@, name.text()) matches Some(ids)
                        && req@ == self.boot_order_request(ids),
                    Err(e) => boot_order_with_first(options@, name.text()) is None
                        && (e matches RedfishError::MissingBootOption(n) && n@ == name.text()),
                }
            }),
    {
        match target {
            Boot::Pxe => self.set_boot_first(BootOptionName::Network, options),
            Boot::HardDisk => self.set_boot_first(BootOptionName::HardDisk, options),
        }
    }
}

/// Locking a Lenovo server shuts the host's side doors: IPMI over KCS off,
/// firmware rollback "Disabled", Ethernet over USB off and the front panel
/// USB port given to the host only ("Server"); unlocking turns them back on,
/// "Enabled", on and "Shared".
pub proof fn lemma_lenovo_lockdown_settings(bmc: Bmc)
    ensures
        bmc.lockdown_plan(EnabledDisabled::Enabled) == seq![
            patch_of(
                "Managers/"@ + bmc.mid(),
                obj1("Oem"@, obj1("Lenovo"@, obj1("KCSEnabled"@, JsonView::Bool(false)))),
            ),
            patch_of(
                "Managers/"@ + bmc.mid() + "/Oem/Lenovo/Security"@,
                obj1("Configurator"@, obj1("FWRollback"@, JsonView::String("Disabled"@))),
            ),
            patch_of(
                "Managers/"@ + bmc.mid() + "/EthernetInterfaces/ToHost"@,
                obj1("InterfaceEnabled"@, JsonView::Bool(false)),
            ),
            patch_of(
                "Systems/"@ + bmc.sid(),
                obj1("Oem"@, obj1("Lenovo"@, obj1("FrontPanelUSB"@, obj1("FPMode"@, JsonView::String("Server"@))))),
            ),
        ],
        bmc.lockdown_plan(EnabledDisabled::Disabled) == seq![
            patch_of(
                "Managers/"@ + bmc.mid(),
                obj1("Oem"@, obj1("Lenovo"@, obj1("KCSEnabled"@, JsonView::Bool(true)))),
            ),
            patch_of(
                "Managers/"@ + bmc.mid() + "/Oem/Lenovo/Security"@,
                obj1("Configurator"@, obj1("FWRollback"@, JsonView::String("Enabled"@))),
            ),
            patch_of(
                "Managers/"@ + bmc.mid() + "/EthernetInterfaces/ToHost"@,
                obj1("InterfaceEnabled"@, JsonView::Bool(true)),
            ),
            patch_of(
                "Systems/"@ + bmc.sid(),
                obj1("Oem"@, obj1("Lenovo"@, obj1("FrontPanelUSB"@, obj1("FPMode"@, JsonView::String("Shared"@))))),
            ),
        ],
{
}

} // verus!
