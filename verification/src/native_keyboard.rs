//! Ownership of text input on the secure desktop.
//!
//! While the companion owns the sign-in screen, Windows' own touch keyboard is
//! switched off through registry policies and a service setting. Every value
//! that is overridden is recorded first, in memory and on disk, so that it can
//! be put back: by the same process on return to the user's desktop, or by a
//! later one after a crash.

use vstd::prelude::*;

use crate::text;
use crate::text::{
    base_name_of, chars_of, concat2, concat3, contains_str, decimal_of, put, same_ignoring_case,
    same_str,
};

verus! {

pub const DEFAULT_TIP_SUBKEY: &'static str = ".DEFAULT\\Software\\Microsoft\\TabletTip\\1.7";
pub const USER_TIP_SUBKEY: &'static str = "Software\\Microsoft\\TabletTip\\1.7";
pub const TEXT_INPUT_POLICY_SUBKEY: &'static str =
    "SOFTWARE\\Microsoft\\PolicyManager\\current\\device\\TextInput";
pub const SERVICE_START_VALUE: &'static str = "Start";
pub const DISABLED_SERVICE_START: u32 = 4;

/// Powers search on the user's desktop as well; it is stopped and started live,
/// never disabled.
pub const SEARCH_SERVICE: &'static str = "TextInputManagementService";

/// The service that is disabled through its start value.
pub const TEXT_INPUT_SERVICE: &'static str = "TabletInputService";

pub const OVERRIDES_FILE: &'static str = "signin-overrides.json";

/// The registry root of a value.
#[derive(Clone, Copy, Debug, PartialEq, Eq, Structural)]
pub enum TipRoot {
    Users,
    CurrentUser,
    LocalMachine,
}

impl TipRoot {
    pub open spec fn name(self) -> Seq<char> {
        match self {
            TipRoot::Users => "HKU"@,
            TipRoot::CurrentUser => "HKCU"@,
            TipRoot::LocalMachine => "HKLM"@,
        }
    }

    pub fn label(self) -> (out: &'static str)
        ensures
            out@ == self.name(),
    {
        match self {
            TipRoot::Users => "HKU",
            TipRoot::CurrentUser => "HKCU",
            TipRoot::LocalMachine => "HKLM",
        }
    }
}

/// What a registry value was before it was overridden; absent where `prior` is
/// `None`.
#[derive(Debug, PartialEq, Eq)]
pub struct RegPrior {
    pub root: TipRoot,
    pub subkey: String,
    pub value: String,
    pub prior: Option<u32>,
}

/// What a service's start value was.
#[derive(Debug, PartialEq, Eq)]
pub struct ServicePrior {
    pub name: String,
    pub prior: Option<u32>,
}

/// Where a registry value is.
pub struct RegKey {
    pub root: TipRoot,
    pub subkey: Seq<char>,
    pub value: Seq<char>,
}

/// `RegPrior` as a mathematical value.
pub struct RegPriorModel {
    pub key: RegKey,
    pub prior: Option<u32>,
}

/// `ServicePrior` as a mathematical value.
pub struct ServicePriorModel {
    pub name: Seq<char>,
    pub prior: Option<u32>,
}

impl View for RegPrior {
    type V = RegPriorModel;

    open spec fn view(&self) -> RegPriorModel {
        RegPriorModel {
            key: RegKey { root: self.root, subkey: self.subkey@, value: self.value@ },
            prior: self.prior,
        }
    }
}

impl View for ServicePrior {
    type V = ServicePriorModel;

    open spec fn view(&self) -> ServicePriorModel {
        ServicePriorModel { name: self.name@, prior: self.prior }
    }
}

pub open spec fn reg_models(v: Seq<RegPrior>) -> Seq<RegPriorModel> {
    v.map_values(|p: RegPrior| p@)
}

pub open spec fn service_models(v: Seq<ServicePrior>) -> Seq<ServicePriorModel> {
    v.map_values(|p: ServicePrior| p@)
}

/// Everything that was changed for sign-in ownership, as recorded on disk.
#[derive(Debug, PartialEq, Eq)]
pub struct SavedOverrides {
    pub registry: Vec<RegPrior>,
    pub services: Vec<ServicePrior>,
}

/// `SavedOverrides` as a mathematical value.
pub struct RecordModel {
    pub registry: Seq<RegPriorModel>,
    pub services: Seq<ServicePriorModel>,
}

impl View for SavedOverrides {
    type V = RecordModel;

    open spec fn view(&self) -> RecordModel {
        RecordModel {
            registry: reg_models(self.registry@),
            services: service_models(self.services@),
        }
    }
}

pub open spec fn record_of(record: Option<SavedOverrides>) -> Option<RecordModel> {
    match record {
        Some(r) => Some(r@),
        None => None,
    }
}

/// The prior recorded first for `key`; `None` where nothing is recorded.
pub open spec fn recorded_prior(records: Seq<RegPriorModel>, key: RegKey) -> Option<Option<u32>>
    decreases records.len(),
{
    if records.len() == 0 {
        None
    } else if records[0].key == key {
        Some(records[0].prior)
    } else {
        recorded_prior(records.drop_first(), key)
    }
}

/// The prior recorded first for the service `name`.
pub open spec fn recorded_service(records: Seq<ServicePriorModel>, name: Seq<char>) -> Option<
    Option<u32>,
>
    decreases records.len(),
{
    if records.len() == 0 {
        None
    } else if records[0].name == name {
        Some(records[0].prior)
    } else {
        recorded_service(records.drop_first(), name)
    }
}

impl SavedOverrides {
    /// The value that was recorded for a registry override: `Some(None)` where
    /// it was absent, `None` where nothing is known.
    pub fn registry_prior(&self, root: TipRoot, subkey: &str, value: &str) -> (r: Option<
        Option<u32>,
    >)
        ensures
            r == recorded_prior(
                reg_models(self.registry@),
                RegKey { root, subkey: subkey@, value: value@ },
            ),
    {
        let ghost key = RegKey { root, subkey: subkey@, value: value@ };
        let ghost all = reg_models(self.registry@);
        let mut i: usize = 0;
        assert(all.skip(0) =~= all);
        while i < self.registry.len()
            invariant
                i <= self.registry.len(),
                all == reg_models(self.registry@),
                key == (RegKey { root, subkey: subkey@, value: value@ }),
                recorded_prior(all, key) == recorded_prior(all.skip(i as int), key),
            decreases self.registry.len() - i,
        {
            let p = &self.registry[i];
            assert(all.skip(i as int)[0] == p@);
            if p.root == root && same_str(p.subkey.as_str(), subkey) && same_str(
                p.value.as_str(),
                value,
            ) {
                return Some(p.prior);
            }
            i += 1;
            assert(all.skip(i - 1).drop_first() =~= all.skip(i as int));
        }
        None
    }

    /// The start value that was recorded for a service.
    pub fn service_prior(&self, name: &str) -> (r: Option<Option<u32>>)
        ensures
            r == recorded_service(service_models(self.services@), name@),
    {
        let ghost all = service_models(self.services@);
        let mut i: usize = 0;
        assert(all.skip(0) =~= all);
        while i < self.services.len()
            invariant
                i <= self.services.len(),
                all == service_models(self.services@),
                recorded_service(all, name@) == recorded_service(all.skip(i as int), name@),
            decreases self.services.len() - i,
        {
            let p = &self.services[i];
            assert(all.skip(i as int)[0] == p@);
            if same_str(p.name.as_str(), name) {
                return Some(p.prior);
            }
            i += 1;
            assert(all.skip(i - 1).drop_first() =~= all.skip(i as int));
        }
        None
    }
}

/// A registry value to override.
#[derive(Clone, Copy, Debug)]
pub struct RegOverride {
    pub root: TipRoot,
    pub subkey: &'static str,
    pub value: &'static str,
    pub desired: u32,
}

pub open spec fn key_of(o: RegOverride) -> RegKey {
    RegKey { root: o.root, subkey: o.subkey@, value: o.value@ }
}

fn tip_values(root: TipRoot, subkey: &'static str) -> (out: [RegOverride; 3])
    ensures
        out@ == tip_override_seq(root, subkey),
{
    let out: [RegOverride; 3] = [
        RegOverride { root, subkey, value: "TouchKeyboardTapInvoke", desired: 0 },
        RegOverride { root, subkey, value: "EnableDesktopModeAutoInvoke", desired: 0 },
        RegOverride { root, subkey, value: "DisableNewKeyboardExperience", desired: 1 },
    ];
    assert(out@ =~= tip_override_seq(root, subkey));
    out
}

pub open spec fn tip_override_seq(root: TipRoot, subkey: &'static str) -> Seq<RegOverride> {
    seq![
        RegOverride { root, subkey, value: "TouchKeyboardTapInvoke", desired: 0 },
        RegOverride { root, subkey, value: "EnableDesktopModeAutoInvoke", desired: 0 },
        RegOverride { root, subkey, value: "DisableNewKeyboardExperience", desired: 1 },
    ]
}

/// The device-wide policies: controller keyboard always disabled, never invoked
/// by focus, input panel not allowed.
pub open spec fn policy_override_seq() -> Seq<RegOverride> {
    let root = TipRoot::LocalMachine;
    let subkey = TEXT_INPUT_POLICY_SUBKEY;
    seq![
        RegOverride { root, subkey, value: "TouchKeyboardControllerModeAvailability", desired: 2 },
        RegOverride {
            root,
            subkey,
            value: "EnableTouchKeyboardAutoInvokeInDesktopMode",
            desired: 0,
        },
        RegOverride { root, subkey, value: "AllowInputPanel", desired: 0 },
    ]
}

/// The device-wide policies that are overridden.
pub fn text_input_policy_values() -> (out: [RegOverride; 3])
    ensures
        out@ == policy_override_seq(),
{
    let root = TipRoot::LocalMachine;
    let subkey = TEXT_INPUT_POLICY_SUBKEY;
    let out: [RegOverride; 3] = [
        RegOverride { root, subkey, value: "TouchKeyboardControllerModeAvailability", desired: 2 },
        RegOverride {
            root,
            subkey,
            value: "EnableTouchKeyboardAutoInvokeInDesktopMode",
            desired: 0,
        },
        RegOverride { root, subkey, value: "AllowInputPanel", desired: 0 },
    ];
    assert(out@ =~= policy_override_seq());
    out
}

/// Every override, in the order it is applied: the sign-in profile, the service
/// account's profile, the device policies.
pub open spec fn override_plan_seq() -> Seq<RegOverride> {
    tip_override_seq(TipRoot::Users, DEFAULT_TIP_SUBKEY) + tip_override_seq(
        TipRoot::CurrentUser,
        USER_TIP_SUBKEY,
    ) + policy_override_seq()
}

/// The overrides to apply.
pub fn override_plan() -> (out: Vec<RegOverride>)
    ensures
        out@ == override_plan_seq(),
{
    let a = tip_values(TipRoot::Users, DEFAULT_TIP_SUBKEY);
    let b = tip_values(TipRoot::CurrentUser, USER_TIP_SUBKEY);
    let c = text_input_policy_values();
    let out: Vec<RegOverride> = vec![a[0], a[1], a[2], b[0], b[1], b[2], c[0], c[1], c[2]];
    assert(out@ =~= override_plan_seq());
    out
}

/// What applying one override gave: the value read before the write, absent
/// where there was none, and whether the write went through.
#[derive(Clone, Copy, Debug, PartialEq, Eq, Structural)]
pub struct WriteResult {
    pub current: Option<u32>,
    pub written: bool,
}

/// The prior to record for one override: what an earlier run recorded, where its
/// overrides are still live, else what was read.
pub open spec fn prior_of(o: RegOverride, r: WriteResult, orphan: Option<Seq<RegPriorModel>>) -> Option<u32> {
    match orphan {
        Some(records) => match recorded_prior(records, key_of(o)) {
            Some(p) => p,
            None => r.current,
        },
        None => r.current,
    }
}

/// The priors of the first `n` overrides: one for each that was written.
pub open spec fn priors_upto(
    plan: Seq<RegOverride>,
    results: Seq<WriteResult>,
    orphan: Option<Seq<RegPriorModel>>,
    n: nat,
) -> Seq<RegPriorModel>
    decreases n,
{
    if n == 0 {
        seq![]
    } else {
        let before = priors_upto(plan, results, orphan, (n - 1) as nat);
        if results[n - 1].written {
            before.push(
                RegPriorModel {
                    key: key_of(plan[n - 1]),
                    prior: prior_of(plan[n - 1], results[n - 1], orphan),
                },
            )
        } else {
            before
        }
    }
}

/// The priors of a whole plan.
pub open spec fn priors_of(
    plan: Seq<RegOverride>,
    results: Seq<WriteResult>,
    orphan: Option<Seq<RegPriorModel>>,
) -> Seq<RegPriorModel> {
    priors_upto(plan, results, orphan, plan.len())
}

pub open spec fn orphan_registry(orphan: Option<RecordModel>) -> Option<Seq<RegPriorModel>> {
    match orphan {
        Some(o) => Some(o.registry),
        None => None,
    }
}

pub open spec fn orphan_services(orphan: Option<RecordModel>) -> Option<Seq<ServicePriorModel>> {
    match orphan {
        Some(o) => Some(o.services),
        None => None,
    }
}

/// Records the priors of the overrides that were written.
pub fn override_registry_values(
    plan: &Vec<RegOverride>,
    results: &Vec<WriteResult>,
    orphan: &Option<SavedOverrides>,
) -> (priors: Vec<RegPrior>)
    requires
        results@.len() == plan@.len(),
    ensures
        reg_models(priors@) == priors_of(plan@, results@, orphan_registry(record_of(*orphan))),
{
    let mut priors: Vec<RegPrior> = Vec::new();
    let mut i: usize = 0;
    assert(reg_models(priors@) =~= Seq::<RegPriorModel>::empty());
    while i < plan.len()
        invariant
            i <= plan.len(),
            results@.len() == plan@.len(),
            reg_models(priors@) == priors_upto(
                plan@,
                results@,
                orphan_registry(record_of(*orphan)),
                i as nat,
            ),
        decreases plan.len() - i,
    {
        let o = plan[i];
        let r = results[i];
        if r.written {
            let recorded: Option<Option<u32>> = match orphan {
                Some(saved) => saved.registry_prior(o.root, o.subkey, o.value),
                None => None,
            };
            let prior: Option<u32> = match recorded {
                Some(p) => p,
                None => r.current,
            };
            let ghost before = priors@;
            priors.push(
                RegPrior {
                    root: o.root,
                    subkey: o.subkey.to_owned(),
                    value: o.value.to_owned(),
                    prior,
                },
            );
            assert(reg_models(priors@) =~= reg_models(before).push(priors@.last()@));
        }
        i += 1;
    }
    priors
}

/// The start value to record for the text input service.
pub open spec fn service_priors_of(r: WriteResult, orphan: Option<Seq<ServicePriorModel>>) -> Seq<
    ServicePriorModel,
> {
    let recorded = match orphan {
        Some(records) => recorded_service(records, TEXT_INPUT_SERVICE@),
        None => None,
    };
    if r.written {
        seq![
            ServicePriorModel {
                name: TEXT_INPUT_SERVICE@,
                prior: match recorded {
                    Some(p) => p,
                    None => r.current,
                },
            },
        ]
    } else {
        seq![]
    }
}

fn copy_reg(v: &Vec<RegPrior>) -> (out: Vec<RegPrior>)
    ensures
        reg_models(out@) == reg_models(v@),
{
    let mut out: Vec<RegPrior> = Vec::new();
    let mut i: usize = 0;
    while i < v.len()
        invariant
            i <= v.len(),
            out@.len() == i,
            forall|k: int| 0 <= k < i ==> (#[trigger] out@[k])@ == v@[k]@,
        decreases v.len() - i,
    {
        let p = &v[i];
        out.push(
            RegPrior {
                root: p.root,
                subkey: p.subkey.clone(),
                value: p.value.clone(),
                prior: p.prior,
            },
        );
        i += 1;
    }
    assert(reg_models(out@) =~= reg_models(v@));
    out
}

fn copy_services(v: &Vec<ServicePrior>) -> (out: Vec<ServicePrior>)
    ensures
        service_models(out@) == service_models(v@),
{
    let mut out: Vec<ServicePrior> = Vec::new();
    let mut i: usize = 0;
    while i < v.len()
        invariant
            i <= v.len(),
            out@.len() == i,
            forall|k: int| 0 <= k < i ==> (#[trigger] out@[k])@ == v@[k]@,
        decreases v.len() - i,
    {
        out.push(ServicePrior { name: v[i].name.clone(), prior: v[i].prior });
        i += 1;
    }
    assert(service_models(out@) =~= service_models(v@));
    out
}

/// The companion's hold on text input.
pub struct NativeKeyboard {
    /// The registry priors, while values are overridden.
    pub auto_invoke_saved: Option<Vec<RegPrior>>,
    /// The service priors, while services are disabled.
    pub services_saved: Option<Vec<ServicePrior>>,
    pub logon_xbox_pad: bool,
    pub logon_signin_surface: bool,
    /// The native sign-in keyboard was asked for.
    pub native_requested: bool,
    /// A sweep for native keyboard windows is running.
    pub suppressing: bool,
}

/// `NativeKeyboard` as a mathematical value.
pub struct NativeModel {
    pub registry: Option<Seq<RegPriorModel>>,
    pub services: Option<Seq<ServicePriorModel>>,
    pub xbox_pad: bool,
    pub signin_surface: bool,
    pub native_requested: bool,
    pub suppressing: bool,
}

impl View for NativeKeyboard {
    type V = NativeModel;

    open spec fn view(&self) -> NativeModel {
        NativeModel {
            registry: match self.auto_invoke_saved {
                Some(v) => Some(reg_models(v@)),
                None => None,
            },
            services: match self.services_saved {
                Some(v) => Some(service_models(v@)),
                None => None,
            },
            xbox_pad: self.logon_xbox_pad,
            signin_surface: self.logon_signin_surface,
            native_requested: self.native_requested,
            suppressing: self.suppressing,
        }
    }
}

/// The services recorded by disabling: those already recorded, else the new ones.
pub open spec fn services_after_disable(
    s: NativeModel,
    orphan: Option<RecordModel>,
    service: WriteResult,
) -> Seq<ServicePriorModel> {
    match s.services {
        Some(existing) => existing,
        None => service_priors_of(service, orphan_services(orphan)),
    }
}

/// The state after the overrides were applied.
pub open spec fn after_disable(
    s: NativeModel,
    orphan: Option<RecordModel>,
    results: Seq<WriteResult>,
    service: WriteResult,
) -> NativeModel {
    let priors = priors_of(override_plan_seq(), results, orphan_registry(orphan));
    let services = services_after_disable(s, orphan, service);
    NativeModel {
        registry: if priors.len() > 0 { Some(priors) } else { None },
        services: if services.len() > 0 || s.services is Some { Some(services) } else { None },
        ..s
    }
}

/// The record to store once the overrides were applied.
pub open spec fn record_after_disable(
    s: NativeModel,
    orphan: Option<RecordModel>,
    results: Seq<WriteResult>,
    service: WriteResult,
) -> RecordModel {
    RecordModel {
        registry: priors_of(override_plan_seq(), results, orphan_registry(orphan)),
        services: services_after_disable(s, orphan, service),
    }
}

/// What restoring does: the services and then the registry values are put back, and
/// then the record on disk goes.
pub struct RestorePlan {
    pub registry: Vec<RegPrior>,
    pub services: Vec<ServicePrior>,
    /// The record on disk has had its use: remove it.
    pub remove_record: bool,
}

/// The registry values that restoring puts back: those in memory, else those an
/// earlier run recorded.
pub open spec fn registry_to_restore(s: NativeModel, orphan: Option<RecordModel>) -> Seq<
    RegPriorModel,
> {
    match s.registry {
        Some(p) => p,
        None => match orphan {
            Some(o) => o.registry,
            None => seq![],
        },
    }
}

pub open spec fn services_to_restore(s: NativeModel, orphan: Option<RecordModel>) -> Seq<
    ServicePriorModel,
> {
    match s.services {
        Some(p) => p,
        None => match orphan {
            Some(o) => o.services,
            None => seq![],
        },
    }
}

impl NativeKeyboard {
    pub fn new(native_requested: bool) -> (s: Self)
        ensures
            s@ == (NativeModel {
                registry: None,
                services: None,
                xbox_pad: false,
                signin_surface: false,
                native_requested,
                suppressing: false,
            }),
    {
        NativeKeyboard {
            auto_invoke_saved: None,
            services_saved: None,
            logon_xbox_pad: false,
            logon_signin_surface: false,
            native_requested,
            suppressing: false,
        }
    }

    fn disable_text_input_services(
        &mut self,
        orphan: &Option<SavedOverrides>,
        service: WriteResult,
    ) -> (out: Vec<ServicePrior>)
        ensures
            service_models(out@) == services_after_disable(
                old(self)@,
                record_of(*orphan),
                service,
            ),
            final(self)@ == (NativeModel {
                services: if out@.len() > 0 || old(self)@.services is Some {
                    Some(service_models(out@))
                } else {
                    None
                },
                ..old(self)@
            }),
    {
        if let Some(existing) = &self.services_saved {
            let out = copy_services(existing);
            return out;
        }
        let mut priors: Vec<ServicePrior> = Vec::new();
        if service.written {
            let recorded: Option<Option<u32>> = match orphan {
                Some(saved) => saved.service_prior(TEXT_INPUT_SERVICE),
                None => None,
            };
            let prior: Option<u32> = match recorded {
                Some(p) => p,
                None => service.current,
            };
            priors.push(ServicePrior { name: TEXT_INPUT_SERVICE.to_owned(), prior });
        }
        assert(service_models(priors@) =~= service_priors_of(service, orphan_services(record_of(*orphan))));
        if priors.len() > 0 {
            let kept = copy_services(&priors);
            self.services_saved = Some(kept);
        }
        priors
    }
}

/// Whether the overrides still have to be applied.
pub fn needs_override(state: &NativeKeyboard) -> (r: bool)
    ensures
        r == (state@.registry is None),
{
    state.auto_invoke_saved.is_none()
}

/// Takes ownership of text input. `results` are what applying the plan gave, in
/// order, and `service` what disabling the text input service gave; `orphan` is
/// the record of an earlier run that left its overrides live. Returns the record
/// to store, or nothing when the overrides are in place already.
pub fn disable_auto_invoke(
    state: &mut NativeKeyboard,
    orphan: &Option<SavedOverrides>,
    results: &Vec<WriteResult>,
    service: WriteResult,
) -> (record: Option<SavedOverrides>)
    requires
        results@.len() == override_plan_seq().len(),
    ensures
        old(state)@.registry is Some ==> record is None && final(state)@ == old(state)@,
        old(state)@.registry is None ==> {
            &&& final(state)@ == after_disable(
                old(state)@,
                record_of(*orphan),
                results@,
                service,
            )
            &&& record matches Some(r) && r@ == record_after_disable(
                old(state)@,
                record_of(*orphan),
                results@,
                service,
            )
        },
{
    if state.auto_invoke_saved.is_some() {
        return None;
    }
    let plan = override_plan();
    let priors = override_registry_values(&plan, results, orphan);
    assert(reg_models(priors@).len() == priors@.len());
    if priors.len() > 0 {
        let kept = copy_reg(&priors);
        state.auto_invoke_saved = Some(kept);
    }
    let ghost mid = state@;
    let services = state.disable_text_input_services(orphan, service);
    assert(service_models(services@).len() == services@.len());
    Some(SavedOverrides { registry: priors, services })
}

/// Gives text input back to Windows: what to put back, from memory or else from
/// the record of an earlier run. Nothing stays recorded, in memory or on disk.
pub fn restore_auto_invoke(state: &mut NativeKeyboard, orphan: Option<SavedOverrides>) -> (plan:
    RestorePlan)
    ensures
        reg_models(plan.registry@) == registry_to_restore(old(state)@, record_of(orphan)),
        service_models(plan.services@) == services_to_restore(old(state)@, record_of(orphan)),
        plan.remove_record,
        final(state)@ == (NativeModel { registry: None, services: None, ..old(state)@ }),
{
    let registry_saved = state.auto_invoke_saved.take();
    let services_saved = state.services_saved.take();
    let (orphan_reg, orphan_srv): (Vec<RegPrior>, Vec<ServicePrior>) = match orphan {
        Some(o) => (o.registry, o.services),
        None => (Vec::new(), Vec::new()),
    };
    assert(orphan is None ==> reg_models(orphan_reg@) =~= Seq::<RegPriorModel>::empty());
    assert(orphan is None ==> service_models(orphan_srv@) =~= Seq::<ServicePriorModel>::empty());
    let registry: Vec<RegPrior> = match registry_saved {
        Some(p) => p,
        None => orphan_reg,
    };
    let services: Vec<ServicePrior> = match services_saved {
        Some(p) => p,
        None => orphan_srv,
    };
    RestorePlan { registry, services, remove_record: true }
}

/// At start-up: puts back what an earlier run left overridden, if its record
/// exists.
pub fn restore_orphaned_overrides(
    state: &mut NativeKeyboard,
    record_exists: bool,
    orphan: Option<SavedOverrides>,
) -> (plan: Option<RestorePlan>)
    ensures
        plan is Some == record_exists,
        !record_exists ==> final(state)@ == old(state)@,
        plan matches Some(p) ==> reg_models(p.registry@) == registry_to_restore(
            old(state)@,
            record_of(orphan),
        ) && service_models(p.services@) == services_to_restore(old(state)@, record_of(orphan))
            && p.remove_record && final(state)@ == (NativeModel { registry: None, services: None, ..old(state)@ }),
{
    if !record_exists {
        return None;
    }
    Some(restore_auto_invoke(state, orphan))
}

/// Whether any service was restored, from which of their start values were put back.
pub fn restore_text_input_services(put_back: &Vec<bool>) -> (r: bool)
    ensures
        r == put_back@.contains(true),
{
    let mut i: usize = 0;
    while i < put_back.len()
        invariant
            i <= put_back.len(),
            forall|k: int| 0 <= k < i ==> !#[trigger] put_back@[k],
        decreases put_back.len() - i,
    {
        if put_back[i] {
            assert(put_back@[i as int] == true);
            return true;
        }
        i += 1;
    }
    false
}

/// The line on what was put back: how many registry values there were to put back, and
/// whether a service was restored; none where there was neither.
pub open spec fn restored_text(values: nat, services: Seq<bool>) -> Option<Seq<char>> {
    let any = services.contains(true);
    if values > 0 || any {
        Some(
            "native kbd: restored "@ + text::decimal(values) + " registry value(s) and "@
                + text::decimal(if any { 1 } else { 0 })
                + " service(s) for Windows text input"@,
        )
    } else {
        None
    }
}

/// `restored_text`, computed from the registry values of the record and from which
/// services' start values were put back.
pub fn restored_line(registry: &Vec<RegPrior>, services: &Vec<bool>) -> (line: Option<String>)
    ensures
        match line {
            Some(l) => restored_text(registry@.len(), services@) == Some(l@),
            None => restored_text(registry@.len(), services@) is None,
        },
{
    let values: u64 = registry.len() as u64;
    let any = restore_text_input_services(services);
    if values == 0 && !any {
        return None;
    }
    let mut out: String = "native kbd: restored ".to_owned();
    put(&mut out, decimal_of(values).as_str());
    put(&mut out, " registry value(s) and ");
    put(&mut out, decimal_of(if any { 1 } else { 0 }).as_str());
    put(&mut out, " service(s) for Windows text input");
    Some(out)
}

/// The value at `key`, absent where there is none.
pub open spec fn lookup(registry: Map<RegKey, u32>, key: RegKey) -> Option<u32> {
    if registry.dom().contains(key) {
        Some(registry[key])
    } else {
        None
    }
}

/// The registry after the first `n` overrides of a plan.
pub open spec fn overridden_upto(
    registry: Map<RegKey, u32>,
    plan: Seq<RegOverride>,
    results: Seq<WriteResult>,
    n: nat,
) -> Map<RegKey, u32>
    decreases n,
{
    if n == 0 {
        registry
    } else {
        let before = overridden_upto(registry, plan, results, (n - 1) as nat);
        if results[n - 1].written {
            before.insert(key_of(plan[n - 1]), plan[n - 1].desired)
        } else {
            before
        }
    }
}

/// The registry after the whole plan.
pub open spec fn overridden(registry: Map<RegKey, u32>, results: Seq<WriteResult>) -> Map<RegKey, u32> {
    overridden_upto(registry, override_plan_seq(), results, override_plan_seq().len())
}

/// The registry after one value is put back: set, or deleted where it was
/// absent.
pub open spec fn restored_one(registry: Map<RegKey, u32>, p: RegPriorModel) -> Map<RegKey, u32> {
    match p.prior {
        Some(v) => registry.insert(p.key, v),
        None => registry.remove(p.key),
    }
}

/// The registry after every value of a record is put back.
pub open spec fn restored(registry: Map<RegKey, u32>, priors: Seq<RegPriorModel>) -> Map<RegKey, u32>
    decreases priors.len(),
{
    if priors.len() == 0 {
        registry
    } else {
        restored_one(restored(registry, priors.drop_last()), priors.last())
    }
}

/// Whether the results report what the registry held before the overrides.
pub open spec fn faithful(registry: Map<RegKey, u32>, results: Seq<WriteResult>) -> bool {
    &&& results.len() == override_plan_seq().len()
    &&& forall|i: int|
        0 <= i < results.len() ==> (#[trigger] results[i]).current == lookup(
            registry,
            key_of(override_plan_seq()[i]),
        )
}

pub open spec fn all_written(results: Seq<WriteResult>) -> bool {
    &&& results.len() == override_plan_seq().len()
    &&& forall|i: int| 0 <= i < results.len() ==> (#[trigger] results[i]).written
}

/// The root of each override of the plan, and the length of its value's name. Under one
/// root no two names are of one length.
proof fn plan_names(i: int)
    requires
        0 <= i < override_plan_seq().len(),
    ensures
        override_plan_seq().len() == 9,
        override_plan_seq()[i].root == (if i < 3 {
            TipRoot::Users
        } else if i < 6 {
            TipRoot::CurrentUser
        } else {
            TipRoot::LocalMachine
        }),
        override_plan_seq()[i].value@.len() == (if i % 3 == 0 && i < 6 {
            22int
        } else if i % 3 == 1 && i < 6 {
            27
        } else if i < 6 {
            28
        } else if i == 6 {
            39
        } else if i == 7 {
            42
        } else {
            15
        }),
{
    reveal_strlit("TouchKeyboardTapInvoke");
    reveal_strlit("EnableDesktopModeAutoInvoke");
    reveal_strlit("DisableNewKeyboardExperience");
    reveal_strlit("TouchKeyboardControllerModeAvailability");
    reveal_strlit("EnableTouchKeyboardAutoInvokeInDesktopMode");
    reveal_strlit("AllowInputPanel");
    let plan = override_plan_seq();
    let a = tip_override_seq(TipRoot::Users, DEFAULT_TIP_SUBKEY);
    let b = tip_override_seq(TipRoot::CurrentUser, USER_TIP_SUBKEY);
    let c = policy_override_seq();
    assert(plan[0] == a[0] && plan[1] == a[1] && plan[2] == a[2]);
    assert(plan[3] == b[0] && plan[4] == b[1] && plan[5] == b[2]);
    assert(plan[6] == c[0] && plan[7] == c[1] && plan[8] == c[2]);
}

/// No two overrides of the plan touch the same value, so that reading each value
/// before writing it sees the value before any override.
pub proof fn plan_keys_are_distinct(i: int, j: int)
    requires
        0 <= i < j < override_plan_seq().len(),
    ensures
        key_of(override_plan_seq()[i]) != key_of(override_plan_seq()[j]),
{
    plan_names(i);
    plan_names(j);
}

/// What is put back at a key, over a run of records: what the last record for it
/// says.
spec fn last_prior(priors: Seq<RegPriorModel>, key: RegKey) -> Option<Option<u32>>
    decreases priors.len(),
{
    if priors.len() == 0 {
        None
    } else if priors.last().key == key {
        Some(priors.last().prior)
    } else {
        last_prior(priors.drop_last(), key)
    }
}

proof fn restored_at(registry: Map<RegKey, u32>, priors: Seq<RegPriorModel>, key: RegKey)
    ensures
        lookup(restored(registry, priors), key) == (match last_prior(priors, key) {
            Some(p) => p,
            None => lookup(registry, key),
        }),
    decreases priors.len(),
{
    if priors.len() > 0 {
        restored_at(registry, priors.drop_last(), key);
    }
}

/// The priors of a plan and the registry it leaves, seen at one key: either a
/// prior is recorded and it is the one of a written override of that key, or the
/// key was left alone.
proof fn plan_at(
    registry: Map<RegKey, u32>,
    plan: Seq<RegOverride>,
    results: Seq<WriteResult>,
    orphan: Option<Seq<RegPriorModel>>,
    n: nat,
    key: RegKey,
)
    requires
        n <= plan.len(),
        results.len() == plan.len(),
    ensures
        match last_prior(priors_upto(plan, results, orphan, n), key) {
            Some(p) => exists|i: int|
                0 <= i < n && #[trigger] key_of(plan[i]) == key && results[i].written && p
                    == prior_of(plan[i], results[i], orphan),
            None => {
                &&& lookup(overridden_upto(registry, plan, results, n), key) == lookup(registry, key)
                &&& forall|i: int|
                    0 <= i < n && results[i].written ==> #[trigger] key_of(plan[i]) != key
            },
        },
    decreases n,
{
    if n > 0 {
        plan_at(registry, plan, results, orphan, (n - 1) as nat, key);
        let all = priors_upto(plan, results, orphan, n);
        if results[n - 1].written {
            assert(all.drop_last() =~= priors_upto(plan, results, orphan, (n - 1) as nat));
            if key_of(plan[n - 1]) == key {
                assert(key_of(plan[n - 1]) == key && results[n - 1].written);
            }
        }
    }
}

proof fn same_lookups(a: Map<RegKey, u32>, b: Map<RegKey, u32>)
    requires
        forall|key: RegKey| lookup(a, key) == #[trigger] lookup(b, key),
    ensures
        a == b,
{
    assert forall|key: RegKey| a.dom().contains(key) == b.dom().contains(key) by {
        assert(lookup(a, key) == lookup(b, key));
    }
    assert forall|key: RegKey| a.dom().contains(key) implies a[key] == b[key] by {
        assert(lookup(a, key) == lookup(b, key));
    }
    assert(a =~= b);
}

/// A record whose overrides were all written knows every overridden value.
proof fn record_is_complete(
    registry: Map<RegKey, u32>,
    results: Seq<WriteResult>,
    i: int,
    n: nat,
)
    requires
        faithful(registry, results),
        all_written(results),
        0 <= i < n <= override_plan_seq().len(),
    ensures
        recorded_prior(priors_upto(override_plan_seq(), results, None, n), key_of(override_plan_seq()[i]))
            == Some(lookup(registry, key_of(override_plan_seq()[i]))),
    decreases n,
{
    let plan = override_plan_seq();
    let before = priors_upto(plan, results, None, (n - 1) as nat);
    let last = RegPriorModel {
        key: key_of(plan[n - 1]),
        prior: prior_of(plan[n - 1], results[n - 1], None),
    };
    let key = key_of(plan[i]);
    assert(results[n - 1].written);
    if i < n - 1 {
        record_is_complete(registry, results, i, (n - 1) as nat);
        recorded_in_front(before, last, key);
    } else {
        unrecorded_upto(results, i, (n - 1) as nat);
        recorded_at_end(before, last, key);
        assert(results[i].current == lookup(registry, key));
    }
}

proof fn recorded_in_front(records: Seq<RegPriorModel>, more: RegPriorModel, key: RegKey)
    requires
        recorded_prior(records, key) is Some,
    ensures
        recorded_prior(records.push(more), key) == recorded_prior(records, key),
    decreases records.len(),
{
    if records[0].key != key {
        recorded_in_front(records.drop_first(), more, key);
        assert(records.push(more).drop_first() =~= records.drop_first().push(more));
    }
}

proof fn recorded_at_end(records: Seq<RegPriorModel>, more: RegPriorModel, key: RegKey)
    requires
        recorded_prior(records, key) is None,
        more.key == key,
    ensures
        recorded_prior(records.push(more), key) == Some(more.prior),
    decreases records.len(),
{
    if records.len() > 0 {
        recorded_at_end(records.drop_first(), more, key);
        assert(records.push(more).drop_first() =~= records.drop_first().push(more));
    } else {
        assert(records.push(more)[0] == more);
    }
}

proof fn recorded_not_at_end(records: Seq<RegPriorModel>, more: RegPriorModel, key: RegKey)
    requires
        recorded_prior(records, key) is None,
        more.key != key,
    ensures
        recorded_prior(records.push(more), key) is None,
    decreases records.len(),
{
    if records.len() > 0 {
        recorded_not_at_end(records.drop_first(), more, key);
        assert(records.push(more).drop_first() =~= records.drop_first().push(more));
    } else {
        assert(records.push(more)[0] == more);
        assert(records.push(more).drop_first() =~= records);
    }
}

proof fn unrecorded_upto(results: Seq<WriteResult>, i: int, n: nat)
    requires
        n <= i < override_plan_seq().len(),
        results.len() == override_plan_seq().len(),
    ensures
        recorded_prior(
            priors_upto(override_plan_seq(), results, None, n),
            key_of(override_plan_seq()[i]),
        ) is None,
    decreases n,
{
    let plan = override_plan_seq();
    if n > 0 {
        unrecorded_upto(results, i, (n - 1) as nat);
        plan_keys_are_distinct(n - 1, i);
        if results[n - 1].written {
            recorded_not_at_end(
                priors_upto(plan, results, None, (n - 1) as nat),
                RegPriorModel {
                    key: key_of(plan[n - 1]),
                    prior: prior_of(plan[n - 1], results[n - 1], None),
                },
                key_of(plan[i]),
            );
        }
    }
}

/// Where a service keeps how it is started.
pub open spec fn start_key(name: Seq<char>) -> RegKey {
    RegKey {
        root: TipRoot::LocalMachine,
        subkey: "SYSTEM\\CurrentControlSet\\Services\\"@ + name,
        value: SERVICE_START_VALUE@,
    }
}

/// Recorded start values as the registry values that they are.
pub open spec fn start_priors(services: Seq<ServicePriorModel>) -> Seq<RegPriorModel> {
    services.map_values(
        |p: ServicePriorModel| RegPriorModel { key: start_key(p.name), prior: p.prior },
    )
}

/// A machine with the companion on it: the registry, the record on disk, and what
/// the running process holds.
pub struct SignIn {
    pub values: Map<RegKey, u32>,
    pub record: Option<RecordModel>,
    pub memory: NativeModel,
}

/// Whether nothing is recorded, in memory or on disk.
pub open spec fn at_rest(m: SignIn) -> bool {
    m.record is None && m.memory.registry is None && m.memory.services is None
}

/// The registry once the plan was applied and the text input service disabled, as
/// far as the writes went through.
pub open spec fn live_values(
    values: Map<RegKey, u32>,
    results: Seq<WriteResult>,
    service: WriteResult,
) -> Map<RegKey, u32> {
    if service.written {
        overridden(values, results).insert(
            start_key(TEXT_INPUT_SERVICE@),
            DISABLED_SERVICE_START,
        )
    } else {
        overridden(values, results)
    }
}

/// The machine once text input was taken over: what `disable_auto_invoke` keeps and
/// has stored, and what was written.
pub open spec fn taken_over(m: SignIn, results: Seq<WriteResult>, service: WriteResult) -> SignIn {
    if m.memory.registry is Some {
        m
    } else {
        SignIn {
            values: match m.memory.services {
                Some(_) => overridden(m.values, results),
                None => live_values(m.values, results, service),
            },
            record: Some(record_after_disable(m.memory, m.record, results, service)),
            memory: after_disable(m.memory, m.record, results, service),
        }
    }
}

/// The machine once text input was given back: what `restore_auto_invoke` plans is
/// carried out.
pub open spec fn given_back(m: SignIn) -> SignIn {
    SignIn {
        values: restored(
            restored(m.values, start_priors(services_to_restore(m.memory, m.record))),
            registry_to_restore(m.memory, m.record),
        ),
        record: None,
        memory: NativeModel { registry: None, services: None, ..m.memory },
    }
}

/// The machine once the process has died and another was started.
pub open spec fn restarted(m: SignIn, native_requested: bool) -> SignIn {
    SignIn {
        memory: NativeModel {
            registry: None,
            services: None,
            xbox_pad: false,
            signin_surface: false,
            native_requested,
            suppressing: false,
        },
        ..m
    }
}

/// Whether the results report what the registry held before.
pub open spec fn observed(values: Map<RegKey, u32>, results: Seq<WriteResult>, service: WriteResult) -> bool {
    &&& faithful(values, results)
    &&& service.current == lookup(values, start_key(TEXT_INPUT_SERVICE@))
}

/// Whether a value is one of those that are taken over.
pub open spec fn overridable(key: RegKey) -> bool {
    ||| key == start_key(TEXT_INPUT_SERVICE@)
    ||| exists|i: int| 0 <= i < override_plan_seq().len() && #[trigger] key_of(override_plan_seq()[i])
        == key
}

/// Whether a value was written.
pub open spec fn rewritten(results: Seq<WriteResult>, service: WriteResult, key: RegKey) -> bool {
    ||| service.written && key == start_key(TEXT_INPUT_SERVICE@)
    ||| exists|i: int|
        0 <= i < results.len() && results[i].written && #[trigger] key_of(override_plan_seq()[i])
            == key
}

proof fn start_is_apart(i: int)
    requires
        0 <= i < override_plan_seq().len(),
    ensures
        key_of(override_plan_seq()[i]) != start_key(TEXT_INPUT_SERVICE@),
{
    reveal_strlit("Start");
    plan_names(i);
}

/// Taking over and putting back, seen at one key.
proof fn back_at(
    values: Map<RegKey, u32>,
    results: Seq<WriteResult>,
    service: WriteResult,
    orphan: Option<RecordModel>,
    key: RegKey,
)
    requires
        results.len() == override_plan_seq().len(),
    ensures
        ({
            let priors = priors_of(override_plan_seq(), results, orphan_registry(orphan));
            let services = service_priors_of(service, orphan_services(orphan));
            let back = restored(
                restored(live_values(values, results, service), start_priors(services)),
                priors,
            );
            lookup(back, key) == (if key == start_key(TEXT_INPUT_SERVICE@) {
                if service.written {
                    services[0].prior
                } else {
                    lookup(values, key)
                }
            } else {
                match last_prior(priors, key) {
                    Some(p) => p,
                    None => lookup(values, key),
                }
            })
        }),
{
    let plan = override_plan_seq();
    let priors = priors_of(plan, results, orphan_registry(orphan));
    let services = service_priors_of(service, orphan_services(orphan));
    let starts = start_priors(services);
    let live = live_values(values, results, service);
    let start = start_key(TEXT_INPUT_SERVICE@);
    restored_at(restored(live, starts), priors, key);
    restored_at(live, starts, key);
    plan_at(values, plan, results, orphan_registry(orphan), plan.len(), key);
    assert(starts.len() == services.len());
    if service.written {
        assert(starts.last() == RegPriorModel { key: start, prior: services[0].prior });
        assert(starts.drop_last() =~= Seq::<RegPriorModel>::empty());
        assert(last_prior(starts.drop_last(), key) is None);
    } else {
        assert(last_prior(starts, key) is None);
    }
    if key == start {
        if last_prior(priors, key) is Some {
            let i = choose|i: int|
                0 <= i < plan.len() && #[trigger] key_of(plan[i]) == key && results[i].written
                    && last_prior(priors, key)->0 == prior_of(
                    plan[i],
                    results[i],
                    orphan_registry(orphan),
                );
            start_is_apart(i);
        }
    }
}

/// Restoring undoes taking over: from memory or, in a process that was started
/// since, from the record on disk, every registry value and service start value is
/// again as it was, whichever writes went through. What was absent is absent again.
/// The record is gone, and nothing is held in memory.
pub proof fn restore_undoes_disable(
    m: SignIn,
    results: Seq<WriteResult>,
    service: WriteResult,
    native_requested: bool,
)
    requires
        at_rest(m),
        observed(m.values, results, service),
    ensures
        given_back(taken_over(m, results, service)).values == m.values,
        at_rest(given_back(taken_over(m, results, service))),
        given_back(restarted(taken_over(m, results, service), native_requested)).values == m.values,
        at_rest(given_back(restarted(taken_over(m, results, service), native_requested))),
{
    let plan = override_plan_seq();
    let live = taken_over(m, results, service);
    let priors = priors_of(plan, results, None);
    let services = service_priors_of(service, None);
    assert(registry_to_restore(live.memory, live.record) =~= priors);
    assert(services_to_restore(live.memory, live.record) =~= services);
    let back = given_back(live).values;
    assert(given_back(restarted(live, native_requested)).values == back);
    assert forall|key: RegKey| lookup(back, key) == #[trigger] lookup(m.values, key) by {
        back_at(m.values, results, service, None, key);
        plan_at(m.values, plan, results, None, plan.len(), key);
        if let Some(p) = last_prior(priors, key) {
            let i = choose|i: int|
                0 <= i < plan.len() && #[trigger] key_of(plan[i]) == key && results[i].written && p
                    == prior_of(plan[i], results[i], None);
            assert(results[i].current == lookup(m.values, key));
        }
    }
    same_lookups(back, m.values);
}

/// A crash loses nothing: a run that took everything over and died, a second run
/// that takes over with the first one's record, and restoring what the second run
/// recorded put back every value that the second run wrote, and leave alone every
/// value that is not taken over; so where the second run wrote them all, the
/// registry and the service's start value are as they were before the first run.
pub proof fn restore_survives_a_crash(
    m: SignIn,
    first: Seq<WriteResult>,
    first_service: WriteResult,
    native_requested: bool,
    second: Seq<WriteResult>,
    second_service: WriteResult,
)
    requires
        at_rest(m),
        observed(m.values, first, first_service),
        all_written(first),
        first_service.written,
        second.len() == override_plan_seq().len(),
    ensures
        ({
            let died = restarted(taken_over(m, first, first_service), native_requested);
            let back = given_back(taken_over(died, second, second_service));
            &&& at_rest(back)
            &&& forall|key: RegKey|
                rewritten(second, second_service, key) || !overridable(key) ==> #[trigger] lookup(
                    back.values,
                    key,
                ) == lookup(m.values, key)
            &&& all_written(second) && second_service.written ==> back.values == m.values
        }),
{
    let plan = override_plan_seq();
    let live = taken_over(m, first, first_service);
    let died = restarted(live, native_requested);
    let again = taken_over(died, second, second_service);
    let record = live.record;
    let priors = priors_of(plan, second, orphan_registry(record));
    let services = service_priors_of(second_service, orphan_services(record));
    let start = start_key(TEXT_INPUT_SERVICE@);
    assert(registry_to_restore(again.memory, again.record) =~= priors);
    assert(services_to_restore(again.memory, again.record) =~= services);
    let back = given_back(again).values;
    assert(record->0.services == service_priors_of(first_service, None));
    assert(recorded_service(record->0.services, TEXT_INPUT_SERVICE@) == Some(first_service.current));
    assert forall|key: RegKey|
        rewritten(second, second_service, key) || !overridable(key) implies #[trigger] lookup(
        back,
        key,
    ) == lookup(m.values, key) by {
        back_at(died.values, second, second_service, record, key);
        plan_at(died.values, plan, second, orphan_registry(record), plan.len(), key);
        match last_prior(priors, key) {
            Some(p) => {
                let i = choose|i: int|
                    0 <= i < plan.len() && #[trigger] key_of(plan[i]) == key && second[i].written
                        && p == prior_of(plan[i], second[i], orphan_registry(record));
                start_is_apart(i);
                record_is_complete(m.values, first, i, plan.len());
            },
            None => {
                if key == start {
                    if second_service.written {
                    } else {
                        if exists|i: int|
                            0 <= i < second.len() && second[i].written && #[trigger] key_of(plan[i])
                                == key {
                            let i = choose|i: int|
                                0 <= i < second.len() && second[i].written && #[trigger] key_of(
                                    plan[i],
                                ) == key;
                            start_is_apart(i);
                        }
                    }
                } else {
                    assert(!overridable(key));
                    untouched(m.values, first, plan.len(), key);
                }
            },
        }
    }
    if all_written(second) && second_service.written {
        assert forall|key: RegKey| lookup(back, key) == #[trigger] lookup(m.values, key) by {
            if overridable(key) && key != start {
                let i = choose|i: int| 0 <= i < plan.len() && #[trigger] key_of(plan[i]) == key;
                assert(second[i].written && key_of(plan[i]) == key);
            }
            assert(lookup(back, key) == lookup(m.values, key));
        }
        same_lookups(back, m.values);
    }
}

/// Overriding leaves alone what is not taken over.
proof fn untouched(values: Map<RegKey, u32>, results: Seq<WriteResult>, n: nat, key: RegKey)
    requires
        n <= override_plan_seq().len(),
        !overridable(key),
    ensures
        lookup(overridden_upto(values, override_plan_seq(), results, n), key) == lookup(values, key),
    decreases n,
{
    if n > 0 {
        untouched(values, results, (n - 1) as nat, key);
        assert(key_of(override_plan_seq()[n - 1]) != key);
    }
}

/// What can happen to a machine on which every write goes through.
pub enum SignInStep {
    TakeOver,
    GiveBack,
    /// The process dies, and another is started.
    Restart { native_requested: bool },
}

/// What applying the plan gives where every write goes through.
pub open spec fn all_through(values: Map<RegKey, u32>) -> Seq<WriteResult> {
    Seq::new(
        override_plan_seq().len(),
        |i: int|
            WriteResult {
                current: lookup(values, key_of(override_plan_seq()[i])),
                written: true,
            },
    )
}

/// What disabling the text input service gives where the write goes through.
pub open spec fn start_through(values: Map<RegKey, u32>) -> WriteResult {
    WriteResult { current: lookup(values, start_key(TEXT_INPUT_SERVICE@)), written: true }
}

pub open spec fn after_step(m: SignIn, step: SignInStep) -> SignIn {
    match step {
        SignInStep::TakeOver => taken_over(m, all_through(m.values), start_through(m.values)),
        SignInStep::GiveBack => given_back(m),
        SignInStep::Restart { native_requested } => restarted(m, native_requested),
    }
}

pub open spec fn after_steps(m: SignIn, steps: Seq<SignInStep>) -> SignIn
    decreases steps.len(),
{
    if steps.len() == 0 {
        m
    } else {
        after_step(after_steps(m, steps.drop_last()), steps.last())
    }
}

/// The record of everything as it is.
spec fn full_record(values: Map<RegKey, u32>) -> RecordModel {
    RecordModel {
        registry: priors_of(override_plan_seq(), all_through(values), None),
        services: service_priors_of(start_through(values), None),
    }
}

/// Whether a machine can still be led back to a registry: it is there already, or
/// all of it that is taken over is recorded, on disk and where the process took it
/// over in memory too.
spec fn remembers(m: SignIn, values: Map<RegKey, u32>) -> bool {
    let full = full_record(values);
    ||| at_rest(m) && m.values == values
    ||| {
        &&& m.record == Some(full)
        &&& m.memory.registry is None && m.memory.services is None || m.memory.registry == Some(
            full.registry,
        ) && m.memory.services == Some(full.services)
        &&& forall|key: RegKey|
            !overridable(key) ==> #[trigger] lookup(m.values, key) == lookup(values, key)
    }
}

/// The priors of a plan that was written whole: one for each override, in order.
proof fn priors_of_all(results: Seq<WriteResult>, orphan: Option<Seq<RegPriorModel>>, n: nat)
    requires
        all_written(results),
        n <= override_plan_seq().len(),
    ensures
        priors_upto(override_plan_seq(), results, orphan, n) == Seq::new(
            n,
            |i: int|
                RegPriorModel {
                    key: key_of(override_plan_seq()[i]),
                    prior: prior_of(override_plan_seq()[i], results[i], orphan),
                },
        ),
    decreases n,
{
    if n > 0 {
        priors_of_all(results, orphan, (n - 1) as nat);
        assert(results[n - 1].written);
        assert(priors_upto(override_plan_seq(), results, orphan, n) =~= Seq::new(
            n,
            |i: int|
                RegPriorModel {
                    key: key_of(override_plan_seq()[i]),
                    prior: prior_of(override_plan_seq()[i], results[i], orphan),
                },
        ));
    } else {
        assert(priors_upto(override_plan_seq(), results, orphan, 0) =~= Seq::new(
            0,
            |i: int|
                RegPriorModel {
                    key: key_of(override_plan_seq()[i]),
                    prior: prior_of(override_plan_seq()[i], results[i], orphan),
                },
        ));
    }
}

/// Taking over while the record of an earlier run is there records the same again.
proof fn record_is_inherited(values: Map<RegKey, u32>, now: Map<RegKey, u32>)
    ensures
        priors_of(
            override_plan_seq(),
            all_through(now),
            Some(full_record(values).registry),
        ) == full_record(values).registry,
        service_priors_of(start_through(now), Some(full_record(values).services)) == full_record(
            values,
        ).services,
{
    let plan = override_plan_seq();
    let full = full_record(values);
    let orphan = Some(full.registry);
    priors_of_all(all_through(now), orphan, plan.len());
    priors_of_all(all_through(values), None, plan.len());
    let again = priors_of(plan, all_through(now), orphan);
    assert forall|i: int| 0 <= i < plan.len() implies again[i] == full.registry[i] by {
        record_is_complete(values, all_through(values), i, plan.len());
    }
    assert(again =~= full.registry);
    assert(recorded_service(full.services, TEXT_INPUT_SERVICE@) == Some(
        start_through(values).current,
    ));
}

proof fn step_remembers(m: SignIn, values: Map<RegKey, u32>, step: SignInStep)
    requires
        remembers(m, values),
    ensures
        remembers(after_step(m, step), values),
{
    let full = full_record(values);
    match step {
        SignInStep::TakeOver => {
            if m.memory.registry is None {
                let results = all_through(m.values);
                let next = after_step(m, step);
                if m.record is Some {
                    record_is_inherited(values, m.values);
                }
                assert(next.record == Some(full));
                priors_of_all(results, None, override_plan_seq().len());
                priors_of_all(
                    results,
                    orphan_registry(m.record),
                    override_plan_seq().len(),
                );
                assert forall|key: RegKey| !overridable(key) implies #[trigger] lookup(
                    next.values,
                    key,
                ) == lookup(values, key) by {
                    untouched(m.values, results, override_plan_seq().len(), key);
                    assert(lookup(m.values, key) == lookup(values, key));
                }
            }
        },
        SignInStep::GiveBack => {
            gives_everything_back(m, values);
        },
        SignInStep::Restart { native_requested } => {
            let next = restarted(m, native_requested);
            assert(next.values == m.values && next.record == m.record);
        },
    }
}

proof fn gives_everything_back(m: SignIn, values: Map<RegKey, u32>)
    requires
        remembers(m, values),
    ensures
        given_back(m).values == values,
        at_rest(given_back(m)),
{
    let plan = override_plan_seq();
    let full = full_record(values);
    let back = given_back(m).values;
    if m.record is None {
        assert(start_priors(Seq::<ServicePriorModel>::empty()) =~= Seq::<RegPriorModel>::empty());
    } else {
        let results = all_through(values);
        let starts = start_priors(full.services);
        let start = start_key(TEXT_INPUT_SERVICE@);
        assert(registry_to_restore(m.memory, m.record) == full.registry);
        assert(services_to_restore(m.memory, m.record) == full.services);
        assert forall|key: RegKey| lookup(back, key) == #[trigger] lookup(values, key) by {
            restored_at(restored(m.values, starts), full.registry, key);
            restored_at(m.values, starts, key);
            plan_at(values, plan, results, None, plan.len(), key);
            assert(starts.len() == 1);
            assert(starts.last() == RegPriorModel { key: start, prior: lookup(values, start) });
            assert(last_prior(starts.drop_last(), key) is None);
            match last_prior(full.registry, key) {
                Some(p) => {
                    let i = choose|i: int|
                        0 <= i < plan.len() && #[trigger] key_of(plan[i]) == key
                            && results[i].written && p == prior_of(plan[i], results[i], None);
                    assert(results[i].current == lookup(values, key));
                },
                None => {
                    if key != start {
                        assert(!overridable(key)) by {
                            assert forall|i: int| 0 <= i < plan.len() implies #[trigger] key_of(
                                plan[i],
                            ) != key by {
                                assert(results[i].written);
                            }
                        }
                        assert(lookup(m.values, key) == lookup(values, key));
                    }
                },
            }
        }
        same_lookups(back, values);
    }
}

/// Everything is put back, whatever happened before: however often text input was
/// taken over and given back, and however often the process died in between, giving
/// it back leads to the registry and the service start value as they were at the
/// beginning; what was absent then is absent. The record on disk is gone, nothing is
/// held in memory, and giving back once more changes nothing.
pub proof fn everything_is_put_back(m: SignIn, steps: Seq<SignInStep>)
    requires
        at_rest(m),
    ensures
        ({
            let back = given_back(after_steps(m, steps));
            &&& back.values == m.values
            &&& at_rest(back)
            &&& given_back(back) == back
        }),
{
    steps_remember(m, steps);
    let end = after_steps(m, steps);
    gives_everything_back(end, m.values);
    let back = given_back(end);
    assert(start_priors(Seq::<ServicePriorModel>::empty()) =~= Seq::<RegPriorModel>::empty());
    assert(given_back(back).values == back.values);
}

proof fn steps_remember(m: SignIn, steps: Seq<SignInStep>)
    requires
        at_rest(m),
    ensures
        remembers(after_steps(m, steps), m.values),
    decreases steps.len(),
{
    if steps.len() > 0 {
        steps_remember(m, steps.drop_last());
        step_remembers(after_steps(m, steps.drop_last()), m.values, steps.last());
    }
}

/// Once ownership is taken with every write through, the priors are held in
/// memory, so that taking it again is a no-op.
pub proof fn ownership_is_remembered(
    s: NativeModel,
    orphan: Option<RecordModel>,
    results: Seq<WriteResult>,
    service: WriteResult,
)
    requires
        all_written(results),
    ensures
        after_disable(s, orphan, results, service).registry == Some(
            priors_of(override_plan_seq(), results, orphan_registry(orphan)),
        ),
{
    let plan = override_plan_seq();
    assert(results[plan.len() - 1].written);
    assert(priors_of(plan, results, orphan_registry(orphan)).len() > 0);
}

/// A 32-bit registry value: there when the query succeeded and returned exactly
/// four bytes, which are little-endian.
pub fn read_dword(rc: u32, data: [u8; 4], len: u32) -> (v: Option<u32>)
    ensures
        v == (if rc == 0 && len == 4 {
            Some((data@[0] + 0x100 * data@[1] + 0x1_0000 * data@[2] + 0x100_0000 * data@[3]) as u32)
        } else {
            None::<u32>
        }),
{
    if rc == 0 && len == 4 {
        Some(
            data[0] as u32 + 0x100 * data[1] as u32 + 0x1_0000 * data[2] as u32 + 0x100_0000
                * data[3] as u32,
        )
    } else {
        None
    }
}

/// The registry key of a service.
pub fn service_registry_subkey(service_name: &str) -> (out: String)
    ensures
        out@ == start_key(service_name@).subkey,
{
    concat2("SYSTEM\\CurrentControlSet\\Services\\", service_name)
}

/// Where the record is kept, under the data directory.
pub fn overrides_path(data_dir: &str) -> (out: String)
    ensures
        out@ == data_dir@ + "\\"@ + OVERRIDES_FILE@,
        out@ == data_dir@ + "\\"@ + "signin-overrides.json"@,
{
    concat3(data_dir, "\\", OVERRIDES_FILE)
}

/// A request to the service control manager.
#[derive(Clone, Copy, Debug)]
pub struct ServiceCommand {
    pub action: &'static str,
    pub service: &'static str,
}

/// Stops the search service for the time on the secure desktop.
pub fn stop_search_service() -> (c: ServiceCommand)
    ensures
        c.action@ == "stop"@,
        c.service@ == SEARCH_SERVICE@,
        c.service@ == "TextInputManagementService"@,
{
    ServiceCommand { action: "stop", service: SEARCH_SERVICE }
}

/// Starts the search service for the user's desktop.
pub fn ensure_search_service_running() -> (c: ServiceCommand)
    ensures
        c.action@ == "start"@,
        c.service@ == SEARCH_SERVICE@,
        c.service@ == "TextInputManagementService"@,
{
    ServiceCommand { action: "start", service: SEARCH_SERVICE }
}

/// Records whether the pad at the sign-in screen is an Xbox pad.
pub fn set_logon_pad_is_xbox(state: &mut NativeKeyboard, xbox: bool)
    ensures
        final(state)@ == (NativeModel { xbox_pad: xbox, ..old(state)@ }),
{
    state.logon_xbox_pad = xbox;
}

pub fn logon_pad_is_xbox(state: &NativeKeyboard) -> (r: bool)
    ensures
        r == state@.xbox_pad,
{
    state.logon_xbox_pad
}

/// Records whether the secure desktop shows the sign-in screen.
pub fn set_logon_signin_surface(state: &mut NativeKeyboard, signin: bool)
    ensures
        final(state)@ == (NativeModel { signin_surface: signin, ..old(state)@ }),
{
    state.logon_signin_surface = signin;
}

/// Whether the native keyboard is left alone: it was asked for, and this is the
/// sign-in screen.
pub open spec fn yields(s: NativeModel) -> bool {
    s.native_requested && s.signin_surface
}

/// `yields`, computed.
pub fn yield_logon_to_native(state: &NativeKeyboard) -> (r: bool)
    ensures
        r == yields(state@),
{
    state.native_requested && state.logon_signin_surface
}

/// Whether the native sign-in keyboard was asked for: only by the value "1".
pub fn native_logon_requested(value: Option<&str>) -> (r: bool)
    ensures
        r == (value matches Some(v) && v@ == "1"@),
{
    match value {
        Some(v) => same_str(v, "1"),
        None => false,
    }
}

/// Starts a sweep for native keyboard windows, unless they are left alone or one
/// is running.
pub fn suppress_for(state: &mut NativeKeyboard) -> (start: bool)
    ensures
        start == (!yields(old(state)@) && !old(state)@.suppressing),
        final(state)@ == (NativeModel {
            suppressing: old(state)@.suppressing || start,
            ..old(state)@
        }),
{
    if yield_logon_to_native(state) || state.suppressing {
        return false;
    }
    state.suppressing = true;
    true
}

/// Ends a sweep.
pub fn suppress_done(state: &mut NativeKeyboard)
    ensures
        final(state)@ == (NativeModel { suppressing: false, ..old(state)@ }),
{
    state.suppressing = false;
}

/// The file name of a process image; empty where the image is unknown.
pub open spec fn image_of(process: Option<Seq<char>>) -> Seq<char> {
    match process {
        Some(p) => text::base_name(p),
        None => seq![],
    }
}

fn image_name(process: Option<&str>) -> (out: String)
    ensures
        out@ == image_of(
            match process {
                Some(p) => Some(p@),
                None => None,
            },
        ),
{
    match process {
        Some(p) => base_name_of(p),
        None => {
            let out = String::new();
            assert(out@ =~= Seq::<char>::empty());
            out
        },
    }
}

/// Whether a window belongs to the sign-in process.
pub fn window_is_logonui(process: Option<&str>) -> (r: bool)
    ensures
        r == (process matches Some(p) && text::ascii_equal(text::base_name(p@), "LogonUI.exe"@)),
{
    match process {
        Some(p) => same_ignoring_case(base_name_of(p).as_str(), "LogonUI.exe"),
        None => false,
    }
}

/// The hosts of the touch keyboard.
pub open spec fn is_host(image: Seq<char>) -> bool {
    ||| text::ascii_equal(image, "TextInputHost.exe"@)
    ||| text::ascii_equal(image, "TabTip.exe"@)
    ||| text::ascii_equal(image, "osk.exe"@)
}

/// Whether a process can be ended on the secure desktop to be rid of its
/// keyboard.
pub fn is_killable_keyboard_image(image: &str) -> (r: bool)
    ensures
        r == is_host(image@),
{
    same_ignoring_case(image, "TextInputHost.exe") || same_ignoring_case(image, "TabTip.exe")
        || same_ignoring_case(image, "osk.exe")
}

/// Whether a window might be a text input surface.
pub fn looks_input_related(class: &str, image: &str) -> (r: bool)
    ensures
        r == (is_host(image@) || text::occurs(class@, "IPTip"@) || class@
            == "Windows.UI.Core.CoreWindow"@ || class@ == "ApplicationFrameWindow"@),
{
    is_killable_keyboard_image(image) || contains_str(chars_of(class).as_slice(), "IPTip")
        || same_str(class, "Windows.UI.Core.CoreWindow") || same_str(
        class,
        "ApplicationFrameWindow",
    )
}

/// Whether a window is the native keyboard, by its class, title or process.
pub open spec fn is_native(class: Seq<char>, title: Seq<char>, image: Seq<char>) -> bool {
    ||| class == "IPTip_Main_Window"@
    ||| class == "IPTip_Window"@
    ||| class == "ApplicationFrameWindow"@ && title == "Windows Input Experience"@
    ||| is_host(image)
    ||| class == "Windows.UI.Core.CoreWindow"@ && (title == "Microsoft Text Input Application"@
        || title == "Windows Input Experience"@ || text::occurs(title, "Text Input"@))
}

/// `is_native`, computed.
pub fn is_native_keyboard_window(class: &str, title: &str, process: Option<&str>) -> (r: bool)
    ensures
        r == is_native(
            class@,
            title@,
            image_of(
                match process {
                    Some(p) => Some(p@),
                    None => None,
                },
            ),
        ),
{
    let image = image_name(process);
    same_str(class, "IPTip_Main_Window") || same_str(class, "IPTip_Window") || (same_str(
        class,
        "ApplicationFrameWindow",
    ) && same_str(title, "Windows Input Experience")) || is_killable_keyboard_image(image.as_str())
        || (same_str(class, "Windows.UI.Core.CoreWindow") && (same_str(
        title,
        "Microsoft Text Input Application",
    ) || same_str(title, "Windows Input Experience") || contains_str(
        chars_of(title).as_slice(),
        "Text Input",
    )))
}

/// What a sweep does with a visible window.
#[derive(Clone, Copy, Debug, PartialEq, Eq, Structural)]
pub enum SweepAction {
    Leave,
    /// Not matched, but close enough to be worth a line in the log.
    Report,
    /// Hide and close it; end its process where `kill` says so.
    Remove { kill: bool },
}

/// Decides about one visible window. Processes are ended only on the secure
/// desktop.
pub fn sweep_window(class: &str, title: &str, process: Option<&str>, on_winlogon: bool) -> (action:
    SweepAction)
    ensures
        ({
            let image = image_of(
                match process {
                    Some(p) => Some(p@),
                    None => None,
                },
            );
            action == (if is_native(class@, title@, image) {
                SweepAction::Remove { kill: on_winlogon && is_host(image) }
            } else if on_winlogon && (text::occurs(class@, "IPTip"@) || class@
                == "Windows.UI.Core.CoreWindow"@ || class@ == "ApplicationFrameWindow"@) {
                SweepAction::Report
            } else {
                SweepAction::Leave
            })
        }),
        !on_winlogon ==> action == SweepAction::Leave || action == (SweepAction::Remove {
            kill: false,
        }),
        class@ == "IPTip_Main_Window"@ || class@ == "IPTip_Window"@ ==> action is Remove,
{
    let image = image_name(process);
    if is_native_keyboard_window(class, title, process) {
        SweepAction::Remove { kill: on_winlogon && is_killable_keyboard_image(image.as_str()) }
    } else if on_winlogon && looks_input_related(class, image.as_str()) {
        SweepAction::Report
    } else {
        SweepAction::Leave
    }
}

/// One override read back for the ownership check.
pub struct OwnershipEntry {
    pub root: TipRoot,
    pub value: &'static str,
    pub desired: u32,
    pub current: Option<u32>,
}

/// The overrides that the ownership check reads back: the sign-in profile and
/// the device policies.
pub open spec fn ownership_checks() -> Seq<RegOverride> {
    tip_override_seq(TipRoot::Users, DEFAULT_TIP_SUBKEY) + policy_override_seq()
}

/// `ownership_checks`, as a vector.
pub fn signin_ownership_checks() -> (out: Vec<RegOverride>)
    ensures
        out@ == ownership_checks(),
{
    let a = tip_values(TipRoot::Users, DEFAULT_TIP_SUBKEY);
    let c = text_input_policy_values();
    let out: Vec<RegOverride> = vec![a[0], a[1], a[2], c[0], c[1], c[2]];
    assert(out@ =~= ownership_checks());
    out
}

pub open spec fn applied(e: OwnershipEntry) -> bool {
    e.current == Some(e.desired)
}

/// How many of the first `n` overrides are not in place.
pub open spec fn missing_upto(entries: Seq<OwnershipEntry>, n: nat) -> nat
    decreases n,
{
    if n == 0 {
        0
    } else {
        missing_upto(entries, (n - 1) as nat) + (if applied(entries[n - 1]) { 0nat } else { 1nat })
    }
}

pub open spec fn current_text(current: Option<u32>) -> Seq<char> {
    match current {
        Some(v) => text::decimal(v as nat),
        None => "absent"@,
    }
}

/// One override's part of the report.
pub open spec fn entry_text(e: OwnershipEntry) -> Seq<char> {
    e.root.name() + "\\"@ + e.value@ + "="@ + text::decimal(e.desired as nat) + " "@ + (if applied(e) {
        "ok"@
    } else {
        "MISSING(current="@ + current_text(e.current) + ")"@
    })
}

/// The parts of the first `n` overrides, separated by commas.
pub open spec fn entries_text(entries: Seq<OwnershipEntry>, n: nat) -> Seq<char>
    decreases n,
{
    if n == 0 {
        seq![]
    } else if n == 1 {
        entry_text(entries[0])
    } else {
        entries_text(entries, (n - 1) as nat) + ", "@ + entry_text(entries[n - 1])
    }
}

/// Whether sign-in is owned: everything applied, nothing native visible.
pub open spec fn owned(entries: Seq<OwnershipEntry>, visible: int) -> bool {
    missing_upto(entries, entries.len()) == 0 && visible == 0
}

pub open spec fn verdict_text(entries: Seq<OwnershipEntry>, visible: int) -> Seq<char> {
    if owned(entries, visible) {
        "OWNED"@
    } else {
        "NOT GUARANTEED ("@ + text::decimal(missing_upto(entries, entries.len()))
            + " override(s) missing, "@ + text::decimal(visible as nat)
            + " native keyboard window(s) visible)"@
    }
}

/// The ownership report.
pub open spec fn report_text(entries: Seq<OwnershipEntry>, visible: int) -> Seq<char> {
    "sign-in ownership: "@ + verdict_text(entries, visible) + "; "@ + entries_text(
        entries,
        entries.len(),
    ) + "; native keyboard windows visible="@ + text::decimal(visible as nat)
}

fn put_entry(out: &mut String, e: &OwnershipEntry)
    ensures
        final(out)@ == old(out)@ + entry_text(*e),
{
    put(out, e.root.label());
    put(out, "\\");
    put(out, e.value);
    put(out, "=");
    put(out, decimal_of(e.desired as u64).as_str());
    put(out, " ");
    let in_place: bool = match e.current {
        Some(v) => v == e.desired,
        None => false,
    };
    if in_place {
        put(out, "ok");
    } else {
        put(out, "MISSING(current=");
        match e.current {
            Some(v) => put(out, decimal_of(v as u64).as_str()),
            None => put(out, "absent"),
        }
        put(out, ")");
    }
    assert(out@ =~= old(out)@ + entry_text(*e));
}

/// One line that says whether sign-in is owned, and what is not in place.
pub fn format_ownership_report(entries: &[OwnershipEntry], native_windows_visible: usize) -> (out:
    String)
    ensures
        out@ == report_text(entries@, native_windows_visible as int),
{
    let mut missing: usize = 0;
    let mut parts: String = String::new();
    let mut i: usize = 0;
    while i < entries.len()
        invariant
            i <= entries.len(),
            missing <= i,
            missing == missing_upto(entries@, i as nat),
            parts@ == entries_text(entries@, i as nat),
        decreases entries.len() - i,
    {
        let e = &entries[i];
        let in_place: bool = match e.current {
            Some(v) => v == e.desired,
            None => false,
        };
        if !in_place {
            missing += 1;
        }
        if i > 0 {
            put(&mut parts, ", ");
        }
        put_entry(&mut parts, e);
        i += 1;
        assert(parts@ =~= entries_text(entries@, i as nat));
    }
    let mut out: String = "sign-in ownership: ".to_owned();
    if missing == 0 && native_windows_visible == 0 {
        put(&mut out, "OWNED");
    } else {
        put(&mut out, "NOT GUARANTEED (");
        put(&mut out, decimal_of(missing as u64).as_str());
        put(&mut out, " override(s) missing, ");
        put(&mut out, decimal_of(native_windows_visible as u64).as_str());
        put(&mut out, " native keyboard window(s) visible)");
    }
    assert(out@ =~= "sign-in ownership: "@ + verdict_text(entries@, native_windows_visible as int));
    put(&mut out, "; ");
    put(&mut out, parts.as_str());
    put(&mut out, "; native keyboard windows visible=");
    put(&mut out, decimal_of(native_windows_visible as u64).as_str());
    out
}

/// The overrides of the ownership check with what the registry holds for each.
pub open spec fn read_back(current: Seq<Option<u32>>) -> Seq<OwnershipEntry> {
    Seq::new(
        ownership_checks().len(),
        |i: int|
            OwnershipEntry {
                root: ownership_checks()[i].root,
                value: ownership_checks()[i].value,
                desired: ownership_checks()[i].desired,
                current: current[i],
            },
    )
}

/// The ownership report, from what the registry holds under each override of the
/// check, in its order.
pub fn signin_ownership_report(current: &Vec<Option<u32>>, native_windows_visible: usize) -> (out:
    String)
    requires
        current@.len() == ownership_checks().len(),
    ensures
        out@ == report_text(read_back(current@), native_windows_visible as int),
{
    let checks = signin_ownership_checks();
    let mut entries: Vec<OwnershipEntry> = Vec::new();
    let mut i: usize = 0;
    while i < checks.len()
        invariant
            checks@ == ownership_checks(),
            current@.len() == checks@.len(),
            i <= checks.len(),
            entries@ == read_back(current@).take(i as int),
        decreases checks.len() - i,
    {
        entries.push(
            OwnershipEntry {
                root: checks[i].root,
                value: checks[i].value,
                desired: checks[i].desired,
                current: current[i],
            },
        );
        i += 1;
        assert(entries@ =~= read_back(current@).take(i as int));
    }
    assert(entries@ =~= read_back(current@));
    format_ownership_report(entries.as_slice(), native_windows_visible)
}

/// The report says OWNED exactly when every override is in place and no native
/// keyboard window is visible.
pub proof fn report_is_owned_only_when_owned(entries: Seq<OwnershipEntry>, visible: nat)
    ensures
        text::occurs_at(
            report_text(entries, visible as int),
            "sign-in ownership: OWNED; "@,
            0,
        ) <==> owned(entries, visible as int),
{
    reveal_strlit("sign-in ownership: OWNED; ");
    reveal_strlit("sign-in ownership: ");
    reveal_strlit("OWNED");
    reveal_strlit("; ");
    reveal_strlit("NOT GUARANTEED (");
    let r = report_text(entries, visible as int);
    let want = "sign-in ownership: OWNED; "@;
    let v = verdict_text(entries, visible as int);
    if owned(entries, visible as int) {
        assert(r.subrange(0, 26) =~= want);
    } else {
        assert(v[0] == 'N');
        assert(r[19] == v[0]);
        assert(want[19] == 'O');
        if text::occurs_at(r, want, 0) {
            assert(r.subrange(0, want.len() as int)[19] == r[19]);
        }
    }
}

/// Every override of the plan that the check reads back is one that is applied.
pub proof fn checks_are_part_of_the_plan(i: int)
    requires
        0 <= i < ownership_checks().len(),
    ensures
        override_plan_seq().contains(ownership_checks()[i]),
{
    let plan = override_plan_seq();
    let a = tip_override_seq(TipRoot::Users, DEFAULT_TIP_SUBKEY);
    let c = policy_override_seq();
    assert(plan[0] == a[0] && plan[1] == a[1] && plan[2] == a[2]);
    assert(plan[6] == c[0] && plan[7] == c[1] && plan[8] == c[2]);
    assert(ownership_checks()[i] == (if i < 3 { a[i] } else { c[i - 3] }));
    assert(plan[if i < 3 { i } else { i + 3 }] == ownership_checks()[i]);
}

/// What a registry holds at a value, by literal names.
pub open spec fn at(values: Map<RegKey, u32>, root: TipRoot, subkey: Seq<char>, value: Seq<char>) -> Option<u32> {
    lookup(values, RegKey { root, subkey, value })
}

proof fn written_value(values: Map<RegKey, u32>, results: Seq<WriteResult>, i: int, n: nat)
    requires
        all_written(results),
        0 <= i < n <= override_plan_seq().len(),
    ensures
        lookup(
            overridden_upto(values, override_plan_seq(), results, n),
            key_of(override_plan_seq()[i]),
        ) == Some(override_plan_seq()[i].desired),
    decreases n,
{
    let plan = override_plan_seq();
    assert(results[n - 1].written);
    if i < n - 1 {
        written_value(values, results, i, (n - 1) as nat);
        plan_keys_are_distinct(i, n - 1);
    }
}

/// Once text input was taken over with every write through, the registry keeps the
/// Windows keyboard away, in the sign-in profile and in the current user's: it is not
/// invoked by a tap (0) nor by itself on the desktop (0), and its new form is switched
/// off (1). The device policies disable it for controllers (2), never invoke it (0) and
/// do not allow the input panel (0), and the text input service is disabled (4).
#[verifier::rlimit(50)]
pub proof fn taking_over_keeps_the_windows_keyboard_away(
    values: Map<RegKey, u32>,
    results: Seq<WriteResult>,
    service: WriteResult,
)
    requires
        all_written(results),
        service.written,
    ensures
        ({
            let v = live_values(values, results, service);
            let profile = ".DEFAULT\\Software\\Microsoft\\TabletTip\\1.7"@;
            let user = "Software\\Microsoft\\TabletTip\\1.7"@;
            let device = "SOFTWARE\\Microsoft\\PolicyManager\\current\\device\\TextInput"@;
            let service_key = "SYSTEM\\CurrentControlSet\\Services\\"@ + "TabletInputService"@;
            &&& at(v, TipRoot::Users, profile, "TouchKeyboardTapInvoke"@) == Some(0u32)
            &&& at(v, TipRoot::Users, profile, "EnableDesktopModeAutoInvoke"@) == Some(0u32)
            &&& at(v, TipRoot::Users, profile, "DisableNewKeyboardExperience"@) == Some(1u32)
            &&& at(v, TipRoot::CurrentUser, user, "TouchKeyboardTapInvoke"@) == Some(0u32)
            &&& at(v, TipRoot::CurrentUser, user, "EnableDesktopModeAutoInvoke"@) == Some(0u32)
            &&& at(v, TipRoot::CurrentUser, user, "DisableNewKeyboardExperience"@) == Some(1u32)
            &&& at(v, TipRoot::LocalMachine, device, "TouchKeyboardControllerModeAvailability"@)
                == Some(2u32)
            &&& at(v, TipRoot::LocalMachine, device, "EnableTouchKeyboardAutoInvokeInDesktopMode"@)
                == Some(0u32)
            &&& at(v, TipRoot::LocalMachine, device, "AllowInputPanel"@) == Some(0u32)
            &&& at(v, TipRoot::LocalMachine, service_key, "Start"@) == Some(4u32)
        }),
{
    let plan = override_plan_seq();
    let a = tip_override_seq(TipRoot::Users, DEFAULT_TIP_SUBKEY);
    let b = tip_override_seq(TipRoot::CurrentUser, USER_TIP_SUBKEY);
    let c = policy_override_seq();
    assert(plan[0] == a[0] && plan[1] == a[1] && plan[2] == a[2]);
    assert(plan[3] == b[0] && plan[4] == b[1] && plan[5] == b[2]);
    assert(plan[6] == c[0] && plan[7] == c[1] && plan[8] == c[2]);
    assert forall|i: int| 0 <= i < 9 implies lookup(
        live_values(values, results, service),
        key_of(#[trigger] plan[i]),
    ) == Some(plan[i].desired) by {
        written_value(values, results, i, 9);
        start_is_apart(i);
    }
    assert(lookup(live_values(values, results, service), key_of(plan[0])) == Some(0u32));
    assert(lookup(live_values(values, results, service), key_of(plan[1])) == Some(0u32));
    assert(lookup(live_values(values, results, service), key_of(plan[2])) == Some(1u32));
    assert(lookup(live_values(values, results, service), key_of(plan[3])) == Some(0u32));
    assert(lookup(live_values(values, results, service), key_of(plan[4])) == Some(0u32));
    assert(lookup(live_values(values, results, service), key_of(plan[5])) == Some(1u32));
    assert(lookup(live_values(values, results, service), key_of(plan[6])) == Some(2u32));
    assert(lookup(live_values(values, results, service), key_of(plan[7])) == Some(0u32));
    assert(lookup(live_values(values, results, service), key_of(plan[8])) == Some(0u32));
}

/// Taking over touches no value but those seven names: every other value of the registry
/// stays as it is, whichever writes went through.
pub proof fn taking_over_touches_nothing_else(
    values: Map<RegKey, u32>,
    results: Seq<WriteResult>,
    service: WriteResult,
    key: RegKey,
)
    requires
        results.len() == 9,
        key.value != "TouchKeyboardTapInvoke"@,
        key.value != "EnableDesktopModeAutoInvoke"@,
        key.value != "DisableNewKeyboardExperience"@,
        key.value != "TouchKeyboardControllerModeAvailability"@,
        key.value != "EnableTouchKeyboardAutoInvokeInDesktopMode"@,
        key.value != "AllowInputPanel"@,
        key.value != "Start"@,
    ensures
        lookup(live_values(values, results, service), key) == lookup(values, key),
{
    let plan = override_plan_seq();
    let a = tip_override_seq(TipRoot::Users, DEFAULT_TIP_SUBKEY);
    let b = tip_override_seq(TipRoot::CurrentUser, USER_TIP_SUBKEY);
    let c = policy_override_seq();
    assert(plan[0] == a[0] && plan[1] == a[1] && plan[2] == a[2]);
    assert(plan[3] == b[0] && plan[4] == b[1] && plan[5] == b[2]);
    assert(plan[6] == c[0] && plan[7] == c[1] && plan[8] == c[2]);
    assert forall|i: int| 0 <= i < plan.len() implies key_of(#[trigger] plan[i]) != key by {}
    unnamed_stays(values, results, plan.len(), key);
}

proof fn unnamed_stays(values: Map<RegKey, u32>, results: Seq<WriteResult>, n: nat, key: RegKey)
    requires
        n <= override_plan_seq().len(),
        forall|i: int|
            0 <= i < override_plan_seq().len() ==> key_of(#[trigger] override_plan_seq()[i]) != key,
    ensures
        lookup(overridden_upto(values, override_plan_seq(), results, n), key) == lookup(values, key),
    decreases n,
{
    if n > 0 {
        unnamed_stays(values, results, (n - 1) as nat, key);
        assert(key_of(override_plan_seq()[n - 1]) != key);
    }
}

/// The ownership check reads the sign-in profile's three values and the three device
/// policies, and its report says OWNED for exactly one reading of them: 0, 0, 1, and 2,
/// 0, 0, with no native keyboard window visible.
pub proof fn sign_in_is_owned_only_by_these_numbers(current: Seq<Option<u32>>, visible: nat)
    requires
        current.len() == 6,
    ensures
        ownership_checks().len() == 6,
        forall|i: int|
            0 <= i < 6 ==> (#[trigger] ownership_checks()[i]).root == (if i < 3 {
                TipRoot::Users
            } else {
                TipRoot::LocalMachine
            }),
        ownership_checks()[0].value@ == "TouchKeyboardTapInvoke"@,
        ownership_checks()[1].value@ == "EnableDesktopModeAutoInvoke"@,
        ownership_checks()[2].value@ == "DisableNewKeyboardExperience"@,
        ownership_checks()[3].value@ == "TouchKeyboardControllerModeAvailability"@,
        ownership_checks()[4].value@ == "EnableTouchKeyboardAutoInvokeInDesktopMode"@,
        ownership_checks()[5].value@ == "AllowInputPanel"@,
        text::occurs_at(
            report_text(read_back(current), visible as int),
            "sign-in ownership: OWNED; "@,
            0,
        ) <==> visible == 0 && current[0] == Some(0u32) && current[1] == Some(0u32) && current[2]
            == Some(1u32) && current[3] == Some(2u32) && current[4] == Some(0u32) && current[5]
            == Some(0u32),
{
    let checks = ownership_checks();
    let a = tip_override_seq(TipRoot::Users, DEFAULT_TIP_SUBKEY);
    let c = policy_override_seq();
    assert(checks[0] == a[0] && checks[1] == a[1] && checks[2] == a[2]);
    assert(checks[3] == c[0] && checks[4] == c[1] && checks[5] == c[2]);
    let entries = read_back(current);
    report_is_owned_only_when_owned(entries, visible);
    reveal_with_fuel(missing_upto, 7);
    assert(entries[0].desired == 0 && entries[1].desired == 0 && entries[2].desired == 1
        && entries[3].desired == 2 && entries[4].desired == 0 && entries[5].desired == 0);
    assert(entries.len() == 6);
}

/// A value that was written is put back as it was read before the write, unless an
/// earlier run already recorded it; what was absent is deleted. A value that was not
/// written is not put back.
pub proof fn a_written_value_is_recorded_as_it_was(
    results: Seq<WriteResult>,
    i: int,
)
    requires
        results.len() == override_plan_seq().len(),
        0 <= i < results.len(),
    ensures
        recorded_prior(
            priors_of(override_plan_seq(), results, None),
            key_of(override_plan_seq()[i]),
        ) == (if results[i].written { Some(results[i].current) } else { None::<Option<u32>> }),
{
    recorded_upto(results, i, override_plan_seq().len());
}

proof fn recorded_upto(results: Seq<WriteResult>, i: int, n: nat)
    requires
        results.len() == override_plan_seq().len(),
        0 <= i < results.len(),
        n <= results.len(),
    ensures
        recorded_prior(
            priors_upto(override_plan_seq(), results, None, n),
            key_of(override_plan_seq()[i]),
        ) == (if i < n && results[i].written {
            Some(results[i].current)
        } else {
            None::<Option<u32>>
        }),
    decreases n,
{
    if n > 0 {
        recorded_upto(results, i, (n - 1) as nat);
        let plan = override_plan_seq();
        let before = priors_upto(plan, results, None, (n - 1) as nat);
        let all = priors_upto(plan, results, None, n);
        if results[n - 1].written {
            let p = all.last();
            assert(all =~= before.push(p));
            recorded_push(before, p, key_of(plan[i]));
            if i < n - 1 {
                plan_keys_are_distinct(i, n - 1);
            } else if i > n - 1 {
                plan_keys_are_distinct(n - 1, i);
            }
        }
    }
}

proof fn recorded_push(records: Seq<RegPriorModel>, p: RegPriorModel, key: RegKey)
    ensures
        recorded_prior(records.push(p), key) == (match recorded_prior(records, key) {
            Some(v) => Some(v),
            None => if p.key == key { Some(p.prior) } else { None },
        }),
    decreases records.len(),
{
    let all = records.push(p);
    reveal_with_fuel(recorded_prior, 2);
    if records.len() > 0 {
        assert(all[0] == records[0]);
        assert(all.drop_first() =~= records.drop_first().push(p));
        recorded_push(records.drop_first(), p, key);
    } else {
        assert(all.drop_first() =~= Seq::<RegPriorModel>::empty());
    }
}

/// The hosts of the touch keyboard are known by their file names, wherever they lie and
/// however their letters are written; every window of theirs is the native keyboard.
pub proof fn hosts_are_known_by_their_names(
    class: Seq<char>,
    title: Seq<char>,
    dir: Seq<char>,
    name: Seq<char>,
)
    requires
        text::ascii_lower_all(name) == text::ascii_lower_all("TextInputHost.exe"@)
            || text::ascii_lower_all(name) == text::ascii_lower_all("TabTip.exe"@)
            || text::ascii_lower_all(name) == text::ascii_lower_all("osk.exe"@),
    ensures
        is_native(class, title, image_of(Some(dir + seq!['\\'] + name))),
        is_native(class, title, image_of(Some(name))),
{
    reveal_strlit("TextInputHost.exe");
    reveal_strlit("TabTip.exe");
    reveal_strlit("osk.exe");
    let low = text::ascii_lower_all(name);
    assert forall|i: int| 0 <= i < name.len() implies #[trigger] name[i] != '\\' && name[i]
        != '/' by {
        text::lowering_is_letter_by_letter(name, i);
        let t = text::ascii_lower_all("TextInputHost.exe"@);
        let b = text::ascii_lower_all("TabTip.exe"@);
        let o = text::ascii_lower_all("osk.exe"@);
        assert(low[i] == t[i] || low[i] == b[i] || low[i] == o[i]);
    }
    text::base_name_drops_the_directories(dir, name);
}

/// A window of any other process is the native keyboard by its class alone where that is the
/// touch keyboard's own, and by class and title where it is one of the system's frames; no
/// other window is.
pub proof fn other_windows_are_known_by_class_and_title(class: Seq<char>, title: Seq<char>)
    ensures
        class == "IPTip_Main_Window"@ || class == "IPTip_Window"@ ==> is_native(
            class,
            title,
            image_of(None),
        ),
        title == "Windows Input Experience"@ && (class == "ApplicationFrameWindow"@ || class
            == "Windows.UI.Core.CoreWindow"@) ==> is_native(class, title, image_of(None)),
        class == "Windows.UI.Core.CoreWindow"@ && (title == "Microsoft Text Input Application"@
            || text::occurs(title, "Text Input"@)) ==> is_native(class, title, image_of(None)),
        is_native(class, title, image_of(None)) ==> class == "IPTip_Main_Window"@ || class
            == "IPTip_Window"@ || title == "Windows Input Experience"@ && (class
            == "ApplicationFrameWindow"@ || class == "Windows.UI.Core.CoreWindow"@) || class
            == "Windows.UI.Core.CoreWindow"@ && (title == "Microsoft Text Input Application"@
            || text::occurs(title, "Text Input"@)),
{
    reveal_strlit("TextInputHost.exe");
    reveal_strlit("TabTip.exe");
    reveal_strlit("osk.exe");
    assert(text::ascii_lower_all("TextInputHost.exe"@).len() == 17);
    assert(text::ascii_lower_all("TabTip.exe"@).len() == 10);
    assert(text::ascii_lower_all("osk.exe"@).len() == 7);
    assert(text::ascii_lower_all(image_of(None)).len() == 0);
}

/// The native keyboard is left alone only where it was asked for and only on the sign-in
/// screen.
pub proof fn only_an_asked_for_keyboard_is_left_alone(s: NativeModel)
    ensures
        yields(s) ==> s.native_requested && s.signin_surface,
        s.native_requested && s.signin_surface ==> yields(s),
{
}

/// Putting things back is logged with how many values there were, and one service where any
/// came back; nothing is logged where there was nothing.
pub proof fn restores_are_logged(values: nat, services: Seq<bool>, i: int)
    ensures
        values == 0 && (forall|k: int| 0 <= k < services.len() ==> !#[trigger] services[k])
            ==> restored_text(values, services) is None,
        0 <= i < services.len() && services[i] ==> restored_text(values, services) == Some(
            "native kbd: restored "@ + text::decimal(values) + " registry value(s) and "@
                + text::decimal(1) + " service(s) for Windows text input"@,
        ),
        values > 0 && (forall|k: int| 0 <= k < services.len() ==> !#[trigger] services[k])
            ==> restored_text(values, services) == Some(
            "native kbd: restored "@ + text::decimal(values) + " registry value(s) and "@
                + text::decimal(0) + " service(s) for Windows text input"@,
        ),
{
    if 0 <= i < services.len() && services[i] {
        assert(services.contains(true));
    }
}

/// The service's start value is recorded once: a record that is in memory stays, else the one
/// of an earlier run is taken over, else what was found is recorded, and only where it was
/// written.
pub proof fn the_service_is_recorded_once(
    s: NativeModel,
    orphan: Option<RecordModel>,
    service: WriteResult,
)
    ensures
        s.services matches Some(kept) ==> services_after_disable(s, orphan, service) == kept,
        s.services is None && !service.written ==> services_after_disable(s, orphan, service).len()
            == 0,
        s.services is None && service.written && orphan is None ==> {
            let made = services_after_disable(s, orphan, service);
            made.len() == 1 && made[0].name == TEXT_INPUT_SERVICE@
        },
{
}

/// The report counts each value that is not as it should be, once.
pub proof fn every_missing_value_counts(entries: Seq<OwnershipEntry>, e: OwnershipEntry)
    ensures
        missing_upto(Seq::<OwnershipEntry>::empty(), 0) == 0,
        missing_upto(entries.push(e), entries.len() + 1) == missing_upto(entries, entries.len()) + (
        if e.current == Some(e.desired) {
            0int
        } else {
            1
        }),
{
    let more = entries.push(e);
    same_count(entries, more, entries.len());
}

proof fn same_count(a: Seq<OwnershipEntry>, b: Seq<OwnershipEntry>, n: nat)
    requires
        n <= a.len(),
        n <= b.len(),
        forall|i: int| 0 <= i < n ==> #[trigger] a[i] == b[i],
    ensures
        missing_upto(a, n) == missing_upto(b, n),
    decreases n,
{
    if n > 0 {
        same_count(a, b, (n - 1) as nat);
    }
}

/// A report that does not vouch for the sign-in says how many values are missing and how
/// many native windows are visible; of each value it says what it should be, and what it is
/// where that differs.
pub proof fn reports_say_what_is_missing(
    entries: Seq<OwnershipEntry>,
    visible: nat,
    e: OwnershipEntry,
    v: u32,
)
    ensures
        visible > 0 || missing_upto(entries, entries.len()) > 0 ==> verdict_text(
            entries,
            visible as int,
        ) == "NOT GUARANTEED ("@ + text::decimal(missing_upto(entries, entries.len()))
            + " override(s) missing, "@ + text::decimal(visible)
            + " native keyboard window(s) visible)"@,
        visible == 0 && missing_upto(entries, entries.len()) == 0 ==> verdict_text(
            entries,
            visible as int,
        ) == "OWNED"@,
        e.current == Some(e.desired) ==> entry_text(e) == e.root.name() + "\\"@ + e.value@ + "="@
            + text::decimal(e.desired as nat) + " "@ + "ok"@,
        e.current == Some(v) && v != e.desired ==> entry_text(e) == e.root.name() + "\\"@ + e.value@
            + "="@ + text::decimal(e.desired as nat) + " "@ + ("MISSING(current="@ + text::decimal(
            v as nat,
        ) + ")"@),
        e.current is None ==> entry_text(e) == e.root.name() + "\\"@ + e.value@ + "="@
            + text::decimal(e.desired as nat) + " "@ + ("MISSING(current="@ + "absent"@ + ")"@),
{
}

} // verus!
