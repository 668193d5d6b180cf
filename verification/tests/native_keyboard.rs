use warmup_companion::native_keyboard::{
    disable_auto_invoke, format_ownership_report, is_native_keyboard_window, native_logon_requested,
    needs_override, override_plan, overrides_path, read_dword, restore_auto_invoke,
    restore_orphaned_overrides, restore_text_input_services, restored_line, set_logon_pad_is_xbox, set_logon_signin_surface,
    signin_ownership_checks, signin_ownership_report, suppress_done, suppress_for, sweep_window, text_input_policy_values,
    yield_logon_to_native, NativeKeyboard, OwnershipEntry, RegPrior, SavedOverrides, ServicePrior,
    SweepAction, TipRoot, WriteResult, DEFAULT_TIP_SUBKEY, TEXT_INPUT_POLICY_SUBKEY,
    USER_TIP_SUBKEY,
};

#[test]
fn companion_signin_is_default_and_native_requires_explicit_opt_in() {
    for value in [None, Some("0"), Some(""), Some("false"), Some("typo")] {
        assert!(!native_logon_requested(value), "{value:?}");
    }
    assert!(native_logon_requested(Some("1")));
}

#[test]
fn controller_keyboard_policy_is_part_of_signin_ownership() {
    let values = text_input_policy_values();
    let policy = |name: &str| values.iter().find(|o| o.value == name).map(|o| o.desired);
    // 2 = controller keyboard always disabled, 0 = never auto-invoke,
    // 0 = input panel not allowed.
    assert_eq!(policy("TouchKeyboardControllerModeAvailability"), Some(2));
    assert_eq!(
        policy("EnableTouchKeyboardAutoInvokeInDesktopMode"),
        Some(0)
    );
    assert_eq!(policy("AllowInputPanel"), Some(0));
    assert!(TEXT_INPUT_POLICY_SUBKEY
        .starts_with(r"SOFTWARE\Microsoft\PolicyManager\current\device\"));
}

fn root_name(root: TipRoot) -> &'static str {
    root.label()
}

fn root_from(name: &str) -> TipRoot {
    for root in [TipRoot::CurrentUser, TipRoot::LocalMachine, TipRoot::Users] {
        if root.label() == name {
            return root;
        }
    }
    panic!("unknown root {name}")
}

fn dword(v: Option<u32>) -> serde_json::Value {
    match v {
        Some(n) => serde_json::Value::from(n),
        None => serde_json::Value::Null,
    }
}

fn to_value(saved: &SavedOverrides) -> serde_json::Value {
    let mut registry = Vec::new();
    for r in &saved.registry {
        let mut m = serde_json::Map::new();
        m.insert("root".to_string(), serde_json::Value::from(root_name(r.root)));
        m.insert("subkey".to_string(), serde_json::Value::from(r.subkey.as_str()));
        m.insert("value".to_string(), serde_json::Value::from(r.value.as_str()));
        m.insert("prior".to_string(), dword(r.prior));
        registry.push(serde_json::Value::Object(m));
    }
    let mut services = Vec::new();
    for s in &saved.services {
        let mut m = serde_json::Map::new();
        m.insert("name".to_string(), serde_json::Value::from(s.name.as_str()));
        m.insert("prior".to_string(), dword(s.prior));
        services.push(serde_json::Value::Object(m));
    }
    let mut whole = serde_json::Map::new();
    whole.insert("registry".to_string(), serde_json::Value::Array(registry));
    whole.insert("services".to_string(), serde_json::Value::Array(services));
    serde_json::Value::Object(whole)
}

fn from_value(v: &serde_json::Value) -> SavedOverrides {
    let number = |v: &serde_json::Value| v.as_u64().map(|n| n as u32);
    let text = |v: &serde_json::Value| v.as_str().unwrap_or("").to_string();
    let empty = Vec::new();
    let registry = v["registry"]
        .as_array()
        .unwrap_or(&empty)
        .iter()
        .map(|r| RegPrior {
            root: root_from(r["root"].as_str().unwrap_or("")),
            subkey: text(&r["subkey"]),
            value: text(&r["value"]),
            prior: number(&r["prior"]),
        })
        .collect();
    let services = v["services"]
        .as_array()
        .unwrap_or(&empty)
        .iter()
        .map(|s| ServicePrior {
            name: text(&s["name"]),
            prior: number(&s["prior"]),
        })
        .collect();
    SavedOverrides { registry, services }
}

#[test]
fn saved_overrides_round_trip_and_resolve_recorded_priors() {
    let saved = SavedOverrides {
        registry: vec![
            RegPrior {
                root: TipRoot::LocalMachine,
                subkey: TEXT_INPUT_POLICY_SUBKEY.into(),
                value: "AllowInputPanel".into(),
                prior: None,
            },
            RegPrior {
                root: TipRoot::Users,
                subkey: DEFAULT_TIP_SUBKEY.into(),
                value: "EnableDesktopModeAutoInvoke".into(),
                prior: Some(1),
            },
        ],
        services: vec![ServicePrior {
            name: "TabletInputService".into(),
            prior: Some(3),
        }],
    };
    let json = serde_json::to_string(&to_value(&saved)).unwrap();
    let parsed: serde_json::Value = serde_json::from_str(&json).unwrap();
    let back = from_value(&parsed);
    assert_eq!(back, saved);

    // "Was absent" must survive as Some(None), distinct from "unknown".
    assert_eq!(
        back.registry_prior(
            TipRoot::LocalMachine,
            TEXT_INPUT_POLICY_SUBKEY,
            "AllowInputPanel"
        ),
        Some(None)
    );
    assert_eq!(
        back.registry_prior(
            TipRoot::Users,
            DEFAULT_TIP_SUBKEY,
            "EnableDesktopModeAutoInvoke"
        ),
        Some(Some(1))
    );
    assert_eq!(
        back.registry_prior(
            TipRoot::CurrentUser,
            USER_TIP_SUBKEY,
            "EnableDesktopModeAutoInvoke"
        ),
        None
    );
    assert_eq!(back.service_prior("TabletInputService"), Some(Some(3)));
    assert_eq!(back.service_prior("TextInputManagementService"), None);

    // Records without one of the sections still load.
    let partial: serde_json::Value = serde_json::from_str(r#"{"registry":[]}"#).unwrap();
    assert_eq!(
        from_value(&partial),
        SavedOverrides {
            registry: Vec::new(),
            services: Vec::new()
        }
    );
}

#[test]
fn ownership_report_is_owned_only_when_everything_applied_and_nothing_visible() {
    let entry = |value: &'static str, desired, current| OwnershipEntry {
        root: TipRoot::LocalMachine,
        value,
        desired,
        current,
    };
    let all_ok = [
        entry("TouchKeyboardControllerModeAvailability", 2, Some(2)),
        entry("AllowInputPanel", 0, Some(0)),
    ];
    let report = format_ownership_report(&all_ok, 0);
    assert!(report.starts_with("sign-in ownership: OWNED;"), "{report}");
    assert!(report.contains("HKLM\\TouchKeyboardControllerModeAvailability=2 ok"));

    let report = format_ownership_report(&all_ok, 1);
    assert!(
        report.contains(
            "NOT GUARANTEED (0 override(s) missing, 1 native keyboard window(s) visible)"
        ),
        "{report}"
    );

    let drifted = [
        entry("TouchKeyboardControllerModeAvailability", 2, Some(0)),
        entry("AllowInputPanel", 0, None),
    ];
    let report = format_ownership_report(&drifted, 0);
    assert!(
        report.contains("NOT GUARANTEED (2 override(s) missing"),
        "{report}"
    );
    assert!(report.contains("TouchKeyboardControllerModeAvailability=2 MISSING(current=0)"));
    assert!(report.contains("AllowInputPanel=0 MISSING(current=absent)"));
}

#[test]
fn restoring_gives_back_what_was_there() {
    let mut state = NativeKeyboard::new(false);
    assert!(needs_override(&state));
    let plan = override_plan();
    let mut results = Vec::new();
    for i in 0..plan.len() {
        results.push(WriteResult {
            current: if i == 0 { None } else { Some(i as u32 + 40) },
            written: true,
        });
    }
    let service = WriteResult {
        current: Some(3),
        written: true,
    };
    let record = disable_auto_invoke(&mut state, &None, &results, service);
    assert!(record.is_some());
    assert!(!needs_override(&state));
    // A second time nothing is recorded again.
    assert!(disable_auto_invoke(&mut state, &None, &results, service).is_none());
    let back = restore_auto_invoke(&mut state, None);
    assert_eq!(back.registry.len(), plan.len());
    for (i, prior) in back.registry.iter().enumerate() {
        assert_eq!(prior.root, plan[i].root);
        assert_eq!(prior.subkey, plan[i].subkey);
        assert_eq!(prior.value, plan[i].value);
        assert_eq!(prior.prior, if i == 0 { None } else { Some(i as u32 + 40) });
    }
    assert_eq!(back.services.len(), 1);
    assert_eq!(back.services[0].prior, Some(3));
    assert!(back.remove_record);
    assert!(needs_override(&state));
    // Nothing is left to put back.
    let again = restore_auto_invoke(&mut state, None);
    assert!(again.registry.is_empty() && again.services.is_empty());
}

#[test]
fn orphaned_record_is_restored_after_a_crash() {
    let mut state = NativeKeyboard::new(false);
    let orphan = SavedOverrides {
        registry: vec![RegPrior {
            root: TipRoot::Users,
            subkey: DEFAULT_TIP_SUBKEY.into(),
            value: "EnableDesktopModeAutoInvoke".into(),
            prior: Some(1),
        }],
        services: Vec::new(),
    };
    let plan = restore_orphaned_overrides(&mut state, true, Some(orphan)).unwrap();
    assert_eq!(plan.registry[0].prior, Some(1));
    assert!(restore_orphaned_overrides(&mut state, false, None).is_none());
}

#[test]
fn second_run_keeps_the_first_runs_priors() {
    let plan = override_plan();
    let read = |n: u32| -> Vec<WriteResult> {
        plan.iter()
            .map(|_| WriteResult {
                current: Some(n),
                written: true,
            })
            .collect()
    };
    let service = |n: u32| WriteResult {
        current: Some(n),
        written: true,
    };
    let mut first = NativeKeyboard::new(false);
    let record = disable_auto_invoke(&mut first, &None, &read(7), service(3));
    // The process dies; the next one reads the overridden values.
    let mut second = NativeKeyboard::new(false);
    let record = disable_auto_invoke(&mut second, &record, &read(0), service(4));
    let back = restore_auto_invoke(&mut second, record);
    assert!(back.registry.iter().all(|p| p.prior == Some(7)));
    assert_eq!(back.registry.len(), plan.len());
    assert_eq!(back.services[0].prior, Some(3));
}

#[test]
fn what_was_to_be_put_back_is_reported() {
    let prior = || RegPrior {
        root: TipRoot::Users,
        subkey: "s".to_string(),
        value: "v".to_string(),
        prior: None,
    };
    assert_eq!(
        restored_line(&vec![prior(), prior(), prior()], &vec![true]).as_deref(),
        Some("native kbd: restored 3 registry value(s) and 1 service(s) for Windows text input")
    );
    assert_eq!(
        restored_line(&vec![prior()], &vec![false]).as_deref(),
        Some("native kbd: restored 1 registry value(s) and 0 service(s) for Windows text input")
    );
    assert_eq!(
        restored_line(&Vec::new(), &vec![false, true]).as_deref(),
        Some("native kbd: restored 0 registry value(s) and 1 service(s) for Windows text input")
    );
    assert_eq!(restored_line(&Vec::new(), &vec![false]), None);
    assert_eq!(restored_line(&Vec::new(), &Vec::new()), None);
    assert!(restore_text_input_services(&vec![false, true]));
    assert!(!restore_text_input_services(&vec![false]) && !restore_text_input_services(&Vec::new()));
}

#[test]
fn every_check_is_overridden() {
    let plan = override_plan();
    for c in signin_ownership_checks() {
        assert!(plan
            .iter()
            .any(|o| o.root == c.root && o.subkey == c.subkey && o.value == c.value));
    }
}

#[test]
fn report_says_what_the_registry_holds() {
    let checks = signin_ownership_checks();
    let mut current: Vec<Option<u32>> = checks.iter().map(|c| Some(c.desired)).collect();
    let report = signin_ownership_report(&current, 0);
    assert!(report.starts_with("sign-in ownership: OWNED; "), "{report}");
    assert!(!report.contains("MISSING"), "{report}");
    current[0] = None;
    let report = signin_ownership_report(&current, 2);
    let start = format!(
        "sign-in ownership: NOT GUARANTEED (1 override(s) missing, 2 native keyboard window(s) visible); {}\\{}={} MISSING(current=absent)",
        checks[0].root.label(),
        checks[0].value,
        checks[0].desired,
    );
    assert!(report.starts_with(&start), "{report}");
    assert!(report.ends_with("; native keyboard windows visible=2"), "{report}");
}

#[test]
fn native_windows_are_swept() {
    assert!(is_native_keyboard_window("IPTip_Main_Window", "", None));
    assert!(!is_native_keyboard_window("Notepad", "x", Some("notepad.exe")));
    assert_eq!(
        sweep_window("Notepad", "x", Some("notepad.exe"), false),
        SweepAction::Leave
    );
    assert!(matches!(
        sweep_window("IPTip_Main_Window", "", Some("tabtip.exe"), false),
        SweepAction::Remove { .. }
    ));
}

#[test]
fn only_one_sweep_runs_at_a_time() {
    let mut state = NativeKeyboard::new(false);
    assert!(suppress_for(&mut state));
    assert!(!suppress_for(&mut state));
    suppress_done(&mut state);
    assert!(suppress_for(&mut state));
}

#[test]
fn native_keyboard_is_yielded_to_only_when_asked_for() {
    let mut state = NativeKeyboard::new(false);
    set_logon_pad_is_xbox(&mut state, true);
    set_logon_signin_surface(&mut state, true);
    assert!(!yield_logon_to_native(&state));
    let mut state = NativeKeyboard::new(true);
    set_logon_pad_is_xbox(&mut state, true);
    set_logon_signin_surface(&mut state, true);
    assert!(yield_logon_to_native(&state));
}

#[test]
fn registry_numbers_are_little_endian() {
    assert_eq!(read_dword(0, [4, 3, 2, 1], 4), Some(0x01020304));
    assert_eq!(read_dword(2, [4, 3, 2, 1], 4), None);
    assert!(overrides_path("C:\\data").ends_with("signin-overrides.json"));
}
