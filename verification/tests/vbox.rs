//! VirtualBox plugin behaviour: validation, parsing, planning,
//! registration.

use omni_event_registry::builder::CpiBuilder;
use omni_event_registry::events::EventManager;
use omni_event_registry::feature::Plugin;
use omni_event_registry::feature::TypedArg;
use omni_event_registry::feature::ValueRef;
use omni_event_registry::json::JsonMember;
use omni_event_registry::json::JsonValue;
use omni_event_registry::provider::VirtualBoxProvider;
use omni_event_registry::provider::VmOperationHandlers;
use omni_event_registry::registry::EventRegistry;
use omni_event_registry::registry::ScriptedHandler;
use omni_event_registry::vbox_config::VirtualBoxConfig;
use omni_event_registry::vbox_error::VBoxError;
use omni_event_registry::vbox_handlers::EventHandlers;
use omni_event_registry::vbox_handlers::VmManageHandlers;
use omni_event_registry::vbox_ops::VBoxOperations;
use omni_event_registry::vbox_plugin::VirtualBoxPlugin;
use omni_event_registry::vbox_utils::VBoxUtils;
use omni_event_registry::vbox_utils::parse_u64;
use omni_event_registry::vbox_utils::split_lines;
use omni_event_registry::vbox_utils::trim;
use omni_event_registry::vbox_utils::trim_quotes;
use omni_event_registry::vbox_utils::u64_to_string;
use omni_event_registry::vm_feature::VmManagementFeature;

fn obj(fields: Vec<(&str, JsonValue)>) -> JsonValue {
    JsonValue::Obj(
        fields
            .into_iter()
            .map(|(n, v)| JsonMember::new(n.to_string(), v))
            .collect(),
    )
}

fn s(text: &str) -> JsonValue {
    JsonValue::Str(text.to_string())
}

#[test]
fn vm_name_validation_accepts_and_rejects() {
    assert!(VBoxUtils::validate_vm_name("my-vm").is_ok());
    match VBoxUtils::validate_vm_name("") {
        Err(VBoxError::InvalidArgument(m)) => assert_eq!(m, "VM name cannot be empty"),
        _ => panic!("empty name must be rejected"),
    }
    let long = "x".repeat(256);
    match VBoxUtils::validate_vm_name(&long) {
        Err(VBoxError::InvalidArgument(m)) => {
            assert_eq!(m, "VM name too long (max 255 characters)")
        }
        _ => panic!("long name must be rejected"),
    }
    assert!(VBoxUtils::validate_vm_name(&"x".repeat(255)).is_ok());
    match VBoxUtils::validate_vm_name("a:b") {
        Err(VBoxError::InvalidArgument(m)) => {
            assert_eq!(m, "VM name contains invalid characters")
        }
        _ => panic!("reserved characters must be rejected"),
    }
}

#[test]
fn memory_validation_bounds() {
    assert!(VBoxUtils::validate_memory_mb(1).is_ok());
    assert!(VBoxUtils::validate_memory_mb(1048576).is_ok());
    match VBoxUtils::validate_memory_mb(0) {
        Err(VBoxError::InvalidArgument(m)) => assert_eq!(m, "Memory must be at least 1 MB"),
        _ => panic!("zero memory must be rejected"),
    }
    match VBoxUtils::validate_memory_mb(1048577) {
        Err(VBoxError::InvalidArgument(m)) => assert_eq!(m, "Memory too large (max 1TB)"),
        _ => panic!("huge memory must be rejected"),
    }
}

#[test]
fn cpu_validation_bounds() {
    assert!(VBoxUtils::validate_cpu_count(1).is_ok());
    assert!(VBoxUtils::validate_cpu_count(256).is_ok());
    match VBoxUtils::validate_cpu_count(0) {
        Err(VBoxError::InvalidArgument(m)) => assert_eq!(m, "CPU count must be at least 1"),
        _ => panic!("zero CPUs must be rejected"),
    }
    match VBoxUtils::validate_cpu_count(257) {
        Err(VBoxError::InvalidArgument(m)) => assert_eq!(m, "CPU count too large (max 256)"),
        _ => panic!("too many CPUs must be rejected"),
    }
}

#[test]
fn network_args_cover_every_adapter() {
    assert_eq!(VBoxUtils::get_network_args("Bridged"), vec!["--nic1", "bridged"]);
    assert_eq!(VBoxUtils::get_network_args("Host-only"), vec!["--nic1", "hostonly"]);
    assert_eq!(VBoxUtils::get_network_args("Internal"), vec!["--nic1", "intnet"]);
    assert_eq!(VBoxUtils::get_network_args("NAT"), vec!["--nic1", "nat"]);
    assert_eq!(VBoxUtils::get_network_args("anything"), vec!["--nic1", "nat"]);
}

#[test]
fn decimal_reading_and_rendering() {
    assert_eq!(parse_u64("0"), Some(0));
    assert_eq!(parse_u64("1234"), Some(1234));
    assert_eq!(parse_u64("18446744073709551615"), Some(u64::MAX));
    assert_eq!(parse_u64("18446744073709551616"), None);
    assert_eq!(parse_u64(""), None);
    assert_eq!(parse_u64("12a"), None);
    assert_eq!(parse_u64("-3"), None);
    assert_eq!(u64_to_string(0), "0");
    assert_eq!(u64_to_string(1234), "1234");
    assert_eq!(u64_to_string(u64::MAX), "18446744073709551615");
}

#[test]
fn text_helpers_split_and_trim() {
    assert_eq!(split_lines(""), Vec::<String>::new());
    assert_eq!(split_lines("a\nb"), vec!["a", "b"]);
    assert_eq!(split_lines("a\r\nb\r\n"), vec!["a", "b"]);
    assert_eq!(split_lines("a\n\nb"), vec!["a", "", "b"]);
    assert_eq!(trim("  x y\t"), "x y");
    assert_eq!(trim(""), "");
    assert_eq!(trim_quotes("\"uuid\""), "uuid");
    assert_eq!(trim_quotes("\"\"x\"\""), "x");
    assert_eq!(trim_quotes("plain"), "plain");
}

#[test]
fn vm_info_parsing_collects_the_known_keys() {
    let output = "name=\"alpha\"\nVMState=\"running\"\nmemory=2048\ncpus=2\nother=\"zzz\"\nbroken line\n";
    let info = VBoxUtils::parse_vm_info(output, "alpha");
    let expected = obj(vec![
        ("cpu_count", JsonValue::Int(2)),
        ("memory_mb", JsonValue::Int(2048)),
        ("name", s("alpha")),
        ("status", s("running")),
        ("vm_id", s("alpha")),
    ]);
    assert!(info.deep_eq(&expected));
}

#[test]
fn vm_info_parsing_lets_later_lines_win() {
    let output = "name=\"first\"\nname=\"second\"";
    let info = VBoxUtils::parse_vm_info(output, "id");
    let expected = obj(vec![("name", s("second")), ("vm_id", s("id"))]);
    assert!(info.deep_eq(&expected));
}

#[test]
fn vm_list_parsing_reads_names_and_ids() {
    let output = "\"vm one\" {111-222}\njunk line\n\"vm two\"  {333}\n";
    let vms = VBoxUtils::parse_vm_list(output).unwrap();
    assert_eq!(vms.len(), 2);
    let first = obj(vec![
        ("name", s("vm one")),
        ("status", s("unknown")),
        ("uuid", s("111-222")),
        ("vm_id", s("vm one")),
    ]);
    assert!(vms[0].deep_eq(&first));
    let second = obj(vec![
        ("name", s("vm two")),
        ("status", s("unknown")),
        ("uuid", s("333")),
        ("vm_id", s("vm two")),
    ]);
    assert!(vms[1].deep_eq(&second));
}

#[test]
fn create_vm_plans_six_commands_and_the_answer() {
    let ops = VBoxOperations::new(VirtualBoxConfig::new());
    let args = obj(vec![
        ("name", s("demo-vm")),
        ("memory_mb", JsonValue::Int(2048)),
        ("cpu_count", JsonValue::Int(2)),
    ]);
    let plan = ops.create_vm(&args).unwrap();
    assert_eq!(plan.commands.len(), 6);
    assert_eq!(
        plan.commands[0],
        vec!["createvm", "--name", "demo-vm", "--ostype", "Linux_64", "--register"]
    );
    assert_eq!(
        plan.commands[1],
        vec!["modifyvm", "demo-vm", "--memory", "2048", "--cpus", "2"]
    );
    assert_eq!(plan.commands[2], vec!["modifyvm", "demo-vm", "--nic1", "nat"]);
    assert_eq!(
        plan.commands[4],
        vec!["createhd", "--filename", "demo-vm.vdi", "--size", "20480", "--format", "VDI"]
    );
    let expected = obj(vec![
        ("cpu_count", JsonValue::Int(2)),
        ("disk_size_gb", JsonValue::Int(20)),
        ("memory_mb", JsonValue::Int(2048)),
        ("name", s("demo-vm")),
        ("status", s("created")),
        ("vm_id", s("demo-vm")),
    ]);
    assert!(plan.response.deep_eq(&expected));
}

#[test]
fn create_vm_reports_the_first_missing_argument() {
    let ops = VBoxOperations::new(VirtualBoxConfig::new());
    match ops.create_vm(&obj(vec![])) {
        Err(VBoxError::MissingArgument(m)) => assert_eq!(m, "name"),
        _ => panic!("expected a missing name"),
    }
    match ops.create_vm(&obj(vec![("name", s("x"))])) {
        Err(VBoxError::MissingArgument(m)) => assert_eq!(m, "memory_mb"),
        _ => panic!("expected missing memory"),
    }
    let args = obj(vec![
        ("name", s("x")),
        ("memory_mb", JsonValue::Int(0)),
        ("cpu_count", JsonValue::Int(1)),
    ]);
    match ops.create_vm(&args) {
        Err(VBoxError::InvalidArgument(m)) => assert_eq!(m, "Memory must be at least 1 MB"),
        _ => panic!("expected invalid memory"),
    }
}

#[test]
fn delete_vm_plans_poweroff_then_unregister() {
    let ops = VBoxOperations::new(VirtualBoxConfig::new());
    let plan = ops.delete_vm(&obj(vec![("vm_id", s("demo"))])).unwrap();
    assert_eq!(plan.commands[0], vec!["controlvm", "demo", "poweroff"]);
    assert_eq!(plan.commands[1], vec!["unregistervm", "demo", "--delete"]);
    assert!(plan.response.deep_eq(&JsonValue::Bool(true)));
    let keep = obj(vec![("vm_id", s("demo")), ("delete_files", JsonValue::Bool(false))]);
    let plan2 = ops.delete_vm(&keep).unwrap();
    assert_eq!(plan2.commands[1], vec!["unregistervm", "demo"]);
}

#[test]
fn start_and_stop_plans_carry_their_timestamps() {
    let ops = VBoxOperations::new(VirtualBoxConfig::new());
    let start = ops
        .start_vm_at(&obj(vec![("vm_id", s("demo"))]), "2024-01-01T00:00:00+00:00")
        .unwrap();
    assert_eq!(start.commands[0], vec!["startvm", "demo", "--type", "gui"]);
    let expected = obj(vec![
        ("started_at", s("2024-01-01T00:00:00+00:00")),
        ("status", s("running")),
        ("vm_id", s("demo")),
    ]);
    assert!(start.response.deep_eq(&expected));
    let headless = obj(vec![("vm_id", s("demo")), ("headless", JsonValue::Bool(true))]);
    let start2 = ops.start_vm_at(&headless, "t").unwrap();
    assert_eq!(start2.commands[0], vec!["startvm", "demo", "--type", "headless"]);
    let stop = ops.stop_vm_at(&obj(vec![("vm_id", s("demo"))]), "t").unwrap();
    assert_eq!(stop.commands[0], vec!["controlvm", "demo", "acpipowerbutton"]);
    let force = obj(vec![("vm_id", s("demo")), ("force", JsonValue::Bool(true))]);
    let stop2 = ops.stop_vm_at(&force, "t").unwrap();
    assert_eq!(stop2.commands[0], vec!["controlvm", "demo", "poweroff"]);
}

#[test]
fn info_and_list_plans() {
    let ops = VBoxOperations::new(VirtualBoxConfig::new());
    let (cmd, id) = ops.get_vm_info(&obj(vec![("vm_id", s("demo"))])).unwrap();
    assert_eq!(cmd, vec!["showvminfo", "demo", "--machinereadable"]);
    assert_eq!(id, "demo");
    assert!(matches!(
        ops.get_vm_info(&obj(vec![])),
        Err(VBoxError::MissingArgument(_))
    ));
    assert_eq!(ops.list_vms(&obj(vec![])), vec!["list", "vms"]);
    let running = obj(vec![("include_running_only", JsonValue::Bool(true))]);
    assert_eq!(ops.list_vms(&running), vec!["list", "runningvms"]);
    let listed = VBoxOperations::list_vms_response("\"a\" {1}\n").unwrap();
    match listed {
        JsonValue::Arr(items) => assert_eq!(items.len(), 1),
        _ => panic!("expected an array"),
    }
}

#[test]
fn snapshot_plan_includes_the_description_only_when_given() {
    let ops = VBoxOperations::new(VirtualBoxConfig::new());
    let args = obj(vec![("vm_id", s("demo")), ("snapshot_name", s("snap"))]);
    let plan = ops.create_snapshot_at(&args, "t").unwrap();
    assert_eq!(plan.commands[0], vec!["snapshot", "demo", "take", "snap"]);
    let with_desc = obj(vec![
        ("vm_id", s("demo")),
        ("snapshot_name", s("snap")),
        ("description", s("before upgrade")),
    ]);
    let plan2 = ops.create_snapshot_at(&with_desc, "t").unwrap();
    assert_eq!(
        plan2.commands[0],
        vec!["snapshot", "demo", "take", "snap", "--description", "before upgrade"]
    );
    let expected = obj(vec![
        ("created_at", s("t")),
        ("snapshot_id", s("demo_snap")),
        ("snapshot_name", s("snap")),
        ("vm_id", s("demo")),
    ]);
    assert!(plan2.response.deep_eq(&expected));
}

#[test]
fn command_outcomes_are_wrapped() {
    assert_eq!(
        VBoxOperations::read_command_outcome(true, "out".to_string(), "ignored").unwrap(),
        "out"
    );
    match VBoxOperations::read_command_outcome(false, String::new(), "bad disk") {
        Err(VBoxError::ExecutionFailed(m)) => assert_eq!(m, "VBoxManage failed: bad disk"),
        _ => panic!("expected a failure"),
    }
    assert!(VBoxOperations::verify_installation_result(&Ok("7.0".to_string())).is_ok());
    match VBoxOperations::verify_installation_result(&Err(VBoxError::ExecutionFailed(
        "gone".to_string(),
    ))) {
        Err(VBoxError::NotInstalled(m)) => assert_eq!(
            m,
            "VBoxManage not found or not working: VBoxManage execution failed: gone"
        ),
        _ => panic!("expected NotInstalled"),
    }
}

#[test]
fn config_defaults_and_setters() {
    let mut config = VirtualBoxConfig::new();
    assert_eq!(config.get_vboxmanage_path(), "VBoxManage");
    assert_eq!(config.get_max_concurrent_vms(), 10);
    assert!(config.get_default_vm_folder().is_none());
    config.set_default_vm_folder(Some("/vms".to_string()));
    assert_eq!(config.get_default_vm_folder().map(|f| f.as_str()), Some("/vms"));
    config.set_max_concurrent_vms(3);
    assert_eq!(config.get_max_concurrent_vms(), 3);
}

#[test]
fn vboxmanage_lookup_picks_the_first_present_candidate() {
    let candidates = vec!["/a/VBoxManage".to_string(), "/b/VBoxManage".to_string()];
    assert_eq!(
        VirtualBoxConfig::find_vboxmanage(&candidates, &vec![false, true]),
        "/b/VBoxManage"
    );
    assert_eq!(
        VirtualBoxConfig::find_vboxmanage(&candidates, &vec![true, true]),
        "/a/VBoxManage"
    );
    assert_eq!(
        VirtualBoxConfig::find_vboxmanage(&candidates, &vec![false, false]),
        "VBoxManage"
    );
}

#[test]
fn virtualbox_plugin_declares_vm_manage() {
    let plugin = VirtualBoxPlugin::new();
    assert_eq!(plugin.name(), "VirtualBox");
    assert_eq!(plugin.version(), "1.0.0");
    assert_eq!(plugin.declared_features(), vec!["VM_Manage"]);
}

#[test]
fn vbox_handlers_register_the_seven_methods() {
    let mut registry: EventRegistry<ScriptedHandler> = EventRegistry::new();
    let plugin = VirtualBoxPlugin::new();
    let handlers = VmManageHandlers {
        create_vm: ScriptedHandler::Succeed(JsonValue::Int(1)),
        delete_vm: ScriptedHandler::Succeed(JsonValue::Int(2)),
        start_vm: ScriptedHandler::Succeed(JsonValue::Int(3)),
        stop_vm: ScriptedHandler::Succeed(JsonValue::Int(4)),
        get_vm_info: ScriptedHandler::Succeed(JsonValue::Int(5)),
        list_vms: ScriptedHandler::Succeed(JsonValue::Int(6)),
        create_snapshot: ScriptedHandler::Succeed(JsonValue::Int(7)),
    };
    plugin.handlers.register_all_handlers(&mut registry, handlers);
    assert_eq!(registry.list_handlers().len(), 7);
    let key = omni_event_registry::keys::EventKey::new("VirtualBox", "VM_Manage", "list_vms")
        .unwrap();
    let got = registry
        .dispatch_event(&key, &JsonValue::Null, |h: &ScriptedHandler, p: &JsonValue| h.run(p))
        .unwrap();
    assert!(got.deep_eq(&JsonValue::Int(6)));
    assert_eq!(registry.get_provider_features("VirtualBox"), vec!["VM_Manage"]);
}

#[test]
fn provider_registers_nine_operations() {
    let mut registry: EventRegistry<ScriptedHandler> = EventRegistry::new();
    let provider = VirtualBoxProvider::new();
    assert_eq!(provider.name, "omni_vbox_provider");
    assert_eq!(provider.version, "1.0.0");
    let handlers = VmOperationHandlers {
        list: ScriptedHandler::Succeed(JsonValue::Int(0)),
        create: ScriptedHandler::Succeed(JsonValue::Int(1)),
        delete: ScriptedHandler::Succeed(JsonValue::Int(2)),
        start: ScriptedHandler::Succeed(JsonValue::Int(3)),
        stop: ScriptedHandler::Succeed(JsonValue::Int(4)),
        pause: ScriptedHandler::Succeed(JsonValue::Int(5)),
        resume: ScriptedHandler::Succeed(JsonValue::Int(6)),
        reset: ScriptedHandler::Succeed(JsonValue::Int(7)),
        info: ScriptedHandler::Succeed(JsonValue::Int(8)),
    };
    provider.register_operations(&mut registry, handlers);
    let mut listed = registry.list_handlers();
    listed.sort();
    assert_eq!(listed.len(), 9);
    assert!(listed.contains(&"omni_vbox_provider::vm-management::list".to_string()));
    assert!(listed.contains(&"omni_vbox_provider::vm-monitoring::info".to_string()));
    let features = registry.get_provider_features("omni_vbox_provider");
    assert_eq!(features, vec!["vm-management", "vm-control", "vm-monitoring"]);
}

#[test]
fn provider_commands_and_responses() {
    assert_eq!(
        VirtualBoxProvider::provider_command("list", "", ""),
        vec!["list", "vms"]
    );
    assert_eq!(
        VirtualBoxProvider::provider_command("create", "vm1", "Ubuntu_64"),
        vec!["createvm", "--name", "vm1", "--ostype", "Ubuntu_64", "--register"]
    );
    assert_eq!(
        VirtualBoxProvider::provider_command("pause", "vm1", ""),
        vec!["controlvm", "vm1", "pause"]
    );
    assert_eq!(
        VirtualBoxProvider::provider_command("info", "vm1", ""),
        vec!["showvminfo", "vm1", "--machinereadable"]
    );
    let answer = omni_event_registry::provider::action_response("start", "vm1");
    let expected = obj(vec![
        ("action", s("start")),
        ("status", s("success")),
        ("vm_name", s("vm1")),
    ]);
    assert!(answer.deep_eq(&expected));
    match VirtualBoxProvider::read_vboxmanage_output(false, String::new(), "oops") {
        Err(omni_event_registry::provider::VBoxError::VBoxManageFailed(m)) => {
            assert_eq!(m, "VBoxManage failed: oops")
        }
        _ => panic!("expected a failure"),
    }
}

#[test]
fn provider_list_and_info_responses() {
    let listing = omni_event_registry::provider::list_response("\"a\" {1}\n\"b\" {2}\n");
    let expected = obj(vec![
        ("action", s("list")),
        ("count", JsonValue::Int(2)),
        ("status", s("success")),
        (
            "vms",
            JsonValue::Arr(vec![s("\"a\" {1}"), s("\"b\" {2}")]),
        ),
    ]);
    assert!(listing.deep_eq(&expected));
    let info = omni_event_registry::provider::info_response("name=\"x\"\nmemory=64\n", "x");
    let expected_info = obj(vec![
        ("action", s("info")),
        (
            "info",
            obj(vec![("name", s("x")), ("memory", s("64"))]),
        ),
        ("status", s("success")),
        ("vm_name", s("x")),
    ]);
    assert!(info.deep_eq(&expected_info));
}

#[test]
fn builder_registers_validates_and_builds() {
    let mut registry: EventRegistry<ScriptedHandler> = EventRegistry::new();
    let builder = CpiBuilder::new()
        .with_name("acme")
        .with_version("0.9.0")
        .add_feature("compute")
        .add_method(&mut registry, "compute", "run", ScriptedHandler::Echo);
    assert!(builder.validate(&registry).is_ok());
    let plugin = builder.build(&registry).unwrap();
    assert_eq!(plugin.name(), "acme");
    assert_eq!(plugin.version(), "0.9.0");
    assert_eq!(plugin.declared_features(), vec!["compute"]);
}

#[test]
fn builder_validation_fails_for_an_unbacked_feature() {
    let mut registry: EventRegistry<ScriptedHandler> = EventRegistry::new();
    let builder = CpiBuilder::new()
        .with_name("acme")
        .add_feature("compute")
        .add_feature("storage")
        .add_method(&mut registry, "compute", "run", ScriptedHandler::Echo);
    match builder.validate(&registry) {
        Err(m) => assert_eq!(
            m,
            "Execution failed: Provider 'acme' declared feature 'storage' but no handlers registered"
        ),
        Ok(()) => panic!("expected a validation failure"),
    }
    assert!(builder.build(&registry).is_err());
}

#[test]
fn feature_documents_describe_the_operations() {
    let list_doc = VmManagementFeature::list_operation_spec();
    assert_eq!(
        list_doc.get("name").and_then(|f| f.as_str()).map(|x| x.as_str()),
        Some("list")
    );
    let create_doc = VmManagementFeature::create_operation_spec();
    let params = create_doc.get("parameters").unwrap();
    let os_type = params.get("os_type").unwrap();
    assert_eq!(
        os_type.get("default").and_then(|f| f.as_str()).map(|x| x.as_str()),
        Some("Ubuntu_64")
    );
    assert_eq!(os_type.get("required").and_then(|f| f.as_bool()), Some(false));
    let delete_doc = VmManagementFeature::delete_operation_spec();
    assert_eq!(
        delete_doc.get("description").and_then(|f| f.as_str()).map(|x| x.as_str()),
        Some("Delete a virtual machine")
    );
}

#[test]
fn events_and_value_refs() {
    let done = EventManager::completion_event(
        "req-1".to_string(),
        Ok(JsonValue::Int(5)),
        12,
    );
    assert_eq!(done.request_id, "req-1");
    assert_eq!(done.execution_time_ms, 12);
    assert!(matches!(done.result, Ok(JsonValue::Int(5))));
    assert_eq!(EventManager::elapsed_ms(10, 25), 15);
    assert_eq!(EventManager::elapsed_ms(25, 10), 0);
    let value_ref: ValueRef<u32> = ValueRef::new("pool-key");
    assert_eq!(value_ref.key, "pool-key");
    let arg = TypedArg::new("count", value_ref);
    assert_eq!(arg.name, "count");
    assert_eq!(arg.value_ref.key, "pool-key");
    let err = omni_event_registry::feature::FeatureError::TypeMismatch {
        expected: "u32".to_string(),
        actual: "string".to_string(),
    };
    assert_eq!(err.message(), "Type mismatch: expected u32, got string");
}

#[test]
fn provider_plans_its_operations_from_payloads() {
    assert_eq!(
        VirtualBoxProvider::plan_operation("list", &obj(vec![]), false),
        Err("VBoxManage not available".to_string())
    );
    assert_eq!(
        VirtualBoxProvider::plan_operation("list", &obj(vec![]), true),
        Ok(vec!["list".to_string(), "vms".to_string()])
    );
    assert_eq!(
        VirtualBoxProvider::plan_operation("create", &obj(vec![]), true),
        Ok(vec![
            "createvm".to_string(),
            "--name".to_string(),
            "new-vm".to_string(),
            "--ostype".to_string(),
            "Ubuntu_64".to_string(),
            "--register".to_string(),
        ])
    );
    let named = obj(vec![("name", s("vm9")), ("os_type", s("Debian_64"))]);
    assert_eq!(
        VirtualBoxProvider::plan_operation("create", &named, true),
        Ok(vec![
            "createvm".to_string(),
            "--name".to_string(),
            "vm9".to_string(),
            "--ostype".to_string(),
            "Debian_64".to_string(),
            "--register".to_string(),
        ])
    );
    assert_eq!(
        VirtualBoxProvider::plan_operation("delete", &obj(vec![]), true),
        Err("VM name is required for delete operation".to_string())
    );
    assert_eq!(
        VirtualBoxProvider::plan_operation("delete", &obj(vec![("name", s("vm9"))]), true),
        Ok(vec!["unregistervm".to_string(), "vm9".to_string(), "--delete".to_string()])
    );
    assert_eq!(
        VirtualBoxProvider::plan_operation("start", &obj(vec![]), true),
        Err("VM name is required for start operation".to_string())
    );
    assert_eq!(
        VirtualBoxProvider::plan_operation("start", &obj(vec![("vm_name", s("vm9"))]), true),
        Ok(vec![
            "startvm".to_string(),
            "vm9".to_string(),
            "--type".to_string(),
            "headless".to_string(),
        ])
    );
    let created = omni_event_registry::provider::create_response("vm9", "Debian_64");
    let expected = obj(vec![
        ("action", s("create")),
        ("os_type", s("Debian_64")),
        ("status", s("success")),
        ("vm_name", s("vm9")),
    ]);
    assert!(created.deep_eq(&expected));
}

#[test]
fn plugin_contract_carries_the_built_identity() {
    let registry: EventRegistry<ScriptedHandler> = EventRegistry::new();
    let plugin = CpiBuilder::new()
        .with_name("bare")
        .with_version("2.0")
        .build(&registry)
        .unwrap();
    assert_eq!(plugin.name(), "bare");
    assert_eq!(plugin.version(), "2.0");
    assert!(plugin.declared_features().is_empty());
}
