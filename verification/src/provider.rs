//! The VirtualBox provider: a loadable module's view of the same
//! backend, registering its operations under three features.

use vstd::prelude::*;
use vstd::string::StrSliceExecFns;
use vstd::string::StringExecFns;
use crate::json::JsonMember;
use crate::json::JsonVal;
use crate::json::JsonValue;
use crate::json::spec_str_field;
use crate::keys::canonical_key;
use crate::keys::must_key;
use crate::keys::valid_component;
use crate::registry::EventRegistry;
use crate::vbox_utils::push_field;
use crate::vbox_utils::lemma_spec_lines_len;
use crate::vbox_utils::spec_lines;
use crate::vbox_utils::split_lines;

verus! {

broadcast use
    vstd::std_specs::vec::group_vec_axioms,
    vstd::seq::group_seq_axioms,
    vstd::seq_lib::group_seq_lib_default;

/// VirtualBox provider errors.
#[derive(Debug)]
pub enum VBoxError {
    /// VBoxManage could not be run, or exited with failure.
    VBoxManageFailed(String),
    /// The payload lacks something the operation needs.
    InvalidArguments(String),
    /// A VM operation failed.
    VmOperationFailed(String),
}

impl VBoxError {
    /// The error rendered as one line of text.
    pub fn message(&self) -> (r: String)
        ensures
            r@ == match self {
                VBoxError::VBoxManageFailed(m) => "VBoxManage execution failed: "@ + m@,
                VBoxError::InvalidArguments(m) => "Invalid arguments: "@ + m@,
                VBoxError::VmOperationFailed(m) => "VM operation failed: "@ + m@,
            },
    {
        match self {
            VBoxError::VBoxManageFailed(m) => {
                let mut s = String::from_str("VBoxManage execution failed: ");
                s.append(m.as_str());
                s
            },
            VBoxError::InvalidArguments(m) => {
                let mut s = String::from_str("Invalid arguments: ");
                s.append(m.as_str());
                s
            },
            VBoxError::VmOperationFailed(m) => {
                let mut s = String::from_str("VM operation failed: ");
                s.append(m.as_str());
                s
            },
        }
    }
}

/// The canonical key of one of this provider's operations.
pub open spec fn provider_key(feature: Seq<char>, method: Seq<char>) -> Seq<char> {
    canonical_key("omni_vbox_provider"@, feature, method)
}

/// One handler per operation the provider registers.
pub struct VmOperationHandlers<H> {
    pub list: H,
    pub create: H,
    pub delete: H,
    pub start: H,
    pub stop: H,
    pub pause: H,
    pub resume: H,
    pub reset: H,
    pub info: H,
}

/// The VirtualBox provider: carries its name and version and
/// registers one handler per operation.
pub struct VirtualBoxProvider {
    pub name: String,
    pub version: String,
}

proof fn provider_literals_valid()
    ensures
        valid_component("omni_vbox_provider"@),
        valid_component("vm-management"@),
        valid_component("vm-control"@),
        valid_component("vm-monitoring"@),
        valid_component("list"@),
        valid_component("create"@),
        valid_component("delete"@),
        valid_component("start"@),
        valid_component("stop"@),
        valid_component("pause"@),
        valid_component("resume"@),
        valid_component("reset"@),
        valid_component("info"@),
{
    reveal_strlit("omni_vbox_provider");
    reveal_strlit("vm-management");
    reveal_strlit("vm-control");
    reveal_strlit("vm-monitoring");
    reveal_strlit("list");
    reveal_strlit("create");
    reveal_strlit("delete");
    reveal_strlit("start");
    reveal_strlit("stop");
    reveal_strlit("pause");
    reveal_strlit("resume");
    reveal_strlit("reset");
    reveal_strlit("info");
}

impl VirtualBoxProvider {
    /// The provider under its fixed name and version.
    pub fn new() -> (r: VirtualBoxProvider)
        ensures
            r.name@ == "omni_vbox_provider"@,
            r.version@ == "1.0.0"@,
    {
        VirtualBoxProvider {
            name: String::from_str("omni_vbox_provider"),
            version: String::from_str("1.0.0"),
        }
    }

    /// Registers the provider's nine operations: three under
    /// `vm-management`, five under `vm-control`, one under
    /// `vm-monitoring`, in a fixed order. No other key or provider
    /// changes.
    pub fn register_operations<H>(
        &self,
        registry: &mut EventRegistry<H>,
        handlers: VmOperationHandlers<H>,
    )
        requires
            old(registry).wf(),
        ensures
            final(registry).wf(),
            final(registry).handler_map() == old(registry).handler_map().insert(
                provider_key("vm-management"@, "list"@),
                handlers.list,
            ).insert(provider_key("vm-management"@, "create"@), handlers.create).insert(
                provider_key("vm-management"@, "delete"@),
                handlers.delete,
            ).insert(provider_key("vm-control"@, "start"@), handlers.start).insert(
                provider_key("vm-control"@, "stop"@),
                handlers.stop,
            ).insert(provider_key("vm-control"@, "pause"@), handlers.pause).insert(
                provider_key("vm-control"@, "resume"@),
                handlers.resume,
            ).insert(provider_key("vm-control"@, "reset"@), handlers.reset).insert(
                provider_key("vm-monitoring"@, "info"@),
                handlers.info,
            ),
            final(registry).features_of("omni_vbox_provider"@) == old(registry).features_of(
                "omni_vbox_provider"@,
            ).push("vm-management"@).push("vm-management"@).push("vm-management"@).push(
                "vm-control"@,
            ).push("vm-control"@).push("vm-control"@).push("vm-control"@).push("vm-control"@).push(
                "vm-monitoring"@,
            ),
            forall|p: Seq<char>|
                p != "omni_vbox_provider"@ ==> final(registry).features_of(p) == old(
                    registry,
                ).features_of(p),
    {
        proof {
            provider_literals_valid();
        }
        let VmOperationHandlers { list, create, delete, start, stop, pause, resume, reset, info } =
            handlers;
        let p = "omni_vbox_provider";
        registry.register_handler(&must_key(p, "vm-management", "list"), list);
        registry.register_handler(&must_key(p, "vm-management", "create"), create);
        registry.register_handler(&must_key(p, "vm-management", "delete"), delete);
        registry.register_handler(&must_key(p, "vm-control", "start"), start);
        registry.register_handler(&must_key(p, "vm-control", "stop"), stop);
        registry.register_handler(&must_key(p, "vm-control", "pause"), pause);
        registry.register_handler(&must_key(p, "vm-control", "resume"), resume);
        registry.register_handler(&must_key(p, "vm-control", "reset"), reset);
        registry.register_handler(&must_key(p, "vm-monitoring", "info"), info);
    }

    /// Reads one VBoxManage run's outcome: success yields the
    /// standard output, failure the error output wrapped with the
    /// provider's prefix.
    pub fn read_vboxmanage_output(success: bool, stdout: String, stderr: &str) -> (r: Result<
        String,
        VBoxError,
    >)
        ensures
            success ==> (r matches Ok(out) && out@ == stdout@),
            !success ==> (r matches Err(e) && (e matches VBoxError::VBoxManageFailed(m) && m@
                == "VBoxManage failed: "@ + stderr@)),
    {
        if success {
            Ok(stdout)
        } else {
            let mut msg = String::from_str("VBoxManage failed: ");
            msg.append(stderr);
            Err(VBoxError::VBoxManageFailed(msg))
        }
    }
}

/// The answer of a simple provider action: the action's name, a
/// success mark, and the VM it acted on.
pub open spec fn spec_action_response(action: Seq<char>, vm_name: Seq<char>) -> JsonVal {
    JsonVal::Obj(
        seq![
            ("action"@, JsonVal::Str(action)),
            ("status"@, JsonVal::Str("success"@)),
            ("vm_name"@, JsonVal::Str(vm_name)),
        ],
    )
}

/// Builds the answer of a simple provider action.
pub fn action_response(action: &str, vm_name: &str) -> (r: JsonValue)
    ensures
        r@ == spec_action_response(action@, vm_name@),
{
    let mut fields: Vec<JsonMember> = Vec::new();
    push_field(&mut fields, "action", JsonValue::Str(action.to_owned()));
    push_field(&mut fields, "status", JsonValue::Str(String::from_str("success")));
    push_field(&mut fields, "vm_name", JsonValue::Str(vm_name.to_owned()));
    let r = JsonValue::Obj(fields);
    proof {
        assert(r@->Obj_0 =~= spec_action_response(action@, vm_name@)->Obj_0);
    }
    r
}

/// The answer of a listing: the raw output lines and their count.
pub open spec fn spec_list_response(output: Seq<char>) -> JsonVal {
    let lines = spec_lines(output);
    JsonVal::Obj(
        seq![
            ("action"@, JsonVal::Str("list"@)),
            ("count"@, JsonVal::Int(lines.len() as int)),
            ("status"@, JsonVal::Str("success"@)),
            (
                "vms"@,
                JsonVal::Arr(Seq::new(lines.len(), |i: int| JsonVal::Str(lines[i]))),
            ),
        ],
    )
}

/// Builds the answer of a listing from the raw VBoxManage output.
pub fn list_response(output: &str) -> (r: JsonValue)
    requires
        output@.len() < 9223372036854775807,
    ensures
        r@ == spec_list_response(output@),
{
    let lines = split_lines(output);
    let ghost glines = spec_lines(output@);
    proof {
        crate::vbox_utils::lemma_spec_lines_len(output@);
    }
    let count = lines.len() as i64;
    let mut items: Vec<JsonValue> = Vec::new();
    let total = lines.len();
    let mut i: usize = 0;
    while i < total
        invariant
            i <= total,
            total == lines@.len(),
            total <= i64::MAX,
            lines.deep_view() == glines,
            items@.len() == i,
            crate::json::arr_view(items@) =~= Seq::new(i as nat, |j: int| JsonVal::Str(glines[j])),
        decreases total - i,
    {
        let ghost pre = items@;
        items.push(JsonValue::Str(lines[i].clone()));
        proof {
            crate::json::arr_view_len(items@);
            assert forall|j: int| 0 <= j <= i implies #[trigger] crate::json::arr_view(items@)[j]
                == JsonVal::Str(glines[j]) by {
                crate::json::arr_view_index(items@, j);
                if j < i {
                    crate::json::arr_view_index(pre, j);
                }
            }
            assert(crate::json::arr_view(items@) =~= Seq::new(
                (i + 1) as nat,
                |j: int| JsonVal::Str(glines[j]),
            ));
        }
        i += 1;
    }
    let ghost gitems = crate::json::arr_view(items@);
    let mut fields: Vec<JsonMember> = Vec::new();
    push_field(&mut fields, "action", JsonValue::Str(String::from_str("list")));
    push_field(&mut fields, "count", JsonValue::Int(count));
    push_field(&mut fields, "status", JsonValue::Str(String::from_str("success")));
    push_field(&mut fields, "vms", JsonValue::Arr(items));
    let r = JsonValue::Obj(fields);
    proof {
        assert(r@->Obj_0 =~= spec_list_response(output@)->Obj_0);
    }
    r
}

/// The VBoxManage arguments of each provider operation.
pub open spec fn spec_provider_command(action: Seq<char>, vm_name: Seq<char>, os_type: Seq<char>) -> Seq<Seq<char>> {
    if action == "list"@ {
        seq!["list"@, "vms"@]
    } else if action == "create"@ {
        seq!["createvm"@, "--name"@, vm_name, "--ostype"@, os_type, "--register"@]
    } else if action == "delete"@ {
        seq!["unregistervm"@, vm_name, "--delete"@]
    } else if action == "start"@ {
        seq!["startvm"@, vm_name, "--type"@, "headless"@]
    } else if action == "stop"@ {
        seq!["controlvm"@, vm_name, "poweroff"@]
    } else if action == "pause"@ {
        seq!["controlvm"@, vm_name, "pause"@]
    } else if action == "resume"@ {
        seq!["controlvm"@, vm_name, "resume"@]
    } else if action == "reset"@ {
        seq!["controlvm"@, vm_name, "reset"@]
    } else {
        seq!["showvminfo"@, vm_name, "--machinereadable"@]
    }
}

impl VirtualBoxProvider {
    /// The VBoxManage arguments of one operation: `list` lists the
    /// registered VMs, `create` registers a new one under `os_type`,
    /// `delete` unregisters and deletes, `start` starts headless,
    /// `stop`, `pause`, `resume` and `reset` control a running VM,
    /// and anything else queries machine-readable info.
    pub fn provider_command(action: &str, vm_name: &str, os_type: &str) -> (r: Vec<String>)
        ensures
            r.deep_view() == spec_provider_command(action@, vm_name@, os_type@),
    {
        let mut cmd: Vec<String> = Vec::new();
        if crate::json::str_eq(action, "list") {
            push_cmd_arg(&mut cmd, "list");
            push_cmd_arg(&mut cmd, "vms");
        } else if crate::json::str_eq(action, "create") {
            push_cmd_arg(&mut cmd, "createvm");
            push_cmd_arg(&mut cmd, "--name");
            push_cmd_arg(&mut cmd, vm_name);
            push_cmd_arg(&mut cmd, "--ostype");
            push_cmd_arg(&mut cmd, os_type);
            push_cmd_arg(&mut cmd, "--register");
        } else if crate::json::str_eq(action, "delete") {
            push_cmd_arg(&mut cmd, "unregistervm");
            push_cmd_arg(&mut cmd, vm_name);
            push_cmd_arg(&mut cmd, "--delete");
        } else if crate::json::str_eq(action, "start") {
            push_cmd_arg(&mut cmd, "startvm");
            push_cmd_arg(&mut cmd, vm_name);
            push_cmd_arg(&mut cmd, "--type");
            push_cmd_arg(&mut cmd, "headless");
        } else if crate::json::str_eq(action, "stop") {
            push_cmd_arg(&mut cmd, "controlvm");
            push_cmd_arg(&mut cmd, vm_name);
            push_cmd_arg(&mut cmd, "poweroff");
        } else if crate::json::str_eq(action, "pause") {
            push_cmd_arg(&mut cmd, "controlvm");
            push_cmd_arg(&mut cmd, vm_name);
            push_cmd_arg(&mut cmd, "pause");
        } else if crate::json::str_eq(action, "resume") {
            push_cmd_arg(&mut cmd, "controlvm");
            push_cmd_arg(&mut cmd, vm_name);
            push_cmd_arg(&mut cmd, "resume");
        } else if crate::json::str_eq(action, "reset") {
            push_cmd_arg(&mut cmd, "controlvm");
            push_cmd_arg(&mut cmd, vm_name);
            push_cmd_arg(&mut cmd, "reset");
        } else {
            push_cmd_arg(&mut cmd, "showvminfo");
            push_cmd_arg(&mut cmd, vm_name);
            push_cmd_arg(&mut cmd, "--machinereadable");
        }
        proof {
            assert(cmd.deep_view() =~= spec_provider_command(action@, vm_name@, os_type@));
        }
        cmd
    }
}

/// Pushes one borrowed text onto a command.
fn push_cmd_arg(cmd: &mut Vec<String>, arg: &str)
    ensures
        final(cmd).deep_view() == old(cmd).deep_view().push(arg@),
{
    let ghost pre = cmd.deep_view();
    cmd.push(arg.to_owned());
    proof {
        assert(cmd.deep_view() =~= pre.push(arg@));
    }
}

/// The info fields read from machine-readable output: one entry per
/// `key=value` line, in line order, values unquoted.
pub open spec fn info_fields_fold(lines: Seq<Seq<char>>) -> Seq<(Seq<char>, JsonVal)>
    decreases lines.len(),
{
    if lines.len() == 0 {
        Seq::empty()
    } else {
        let prev = info_fields_fold(lines.drop_last());
        let line = lines.last();
        match crate::vbox_utils::first_index(line, '=') {
            None => prev,
            Some(ix) => prev.push(
                (line.take(ix), JsonVal::Str(crate::vbox_utils::spec_trim_quotes(line.skip(ix + 1)))),
            ),
        }
    }
}

/// The answer of an info query: the action, the raw fields in line
/// order, a success mark, and the VM's name.
pub open spec fn spec_info_response(output: Seq<char>, vm_name: Seq<char>) -> JsonVal {
    JsonVal::Obj(
        seq![
            ("action"@, JsonVal::Str("info"@)),
            ("info"@, JsonVal::Obj(info_fields_fold(spec_lines(output)))),
            ("status"@, JsonVal::Str("success"@)),
            ("vm_name"@, JsonVal::Str(vm_name)),
        ],
    )
}

/// Builds the answer of an info query from the raw output.
pub fn info_response(output: &str, vm_name: &str) -> (r: JsonValue)
    ensures
        r@ == spec_info_response(output@, vm_name@),
{
    let lines = split_lines(output);
    let ghost glines = spec_lines(output@);
    proof {
        assert(glines.take(0) =~= Seq::<Seq<char>>::empty());
    }
    let mut info_fields: Vec<JsonMember> = Vec::new();
    let total = lines.len();
    let mut i: usize = 0;
    while i < total
        invariant
            i <= total,
            total == lines@.len(),
            lines.deep_view() == glines,
            crate::json::obj_view(info_fields@) == info_fields_fold(glines.take(i as int)),
        decreases total - i,
    {
        let line = &lines[i];
        proof {
            assert(glines.take(i as int + 1).drop_last() =~= glines.take(i as int));
            assert(glines.take(i as int + 1).last() == glines[i as int]);
            assert(glines[i as int] == lines@[i as int]@);
        }
        match crate::vbox_utils::find_char(line.as_str(), '=') {
            None => {},
            Some(ix) => {
                let llen = line.as_str().unicode_len();
                let key = line.as_str().substring_char(0, ix).to_owned();
                let value = crate::vbox_utils::trim_quotes(
                    line.as_str().substring_char(ix + 1, llen),
                );
                proof {
                    assert(key@ =~= line@.take(ix as int));
                    assert(line@.subrange(ix as int + 1, llen as int) =~= line@.skip(ix as int + 1));
                }
                push_field(&mut info_fields, key.as_str(), JsonValue::Str(value));
            },
        }
        i += 1;
    }
    proof {
        assert(glines.take(total as int) =~= glines);
    }
    let mut fields: Vec<JsonMember> = Vec::new();
    push_field(&mut fields, "action", JsonValue::Str(String::from_str("info")));
    push_field(&mut fields, "info", JsonValue::Obj(info_fields));
    push_field(&mut fields, "status", JsonValue::Str(String::from_str("success")));
    push_field(&mut fields, "vm_name", JsonValue::Str(vm_name.to_owned()));
    let r = JsonValue::Obj(fields);
    proof {
        assert(r@->Obj_0 =~= spec_info_response(output@, vm_name@)->Obj_0);
    }
    r
}

/// The message a provider operation gives for a payload that does
/// not name the VM.
pub open spec fn required_name_text(action: Seq<char>) -> Seq<char> {
    "VM name is required for "@ + action + " operation"@
}

/// The provider's answer when the backend tool is absent.
pub open spec fn vbox_unavailable_text() -> Seq<char> {
    "VBoxManage not available"@
}

/// A string argument of a provider payload, or its default.
pub open spec fn spec_payload_str_or(a: JsonVal, name: Seq<char>, d: Seq<char>) -> Seq<char> {
    match spec_str_field(a, name) {
        Some(s) => s,
        None => d,
    }
}

/// The planning outcome is this command.
pub open spec fn provider_plan_ok(r: Result<Seq<Seq<char>>, Seq<char>>, cmd: Seq<Seq<char>>) -> bool {
    r == Ok::<Seq<Seq<char>>, Seq<char>>(cmd)
}

/// The planning outcome is this error text.
pub open spec fn provider_plan_err(r: Result<Seq<Seq<char>>, Seq<char>>, e: Seq<char>) -> bool {
    r == Err::<Seq<Seq<char>>, Seq<char>>(e)
}

/// What one provider operation decides from its payload. With the
/// backend tool absent every operation fails with one message. A
/// listing needs no arguments. Creation reads `name` (default
/// `new-vm`) and `os_type` (default `Ubuntu_64`). Deletion requires a
/// string `name`; every other operation requires a string `vm_name`;
/// a payload without it fails with a message naming the operation.
pub open spec fn spec_provider_plan(action: Seq<char>, a: JsonVal, vbox_available: bool) -> Result<
    Seq<Seq<char>>,
    Seq<char>,
> {
    if !vbox_available {
        Err(vbox_unavailable_text())
    } else if action == "list"@ {
        Ok(spec_provider_command("list"@, Seq::empty(), Seq::empty()))
    } else if action == "create"@ {
        let vm_name = spec_payload_str_or(a, "name"@, "new-vm"@);
        let os_type = spec_payload_str_or(a, "os_type"@, "Ubuntu_64"@);
        Ok(spec_provider_command("create"@, vm_name, os_type))
    } else if action == "delete"@ {
        match spec_str_field(a, "name"@) {
            Some(vm_name) => Ok(spec_provider_command("delete"@, vm_name, Seq::empty())),
            None => Err(required_name_text(action)),
        }
    } else {
        match spec_str_field(a, "vm_name"@) {
            Some(vm_name) => Ok(spec_provider_command(action, vm_name, Seq::empty())),
            None => Err(required_name_text(action)),
        }
    }
}

/// The answer of a creation: the action, the OS type used, a success
/// mark and the VM's name.
pub open spec fn spec_create_response(vm_name: Seq<char>, os_type: Seq<char>) -> JsonVal {
    JsonVal::Obj(
        seq![
            ("action"@, JsonVal::Str("create"@)),
            ("os_type"@, JsonVal::Str(os_type)),
            ("status"@, JsonVal::Str("success"@)),
            ("vm_name"@, JsonVal::Str(vm_name)),
        ],
    )
}

/// Builds the answer of a creation.
pub fn create_response(vm_name: &str, os_type: &str) -> (r: JsonValue)
    ensures
        r@ == spec_create_response(vm_name@, os_type@),
{
    let mut fields: Vec<JsonMember> = Vec::new();
    push_field(&mut fields, "action", JsonValue::Str(String::from_str("create")));
    push_field(&mut fields, "os_type", JsonValue::Str(os_type.to_owned()));
    push_field(&mut fields, "status", JsonValue::Str(String::from_str("success")));
    push_field(&mut fields, "vm_name", JsonValue::Str(vm_name.to_owned()));
    let r = JsonValue::Obj(fields);
    proof {
        assert(r@->Obj_0 =~= spec_create_response(vm_name@, os_type@)->Obj_0);
    }
    r
}

impl VirtualBoxProvider {
    /// Reads one operation's payload and plans its VBoxManage
    /// arguments, as [`spec_provider_plan`] describes.
    pub fn plan_operation(action: &str, payload: &JsonValue, vbox_available: bool) -> (r: Result<
        Vec<String>,
        String,
    >)
        ensures
            match r {
                Ok(cmd) => provider_plan_ok(
                    spec_provider_plan(action@, payload@, vbox_available),
                    cmd.deep_view(),
                ),
                Err(e) => provider_plan_err(
                    spec_provider_plan(action@, payload@, vbox_available),
                    e@,
                ),
            },
    {
        if !vbox_available {
            return Err(String::from_str("VBoxManage not available"));
        }
        if crate::json::str_eq(action, "list") {
            return Ok(Self::provider_command("list", "", ""));
        }
        if crate::json::str_eq(action, "create") {
            let vm_name = match payload.str_field("name") {
                Some(s) => s,
                None => String::from_str("new-vm"),
            };
            let os_type = match payload.str_field("os_type") {
                Some(s) => s,
                None => String::from_str("Ubuntu_64"),
            };
            return Ok(Self::provider_command("create", vm_name.as_str(), os_type.as_str()));
        }
        let field = if crate::json::str_eq(action, "delete") {
            "name"
        } else {
            "vm_name"
        };
        match payload.str_field(field) {
            Some(vm_name) => Ok(Self::provider_command(action, vm_name.as_str(), "")),
            None => {
                let mut msg = String::from_str("VM name is required for ");
                msg.append(action);
                msg.append(" operation");
                proof {
                    assert(msg@ =~= required_name_text(action@));
                }
                Err(msg)
            },
        }
    }
}

} // verus!
