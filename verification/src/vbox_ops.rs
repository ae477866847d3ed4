//! VM operations of the VirtualBox plugin.
//!
//! Each operation reads its arguments from a JSON payload, validates
//! them, and plans the VBoxManage invocations to run together with
//! the JSON answer; running the invocations is the host's part.

use vstd::prelude::*;
use vstd::string::StringExecFns;
use crate::json::JsonVal;
use crate::json::JsonValue;
use crate::json::spec_bool_field;
use crate::json::spec_int_field;
use crate::json::spec_str_field;
use crate::vbox_config::VirtualBoxConfig;
use crate::vbox_error::VBoxErrVal;
use crate::vbox_error::VBoxError;
use crate::vbox_error::VBoxResult;
use crate::vbox_error::spec_message;
use crate::vbox_utils::VBoxUtils;
use crate::vbox_utils::cpu_count_valid;
use crate::vbox_utils::cpu_err_text;
use crate::vbox_utils::memory_err_text;
use crate::vbox_utils::memory_mb_valid;
use crate::vbox_utils::push_field;
use crate::vbox_utils::spec_dec;
use crate::vbox_utils::spec_network_args;
use crate::vbox_utils::spec_vm_list;
use crate::vbox_utils::u64_to_string;
use crate::vbox_utils::vm_name_err_text;
use crate::vbox_utils::vm_name_valid;

verus! {

broadcast use
    vstd::std_specs::vec::group_vec_axioms,
    vstd::seq::group_seq_axioms,
    vstd::seq_lib::group_seq_lib_default;


/// The planning outcome is this success.
pub open spec fn plan_ok(
    r: Result<(Seq<Seq<Seq<char>>>, JsonVal), VBoxErrVal>,
    cmds: Seq<Seq<Seq<char>>>,
    resp: JsonVal,
) -> bool {
    r == Ok::<(Seq<Seq<Seq<char>>>, JsonVal), VBoxErrVal>((cmds, resp))
}

/// The planning outcome is this failure.
pub open spec fn plan_err(r: Result<(Seq<Seq<Seq<char>>>, JsonVal), VBoxErrVal>, e: VBoxErrVal) -> bool {
    r == Err::<(Seq<Seq<Seq<char>>>, JsonVal), VBoxErrVal>(e)
}

/// The query-planning outcome is this success.
pub open spec fn query_ok(
    r: Result<(Seq<Seq<char>>, Seq<char>), VBoxErrVal>,
    cmd: Seq<Seq<char>>,
    id: Seq<char>,
) -> bool {
    r == Ok::<(Seq<Seq<char>>, Seq<char>), VBoxErrVal>((cmd, id))
}

/// The query-planning outcome is this failure.
pub open spec fn query_err(r: Result<(Seq<Seq<char>>, Seq<char>), VBoxErrVal>, e: VBoxErrVal) -> bool {
    r == Err::<(Seq<Seq<char>>, Seq<char>), VBoxErrVal>(e)
}

/// The VBoxManage invocations an operation asks for, in order, and
/// the JSON answer to give once they all succeed.
pub struct CommandPlan {
    pub commands: Vec<Vec<String>>,
    pub response: JsonValue,
}

/// A string argument, or its default.
pub open spec fn spec_str_or(a: JsonVal, name: Seq<char>, d: Seq<char>) -> Seq<char> {
    match spec_str_field(a, name) {
        Some(s) => s,
        None => d,
    }
}

/// A boolean argument, or its default.
pub open spec fn spec_bool_or(a: JsonVal, name: Seq<char>, d: bool) -> bool {
    match spec_bool_field(a, name) {
        Some(b) => b,
        None => d,
    }
}

/// An integer argument, or its default.
pub open spec fn spec_int_or(a: JsonVal, name: Seq<char>, d: int) -> int {
    match spec_int_field(a, name) {
        Some(i) => i,
        None => d,
    }
}

/// An integer clamped into u32, as reading a size from a JSON number
/// does.
pub open spec fn sat_u32(i: int) -> u32 {
    if i < 0 {
        0u32
    } else if i > 4294967295 {
        4294967295u32
    } else {
        i as u32
    }
}

/// The commands that create and equip a VM.
pub open spec fn create_vm_commands(
    name: Seq<char>,
    mem: u32,
    cpu: u32,
    disk_gb: u32,
    os_type: Seq<char>,
    net: Seq<char>,
) -> Seq<Seq<Seq<char>>> {
    seq![
        seq!["createvm"@, "--name"@, name, "--ostype"@, os_type, "--register"@],
        seq!["modifyvm"@, name, "--memory"@, spec_dec(mem as int), "--cpus"@, spec_dec(cpu as int)],
        seq!["modifyvm"@, name] + spec_network_args(net),
        seq![
            "storagectl"@,
            name,
            "--name"@,
            "SATA Controller"@,
            "--add"@,
            "sata"@,
            "--controller"@,
            "IntelAhci"@,
        ],
        seq![
            "createhd"@,
            "--filename"@,
            name + ".vdi"@,
            "--size"@,
            spec_dec(disk_gb as int * 1024),
            "--format"@,
            "VDI"@,
        ],
        seq![
            "storageattach"@,
            name,
            "--storagectl"@,
            "SATA Controller"@,
            "--port"@,
            "0"@,
            "--device"@,
            "0"@,
            "--type"@,
            "hdd"@,
            "--medium"@,
            name + ".vdi"@,
        ],
    ]
}

/// The answer a successful creation gives.
pub open spec fn create_vm_response(name: Seq<char>, mem: u32, cpu: u32, disk_gb: u32) -> JsonVal {
    JsonVal::Obj(
        seq![
            ("cpu_count"@, JsonVal::Int(cpu as int)),
            ("disk_size_gb"@, JsonVal::Int(disk_gb as int)),
            ("memory_mb"@, JsonVal::Int(mem as int)),
            ("name"@, JsonVal::Str(name)),
            ("status"@, JsonVal::Str("created"@)),
            ("vm_id"@, JsonVal::Str(name)),
        ],
    )
}

/// What creating a VM does with a payload: reads `name`, `memory_mb`
/// and `cpu_count` (required), `disk_size_gb` (default 20), `os_type`
/// (default `Linux_64`) and `network_adapter` (default `NAT`),
/// validates name, memory and CPU count, and plans the VBoxManage
/// invocations and the answer.
pub open spec fn spec_create_vm(a: JsonVal) -> Result<(Seq<Seq<Seq<char>>>, JsonVal), VBoxErrVal> {
    match spec_str_field(a, "name"@) {
        None => Err(VBoxErrVal::MissingArgument("name"@)),
        Some(name) => match spec_int_field(a, "memory_mb"@) {
            None => Err(VBoxErrVal::MissingArgument("memory_mb"@)),
            Some(mi) => match spec_int_field(a, "cpu_count"@) {
                None => Err(VBoxErrVal::MissingArgument("cpu_count"@)),
                Some(ci) => {
                    let mem = sat_u32(mi);
                    let cpu = sat_u32(ci);
                    let disk = sat_u32(spec_int_or(a, "disk_size_gb"@, 20));
                    let os_type = spec_str_or(a, "os_type"@, "Linux_64"@);
                    let net = spec_str_or(a, "network_adapter"@, "NAT"@);
                    if !vm_name_valid(name) {
                        Err(VBoxErrVal::InvalidArgument(vm_name_err_text(name)))
                    } else if !memory_mb_valid(mem) {
                        Err(VBoxErrVal::InvalidArgument(memory_err_text(mem)))
                    } else if !cpu_count_valid(cpu) {
                        Err(VBoxErrVal::InvalidArgument(cpu_err_text(cpu)))
                    } else {
                        Ok(
                            (
                                create_vm_commands(name, mem, cpu, disk, os_type, net),
                                create_vm_response(name, mem, cpu, disk),
                            ),
                        )
                    }
                },
            },
        },
    }
}

/// What deleting a VM does with a payload: reads `vm_id` (required)
/// and `delete_files` (default true), and plans a power-off followed
/// by the unregistration. The power-off may fail for a VM that is not
/// running; the host ignores its outcome and pauses briefly before
/// unregistering.
pub open spec fn spec_delete_vm(a: JsonVal) -> Result<(Seq<Seq<Seq<char>>>, JsonVal), VBoxErrVal> {
    match spec_str_field(a, "vm_id"@) {
        None => Err(VBoxErrVal::MissingArgument("vm_id"@)),
        Some(id) => {
            let unregister = if spec_bool_or(a, "delete_files"@, true) {
                seq!["unregistervm"@, id, "--delete"@]
            } else {
                seq!["unregistervm"@, id]
            };
            Ok((seq![seq!["controlvm"@, id, "poweroff"@], unregister], JsonVal::Bool(true)))
        },
    }
}

/// What starting a VM does with a payload: reads `vm_id` (required)
/// and `headless` (default false), and plans the start and the
/// answer, stamped with the given start time.
pub open spec fn spec_start_vm(a: JsonVal, started_at: Seq<char>) -> Result<
    (Seq<Seq<Seq<char>>>, JsonVal),
    VBoxErrVal,
> {
    match spec_str_field(a, "vm_id"@) {
        None => Err(VBoxErrVal::MissingArgument("vm_id"@)),
        Some(id) => {
            let mode = if spec_bool_or(a, "headless"@, false) {
                "headless"@
            } else {
                "gui"@
            };
            Ok(
                (
                    seq![seq!["startvm"@, id, "--type"@, mode]],
                    JsonVal::Obj(
                        seq![
                            ("started_at"@, JsonVal::Str(started_at)),
                            ("status"@, JsonVal::Str("running"@)),
                            ("vm_id"@, JsonVal::Str(id)),
                        ],
                    ),
                ),
            )
        },
    }
}

/// What stopping a VM does with a payload: reads `vm_id` (required)
/// and `force` (default false); a forced stop powers the VM off, an
/// ordinary stop presses the ACPI power button.
pub open spec fn spec_stop_vm(a: JsonVal, stopped_at: Seq<char>) -> Result<
    (Seq<Seq<Seq<char>>>, JsonVal),
    VBoxErrVal,
> {
    match spec_str_field(a, "vm_id"@) {
        None => Err(VBoxErrVal::MissingArgument("vm_id"@)),
        Some(id) => {
            let cmd = if spec_bool_or(a, "force"@, false) {
                "poweroff"@
            } else {
                "acpipowerbutton"@
            };
            Ok(
                (
                    seq![seq!["controlvm"@, id, cmd]],
                    JsonVal::Obj(
                        seq![
                            ("status"@, JsonVal::Str("stopped"@)),
                            ("stopped_at"@, JsonVal::Str(stopped_at)),
                            ("vm_id"@, JsonVal::Str(id)),
                        ],
                    ),
                ),
            )
        },
    }
}

/// What a VM info query does with a payload: reads `vm_id` (required)
/// and plans the machine-readable info query; the output is read by
/// [`VBoxUtils::parse_vm_info`] with the same id.
pub open spec fn spec_get_vm_info(a: JsonVal) -> Result<(Seq<Seq<char>>, Seq<char>), VBoxErrVal> {
    match spec_str_field(a, "vm_id"@) {
        None => Err(VBoxErrVal::MissingArgument("vm_id"@)),
        Some(id) => Ok((seq!["showvminfo"@, id, "--machinereadable"@], id)),
    }
}

/// What a VM listing does with a payload: reads `include_running_only`
/// (default false) and plans the listing command; the output is read
/// by [`VBoxOperations::list_vms_response`].
pub open spec fn spec_list_vms_command(a: JsonVal) -> Seq<Seq<char>> {
    if spec_bool_or(a, "include_running_only"@, false) {
        seq!["list"@, "runningvms"@]
    } else {
        seq!["list"@, "vms"@]
    }
}

/// What taking a snapshot does with a payload: reads `vm_id` and
/// `snapshot_name` (required) and `description` (default empty, and
/// passed on only when non-empty), and plans the snapshot and the
/// answer, stamped with the given creation time.
pub open spec fn spec_create_snapshot(a: JsonVal, created_at: Seq<char>) -> Result<
    (Seq<Seq<Seq<char>>>, JsonVal),
    VBoxErrVal,
> {
    match spec_str_field(a, "vm_id"@) {
        None => Err(VBoxErrVal::MissingArgument("vm_id"@)),
        Some(id) => match spec_str_field(a, "snapshot_name"@) {
            None => Err(VBoxErrVal::MissingArgument("snapshot_name"@)),
            Some(snap) => {
                let desc = spec_str_or(a, "description"@, ""@);
                let base = seq!["snapshot"@, id, "take"@, snap];
                let cmd = if desc.len() > 0 {
                    base + seq!["--description"@, desc]
                } else {
                    base
                };
                Ok(
                    (
                        seq![cmd],
                        JsonVal::Obj(
                            seq![
                                ("created_at"@, JsonVal::Str(created_at)),
                                ("snapshot_id"@, JsonVal::Str(id + "_"@ + snap)),
                                ("snapshot_name"@, JsonVal::Str(snap)),
                                ("vm_id"@, JsonVal::Str(id)),
                            ],
                        ),
                    ),
                )
            },
        },
    }
}

/// Plans and reads VBoxManage work for one configuration.
pub struct VBoxOperations {
    pub config: VirtualBoxConfig,
}

/// A required string argument, or the error naming it.
fn req_str(args: &JsonValue, name: &str) -> (r: Result<String, VBoxError>)
    ensures
        match r {
            Ok(s) => spec_str_field(args@, name@) == Some(s@),
            Err(e) => spec_str_field(args@, name@) is None && e@ == VBoxErrVal::MissingArgument(
                name@,
            ),
        },
{
    match args.str_field(name) {
        Some(s) => Ok(s),
        None => Err(VBoxError::MissingArgument(name.to_owned())),
    }
}

/// A required integer argument, or the error naming it.
fn req_int(args: &JsonValue, name: &str) -> (r: Result<i64, VBoxError>)
    ensures
        match r {
            Ok(i) => spec_int_field(args@, name@) == Some(i as int),
            Err(e) => spec_int_field(args@, name@) is None && e@ == VBoxErrVal::MissingArgument(
                name@,
            ),
        },
{
    match args.int_field(name) {
        Some(i) => Ok(i),
        None => Err(VBoxError::MissingArgument(name.to_owned())),
    }
}

/// A string argument with a default.
fn str_or(args: &JsonValue, name: &str, default: &str) -> (r: String)
    ensures
        r@ == spec_str_or(args@, name@, default@),
{
    match args.str_field(name) {
        Some(s) => s,
        None => default.to_owned(),
    }
}

/// A boolean argument with a default.
fn bool_or(args: &JsonValue, name: &str, default: bool) -> (r: bool)
    ensures
        r == spec_bool_or(args@, name@, default),
{
    match args.bool_field(name) {
        Some(b) => b,
        None => default,
    }
}

/// An integer argument with a default.
fn int_or(args: &JsonValue, name: &str, default: i64) -> (r: i64)
    ensures
        r as int == spec_int_or(args@, name@, default as int),
{
    match args.int_field(name) {
        Some(i) => i,
        None => default,
    }
}

/// Clamps a JSON number into u32, as the sizes are read.
fn clamp_u32(v: i64) -> (r: u32)
    ensures
        r == sat_u32(v as int),
{
    if v < 0 {
        0
    } else if v > 4294967295i64 {
        4294967295u32
    } else {
        v as u32
    }
}

/// Pushes one borrowed text onto a command.
fn push_arg(cmd: &mut Vec<String>, arg: &str)
    ensures
        final(cmd)@.len() == old(cmd)@.len() + 1,
        final(cmd).deep_view() == old(cmd).deep_view().push(arg@),
{
    let ghost pre = cmd.deep_view();
    cmd.push(arg.to_owned());
    proof {
        assert(cmd.deep_view() =~= pre.push(arg@));
    }
}

/// Pushes one owned text onto a command.
fn push_arg_owned(cmd: &mut Vec<String>, arg: String)
    ensures
        final(cmd)@.len() == old(cmd)@.len() + 1,
        final(cmd).deep_view() == old(cmd).deep_view().push(arg@),
{
    let ghost pre = cmd.deep_view();
    let ghost ga = arg@;
    cmd.push(arg);
    proof {
        assert(cmd.deep_view() =~= pre.push(ga));
    }
}

/// Pushes one command onto a plan.
fn push_command(commands: &mut Vec<Vec<String>>, cmd: Vec<String>)
    ensures
        final(commands).deep_view() == old(commands).deep_view().push(cmd.deep_view()),
{
    let ghost pre = commands.deep_view();
    let ghost gc = cmd.deep_view();
    commands.push(cmd);
    proof {
        assert(commands.deep_view() =~= pre.push(gc));
    }
}

impl VBoxOperations {
    /// Operations against this configuration.
    pub fn new(config: VirtualBoxConfig) -> (r: VBoxOperations)
        ensures
            r.config == config,
    {
        VBoxOperations { config }
    }

    /// The command that checks the installation: a bare version query.
    pub fn verify_installation_command(&self) -> (r: Vec<String>)
        ensures
            r.deep_view() == seq!["--version"@],
    {
        let mut cmd: Vec<String> = Vec::new();
        push_arg(&mut cmd, "--version");
        proof {
            assert(cmd.deep_view() =~= seq!["--version"@]);
        }
        cmd
    }

    /// Reads the outcome of the installation check: any failure means
    /// VirtualBox is not usable, reported as `NotInstalled` with the
    /// underlying message.
    pub fn verify_installation_result(outcome: &VBoxResult<String>) -> (r: VBoxResult<()>)
        ensures
            match outcome {
                Ok(_) => r is Ok,
                Err(e) => r matches Err(e2) && e2@ == VBoxErrVal::NotInstalled(
                    "VBoxManage not found or not working: "@ + spec_message(e@),
                ),
            },
    {
        match outcome {
            Ok(_) => Ok(()),
            Err(e) => {
                let mut msg = String::from_str("VBoxManage not found or not working: ");
                msg.append(e.message().as_str());
                Err(VBoxError::NotInstalled(msg))
            },
        }
    }

    /// Plans the creation of a VM.
    pub fn create_vm(&self, args: &JsonValue) -> (r: Result<CommandPlan, VBoxError>)
        ensures
            match r {
                Ok(plan) => plan_ok(spec_create_vm(args@), plan.commands.deep_view(), plan.response@),
                Err(e) => plan_err(spec_create_vm(args@), e@),
            },
    {
        let name = match req_str(args, "name") {
            Ok(s) => s,
            Err(e) => { return Err(e) },
        };
        let mem_raw = match req_int(args, "memory_mb") {
            Ok(i) => i,
            Err(e) => { return Err(e) },
        };
        let cpu_raw = match req_int(args, "cpu_count") {
            Ok(i) => i,
            Err(e) => { return Err(e) },
        };
        let memory_mb = clamp_u32(mem_raw);
        let cpu_count = clamp_u32(cpu_raw);
        let disk_size_gb = clamp_u32(int_or(args, "disk_size_gb", 20));
        let os_type = str_or(args, "os_type", "Linux_64");
        let network_adapter = str_or(args, "network_adapter", "NAT");
        if let Err(e) = VBoxUtils::validate_vm_name(name.as_str()) {
            return Err(e);
        }
        if let Err(e) = VBoxUtils::validate_memory_mb(memory_mb) {
            return Err(e);
        }
        if let Err(e) = VBoxUtils::validate_cpu_count(cpu_count) {
            return Err(e);
        }
        let mut disk_path = name.clone();
        disk_path.append(".vdi");
        let mut commands: Vec<Vec<String>> = Vec::new();

        let mut create: Vec<String> = Vec::new();
        push_arg(&mut create, "createvm");
        push_arg(&mut create, "--name");
        push_arg(&mut create, name.as_str());
        push_arg(&mut create, "--ostype");
        push_arg(&mut create, os_type.as_str());
        push_arg(&mut create, "--register");
        push_command(&mut commands, create);

        let mut modify: Vec<String> = Vec::new();
        push_arg(&mut modify, "modifyvm");
        push_arg(&mut modify, name.as_str());
        push_arg(&mut modify, "--memory");
        push_arg_owned(&mut modify, u64_to_string(memory_mb as u64));
        push_arg(&mut modify, "--cpus");
        push_arg_owned(&mut modify, u64_to_string(cpu_count as u64));
        push_command(&mut commands, modify);

        let mut net_cmd: Vec<String> = Vec::new();
        push_arg(&mut net_cmd, "modifyvm");
        push_arg(&mut net_cmd, name.as_str());
        let nic_args = VBoxUtils::get_network_args(network_adapter.as_str());
        let mut k: usize = 0;
        while k < nic_args.len()
            invariant
                k <= nic_args@.len(),
                nic_args.deep_view() == spec_network_args(network_adapter@),
                net_cmd.deep_view() == seq!["modifyvm"@, name@] + nic_args.deep_view().take(
                    k as int,
                ),
            decreases nic_args@.len() - k,
        {
            push_arg(&mut net_cmd, nic_args[k]);
            proof {
                assert(nic_args.deep_view().take(k as int + 1) =~= nic_args.deep_view().take(
                    k as int,
                ).push(nic_args.deep_view()[k as int]));
                assert(net_cmd.deep_view() =~= seq!["modifyvm"@, name@]
                    + nic_args.deep_view().take(k as int + 1));
            }
            k += 1;
        }
        proof {
            assert(nic_args.deep_view().take(nic_args@.len() as int) =~= nic_args.deep_view());
        }
        push_command(&mut commands, net_cmd);

        let mut storage: Vec<String> = Vec::new();
        push_arg(&mut storage, "storagectl");
        push_arg(&mut storage, name.as_str());
        push_arg(&mut storage, "--name");
        push_arg(&mut storage, "SATA Controller");
        push_arg(&mut storage, "--add");
        push_arg(&mut storage, "sata");
        push_arg(&mut storage, "--controller");
        push_arg(&mut storage, "IntelAhci");
        push_command(&mut commands, storage);

        let mut createhd: Vec<String> = Vec::new();
        push_arg(&mut createhd, "createhd");
        push_arg(&mut createhd, "--filename");
        push_arg(&mut createhd, disk_path.as_str());
        push_arg(&mut createhd, "--size");
        push_arg_owned(&mut createhd, u64_to_string(disk_size_gb as u64 * 1024));
        push_arg(&mut createhd, "--format");
        push_arg(&mut createhd, "VDI");
        push_command(&mut commands, createhd);

        let mut attach: Vec<String> = Vec::new();
        push_arg(&mut attach, "storageattach");
        push_arg(&mut attach, name.as_str());
        push_arg(&mut attach, "--storagectl");
        push_arg(&mut attach, "SATA Controller");
        push_arg(&mut attach, "--port");
        push_arg(&mut attach, "0");
        push_arg(&mut attach, "--device");
        push_arg(&mut attach, "0");
        push_arg(&mut attach, "--type");
        push_arg(&mut attach, "hdd");
        push_arg(&mut attach, "--medium");
        push_arg(&mut attach, disk_path.as_str());
        push_command(&mut commands, attach);

        proof {
            assert(commands.deep_view() =~~= create_vm_commands(
                name@,
                memory_mb,
                cpu_count,
                disk_size_gb,
                os_type@,
                network_adapter@,
            ));
        }
        let ghost gname = name@;
        let mut fields: Vec<crate::json::JsonMember> = Vec::new();
        push_field(&mut fields, "cpu_count", JsonValue::Int(cpu_count as i64));
        push_field(&mut fields, "disk_size_gb", JsonValue::Int(disk_size_gb as i64));
        push_field(&mut fields, "memory_mb", JsonValue::Int(memory_mb as i64));
        push_field(&mut fields, "name", JsonValue::Str(name.clone()));
        push_field(&mut fields, "status", JsonValue::Str(String::from_str("created")));
        push_field(&mut fields, "vm_id", JsonValue::Str(name));
        let response = JsonValue::Obj(fields);
        proof {
            assert(response@->Obj_0 =~= create_vm_response(
                gname,
                memory_mb,
                cpu_count,
                disk_size_gb,
            )->Obj_0);
        }
        Ok(CommandPlan { commands, response })
    }

    /// Plans the deletion of a VM.
    pub fn delete_vm(&self, args: &JsonValue) -> (r: Result<CommandPlan, VBoxError>)
        ensures
            match r {
                Ok(plan) => plan_ok(spec_delete_vm(args@), plan.commands.deep_view(), plan.response@),
                Err(e) => plan_err(spec_delete_vm(args@), e@),
            },
    {
        let vm_id = match req_str(args, "vm_id") {
            Ok(s) => s,
            Err(e) => { return Err(e) },
        };
        let delete_files = bool_or(args, "delete_files", true);
        let mut commands: Vec<Vec<String>> = Vec::new();
        let mut poweroff: Vec<String> = Vec::new();
        push_arg(&mut poweroff, "controlvm");
        push_arg(&mut poweroff, vm_id.as_str());
        push_arg(&mut poweroff, "poweroff");
        push_command(&mut commands, poweroff);
        let mut unregister: Vec<String> = Vec::new();
        push_arg(&mut unregister, "unregistervm");
        push_arg(&mut unregister, vm_id.as_str());
        if delete_files {
            push_arg(&mut unregister, "--delete");
        }
        push_command(&mut commands, unregister);
        proof {
            assert(commands.deep_view() =~~= spec_delete_vm(args@)->Ok_0.0);
        }
        Ok(CommandPlan { commands, response: JsonValue::Bool(true) })
    }

    /// Plans the start of a VM, stamping the answer with the given
    /// start time.
    pub fn start_vm_at(&self, args: &JsonValue, started_at: &str) -> (r: Result<
        CommandPlan,
        VBoxError,
    >)
        ensures
            match r {
                Ok(plan) => plan_ok(spec_start_vm(args@, started_at@), plan.commands.deep_view(), plan.response@),
                Err(e) => plan_err(spec_start_vm(args@, started_at@), e@),
            },
    {
        let vm_id = match req_str(args, "vm_id") {
            Ok(s) => s,
            Err(e) => { return Err(e) },
        };
        let headless = bool_or(args, "headless", false);
        let mut cmd: Vec<String> = Vec::new();
        push_arg(&mut cmd, "startvm");
        push_arg(&mut cmd, vm_id.as_str());
        push_arg(&mut cmd, "--type");
        push_arg(&mut cmd, if headless { "headless" } else { "gui" });
        let mut commands: Vec<Vec<String>> = Vec::new();
        push_command(&mut commands, cmd);
        let mut fields: Vec<crate::json::JsonMember> = Vec::new();
        push_field(&mut fields, "started_at", JsonValue::Str(started_at.to_owned()));
        push_field(&mut fields, "status", JsonValue::Str(String::from_str("running")));
        push_field(&mut fields, "vm_id", JsonValue::Str(vm_id));
        let response = JsonValue::Obj(fields);
        proof {
            assert(commands.deep_view() =~~= spec_start_vm(args@, started_at@)->Ok_0.0);
            assert(response@->Obj_0 =~= spec_start_vm(args@, started_at@)->Ok_0.1->Obj_0);
        }
        Ok(CommandPlan { commands, response })
    }

    /// Plans the start of a VM, stamped with the clock's current
    /// RFC 3339 time.
    pub fn start_vm(&self, args: &JsonValue) -> (r: Result<CommandPlan, VBoxError>)
        ensures
            match r {
                Ok(plan) => exists|ts: Seq<char>|
                    plan_ok(#[trigger] spec_start_vm(args@, ts), plan.commands.deep_view(), plan.response@),
                Err(e) => plan_err(spec_start_vm(args@, Seq::empty()), e@),
            },
    {
        let ts = now_rfc3339();
        self.start_vm_at(args, ts.as_str())
    }

    /// Plans the stop of a VM, stamping the answer with the given
    /// stop time.
    pub fn stop_vm_at(&self, args: &JsonValue, stopped_at: &str) -> (r: Result<
        CommandPlan,
        VBoxError,
    >)
        ensures
            match r {
                Ok(plan) => plan_ok(spec_stop_vm(args@, stopped_at@), plan.commands.deep_view(), plan.response@),
                Err(e) => plan_err(spec_stop_vm(args@, stopped_at@), e@),
            },
    {
        let vm_id = match req_str(args, "vm_id") {
            Ok(s) => s,
            Err(e) => { return Err(e) },
        };
        let force = bool_or(args, "force", false);
        let mut cmd: Vec<String> = Vec::new();
        push_arg(&mut cmd, "controlvm");
        push_arg(&mut cmd, vm_id.as_str());
        push_arg(&mut cmd, if force { "poweroff" } else { "acpipowerbutton" });
        let mut commands: Vec<Vec<String>> = Vec::new();
        push_command(&mut commands, cmd);
        let mut fields: Vec<crate::json::JsonMember> = Vec::new();
        push_field(&mut fields, "status", JsonValue::Str(String::from_str("stopped")));
        push_field(&mut fields, "stopped_at", JsonValue::Str(stopped_at.to_owned()));
        push_field(&mut fields, "vm_id", JsonValue::Str(vm_id));
        let response = JsonValue::Obj(fields);
        proof {
            assert(commands.deep_view() =~~= spec_stop_vm(args@, stopped_at@)->Ok_0.0);
            assert(response@->Obj_0 =~= spec_stop_vm(args@, stopped_at@)->Ok_0.1->Obj_0);
        }
        Ok(CommandPlan { commands, response })
    }

    /// Plans the stop of a VM, stamped with the clock's current
    /// RFC 3339 time.
    pub fn stop_vm(&self, args: &JsonValue) -> (r: Result<CommandPlan, VBoxError>)
        ensures
            match r {
                Ok(plan) => exists|ts: Seq<char>|
                    plan_ok(#[trigger] spec_stop_vm(args@, ts), plan.commands.deep_view(), plan.response@),
                Err(e) => plan_err(spec_stop_vm(args@, Seq::empty()), e@),
            },
    {
        let ts = now_rfc3339();
        self.stop_vm_at(args, ts.as_str())
    }

    /// Plans a VM info query; the output is read by
    /// [`VBoxUtils::parse_vm_info`] with the returned id.
    pub fn get_vm_info(&self, args: &JsonValue) -> (r: Result<(Vec<String>, String), VBoxError>)
        ensures
            match r {
                Ok(q) => query_ok(spec_get_vm_info(args@), q.0.deep_view(), q.1@),
                Err(e) => query_err(spec_get_vm_info(args@), e@),
            },
    {
        let vm_id = match req_str(args, "vm_id") {
            Ok(s) => s,
            Err(e) => { return Err(e) },
        };
        let mut cmd: Vec<String> = Vec::new();
        push_arg(&mut cmd, "showvminfo");
        push_arg(&mut cmd, vm_id.as_str());
        push_arg(&mut cmd, "--machinereadable");
        proof {
            assert(cmd.deep_view() =~= spec_get_vm_info(args@)->Ok_0.0);
        }
        Ok((cmd, vm_id))
    }

    /// Plans a VM listing.
    pub fn list_vms(&self, args: &JsonValue) -> (r: Vec<String>)
        ensures
            r.deep_view() == spec_list_vms_command(args@),
    {
        let running_only = bool_or(args, "include_running_only", false);
        let mut cmd: Vec<String> = Vec::new();
        push_arg(&mut cmd, "list");
        push_arg(&mut cmd, if running_only { "runningvms" } else { "vms" });
        proof {
            assert(cmd.deep_view() =~= spec_list_vms_command(args@));
        }
        cmd
    }

    /// Reads a listing's output into the answer: the array of listed
    /// VMs.
    pub fn list_vms_response(output: &str) -> (r: VBoxResult<JsonValue>)
        ensures
            r matches Ok(v) && v@ == JsonVal::Arr(spec_vm_list(output@)),
    {
        let vms = match VBoxUtils::parse_vm_list(output) {
            Ok(vms) => vms,
            Err(e) => { return Err(e) },
        };
        let ghost gv = vms.deep_view();
        let r = JsonValue::Arr(vms);
        proof {
            assert(r@->Arr_0 =~= gv) by {
                crate::json::arr_view_len(r->Arr_0@);
                assert forall|j: int| 0 <= j < gv.len() implies r@->Arr_0[j] == gv[j] by {
                    crate::json::arr_view_index(r->Arr_0@, j);
                }
            }
        }
        Ok(r)
    }

    /// Plans a snapshot, stamping the answer with the given creation
    /// time.
    pub fn create_snapshot_at(&self, args: &JsonValue, created_at: &str) -> (r: Result<
        CommandPlan,
        VBoxError,
    >)
        ensures
            match r {
                Ok(plan) => plan_ok(spec_create_snapshot(args@, created_at@), plan.commands.deep_view(), plan.response@),
                Err(e) => plan_err(spec_create_snapshot(args@, created_at@), e@),
            },
    {
        let vm_id = match req_str(args, "vm_id") {
            Ok(s) => s,
            Err(e) => { return Err(e) },
        };
        let snapshot_name = match req_str(args, "snapshot_name") {
            Ok(s) => s,
            Err(e) => { return Err(e) },
        };
        let description = str_or(args, "description", "");
        let mut cmd: Vec<String> = Vec::new();
        push_arg(&mut cmd, "snapshot");
        push_arg(&mut cmd, vm_id.as_str());
        push_arg(&mut cmd, "take");
        push_arg(&mut cmd, snapshot_name.as_str());
        if description.as_str().unicode_len() > 0 {
            push_arg(&mut cmd, "--description");
            push_arg(&mut cmd, description.as_str());
        }
        let mut commands: Vec<Vec<String>> = Vec::new();
        push_command(&mut commands, cmd);
        let mut snapshot_id = vm_id.clone();
        snapshot_id.append("_");
        snapshot_id.append(snapshot_name.as_str());
        let mut fields: Vec<crate::json::JsonMember> = Vec::new();
        push_field(&mut fields, "created_at", JsonValue::Str(created_at.to_owned()));
        push_field(&mut fields, "snapshot_id", JsonValue::Str(snapshot_id));
        push_field(&mut fields, "snapshot_name", JsonValue::Str(snapshot_name));
        push_field(&mut fields, "vm_id", JsonValue::Str(vm_id));
        let response = JsonValue::Obj(fields);
        proof {
            assert(commands.deep_view() =~~= spec_create_snapshot(args@, created_at@)->Ok_0.0);
            assert(response@->Obj_0 =~= spec_create_snapshot(args@, created_at@)->Ok_0.1->Obj_0);
        }
        Ok(CommandPlan { commands, response })
    }

    /// Plans a snapshot, stamped with the clock's current RFC 3339
    /// time.
    pub fn create_snapshot(&self, args: &JsonValue) -> (r: Result<CommandPlan, VBoxError>)
        ensures
            match r {
                Ok(plan) => exists|ts: Seq<char>|
                    plan_ok(#[trigger] spec_create_snapshot(args@, ts), plan.commands.deep_view(), plan.response@),
                Err(e) => plan_err(spec_create_snapshot(args@, Seq::empty()), e@),
            },
    {
        let ts = now_rfc3339();
        self.create_snapshot_at(args, ts.as_str())
    }

    /// Reads one command's outcome: a successful run yields its
    /// standard output, a failed one the error output wrapped into
    /// `ExecutionFailed`.
    pub fn read_command_outcome(success: bool, stdout: String, stderr: &str) -> (r: VBoxResult<
        String,
    >)
        ensures
            success ==> (r matches Ok(out) && out@ == stdout@),
            !success ==> (r matches Err(e) && e@ == VBoxErrVal::ExecutionFailed(
                "VBoxManage failed: "@ + stderr@,
            )),
    {
        if success {
            Ok(stdout)
        } else {
            let mut msg = String::from_str("VBoxManage failed: ");
            msg.append(stderr);
            Err(VBoxError::ExecutionFailed(msg))
        }
    }
}

impl Clone for VBoxOperations {
    /// Operations against an identical configuration.
    fn clone(&self) -> (r: VBoxOperations)
        ensures
            r.config.vboxmanage_path == self.config.vboxmanage_path,
            r.config.default_vm_folder == self.config.default_vm_folder,
            r.config.max_concurrent_vms == self.config.max_concurrent_vms,
    {
        VBoxOperations { config: self.config.clone() }
    }
}

/// Relies on chrono::Utc::now and chrono::DateTime::to_rfc3339: the
/// clock's current time rendered in RFC 3339 form. The result depends
/// on the clock; nothing is promised of it.
#[verifier::external_body]
fn now_rfc3339() -> String {
    chrono::Utc::now().to_rfc3339()
}

} // verus!
