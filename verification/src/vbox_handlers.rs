//! Registration of the VirtualBox plugin's event handlers.
//!
//! The plugin answers seven methods of its `VM_Manage` feature. The
//! handlers themselves run VBoxManage in the host; here they are
//! registered under their keys, one registration per method.

use vstd::prelude::*;
use crate::keys::canonical_key;
use crate::keys::must_key;
use crate::keys::valid_component;
use crate::registry::EventRegistry;
use crate::vbox_ops::VBoxOperations;

verus! {

/// The canonical key of one `VM_Manage` method of the VirtualBox
/// plugin.
pub open spec fn vm_manage_key(method: Seq<char>) -> Seq<char> {
    canonical_key("VirtualBox"@, "VM_Manage"@, method)
}

/// One handler per `VM_Manage` method.
pub struct VmManageHandlers<H> {
    pub create_vm: H,
    pub delete_vm: H,
    pub start_vm: H,
    pub stop_vm: H,
    pub get_vm_info: H,
    pub list_vms: H,
    pub create_snapshot: H,
}

/// The VirtualBox plugin's registration front: holds the operations
/// and puts one handler for each method into the registry.
pub struct EventHandlers {
    pub operations: VBoxOperations,
}

proof fn vm_manage_literals_valid()
    ensures
        valid_component("VirtualBox"@),
        valid_component("VM_Manage"@),
        valid_component("create_vm"@),
        valid_component("delete_vm"@),
        valid_component("start_vm"@),
        valid_component("stop_vm"@),
        valid_component("get_vm_info"@),
        valid_component("list_vms"@),
        valid_component("create_snapshot"@),
{
    reveal_strlit("VirtualBox");
    reveal_strlit("VM_Manage");
    reveal_strlit("create_vm");
    reveal_strlit("delete_vm");
    reveal_strlit("start_vm");
    reveal_strlit("stop_vm");
    reveal_strlit("get_vm_info");
    reveal_strlit("list_vms");
    reveal_strlit("create_snapshot");
}

impl EventHandlers {
    /// A registration front over the given operations.
    pub fn new(operations: VBoxOperations) -> (r: EventHandlers)
        ensures
            r.operations == operations,
    {
        EventHandlers { operations }
    }

    /// Registers all seven `VM_Manage` handlers of the `VirtualBox`
    /// provider, each under its method's key, in a fixed order; the
    /// feature is recorded once per registration. No other key or
    /// provider changes.
    pub fn register_all_handlers<H>(
        &self,
        registry: &mut EventRegistry<H>,
        handlers: VmManageHandlers<H>,
    )
        requires
            old(registry).wf(),
        ensures
            final(registry).wf(),
            final(registry).handler_map() == old(registry).handler_map().insert(
                vm_manage_key("create_vm"@),
                handlers.create_vm,
            ).insert(vm_manage_key("delete_vm"@), handlers.delete_vm).insert(
                vm_manage_key("start_vm"@),
                handlers.start_vm,
            ).insert(vm_manage_key("stop_vm"@), handlers.stop_vm).insert(
                vm_manage_key("get_vm_info"@),
                handlers.get_vm_info,
            ).insert(vm_manage_key("list_vms"@), handlers.list_vms).insert(
                vm_manage_key("create_snapshot"@),
                handlers.create_snapshot,
            ),
            final(registry).features_of("VirtualBox"@) == old(registry).features_of(
                "VirtualBox"@,
            ).push("VM_Manage"@).push("VM_Manage"@).push("VM_Manage"@).push("VM_Manage"@).push(
                "VM_Manage"@,
            ).push("VM_Manage"@).push("VM_Manage"@),
            forall|p: Seq<char>|
                p != "VirtualBox"@ ==> final(registry).features_of(p) == old(registry).features_of(
                    p,
                ),
    {
        proof {
            vm_manage_literals_valid();
        }
        let VmManageHandlers {
            create_vm,
            delete_vm,
            start_vm,
            stop_vm,
            get_vm_info,
            list_vms,
            create_snapshot,
        } = handlers;
        registry.register_handler(&must_key("VirtualBox", "VM_Manage", "create_vm"), create_vm);
        registry.register_handler(&must_key("VirtualBox", "VM_Manage", "delete_vm"), delete_vm);
        registry.register_handler(&must_key("VirtualBox", "VM_Manage", "start_vm"), start_vm);
        registry.register_handler(&must_key("VirtualBox", "VM_Manage", "stop_vm"), stop_vm);
        registry.register_handler(&must_key("VirtualBox", "VM_Manage", "get_vm_info"), get_vm_info);
        registry.register_handler(&must_key("VirtualBox", "VM_Manage", "list_vms"), list_vms);
        registry.register_handler(
            &must_key("VirtualBox", "VM_Manage", "create_snapshot"),
            create_snapshot,
        );
    }
}

} // verus!
