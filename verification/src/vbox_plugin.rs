//! The VirtualBox plugin: configuration, operations and handler
//! registration bundled as one plugin.

use vstd::prelude::*;
use vstd::string::StringExecFns;
use crate::feature::Plugin;
use crate::vbox_config::VirtualBoxConfig;
use crate::vbox_handlers::EventHandlers;
use crate::vbox_ops::VBoxOperations;

verus! {

/// The VirtualBox plugin, declaring the `VM_Manage` feature. Its
/// asynchronous lifecycle against the host's server context runs in
/// the host.
pub struct VirtualBoxPlugin {
    pub config: VirtualBoxConfig,
    pub operations: VBoxOperations,
    pub handlers: EventHandlers,
}

impl VirtualBoxPlugin {
    /// A plugin over a fresh default configuration.
    pub fn new() -> (r: VirtualBoxPlugin)
        ensures
            r.config.vboxmanage_path@ == "VBoxManage"@,
            r.config.default_vm_folder is None,
            r.config.max_concurrent_vms == 10,
            r.operations.config.vboxmanage_path@ == r.config.vboxmanage_path@,
            r.handlers.operations.config.vboxmanage_path@ == r.config.vboxmanage_path@,
    {
        let config = VirtualBoxConfig::new();
        let operations = VBoxOperations::new(config.clone());
        let handlers = EventHandlers::new(operations.clone());
        VirtualBoxPlugin { config, operations, handlers }
    }
}

impl Plugin for VirtualBoxPlugin {
    open spec fn spec_name(&self) -> Seq<char> {
        "VirtualBox"@
    }

    open spec fn spec_version(&self) -> Seq<char> {
        "1.0.0"@
    }

    open spec fn spec_declared_features(&self) -> Seq<Seq<char>> {
        seq!["VM_Manage"@]
    }

    fn name(&self) -> (r: &str) {
        "VirtualBox"
    }

    fn version(&self) -> (r: &str) {
        "1.0.0"
    }

    fn declared_features(&self) -> (r: Vec<String>) {
        let mut features: Vec<String> = Vec::new();
        features.push(String::from_str("VM_Manage"));
        proof {
            assert(features.deep_view() =~= seq!["VM_Manage"@]);
        }
        features
    }
}

} // verus!
