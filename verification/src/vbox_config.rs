//! Configuration of the VirtualBox plugin.

use vstd::prelude::*;
use vstd::string::StringExecFns;

verus! {

/// Where to find VBoxManage and how many VMs may run at once.
pub struct VirtualBoxConfig {
    pub vboxmanage_path: String,
    pub default_vm_folder: Option<String>,
    pub max_concurrent_vms: u32,
}

/// The first candidate marked present, or the bare command name to
/// be resolved through the search path.
pub open spec fn spec_find_vboxmanage(candidates: Seq<Seq<char>>, present: Seq<bool>) -> Seq<char>
    decreases candidates.len(),
{
    if candidates.len() == 0 || present.len() == 0 {
        "VBoxManage"@
    } else if present[0] {
        candidates[0]
    } else {
        spec_find_vboxmanage(candidates.skip(1), present.skip(1))
    }
}

impl VirtualBoxConfig {
    /// A configuration with the bare VBoxManage command, no VM
    /// folder, and at most ten concurrent VMs.
    pub fn new() -> (r: VirtualBoxConfig)
        ensures
            r.vboxmanage_path@ == "VBoxManage"@,
            r.default_vm_folder is None,
            r.max_concurrent_vms == 10,
    {
        VirtualBoxConfig {
            vboxmanage_path: String::from_str("VBoxManage"),
            default_vm_folder: None,
            max_concurrent_vms: 10,
        }
    }

    /// Picks the VBoxManage executable: the first of the probed
    /// candidate paths that exists, or the bare command name. The
    /// caller probes the filesystem and reports each candidate's
    /// presence.
    pub fn find_vboxmanage(candidates: &Vec<String>, present: &Vec<bool>) -> (r: String)
        requires
            candidates@.len() == present@.len(),
        ensures
            r@ == spec_find_vboxmanage(candidates.deep_view(), present@),
    {
        let n = candidates.len();
        proof {
            assert(candidates.deep_view().skip(0) =~= candidates.deep_view());
            assert(present@.skip(0) =~= present@);
        }
        let mut i: usize = 0;
        while i < n
            invariant
                i <= n,
                n == candidates@.len(),
                n == present@.len(),
                spec_find_vboxmanage(candidates.deep_view(), present@) == spec_find_vboxmanage(
                    candidates.deep_view().skip(i as int),
                    present@.skip(i as int),
                ),
            decreases n - i,
        {
            proof {
                assert(candidates.deep_view().skip(i as int)[0]
                    == candidates.deep_view()[i as int]);
                assert(present@.skip(i as int)[0] == present@[i as int]);
            }
            if present[i] {
                return candidates[i].clone();
            }
            proof {
                assert(candidates.deep_view().skip(i as int).skip(1) =~= candidates.deep_view().skip(
                    i as int + 1,
                ));
                assert(present@.skip(i as int).skip(1) =~= present@.skip(i as int + 1));
            }
            i += 1;
        }
        proof {
            assert(candidates.deep_view().skip(i as int).len() == 0);
        }
        String::from_str("VBoxManage")
    }

    /// The configured VBoxManage path.
    pub fn get_vboxmanage_path(&self) -> (r: &str)
        ensures
            r@ == self.vboxmanage_path@,
    {
        self.vboxmanage_path.as_str()
    }

    /// The configured concurrency cap.
    pub fn get_max_concurrent_vms(&self) -> (r: u32)
        ensures
            r == self.max_concurrent_vms,
    {
        self.max_concurrent_vms
    }

    /// The configured VM folder, if any.
    pub fn get_default_vm_folder(&self) -> (r: Option<&String>)
        ensures
            match r {
                Some(f) => self.default_vm_folder == Some(*f),
                None => self.default_vm_folder is None,
            },
    {
        self.default_vm_folder.as_ref()
    }

    /// Replaces the VM folder.
    pub fn set_default_vm_folder(&mut self, folder: Option<String>)
        ensures
            final(self).default_vm_folder == folder,
            final(self).vboxmanage_path == old(self).vboxmanage_path,
            final(self).max_concurrent_vms == old(self).max_concurrent_vms,
    {
        self.default_vm_folder = folder;
    }

    /// Replaces the concurrency cap.
    pub fn set_max_concurrent_vms(&mut self, max: u32)
        ensures
            final(self).max_concurrent_vms == max,
            final(self).vboxmanage_path == old(self).vboxmanage_path,
            final(self).default_vm_folder == old(self).default_vm_folder,
    {
        self.max_concurrent_vms = max;
    }
}

impl Clone for VirtualBoxConfig {
    /// An identical configuration.
    fn clone(&self) -> (r: VirtualBoxConfig)
        ensures
            r.vboxmanage_path == self.vboxmanage_path,
            r.default_vm_folder == self.default_vm_folder,
            r.max_concurrent_vms == self.max_concurrent_vms,
    {
        VirtualBoxConfig {
            vboxmanage_path: self.vboxmanage_path.clone(),
            default_vm_folder: match &self.default_vm_folder {
                Some(f) => Some(f.clone()),
                None => None,
            },
            max_concurrent_vms: self.max_concurrent_vms,
        }
    }
}

} // verus!
