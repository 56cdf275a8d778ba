use vstd::prelude::*;

use crate::discovery::{AdbDevice, Win32Window};
use crate::error::BridgeError;
use crate::registry::Registry;

verus! {

/// One task of a batch: its pipeline entry and the pipeline override text.
#[derive(Debug, Clone)]
pub struct TaskConfig {
    pub entry: String,
    pub pipeline_override: String,
}

/// What the host sees of one instance.
#[derive(Debug, Clone)]
pub struct InstanceState {
    pub connected: bool,
    pub resource_loaded: bool,
    pub tasker_inited: bool,
    pub is_running: bool,
    pub task_ids: Vec<i64>,
}

/// A snapshot of every instance and of the discovery caches.
#[derive(Debug, Clone)]
pub struct AllInstanceStates {
    pub instances: Vec<(String, InstanceState)>,
    pub cached_adb_devices: Vec<AdbDevice>,
    pub cached_win32_windows: Vec<Win32Window>,
}

/// The handles whose state queries make up an instance's state, and its
/// posted task ids.
#[derive(Debug, Clone)]
pub struct StateProbe {
    pub controller: Option<u64>,
    pub resource: Option<u64>,
    pub tasker: Option<u64>,
    pub task_ids: Vec<i64>,
}

impl StateProbe {
    /// The instance state from the answers of the engine's queries. An answer
    /// counts only for a handle the instance holds; without it the flag is
    /// false.
    pub fn into_state(self, connected: bool, resource_loaded: bool, tasker_inited: bool, running: bool) -> (r:
        InstanceState)
        ensures
            r.connected == (self.controller is Some && connected),
            r.resource_loaded == (self.resource is Some && resource_loaded),
            r.tasker_inited == (self.tasker is Some && tasker_inited),
            r.is_running == (self.tasker is Some && running),
            r.task_ids@ == self.task_ids@,
    {
        InstanceState {
            connected: self.controller.is_some() && connected,
            resource_loaded: self.resource.is_some() && resource_loaded,
            tasker_inited: self.tasker.is_some() && tasker_inited,
            is_running: self.tasker.is_some() && running,
            task_ids: self.task_ids,
        }
    }
}

impl Registry {
    /// The handles to query for an instance's state, and a copy of its task ids.
    pub fn state_probe(&self, id: &str) -> (r: Result<StateProbe, BridgeError>)
        requires
            self.wf(),
        ensures
            !self@.contains_key(id@) ==> (r matches Err(e) && e == BridgeError::InstanceNotFound),
            self@.contains_key(id@) ==> (r matches Ok(p) && p.controller == self@[id@].controller
                && p.resource == self@[id@].resource && p.tasker == (match self@[id@].tasker {
                Some(b) => Some(b.tasker),
                None => None,
            }) && p.task_ids@ == self@[id@].task_ids),
    {
        match self.runtime(id) {
            None => Err(BridgeError::InstanceNotFound),
            Some(rt) => {
                let mut ids: Vec<i64> = Vec::new();
                let mut i: usize = 0;
                while i < rt.task_ids.len()
                    invariant
                        i <= rt.task_ids@.len(),
                        ids@ == rt.task_ids@.subrange(0, i as int),
                    decreases rt.task_ids@.len() - i,
                {
                    ids.push(rt.task_ids[i]);
                    proof {
                        assert(ids@ =~= rt.task_ids@.subrange(0, i as int + 1));
                    }
                    i = i + 1;
                }
                proof {
                    assert(ids@ =~= rt.task_ids@);
                }
                let tasker = match rt.tasker {
                    Some(b) => Some(b.tasker),
                    None => None,
                };
                Ok(
                    StateProbe {
                        controller: rt.controller,
                        resource: rt.resource,
                        tasker,
                        task_ids: ids,
                    },
                )
            },
        }
    }
}

/// Process-wide state of the bridge: where the engine and the resources
/// live, the instances, and the last discovery results.
pub struct MaaState {
    pub lib_dir: Option<String>,
    pub resource_dir: Option<String>,
    pub instances: Registry,
    pub cached_adb_devices: Vec<AdbDevice>,
    pub cached_win32_windows: Vec<Win32Window>,
}

impl MaaState {
    /// No instance, no directory and empty discovery caches.
    pub fn new() -> (r: MaaState)
        ensures
            r.instances.wf(),
            r.instances@ == Map::<Seq<char>, crate::runtime::RuntimeView>::empty(),
            r.lib_dir is None,
            r.resource_dir is None,
            r.cached_adb_devices@.len() == 0,
            r.cached_win32_windows@.len() == 0,
    {
        MaaState {
            lib_dir: None,
            resource_dir: None,
            instances: Registry::new(),
            cached_adb_devices: Vec::new(),
            cached_win32_windows: Vec::new(),
        }
    }

    /// Replaces the cached device list with the result of the latest search,
    /// an empty one included.
    pub fn remember_adb_devices(&mut self, devices: Vec<AdbDevice>)
        ensures
            final(self).cached_adb_devices == devices,
            final(self).cached_win32_windows == old(self).cached_win32_windows,
            final(self).instances == old(self).instances,
    {
        self.cached_adb_devices = devices;
    }

    /// Replaces the cached window list with the result of the latest search,
    /// an empty one included.
    pub fn remember_win32_windows(&mut self, windows: Vec<Win32Window>)
        ensures
            final(self).cached_win32_windows == windows,
            final(self).cached_adb_devices == old(self).cached_adb_devices,
            final(self).instances == old(self).instances,
    {
        self.cached_win32_windows = windows;
    }
}

} // verus!
