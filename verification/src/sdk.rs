//! The plugin interface: what a plugin reports about itself, the hooks the
//! host calls on it, and the registry of loaded plugins.
use vstd::prelude::*;

verus! {

/// What a plugin reports about itself.
#[derive(Debug)]
pub struct PluginMetadata {
    /// Reverse-DNS plugin identifier (e.g. `com.example.my-plugin`).
    pub id: String,
    /// Human-readable plugin name.
    pub name: String,
    /// Plugin version in semver format.
    pub version: String,
    /// Short description of what the plugin does.
    pub description: String,
    /// Plugin author or organisation.
    pub author: String,
    /// Minimum NovaVM version required.
    pub min_novavm_version: String,
}

/// What a plugin is given when it is loaded.
#[derive(Debug)]
pub struct PluginContext {
    /// Unique id of this plugin instance.
    pub instance_id: u128,
    /// The running NovaVM version.
    pub novavm_version: String,
    /// Directory where the plugin may keep its state.
    pub data_dir: String,
}

/// Plugin errors.
#[derive(Debug)]
pub enum PluginError {
    InitFailed(String),
    HookError(String),
    Io(String),
}

/// The interface every plugin implements. Nothing is assumed of what a
/// plugin's hooks do.
pub trait NovaPlugin {
    /// Metadata about the plugin.
    fn metadata(&self) -> PluginMetadata;

    /// Called when the plugin is loaded.
    fn on_load(&mut self, ctx: &PluginContext) -> Result<(), PluginError>;

    /// Called before the plugin is unloaded.
    fn on_unload(&mut self);

    /// Called when a VM is created.
    fn on_vm_created(&mut self, vm_id: u128, vm_name: &str) {
    }

    /// Called when a VM starts.
    fn on_vm_started(&mut self, vm_id: u128) {
    }

    /// Called when a VM stops.
    fn on_vm_stopped(&mut self, vm_id: u128) {
    }

    /// Called when a VM is destroyed.
    fn on_vm_destroyed(&mut self, vm_id: u128) {
    }
}

/// One loaded plugin.
struct Loaded {
    plugin: Box<dyn NovaPlugin>,
}

impl Loaded {
    fn new(plugin: Box<dyn NovaPlugin>) -> (l: Self)
        ensures
            l == (Loaded { plugin: plugin }),
    {
        Loaded { plugin }
    }
}

/// The loaded plugins, in the order they were registered.
pub struct PluginRegistry {
    plugins: Vec<Loaded>,
}

impl PluginRegistry {
    /// How many plugins are registered.
    pub closed spec fn count(&self) -> nat {
        self.plugins@.len()
    }

    /// An empty registry.
    pub fn new() -> (r: Self)
        ensures
            r.count() == 0,
    {
        PluginRegistry { plugins: Vec::new() }
    }

    /// Register a plugin after the others.
    pub fn register(&mut self, plugin: Box<dyn NovaPlugin>)
        ensures
            final(self).count() == old(self).count() + 1,
    {
        let l = Loaded::new(plugin);
        self.plugins.push(l);
    }

    /// The metadata of every plugin, in registration order.
    pub fn list(&self) -> (r: Vec<PluginMetadata>)
        ensures
            r.len() == self.count(),
    {
        let mut r: Vec<PluginMetadata> = Vec::new();
        let mut i: usize = 0;
        while i < self.plugins.len()
            invariant
                i <= self.plugins.len(),
                r.len() == i,
            decreases self.plugins.len() - i,
        {
            r.push(self.plugins[i].plugin.metadata());
            i = i + 1;
        }
        r
    }

    /// Tell every plugin, in registration order, that VM `vm_id` started.
    pub fn broadcast_vm_started(&mut self, vm_id: u128)
        ensures
            final(self).count() == old(self).count(),
    {
        let mut rest: Vec<Loaded> = Vec::new();
        std::mem::swap(&mut rest, &mut self.plugins);
        let mut done: Vec<Loaded> = Vec::new();
        let ghost n = rest.len();
        while rest.len() > 0
            invariant
                done.len() + rest.len() == n,
            decreases rest.len(),
        {
            let mut p = rest.remove(0);
            p.plugin.on_vm_started(vm_id);
            done.push(p);
        }
        self.plugins = done;
    }

    /// Tell every plugin, in registration order, that VM `vm_id` stopped.
    pub fn broadcast_vm_stopped(&mut self, vm_id: u128)
        ensures
            final(self).count() == old(self).count(),
    {
        let mut rest: Vec<Loaded> = Vec::new();
        std::mem::swap(&mut rest, &mut self.plugins);
        let mut done: Vec<Loaded> = Vec::new();
        let ghost n = rest.len();
        while rest.len() > 0
            invariant
                done.len() + rest.len() == n,
            decreases rest.len(),
        {
            let mut p = rest.remove(0);
            p.plugin.on_vm_stopped(vm_id);
            done.push(p);
        }
        self.plugins = done;
    }
}

} // verus!
