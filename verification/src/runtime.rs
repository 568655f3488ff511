//! The state of a plugin process: its plugin, the server's data table and
//! the AMX instances that are loaded, by their identity.
use std::collections::HashMap;
use vstd::prelude::*;

use crate::amx::Amx;
use crate::consts::{ServerData, Supports};
use crate::plugin::{supports_bits, supports_flags, PluginEvent, SampPlugin};

verus! {

broadcast use vstd::std_specs::hash::group_hash_axioms;

/// What a `Runtime` is to a specification.
pub struct RuntimeView<P> {
    /// The plugin, once it is set.
    pub plugin: Option<P>,
    /// Whether the plugin asked for ticks.
    pub process_tick: bool,
    /// The address of the server's data table; zero until the server gave it.
    pub server_exports: usize,
    /// The loaded instances, by their identity.
    pub amx_list: Map<usize, Amx>,
    /// Whether the runtime installs its own logger.
    pub logger_enabled: bool,
}

/// The state of a plugin process. It is made once, when the process
/// starts, and is handed to whatever needs it.
pub struct Runtime<P: SampPlugin> {
    plugin: Option<P>,
    process_tick: bool,
    server_exports: usize,
    amx_list: HashMap<usize, Amx>,
    logger_enabled: bool,
}

impl<P: SampPlugin> View for Runtime<P> {
    type V = RuntimeView<P>;

    closed spec fn view(&self) -> RuntimeView<P> {
        RuntimeView {
            plugin: self.plugin,
            process_tick: self.process_tick,
            server_exports: self.server_exports,
            amx_list: self.amx_list@,
            logger_enabled: self.logger_enabled,
        }
    }
}

impl<P: SampPlugin> Runtime<P> {
    /// The runtime of a fresh process: no plugin, no instance, the default
    /// logger on.
    pub fn initialize() -> (runtime: Runtime<P>)
        ensures
            runtime@ == (RuntimeView::<P> {
                plugin: None,
                process_tick: false,
                server_exports: 0,
                amx_list: Map::empty(),
                logger_enabled: true,
            }),
    {
        Runtime {
            plugin: None,
            process_tick: false,
            server_exports: 0,
            amx_list: HashMap::new(),
            logger_enabled: true,
        }
    }

    /// Whether the default logger is to be installed once the plugin is
    /// made: it is, unless the plugin took the logger for itself.
    pub fn is_default_logger_enabled(&self) -> (enabled: bool)
        ensures
            enabled == self@.logger_enabled,
    {
        self.logger_enabled
    }

    /// Keeps the runtime from installing its own logger.
    pub fn disable_default_logger(&mut self)
        ensures
            final(self)@ == (RuntimeView { logger_enabled: false, ..old(self)@ }),
    {
        self.logger_enabled = false;
    }

    /// The address of the slot of the server's data table that holds
    /// `data`, where a slot is `slot_size` bytes wide, or `None` where that
    /// is no `usize`.
    pub fn server_data_slot(&self, data: ServerData, slot_size: usize) -> (address: Option<usize>)
        ensures
            self@.server_exports + data.spec_offset() * slot_size <= usize::MAX ==> address
                == Some((self@.server_exports + data.spec_offset() * slot_size) as usize),
            self@.server_exports + data.spec_offset() * slot_size > usize::MAX ==> address is None,
    {
        let offset: isize = isize::from(data);
        let slot: usize = offset as usize;
        match slot.checked_mul(slot_size) {
            Some(bytes) => self.server_exports.checked_add(bytes),
            None => {
                assert(self@.server_exports + slot * slot_size > usize::MAX);
                None
            },
        }
    }

    /// Takes `amx` into the registry under the identity `ident`, in place
    /// of the instance that was there, and hands it back to look at.
    pub fn insert_amx(&mut self, ident: usize, amx: Amx) -> (inserted: Option<&Amx>)
        ensures
            final(self)@ == (RuntimeView {
                amx_list: old(self)@.amx_list.insert(ident, amx),
                ..old(self)@
            }),
            inserted == Some(&amx),
    {
        self.amx_list.insert(ident, amx);
        self.amx_list.get(&ident)
    }

    /// Takes the instance with the identity `ident` out of the registry and
    /// returns it, or `None` where there is none.
    pub fn remove_amx(&mut self, ident: usize) -> (removed: Option<Amx>)
        ensures
            final(self)@ == (RuntimeView {
                amx_list: old(self)@.amx_list.remove(ident),
                ..old(self)@
            }),
            removed == if old(self)@.amx_list.contains_key(ident) {
                Some(old(self)@.amx_list[ident])
            } else {
                None
            },
    {
        self.amx_list.remove(&ident)
    }

    /// The instance with the identity `ident`, or `None` where it is not
    /// loaded, or not any more.
    pub fn get_amx(&self, ident: usize) -> (amx: Option<&Amx>)
        ensures
            amx == if self@.amx_list.contains_key(ident) {
                Some(&self@.amx_list[ident])
            } else {
                None
            },
    {
        self.amx_list.get(&ident)
    }

    /// The flags that the plugin reports to the server.
    pub fn supports(&self) -> (supports: Supports)
        ensures
            supports@ == supports_bits(self@.process_tick),
    {
        supports_flags(self.process_tick)
    }

    /// The loaded instances, by their identity.
    pub fn amx_list(&self) -> (list: &HashMap<usize, Amx>)
        ensures
            list@ == self@.amx_list,
    {
        &self.amx_list
    }

    /// Sets the plugin, in place of the one that was set before.
    pub fn set_plugin(&mut self, plugin: P)
        ensures
            final(self)@ == (RuntimeView { plugin: Some(plugin), ..old(self)@ }),
    {
        self.plugin = Some(plugin);
    }

    /// Records the address of the server's data table.
    pub fn set_server_exports(&mut self, exports: usize)
        ensures
            final(self)@ == (RuntimeView { server_exports: exports, ..old(self)@ }),
    {
        self.server_exports = exports;
    }

    /// Asks for a notification on every tick of the server.
    pub fn enable_process_tick(&mut self)
        ensures
            final(self)@ == (RuntimeView { process_tick: true, ..old(self)@ }),
    {
        self.process_tick = true;
    }

    /// Whether the plugin is set.
    pub fn has_plugin(&self) -> (set: bool)
        ensures
            set == self@.plugin is Some,
    {
        self.plugin.is_some()
    }

    /// The plugin, to notify it.
    pub fn plugin(&mut self) -> (plugin: &mut P)
        requires
            old(self)@.plugin is Some,
        ensures
            *plugin == old(self)@.plugin->0,
            final(self)@ == (RuntimeView { plugin: Some(*final(plugin)), ..old(self)@ }),
    {
        match &mut self.plugin {
            Some(plugin) => plugin,
            None => vstd::pervasive::unreached(),
        }
    }

    /// The plugin, as the type it was set with.
    pub fn plugin_cast(&self) -> (plugin: &P)
        requires
            self@.plugin is Some,
        ensures
            *plugin == self@.plugin->0,
    {
        self.plugin.as_ref().unwrap()
    }

    /// Tells the plugin that a script was loaded into the instance with the
    /// identity `ident`: the plugin is what its `on_amx_load` makes of it
    /// for that instance. Nothing but the plugin changes.
    pub fn notify_amx_load(&mut self, ident: usize)
        requires
            old(self)@.plugin is Some,
            old(self)@.amx_list.contains_key(ident),
        ensures
            final(self)@.plugin is Some,
            old(self)@.plugin->0.told(
                PluginEvent::AmxLoad(old(self)@.amx_list[ident]@),
                final(self)@.plugin->0,
            ),
            final(self)@ == (RuntimeView { plugin: final(self)@.plugin, ..old(self)@ }),
    {
        let amx: Option<&Amx> = self.amx_list.get(&ident);
        match (&mut self.plugin, amx) {
            (Some(plugin), Some(amx)) => plugin.on_amx_load(amx),
            _ => {},
        }
    }
}

} // verus!
