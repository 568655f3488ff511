//! What the entry points of a plugin do with the runtime when the server
//! calls them.
use vstd::prelude::*;

use crate::amx::Amx;
use crate::plugin::{supports_bits, PluginEvent, SampPlugin};
use crate::runtime::{Runtime, RuntimeView};

verus! {

/// The flags that the plugin reports to the server, as bits.
pub fn supports<P: SampPlugin>(rt: &Runtime<P>) -> (bits: u32)
    ensures
        bits == supports_bits(rt@.process_tick),
{
    rt.supports().bits()
}

/// The server has loaded the plugin and handed over its data table: the
/// runtime keeps the table's address, and the plugin is what its `on_load`
/// makes of it.
pub fn load<P: SampPlugin>(rt: &mut Runtime<P>, server_exports: usize)
    requires
        old(rt)@.plugin is Some,
    ensures
        final(rt)@.plugin is Some,
        old(rt)@.plugin->0.told(PluginEvent::Load, final(rt)@.plugin->0),
        final(rt)@ == (RuntimeView { plugin: final(rt)@.plugin, server_exports, ..old(rt)@ }),
{
    rt.set_server_exports(server_exports);
    rt.plugin().on_load();
}

/// The server is about to unload the plugin: the plugin is what its
/// `on_unload` makes of it. Nothing else changes.
pub fn unload<P: SampPlugin>(rt: &mut Runtime<P>)
    requires
        old(rt)@.plugin is Some,
    ensures
        final(rt)@.plugin is Some,
        old(rt)@.plugin->0.told(PluginEvent::Unload, final(rt)@.plugin->0),
        final(rt)@ == (RuntimeView { plugin: final(rt)@.plugin, ..old(rt)@ }),
{
    rt.plugin().on_unload();
}

/// A script was loaded: its instance enters the registry under `ident`,
/// and the plugin is what its `on_amx_load` makes of it for that instance.
pub fn amx_load<P: SampPlugin>(rt: &mut Runtime<P>, ident: usize, amx: Amx)
    requires
        old(rt)@.plugin is Some,
    ensures
        final(rt)@.plugin is Some,
        old(rt)@.plugin->0.told(PluginEvent::AmxLoad(amx@), final(rt)@.plugin->0),
        final(rt)@ == (RuntimeView {
            plugin: final(rt)@.plugin,
            amx_list: old(rt)@.amx_list.insert(ident, amx),
            ..old(rt)@
        }),
{
    let _ = rt.insert_amx(ident, amx);
    rt.notify_amx_load(ident);
}

/// A script is about to be unloaded: its instance leaves the registry, and
/// the plugin is what its `on_amx_unload` makes of it for that instance.
/// Where the instance was not there, the plugin is not told and stays as
/// it is. Afterwards nothing can reach the instance through the registry.
pub fn amx_unload<P: SampPlugin>(rt: &mut Runtime<P>, ident: usize)
    requires
        old(rt)@.plugin is Some,
    ensures
        final(rt)@.plugin is Some,
        old(rt)@.amx_list.contains_key(ident) ==> old(rt)@.plugin->0.told(
            PluginEvent::AmxUnload(old(rt)@.amx_list[ident]@),
            final(rt)@.plugin->0,
        ),
        !old(rt)@.amx_list.contains_key(ident) ==> final(rt)@.plugin == old(rt)@.plugin,
        final(rt)@ == (RuntimeView {
            plugin: final(rt)@.plugin,
            amx_list: old(rt)@.amx_list.remove(ident),
            ..old(rt)@
        }),
        !final(rt)@.amx_list.contains_key(ident),
{
    match rt.remove_amx(ident) {
        Some(amx) => {
            rt.plugin().on_amx_unload(&amx);
        },
        None => {},
    }
}

/// One tick of the server has passed: the plugin is what its
/// `process_tick` makes of it. Nothing else changes.
pub fn process_tick<P: SampPlugin>(rt: &mut Runtime<P>)
    requires
        old(rt)@.plugin is Some,
    ensures
        final(rt)@.plugin is Some,
        old(rt)@.plugin->0.told(PluginEvent::Tick, final(rt)@.plugin->0),
        final(rt)@ == (RuntimeView { plugin: final(rt)@.plugin, ..old(rt)@ }),
{
    rt.plugin().process_tick();
}

} // verus!
