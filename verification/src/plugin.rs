//! The interface of a plugin, and what the runtime keeps about it.
use vstd::prelude::*;
use vstd::string::StringSliceAdditionalSpecFns;

use crate::amx::{Amx, AmxView};
use crate::cell::repr::AmxCell;
use crate::consts::{Supports, SUPPORTS_AMX_NATIVES, SUPPORTS_PROCESS_TICK, SUPPORTS_VERSION};
use crate::error::{AmxError, AmxResult};

verus! {

/// A notification of the server to a plugin.
pub enum PluginEvent {
    /// The server has loaded the plugin.
    Load,
    /// The server is about to unload the plugin.
    Unload,
    /// A script was loaded into an instance, which is in this state.
    AmxLoad(AmxView),
    /// The script of an instance, which is in this state, is about to be
    /// unloaded.
    AmxUnload(AmxView),
    /// One tick of the server has passed.
    Tick,
}

/// What a plugin is told by the server. A plugin says with `told` what a
/// notification may do to it, and each of its notifications keeps to that.
pub trait SampPlugin: Sized {
    /// Whether the plugin `self` may be `after` once it was told `event`.
    spec fn told(self, event: PluginEvent, after: Self) -> bool;

    /// The server has loaded the plugin.
    fn on_load(&mut self)
        ensures
            (*old(self)).told(PluginEvent::Load, *final(self)),
    ;

    /// The server is about to unload the plugin.
    fn on_unload(&mut self)
        ensures
            (*old(self)).told(PluginEvent::Unload, *final(self)),
    ;

    /// A script was loaded into `amx`.
    fn on_amx_load(&mut self, amx: &Amx)
        ensures
            (*old(self)).told(PluginEvent::AmxLoad(amx@), *final(self)),
    ;

    /// The script in `amx` is about to be unloaded.
    fn on_amx_unload(&mut self, amx: &Amx)
        ensures
            (*old(self)).told(PluginEvent::AmxUnload(amx@), *final(self)),
    ;

    /// One tick of the server has passed.
    fn process_tick(&mut self)
        ensures
            (*old(self)).told(PluginEvent::Tick, *final(self)),
    ;
}

/// The flags that a plugin reports: the version and the natives always,
/// the ticks where it asked for them.
pub open spec fn supports_bits(process_tick: bool) -> u32 {
    if process_tick {
        0x30200
    } else {
        0x10200
    }
}

/// The flags that a plugin reports.
pub fn supports_flags(process_tick: bool) -> (supports: Supports)
    ensures
        supports@ == supports_bits(process_tick),
{
    let mut supports: Supports = Supports::version().union(Supports::amx_natives());
    assert(SUPPORTS_VERSION | SUPPORTS_AMX_NATIVES == 0x10200) by (bit_vector);
    if process_tick {
        supports.toggle(Supports::process_tick());
        assert(0x10200u32 ^ SUPPORTS_PROCESS_TICK == 0x30200) by (bit_vector);
    }
    supports
}

/// What a `PluginData` is to a specification.
pub struct PluginDataView<P> {
    /// The plugin, once it is set.
    pub plugin: Option<P>,
    /// Whether the plugin asked for ticks.
    pub process_tick: bool,
}

/// The plugin of this process and what it asked of the server.
pub struct PluginData<P: SampPlugin> {
    plugin: Option<P>,
    process_tick: bool,
}

impl<P: SampPlugin> View for PluginData<P> {
    type V = PluginDataView<P>;

    closed spec fn view(&self) -> PluginDataView<P> {
        PluginDataView { plugin: self.plugin, process_tick: self.process_tick }
    }
}

impl<P: SampPlugin> PluginData<P> {
    /// The data of a process whose plugin is not set yet.
    pub fn init() -> (data: PluginData<P>)
        ensures
            data@ == (PluginDataView::<P> { plugin: None, process_tick: false }),
    {
        PluginData { plugin: None, process_tick: false }
    }

    /// Sets the plugin, in place of the one that was set before.
    pub fn set_plugin(&mut self, plugin: P)
        ensures
            final(self)@ == (PluginDataView { plugin: Some(plugin), ..old(self)@ }),
    {
        self.plugin = Some(plugin);
    }

    /// Asks for a notification on every tick of the server.
    pub fn enable_process_tick(&mut self)
        ensures
            final(self)@ == (PluginDataView { process_tick: true, ..old(self)@ }),
    {
        self.process_tick = true;
    }

    /// Whether the plugin is set.
    pub fn has_plugin(&self) -> (set: bool)
        ensures
            set == self@.plugin is Some,
    {
        self.plugin.is_some()
    }

    /// The plugin, as the type it was set with.
    pub fn plugin_cast(&self) -> (plugin: &P)
        requires
            self@.plugin is Some,
        ensures
            *plugin == self@.plugin->0,
    {
        self.plugin.as_ref().unwrap()
    }

    /// The flags that the plugin reports to the server.
    pub fn supports(&self) -> (supports: Supports)
        ensures
            supports@ == supports_bits(self@.process_tick),
    {
        supports_flags(self.process_tick)
    }

    /// The plugin, to notify it.
    pub fn get_plugin(&mut self) -> (plugin: &mut P)
        requires
            old(self)@.plugin is Some,
        ensures
            *plugin == old(self)@.plugin->0,
            final(self)@ == (PluginDataView { plugin: Some(*final(plugin)), ..old(self)@ }),
    {
        match &mut self.plugin {
            Some(plugin) => plugin,
            None => vstd::pervasive::unreached(),
        }
    }
}

/// The cell that a native returns for `value`.
pub fn convert_return_value<T: AmxCell>(value: T) -> (cell: i32)
    ensures
        cell == value.as_cell_spec(),
{
    value.as_cell()
}

/// The cell that a native hands back to the script: that of its value, or
/// zero where the native failed. A script has no other sign of a failure.
pub fn native_return<T: AmxCell>(outcome: AmxResult<T>) -> (cell: i32)
    ensures
        outcome is Ok ==> cell == outcome->Ok_0.as_cell_spec(),
        outcome is Err ==> cell == 0,
{
    match outcome {
        Ok(value) => convert_return_value(value),
        Err(_) => 0,
    }
}

/// The name of a native or a public as the AMX takes it: the bytes of the
/// name and a zero byte after them. A name that holds a zero byte has no
/// such form and counts as not found.
pub fn c_name(name: &str) -> (bytes: AmxResult<Vec<u8>>)
    ensures
        name.spec_bytes().contains(0u8) ==> bytes == Err::<Vec<u8>, AmxError>(
            AmxError::NotFound,
        ),
        !name.spec_bytes().contains(0u8) ==> bytes is Ok && bytes->Ok_0@ == name.spec_bytes().push(
            0u8,
        ),
{
    let source: &[u8] = name.as_bytes();
    let mut bytes: Vec<u8> = Vec::new();
    let mut idx: usize = 0;
    while idx < source.len()
        invariant
            idx <= source@.len(),
            source@ == name.spec_bytes(),
            bytes@ == source@.subrange(0, idx as int),
            forall|i: int| 0 <= i < idx ==> source@[i] != 0,
        decreases source@.len() - idx,
    {
        if source[idx] == 0 {
            assert(source@.contains(0u8));
            return Err(AmxError::NotFound);
        }
        bytes.push(source[idx]);
        assert(bytes@ =~= source@.subrange(0, idx + 1));
        idx = idx + 1;
    }
    assert(source@.subrange(0, idx as int) =~= source@);
    bytes.push(0);
    Ok(bytes)
}

} // verus!
