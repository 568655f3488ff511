use samp_sdk::amx::Amx;
use samp_sdk::interlayer;
use samp_sdk::plugin::{PluginData, PluginEvent, SampPlugin};
use samp_sdk::consts::ServerData;
use samp_sdk::runtime::Runtime;
use samp_sdk::thread::{process, AmxLockError, AsyncAmx, SampThread, TryLockCause};

#[derive(Debug, Default, PartialEq)]
struct Recorder {
    loads: usize,
    unloads: usize,
    ticks: usize,
    amx_loaded: Vec<usize>,
    amx_unloaded: Vec<usize>,
}

impl SampPlugin for Recorder {
    fn told(self, _event: PluginEvent, _after: Recorder) -> bool {
        true
    }

    fn on_load(&mut self) {
        self.loads += 1;
    }

    fn on_unload(&mut self) {
        self.unloads += 1;
    }

    fn on_amx_load(&mut self, amx: &Amx) {
        self.amx_loaded.push(amx.cells());
    }

    fn on_amx_unload(&mut self, amx: &Amx) {
        self.amx_unloaded.push(amx.cells());
    }

    fn process_tick(&mut self) {
        self.ticks += 1;
    }
}

fn amx_of_cells(cells: usize) -> Amx {
    let top = (cells * 4) as i32;
    Amx::new(vec![0; cells], top, top, top).unwrap()
}

fn runtime() -> Runtime<Recorder> {
    let mut rt = Runtime::initialize();
    rt.set_plugin(Recorder::default());
    rt
}

#[test]
fn fresh_runtime() {
    let rt: Runtime<Recorder> = Runtime::initialize();
    assert!(!rt.has_plugin());
    assert!(rt.is_default_logger_enabled());
    assert!(rt.amx_list().is_empty());
    assert_eq!(rt.supports().bits(), 0x10200);
    assert_eq!(rt.server_data_slot(ServerData::AmxExports, 4), Some(64));
}

#[test]
fn supports_reports_ticks_when_enabled() {
    let mut rt = runtime();
    assert_eq!(interlayer::supports(&rt), 0x10200);
    rt.enable_process_tick();
    assert_eq!(interlayer::supports(&rt), 0x30200);
    rt.enable_process_tick();
    assert_eq!(interlayer::supports(&rt), 0x30200);
}

#[test]
fn load_keeps_the_server_table_and_tells_the_plugin() {
    let mut rt = runtime();
    interlayer::load(&mut rt, 0x4000);
    assert_eq!(rt.plugin_cast().loads, 1);
    assert_eq!(rt.server_data_slot(ServerData::Logprintf, 4), Some(0x4000));
    assert_eq!(rt.server_data_slot(ServerData::AmxExports, 4), Some(0x4040));
    assert_eq!(rt.server_data_slot(ServerData::AmxExports, 8), Some(0x4080));
    assert_eq!(rt.server_data_slot(ServerData::CallPublicGm, usize::MAX), None);
    interlayer::unload(&mut rt);
    assert_eq!(rt.plugin_cast().unloads, 1);
    assert_eq!(rt.plugin_cast().loads, 1);
}

#[test]
fn process_tick_tells_the_plugin() {
    let mut rt = runtime();
    interlayer::process_tick(&mut rt);
    interlayer::process_tick(&mut rt);
    assert_eq!(rt.plugin_cast().ticks, 2);
    rt.plugin().ticks = 10;
    assert_eq!(rt.plugin_cast().ticks, 10);
}

#[test]
fn registry_inserts_and_removes_by_identity() {
    let mut rt = runtime();
    interlayer::amx_load(&mut rt, 0x1000, amx_of_cells(3));
    interlayer::amx_load(&mut rt, 0x2000, amx_of_cells(5));
    assert_eq!(rt.amx_list().len(), 2);
    assert_eq!(rt.get_amx(0x1000).unwrap().cells(), 3);
    assert_eq!(rt.get_amx(0x2000).unwrap().cells(), 5);
    assert!(rt.get_amx(0x3000).is_none());
    assert_eq!(rt.plugin_cast().amx_loaded, vec![3, 5]);
    interlayer::amx_unload(&mut rt, 0x1000);
    assert!(rt.get_amx(0x1000).is_none());
    assert_eq!(rt.amx_list().len(), 1);
    assert_eq!(rt.plugin_cast().amx_unloaded, vec![3]);
    // an instance that is not there is not reported
    interlayer::amx_unload(&mut rt, 0x1000);
    assert_eq!(rt.plugin_cast().amx_unloaded, vec![3]);
}

#[test]
fn insert_replaces_an_instance_with_the_same_identity() {
    let mut rt = runtime();
    assert_eq!(rt.insert_amx(7, amx_of_cells(1)).unwrap().cells(), 1);
    assert_eq!(rt.insert_amx(7, amx_of_cells(2)).unwrap().cells(), 2);
    assert_eq!(rt.amx_list().len(), 1);
    assert_eq!(rt.remove_amx(7).unwrap().cells(), 2);
    assert!(rt.remove_amx(7).is_none());
}

#[test]
fn default_logger_can_be_disabled() {
    let mut rt = runtime();
    rt.disable_default_logger();
    assert!(!rt.is_default_logger_enabled());
    assert!(rt.has_plugin());
}

#[test]
fn plugin_data_keeps_the_plugin() {
    let mut data: PluginData<Recorder> = PluginData::init();
    assert!(!data.has_plugin());
    assert_eq!(data.supports().bits(), 0x10200);
    data.set_plugin(Recorder::default());
    assert!(data.has_plugin());
    data.enable_process_tick();
    assert_eq!(data.supports().bits(), 0x30200);
    data.get_plugin().on_load();
    data.get_plugin().process_tick();
    assert_eq!(data.plugin_cast().loads, 1);
    assert_eq!(data.plugin_cast().ticks, 1);
}

#[test]
fn tick_opens_and_closes_the_window() {
    let mut thread = SampThread::new();
    assert!(!thread.is_ready());
    thread.make_ready();
    assert!(thread.is_ready());
    thread.wait_other_threads();
    assert!(!thread.is_ready());
    thread.make_ready();
    process(&mut thread);
    assert!(!thread.is_ready());
    assert!(!thread.is_locked());
}

#[test]
fn lock_is_exclusive() {
    let mut thread = SampThread::new();
    let guard = thread.lock().unwrap();
    assert!(thread.is_locked());
    assert_eq!(
        thread.try_lock().unwrap_err(),
        AmxLockError::TryLockError(TryLockCause::WouldBlock)
    );
    thread.unlock(guard, false);
    assert!(!thread.is_locked());
    let guard = thread.try_lock().unwrap();
    thread.unlock(guard, false);
}

#[test]
fn a_poisoned_lock_is_rebuilt_on_the_next_tick() {
    let mut thread = SampThread::new();
    let guard = thread.lock().unwrap();
    thread.unlock(guard, true);
    assert_eq!(thread.lock().unwrap_err(), AmxLockError::PoisonError);
    assert_eq!(
        thread.try_lock().unwrap_err(),
        AmxLockError::TryLockError(TryLockCause::Poisoned)
    );
    assert!(!thread.is_locked());
    process(&mut thread);
    let guard = thread.lock().unwrap();
    thread.unlock(guard, false);
}

#[test]
fn background_task_reaches_a_loaded_instance() {
    let mut rt = runtime();
    let _ = rt.insert_amx(0x1000, amx_of_cells(4));
    let mut thread = SampThread::new();
    thread.make_ready();
    let handle = AsyncAmx::new(0x1000);
    let cells = match handle.lock(&mut thread, &rt) {
        Ok((guard, amx)) => {
            let cells = amx.cells();
            thread.unlock(guard, false);
            cells
        }
        Err(_) => 0,
    };
    assert_eq!(cells, 4);
    assert!(!thread.is_locked());
    let held = handle.try_lock(&mut thread, &rt).unwrap();
    assert!(thread.is_locked());
    assert_eq!(
        handle.try_lock(&mut thread, &rt).unwrap_err(),
        AmxLockError::TryLockError(TryLockCause::WouldBlock)
    );
    thread.unlock(held.0, false);
}

#[test]
fn background_task_finds_an_unloaded_instance_gone() {
    let mut rt = runtime();
    let _ = rt.insert_amx(0x1000, amx_of_cells(4));
    let _ = rt.remove_amx(0x1000);
    let mut thread = SampThread::new();
    thread.make_ready();
    let handle = AsyncAmx::new(0x1000);
    assert_eq!(handle.lock(&mut thread, &rt).unwrap_err(), AmxLockError::AmxGone);
    assert!(!thread.is_locked());
    assert_eq!(handle.try_lock(&mut thread, &rt).unwrap_err(), AmxLockError::AmxGone);
    assert!(!thread.is_locked());
}

#[test]
fn lock_error_messages() {
    assert_eq!(AmxLockError::AmxGone.message(), "AMX instance is unloaded");
    assert_eq!(
        AmxLockError::PoisonError.message(),
        "poisoned lock: another task failed inside"
    );
    assert_eq!(
        AmxLockError::TryLockError(TryLockCause::WouldBlock).message(),
        "try_lock failed because the operation would block"
    );
}
