use rk_m87_sync::duration::Duration;
use rk_m87_sync::error::Error;
use rk_m87_sync::state::{SyncAction, SyncConfig, SyncState};
use rk_m87_sync::volume::{
    await_op_step, monitor_step, pa_connect_step, ConnectIteration, ConnectWait, ContextState,
    DaemonEvent, MonitorStep, OpIteration, OpWait, VolumeMonitor, MAX_CONNECT_ITERATIONS,
    MAX_OP_ITERATIONS,
};

fn at(millis: u64) -> Duration {
    Duration::from_millis(millis)
}

fn config() -> SyncConfig {
    SyncConfig {
        debounce: Duration::from_millis(500),
        time_sync_interval: Duration::from_secs(60),
        max_poll_timeout: Duration::from_secs(2),
        reconnect_delay: Duration::from_secs(2),
    }
}

/// A state right after its first sync at `t` ms.
fn synced_at(t: u64) -> SyncState {
    let mut s = SyncState::new(config(), at(t));
    assert_eq!(s.poll(at(t)), Some(SyncAction::SendSysparam { vol: 0 }));
    s.on_send_ok(at(t));
    s
}

#[test]
fn default_config_values() {
    let c = SyncConfig::default();
    assert_eq!(c.debounce, Duration::from_millis(500));
    assert_eq!(c.time_sync_interval, Duration::from_secs(1800));
    assert_eq!(c.max_poll_timeout, Duration::from_secs(2));
    assert_eq!(c.reconnect_delay, Duration::from_secs(2));
}

#[test]
fn repeated_volume_is_ignored() {
    let mut s = synced_at(0);
    s.on_volume_changed(40, at(100));
    assert_eq!(s.poll(at(600)), Some(SyncAction::SendSysparam { vol: 40 }));
    s.on_send_ok(at(600));
    // the same volume again starts no new debounce
    s.on_volume_changed(40, at(700));
    assert_eq!(s.poll(at(1300)), None);
    assert_eq!(s.next_deadline(at(1300)), Duration::from_millis(2000));
}

#[test]
fn device_down_only_reconnects() {
    let mut s = synced_at(0);
    s.on_volume_changed(30, at(10));
    s.on_pulse_lost(at(20));
    s.on_device_lost(at(100));
    // debounce, pulse restart and (later) periodic sync are all due, yet nothing happens
    assert_eq!(s.poll(at(2099)), None);
    assert_eq!(s.poll(at(2100)), Some(SyncAction::ConnectDevice));
}

#[test]
fn idle_until_deadline() {
    let mut s = synced_at(0);
    s.on_volume_changed(20, at(1000));
    let d = s.next_deadline(at(1200));
    assert_eq!(d, Duration::from_millis(300));
    assert_eq!(s.poll(at(1499)), None);
    assert_eq!(s.poll(at(1500)), Some(SyncAction::SendSysparam { vol: 20 }));
}

#[test]
fn zero_deadline_means_action() {
    let mut s = synced_at(0);
    s.on_volume_changed(20, at(1000));
    assert_eq!(s.next_deadline(at(5000)), Duration::from_millis(0));
    assert!(s.poll(at(5000)).is_some());
}

#[test]
fn no_busy_wait_while_device_down_and_pulse_due() {
    // the audio restart is overdue, but while the keyboard is down only its
    // reconnect counts for the deadline
    let mut s = synced_at(0);
    s.on_pulse_lost(at(0));
    s.on_device_lost(at(1000));
    assert_eq!(s.poll(at(2500)), None);
    assert_eq!(s.next_deadline(at(2500)), Duration::from_millis(500));
    assert_eq!(s.poll(at(3000)), Some(SyncAction::ConnectDevice));
}

#[test]
fn connect_results() {
    let mut s = synced_at(0);
    s.on_device_lost(at(0));
    assert_eq!(s.poll(at(2000)), Some(SyncAction::ConnectDevice));
    s.on_connect_result(false, at(2000));
    assert_eq!(s.poll(at(3999)), None);
    assert_eq!(s.poll(at(4000)), Some(SyncAction::ConnectDevice));
    s.on_connect_result(true, at(4000));
    assert_eq!(s.poll(at(4000)), Some(SyncAction::SendSysparam { vol: 0 }));
}

#[test]
fn poll_loop_ends_after_three_actions() {
    let mut s = synced_at(0);
    s.on_volume_changed(9, at(10));
    s.on_pulse_lost(at(20));
    s.on_device_lost(at(30));
    let now = at(5000);
    let mut actions = Vec::new();
    while let Some(a) = s.poll(now) {
        actions.push(a);
        match a {
            SyncAction::SendSysparam { .. } => s.on_send_ok(now),
            SyncAction::ConnectDevice => s.on_device_connected(now),
            SyncAction::SpawnPulseMonitor => s.on_pulse_connected(),
        }
    }
    assert_eq!(
        actions,
        vec![
            SyncAction::ConnectDevice,
            SyncAction::SpawnPulseMonitor,
            SyncAction::SendSysparam { vol: 9 }
        ]
    );
}

#[test]
fn reconnect_syncs_current_volume() {
    let mut s = synced_at(0);
    s.on_volume_changed(77, at(50));
    s.on_device_lost(at(60));
    s.on_device_connected(at(70));
    assert_eq!(s.poll(at(70)), Some(SyncAction::SendSysparam { vol: 77 }));
}

#[test]
fn pulse_restart_has_priority_over_sync() {
    let mut s = synced_at(0);
    s.on_pulse_lost(at(0));
    s.on_device_lost(at(100));
    s.on_device_connected(at(3000));
    assert_eq!(s.poll(at(3000)), Some(SyncAction::SpawnPulseMonitor));
    s.on_pulse_connected();
    assert_eq!(s.poll(at(3000)), Some(SyncAction::SendSysparam { vol: 0 }));
}

#[test]
fn events_update_state() {
    let mut s = synced_at(0);
    assert!(s.on_event(DaemonEvent::VolumeChanged(12), at(10)));
    assert_eq!(s.poll(at(510)), Some(SyncAction::SendSysparam { vol: 12 }));
    assert!(s.on_event(DaemonEvent::PulseDisconnected, at(600)));
    assert_eq!(s.poll(at(2600)), Some(SyncAction::SpawnPulseMonitor));
    assert!(!s.on_event(DaemonEvent::Shutdown, at(700)));
}

#[test]
fn send_results() {
    let mut s = synced_at(0);
    s.on_volume_changed(5, at(10));
    s.on_send_result(&Ok(true), at(20));
    assert_eq!(s.poll(at(1000)), None);

    let mut s = synced_at(0);
    s.on_send_result(&Ok(false), at(20));
    assert_eq!(s.poll(at(2019)), None);
    assert_eq!(s.poll(at(2020)), Some(SyncAction::ConnectDevice));

    let mut s = synced_at(0);
    s.on_send_result(&Err(Error::Crc), at(20));
    assert_eq!(s.poll(at(2020)), Some(SyncAction::ConnectDevice));
}

#[test]
fn periodic_sync_repeats_until_sent() {
    let mut s = synced_at(0);
    assert_eq!(s.poll(at(60_000)), Some(SyncAction::SendSysparam { vol: 0 }));
    // nothing changes until the send is confirmed
    assert_eq!(s.poll(at(60_000)), Some(SyncAction::SendSysparam { vol: 0 }));
    s.on_send_ok(at(60_000));
    assert_eq!(s.poll(at(60_001)), None);
}

#[test]
fn volume_monitor_reports_changes_only() {
    let mut m = VolumeMonitor::new();
    assert!(m.observe(30));
    assert!(!m.observe(30));
    assert!(m.observe(31));
    assert!(m.observe(30));
}

#[test]
fn audio_server_waits() {
    assert_eq!(pa_connect_step(0, ConnectIteration::Failed), ConnectWait::IterateFailed);
    assert_eq!(pa_connect_step(3, ConnectIteration::Ran(ContextState::Ready)), ConnectWait::Ready);
    assert_eq!(
        pa_connect_step(3, ConnectIteration::Ran(ContextState::Terminated)),
        ConnectWait::ContextFailed
    );
    assert_eq!(pa_connect_step(3, ConnectIteration::Ran(ContextState::Pending)), ConnectWait::Continue);
    assert_eq!(
        pa_connect_step(MAX_CONNECT_ITERATIONS - 1, ConnectIteration::Ran(ContextState::Pending)),
        ConnectWait::TimedOut
    );
    assert_eq!(await_op_step(0, OpIteration::Failed), OpWait::Disconnected);
    assert_eq!(await_op_step(0, OpIteration::Ran { running: true }), OpWait::Continue);
    assert_eq!(await_op_step(5, OpIteration::Ran { running: false }), OpWait::Done);
    assert_eq!(await_op_step(MAX_OP_ITERATIONS - 1, OpIteration::Ran { running: true }), OpWait::Done);
    assert_eq!(monitor_step(true, false), MonitorStep::Stop);
    assert_eq!(monitor_step(false, false), MonitorStep::ReportDisconnect);
    assert_eq!(monitor_step(false, true), MonitorStep::Continue);
}
