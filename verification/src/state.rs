//! The daemon's scheduling state: when to send the time and volume to the
//! keyboard, when to reconnect the device and the audio monitor.
use vstd::prelude::*;

use crate::duration::{lemma_span_view, max_nanos, Duration};
use crate::error::Error;
use crate::volume::DaemonEvent;

verus! {

/// Timing parameters of the daemon.
pub struct SyncConfig {
    /// Quiet period after the last volume change before the volume is sent.
    pub debounce: Duration,
    /// Interval between two periodic time syncs.
    pub time_sync_interval: Duration,
    /// Longest wait between two polls of the state.
    pub max_poll_timeout: Duration,
    /// Delay before a lost device or audio monitor is reconnected.
    pub reconnect_delay: Duration,
}

impl Default for SyncConfig {
    fn default() -> (c: SyncConfig)
        ensures
            c.debounce@ == 500_000_000,
            c.time_sync_interval@ == 1_800_000_000_000,
            c.max_poll_timeout@ == 2_000_000_000,
            c.reconnect_delay@ == 2_000_000_000,
    {
        SyncConfig {
            debounce: Duration::from_millis(500),
            time_sync_interval: Duration::from_secs(30 * 60),
            max_poll_timeout: Duration::from_secs(2),
            reconnect_delay: Duration::from_secs(2),
        }
    }
}

/// What the daemon has to do next.
#[derive(Clone, Copy, Debug, PartialEq, Eq, Structural)]
pub enum SyncAction {
    /// Send the time together with this volume (in percent).
    SendSysparam { vol: u8 },
    /// Try to connect the keyboard again.
    ConnectDevice,
    /// Start the audio monitor again.
    SpawnPulseMonitor,
}

/// Abstract state of [`SyncState`]: every span is a number of nanoseconds.
pub struct SyncModel {
    pub debounce: nat,
    pub time_sync_interval: nat,
    pub max_poll_timeout: nat,
    pub reconnect_delay: nat,
    pub last_vol: Option<u8>,
    pub vol_dirty: bool,
    pub vol_last_change: nat,
    pub next_time_sync: nat,
    pub device_reconnect_at: Option<nat>,
    pub pulse_reconnect_at: Option<nat>,
    pub initial_sync_pending: bool,
}

pub open spec fn opt_view(d: Option<Duration>) -> Option<nat> {
    match d {
        Some(x) => Some(x@),
        None => None,
    }
}

pub open spec fn min_nat(a: nat, b: nat) -> nat {
    if a <= b {
        a
    } else {
        b
    }
}

impl SyncModel {
    /// The state right after start-up at `now`: a time sync is due at once.
    pub open spec fn initial(
        debounce: nat,
        time_sync_interval: nat,
        max_poll_timeout: nat,
        reconnect_delay: nat,
        now: nat,
    ) -> SyncModel {
        SyncModel {
            debounce,
            time_sync_interval,
            max_poll_timeout,
            reconnect_delay,
            last_vol: None,
            vol_dirty: false,
            vol_last_change: now,
            next_time_sync: now,
            device_reconnect_at: None,
            pulse_reconnect_at: None,
            initial_sync_pending: true,
        }
    }

    /// The volume that a send carries: the last one reported, or 0.
    pub open spec fn volume(self) -> u8 {
        match self.last_vol {
            Some(v) => v,
            None => 0,
        }
    }

    pub open spec fn volume_changed(self, vol: u8, now: nat) -> SyncModel {
        if self.last_vol == Some(vol) {
            self
        } else {
            SyncModel { last_vol: Some(vol), vol_dirty: true, vol_last_change: now, ..self }
        }
    }

    pub open spec fn device_down(self) -> bool {
        self.device_reconnect_at is Some
    }

    pub open spec fn pulse_due(self, now: nat) -> bool {
        match self.pulse_reconnect_at {
            Some(at) => now >= at,
            None => false,
        }
    }

    pub open spec fn volume_due(self, now: nat) -> bool {
        self.vol_dirty && now >= self.vol_last_change + self.debounce
    }

    /// The state after a poll at `now`, and the action that the poll returns.
    pub open spec fn poll(self, now: nat) -> (SyncModel, Option<SyncAction>) {
        match self.device_reconnect_at {
            Some(at) => if now >= at {
                (SyncModel { device_reconnect_at: None, ..self }, Some(SyncAction::ConnectDevice))
            } else {
                (self, None)
            },
            None => if self.pulse_due(now) {
                (
                    SyncModel { pulse_reconnect_at: None, ..self },
                    Some(SyncAction::SpawnPulseMonitor),
                )
            } else if self.initial_sync_pending && now >= self.next_time_sync {
                (
                    SyncModel { initial_sync_pending: false, ..self },
                    Some(SyncAction::SendSysparam { vol: self.volume() }),
                )
            } else if self.volume_due(now) {
                (
                    SyncModel { vol_dirty: false, ..self },
                    Some(SyncAction::SendSysparam { vol: self.volume() }),
                )
            } else if !self.initial_sync_pending && now >= self.next_time_sync {
                (self, Some(SyncAction::SendSysparam { vol: self.volume() }))
            } else {
                (self, None)
            },
        }
    }

    /// A poll at `now` reaches the debounce check, which adds two spans.
    pub open spec fn poll_reaches_debounce(self, now: nat) -> bool {
        &&& self.device_reconnect_at is None
        &&& !self.pulse_due(now)
        &&& !(self.initial_sync_pending && now >= self.next_time_sync)
        &&& self.vol_dirty
    }

    /// The spans that a poll at `now` adds stay representable.
    pub open spec fn poll_in_range(self, now: nat) -> bool {
        self.poll_reaches_debounce(now) ==> self.vol_last_change + self.debounce <= max_nanos()
    }

    /// The earliest instant at which a poll may have something to do, capped at
    /// `now + max_poll_timeout`. While the keyboard is down only its reconnect
    /// counts, since a poll then asks for nothing else.
    pub open spec fn earliest_event(self, now: nat) -> nat {
        let e0 = now + self.max_poll_timeout;
        match self.device_reconnect_at {
            Some(at) => min_nat(e0, at),
            None => {
                let e1 = match self.pulse_reconnect_at {
                    Some(at) => min_nat(e0, at),
                    None => e0,
                };
                let e2 = if self.vol_dirty {
                    min_nat(e1, self.vol_last_change + self.debounce)
                } else {
                    e1
                };
                min_nat(e2, self.next_time_sync)
            },
        }
    }

    /// How long to wait from `now` before polling again.
    pub open spec fn next_deadline(self, now: nat) -> nat {
        let e = self.earliest_event(now);
        if e >= now {
            (e - now) as nat
        } else {
            0
        }
    }

    /// The spans that `next_deadline(now)` adds stay representable.
    pub open spec fn deadline_in_range(self, now: nat) -> bool {
        &&& now + self.max_poll_timeout <= max_nanos()
        &&& (self.device_reconnect_at is None && self.vol_dirty) ==> self.vol_last_change
            + self.debounce <= max_nanos()
    }

    pub open spec fn send_ok(self, now: nat) -> SyncModel {
        SyncModel { next_time_sync: now + self.time_sync_interval, vol_dirty: false, ..self }
    }

    pub open spec fn device_lost(self, now: nat) -> SyncModel {
        SyncModel { device_reconnect_at: Some(now + self.reconnect_delay), ..self }
    }

    pub open spec fn pulse_lost(self, now: nat) -> SyncModel {
        SyncModel { pulse_reconnect_at: Some(now + self.reconnect_delay), ..self }
    }

    pub open spec fn device_connected(self, now: nat) -> SyncModel {
        SyncModel {
            device_reconnect_at: None,
            next_time_sync: now,
            initial_sync_pending: true,
            ..self
        }
    }

    pub open spec fn pulse_connected(self) -> SyncModel {
        SyncModel { pulse_reconnect_at: None, ..self }
    }
}

/// A new scheduler asks for a sync, with volume 0, at the instant it is created.
pub proof fn law_initial_sync_is_immediate(
    debounce: nat,
    time_sync_interval: nat,
    max_poll_timeout: nat,
    reconnect_delay: nat,
    now: nat,
)
    ensures
        SyncModel::initial(debounce, time_sync_interval, max_poll_timeout, reconnect_delay, now).poll(
            now,
        ).1 == Some(SyncAction::SendSysparam { vol: 0 }),
{
}

/// Every send carries the last volume reported, or 0 when none was.
pub proof fn law_send_carries_last_volume(s: SyncModel, now: nat, vol: u8)
    requires
        s.poll(now).1 == Some(SyncAction::SendSysparam { vol }),
    ensures
        vol == s.volume(),
{
}

/// While the keyboard is down, a poll asks for nothing but the reconnect, and
/// asks for it exactly when its time has come.
pub proof fn law_device_down_only_reconnects(s: SyncModel, now: nat)
    requires
        s.device_reconnect_at is Some,
    ensures
        s.poll(now).1 is None || s.poll(now).1 == Some(SyncAction::ConnectDevice),
        s.poll(now).1 == Some(SyncAction::ConnectDevice) <==> now >= s.device_reconnect_at->0,
{
}

/// A repeated volume leaves the state as it was.
pub proof fn law_repeated_volume_ignored(s: SyncModel, vol: u8, now: nat)
    requires
        s.last_vol == Some(vol),
    ensures
        s.volume_changed(vol, now) == s,
{
}

/// A volume change alone never causes a send before its quiet period is over:
/// a send before then is a time sync that was due anyway.
pub proof fn law_volume_debounced(s: SyncModel, vol: u8, changed_at: nat, now: nat)
    requires
        s.last_vol != Some(vol),
        now < changed_at + s.debounce,
        s.volume_changed(vol, changed_at).poll(now).1 matches Some(SyncAction::SendSysparam { .. }),
    ensures
        s.next_time_sync <= now,
{
}

/// A lost keyboard is reconnected no sooner and no later than the reconnect delay.
pub proof fn law_device_reconnect_after_delay(s: SyncModel, lost_at: nat, now: nat)
    requires
        lost_at <= now,
    ensures
        s.device_lost(lost_at).poll(now).1 == (if now >= lost_at + s.reconnect_delay {
            Some(SyncAction::ConnectDevice)
        } else {
            None
        }),
{
}

/// Right after the keyboard is reconnected, the time is due at once: the
/// deadline is zero, and the next poll sends the time and the current volume,
/// unless the audio monitor's restart is due first.
pub proof fn law_reconnect_syncs_at_once(s: SyncModel, now: nat)
    ensures
        s.device_connected(now).next_deadline(now) == 0,
        !s.pulse_due(now) ==> s.device_connected(now).poll(now).1 == Some(
            SyncAction::SendSysparam { vol: s.volume() },
        ),
{
}

/// A send that went through resets both the volume debounce and the periodic
/// timer: with no reconnect pending, nothing is sent again until one interval
/// has passed.
pub proof fn law_no_send_after_sync_until_interval(s: SyncModel, now: nat, later: nat)
    requires
        s.poll(now).1 matches Some(SyncAction::SendSysparam { .. }),
        s.pulse_reconnect_at is None,
        now <= later < now + s.time_sync_interval,
    ensures
        s.poll(now).0.send_ok(now).poll(later).1 is None,
{
}

/// While the keyboard is up, the time is synced again once an interval has
/// passed since the last send (unless the audio monitor's restart comes first).
pub proof fn law_periodic_sync_after_interval(s: SyncModel, sent_at: nat, now: nat)
    requires
        s.device_reconnect_at is None,
        !s.pulse_due(now),
        now >= sent_at + s.time_sync_interval,
    ensures
        s.send_ok(sent_at).poll(now).1 == Some(SyncAction::SendSysparam { vol: s.volume() }),
{
}

/// While the keyboard is up, a new volume is sent once its quiet period is
/// over (unless the audio monitor's restart comes first).
pub proof fn law_volume_sent_after_quiet_period(s: SyncModel, vol: u8, changed_at: nat, now: nat)
    requires
        s.device_reconnect_at is None,
        s.last_vol != Some(vol),
        !s.pulse_due(now),
        now >= changed_at + s.debounce,
    ensures
        s.volume_changed(vol, changed_at).poll(now).1 == Some(SyncAction::SendSysparam { vol }),
{
}

/// Nothing becomes due before the deadline: every poll between `now` and
/// `now + next_deadline(now)` returns nothing and changes nothing.
pub proof fn law_idle_until_deadline(s: SyncModel, now: nat, t: nat)
    requires
        now <= t < now + s.next_deadline(now),
    ensures
        s.poll(t) == (s, None::<SyncAction>),
{
}

/// No busy waiting: a zero deadline means that a poll at `now` has something
/// to do (given a nonzero `max_poll_timeout`).
pub proof fn law_zero_deadline_means_action(s: SyncModel, now: nat)
    requires
        s.max_poll_timeout > 0,
        s.next_deadline(now) == 0,
    ensures
        s.poll(now).1 is Some,
{
}

/// A reported volume is always recorded, whether the keyboard is up or down, so
/// the next send carries it. A new volume is marked for sending as of the instant
/// it was reported; the reconnects and the time sync stay scheduled as they were.
pub proof fn law_volume_always_recorded(s: SyncModel, vol: u8, now: nat)
    ensures
        s.volume_changed(vol, now).last_vol == Some(vol),
        s.volume_changed(vol, now).volume() == vol,
        s.last_vol != Some(vol) ==> s.volume_changed(vol, now).vol_dirty
            && s.volume_changed(vol, now).vol_last_change == now,
        s.volume_changed(vol, now).device_reconnect_at == s.device_reconnect_at,
        s.volume_changed(vol, now).pulse_reconnect_at == s.pulse_reconnect_at,
        s.volume_changed(vol, now).next_time_sync == s.next_time_sync,
        s.volume_changed(vol, now).initial_sync_pending == s.initial_sync_pending,
{
}

/// A volume reported while the keyboard is down is not lost: once the reconnect
/// is due, the poll asks for it, and the sync that follows the reconnect carries
/// that volume (unless the audio monitor's restart is due first).
pub proof fn law_volume_while_down_sent_on_reconnect(
    s: SyncModel,
    vol: u8,
    changed_at: nat,
    now: nat,
)
    requires
        s.device_reconnect_at matches Some(at) && at <= now,
        !s.pulse_due(now),
    ensures
        s.volume_changed(vol, changed_at).poll(now).1 == Some(SyncAction::ConnectDevice),
        s.volume_changed(vol, changed_at).poll(now).0.device_connected(now).poll(now).1 == Some(
            SyncAction::SendSysparam { vol },
        ),
{
}

/// A lost audio monitor is always scheduled for a restart one reconnect delay
/// later, whether the keyboard is up or down; nothing else changes.
pub proof fn law_pulse_lost_schedules_restart(s: SyncModel, lost_at: nat)
    ensures
        s.pulse_lost(lost_at).pulse_reconnect_at == Some(lost_at + s.reconnect_delay),
        s.pulse_lost(lost_at).device_reconnect_at == s.device_reconnect_at,
        s.pulse_lost(lost_at).last_vol == s.last_vol,
        s.pulse_lost(lost_at).vol_dirty == s.vol_dirty,
        s.pulse_lost(lost_at).next_time_sync == s.next_time_sync,
        s.pulse_lost(lost_at).initial_sync_pending == s.initial_sync_pending,
{
}

/// A lost audio monitor is restarted by a poll once one reconnect delay has
/// passed while the keyboard is up, also when the keyboard was down when the
/// monitor was lost and has been reconnected since; never before that delay.
pub proof fn law_pulse_restart_after_delay(s: SyncModel, lost_at: nat, connected_at: nat, now: nat)
    ensures
        now >= lost_at + s.reconnect_delay && s.device_reconnect_at is None ==> s.pulse_lost(
            lost_at,
        ).poll(now).1 == Some(SyncAction::SpawnPulseMonitor),
        now >= lost_at + s.reconnect_delay ==> s.pulse_lost(lost_at).device_connected(
            connected_at,
        ).poll(now).1 == Some(SyncAction::SpawnPulseMonitor),
        now < lost_at + s.reconnect_delay ==> s.pulse_lost(lost_at).poll(now).1 != Some(
            SyncAction::SpawnPulseMonitor,
        ),
{
}

/// What each answer does: a send that went through schedules the next time
/// sync one interval later and clears the pending volume; a lost keyboard is
/// reconnected one delay later; a reconnected keyboard is synced at once; a
/// running audio monitor needs no restart. The volume is kept by every answer,
/// and each leaves the other schedules as they were.
pub proof fn law_answer_effects(s: SyncModel, t: nat)
    ensures
        s.send_ok(t).next_time_sync == t + s.time_sync_interval,
        !s.send_ok(t).vol_dirty,
        s.send_ok(t).last_vol == s.last_vol,
        s.send_ok(t).device_reconnect_at == s.device_reconnect_at,
        s.send_ok(t).pulse_reconnect_at == s.pulse_reconnect_at,
        s.send_ok(t).initial_sync_pending == s.initial_sync_pending,
        s.device_lost(t).device_reconnect_at == Some(t + s.reconnect_delay),
        s.device_lost(t).last_vol == s.last_vol,
        s.device_lost(t).vol_dirty == s.vol_dirty,
        s.device_lost(t).pulse_reconnect_at == s.pulse_reconnect_at,
        s.device_lost(t).next_time_sync == s.next_time_sync,
        s.device_lost(t).initial_sync_pending == s.initial_sync_pending,
        s.device_connected(t).device_reconnect_at is None,
        s.device_connected(t).next_time_sync == t,
        s.device_connected(t).initial_sync_pending,
        s.device_connected(t).last_vol == s.last_vol,
        s.device_connected(t).vol_dirty == s.vol_dirty,
        s.device_connected(t).pulse_reconnect_at == s.pulse_reconnect_at,
        s.pulse_connected().pulse_reconnect_at is None,
        s.pulse_connected().last_vol == s.last_vol,
        s.pulse_connected().vol_dirty == s.vol_dirty,
        s.pulse_connected().device_reconnect_at == s.device_reconnect_at,
        s.pulse_connected().next_time_sync == s.next_time_sync,
        s.pulse_connected().initial_sync_pending == s.initial_sync_pending,
{
}

/// A poll changes only what its answer hands over to the caller: no answer
/// changes nothing, a reconnect request clears the reconnect, a restart request
/// clears the restart, and a send clears the initial sync once it is due and
/// at most the pending volume. A poll never changes the volume or the time sync's
/// schedule.
pub proof fn law_poll_effects(s: SyncModel, now: nat)
    ensures
        s.poll(now).1 is None ==> s.poll(now).0 == s,
        s.poll(now).1 == Some(SyncAction::ConnectDevice) ==> s.poll(now).0 == (SyncModel {
            device_reconnect_at: None,
            ..s
        }),
        s.poll(now).1 == Some(SyncAction::SpawnPulseMonitor) ==> s.poll(now).0 == (SyncModel {
            pulse_reconnect_at: None,
            ..s
        }),
        s.poll(now).1 matches Some(SyncAction::SendSysparam { .. }) ==> {
            &&& s.poll(now).0.initial_sync_pending ==> s.initial_sync_pending && now
                < s.next_time_sync
            &&& s.poll(now).0.vol_dirty ==> s.vol_dirty
            &&& s.poll(now).0.last_vol == s.last_vol
            &&& s.poll(now).0.vol_last_change == s.vol_last_change
            &&& s.poll(now).0.next_time_sync == s.next_time_sync
            &&& s.poll(now).0.device_reconnect_at == s.device_reconnect_at
            &&& s.poll(now).0.pulse_reconnect_at == s.pulse_reconnect_at
        },
        s.poll(now).0.last_vol == s.last_vol,
        s.poll(now).0.next_time_sync == s.next_time_sync,
{
}

/// The wait never exceeds the poll timeout, and it is never late: a poll when
/// the wait is over has something to do, unless the wait was cut by the timeout.
pub proof fn law_deadline_is_timely(s: SyncModel, now: nat)
    ensures
        s.next_deadline(now) <= s.max_poll_timeout,
        s.next_deadline(now) < s.max_poll_timeout ==> s.poll(now + s.next_deadline(now)).1 is Some,
{
}

/// The state after the caller has answered the action `a` at time `t`: a send
/// or a connect that worked (`ok`) or failed, or a restarted audio monitor.
pub open spec fn answered(s: SyncModel, a: SyncAction, ok: bool, t: nat) -> SyncModel {
    match a {
        SyncAction::SendSysparam { .. } => if ok {
            s.send_ok(t)
        } else {
            s.device_lost(t)
        },
        SyncAction::ConnectDevice => if ok {
            s.device_connected(t)
        } else {
            s.device_lost(t)
        },
        SyncAction::SpawnPulseMonitor => s.pulse_connected(),
    }
}

/// A sync is due at `now` (while the keyboard is up): the time or the volume.
pub open spec fn send_due(s: SyncModel, now: nat) -> bool {
    now >= s.next_time_sync || s.volume_due(now)
}

/// How many more actions a poll loop at `now` can yield, at most three: the
/// reconnect, the audio monitor's restart and one send.
pub open spec fn pending_actions(s: SyncModel, now: nat) -> nat {
    match s.device_reconnect_at {
        Some(at) => if now >= at {
            3
        } else {
            0
        },
        None => (if s.pulse_due(now) {
            1nat
        } else {
            0nat
        }) + (if send_due(s, now) {
            1nat
        } else {
            0nat
        }),
    }
}

/// The loop `while let Some(a) = poll(now) { answer a }` ends after at most three
/// actions: with nothing pending a poll yields nothing, and every answered action
/// (answered no earlier than `now`) leaves fewer actions pending. It needs a
/// nonzero sync interval and reconnect delay.
pub proof fn law_poll_loop_ends(s: SyncModel, now: nat, ok: bool, t: nat)
    requires
        s.time_sync_interval > 0,
        s.reconnect_delay > 0,
        t >= now,
    ensures
        pending_actions(s, now) <= 3,
        pending_actions(s, now) == 0 ==> s.poll(now).1 is None,
        s.poll(now).1 matches Some(a) ==> pending_actions(answered(s.poll(now).0, a, ok, t), now)
            < pending_actions(s, now),
{
}

/// The keyboard counts as up after an answered action exactly when the last
/// send or connect worked: so a program that keeps its device handle exactly
/// while the keyboard counts as up never sees a send asked for without one.
pub proof fn law_device_up_follows_results(s: SyncModel, a: SyncAction, ok: bool, t: nat)
    requires
        s.poll(t).1 == Some(a),
    ensures
        a matches SyncAction::SendSysparam { .. } ==> s.device_reconnect_at is None,
        a != SyncAction::SpawnPulseMonitor ==> ((answered(s.poll(t).0, a, ok, t).device_reconnect_at
            is None) <==> ok),
        a == SyncAction::SpawnPulseMonitor ==> answered(s.poll(t).0, a, ok, t).device_reconnect_at
            == s.poll(t).0.device_reconnect_at,
{
}

/// The daemon's scheduler. Time is given to it as spans since an epoch that the
/// caller chooses; it never reads a clock.
pub struct SyncState {
    config: SyncConfig,
    last_vol: Option<u8>,
    vol_dirty: bool,
    vol_last_change: Duration,
    next_time_sync: Duration,
    device_reconnect_at: Option<Duration>,
    pulse_reconnect_at: Option<Duration>,
    /// Whether an initial time sync has been requested but not yet sent.
    pub initial_sync_pending: bool,
}

impl View for SyncState {
    type V = SyncModel;

    closed spec fn view(&self) -> SyncModel {
        SyncModel {
            debounce: self.config.debounce@,
            time_sync_interval: self.config.time_sync_interval@,
            max_poll_timeout: self.config.max_poll_timeout@,
            reconnect_delay: self.config.reconnect_delay@,
            last_vol: self.last_vol,
            vol_dirty: self.vol_dirty,
            vol_last_change: self.vol_last_change@,
            next_time_sync: self.next_time_sync@,
            device_reconnect_at: opt_view(self.device_reconnect_at),
            pulse_reconnect_at: opt_view(self.pulse_reconnect_at),
            initial_sync_pending: self.initial_sync_pending,
        }
    }
}

impl SyncState {
    pub fn new(config: SyncConfig, now: Duration) -> (s: SyncState)
        ensures
            s@ == SyncModel::initial(
                config.debounce@,
                config.time_sync_interval@,
                config.max_poll_timeout@,
                config.reconnect_delay@,
                now@,
            ),
    {
        SyncState {
            last_vol: None,
            vol_dirty: false,
            vol_last_change: now,
            next_time_sync: now,
            device_reconnect_at: None,
            pulse_reconnect_at: None,
            initial_sync_pending: true,
            config,
        }
    }

    /// A volume change reported by the audio monitor; a repeated volume is ignored.
    pub fn on_volume_changed(&mut self, vol: u8, now: Duration)
        ensures
            final(self)@ == old(self)@.volume_changed(vol, now@),
    {
        if self.last_vol == Some(vol) {
            return ;
        }
        self.last_vol = Some(vol);
        self.vol_dirty = true;
        self.vol_last_change = now;
    }

    /// What has to happen at `now`, if anything. Called in a loop until it
    /// returns `None`.
    pub fn poll(&mut self, now: Duration) -> (r: Option<SyncAction>)
        requires
            old(self)@.poll_in_range(now@),
        ensures
            (final(self)@, r) == old(self)@.poll(now@),
    {
        if let Some(at) = self.device_reconnect_at {
            if now >= at {
                self.device_reconnect_at = None;
                return Some(SyncAction::ConnectDevice);
            }
            return None;
        }
        if let Some(at) = self.pulse_reconnect_at {
            if now >= at {
                self.pulse_reconnect_at = None;
                return Some(SyncAction::SpawnPulseMonitor);
            }
        }
        if self.initial_sync_pending && now >= self.next_time_sync {
            self.initial_sync_pending = false;
            let vol = self.last_vol.unwrap_or(0);
            return Some(SyncAction::SendSysparam { vol });
        }
        if self.vol_dirty {
            proof {
                lemma_span_view(self.vol_last_change@ + self.config.debounce@);
            }
            if now >= self.vol_last_change + self.config.debounce {
                self.vol_dirty = false;
                let vol = self.last_vol.unwrap_or(0);
                return Some(SyncAction::SendSysparam { vol });
            }
        }
        if !self.initial_sync_pending && now >= self.next_time_sync {
            let vol = self.last_vol.unwrap_or(0);
            return Some(SyncAction::SendSysparam { vol });
        }
        None
    }

    /// How long to wait from `now` before the next poll.
    pub fn next_deadline(&self, now: Duration) -> (d: Duration)
        requires
            self@.deadline_in_range(now@),
        ensures
            d@ == self@.next_deadline(now@),
    {
        proof {
            lemma_span_view(now@ + self.config.max_poll_timeout@);
        }
        let mut earliest = now + self.config.max_poll_timeout;
        if let Some(at) = self.device_reconnect_at {
            // While the keyboard is down a poll asks only for its reconnect.
            earliest = earliest.min(at);
        } else {
            if let Some(at) = self.pulse_reconnect_at {
                earliest = earliest.min(at);
            }
            if self.vol_dirty {
                proof {
                    lemma_span_view(self.vol_last_change@ + self.config.debounce@);
                }
                earliest = earliest.min(self.vol_last_change + self.config.debounce);
            }
            earliest = earliest.min(self.next_time_sync);
        }
        earliest.saturating_sub(now)
    }

    /// A send succeeded: the next periodic sync is one interval away, and the
    /// pending volume went out with it.
    pub fn on_send_ok(&mut self, now: Duration)
        requires
            now@ + old(self)@.time_sync_interval <= max_nanos(),
        ensures
            final(self)@ == old(self)@.send_ok(now@),
    {
        proof {
            lemma_span_view(now@ + self.config.time_sync_interval@);
        }
        self.next_time_sync = now + self.config.time_sync_interval;
        self.vol_dirty = false;
    }

    /// The keyboard is gone: reconnect after the delay.
    pub fn on_device_lost(&mut self, now: Duration)
        requires
            now@ + old(self)@.reconnect_delay <= max_nanos(),
        ensures
            final(self)@ == old(self)@.device_lost(now@),
    {
        proof {
            lemma_span_view(now@ + self.config.reconnect_delay@);
        }
        self.device_reconnect_at = Some(now + self.config.reconnect_delay);
    }

    /// The audio monitor is gone: restart it after the delay.
    pub fn on_pulse_lost(&mut self, now: Duration)
        requires
            now@ + old(self)@.reconnect_delay <= max_nanos(),
        ensures
            final(self)@ == old(self)@.pulse_lost(now@),
    {
        proof {
            lemma_span_view(now@ + self.config.reconnect_delay@);
        }
        self.pulse_reconnect_at = Some(now + self.config.reconnect_delay);
    }

    /// The keyboard is connected again: sync at once.
    pub fn on_device_connected(&mut self, now: Duration)
        ensures
            final(self)@ == old(self)@.device_connected(now@),
    {
        self.device_reconnect_at = None;
        self.next_time_sync = now;
        self.initial_sync_pending = true;
    }

    /// Applies the outcome of an attempt to connect the keyboard: a connected
    /// keyboard is synced at once, a failed attempt is retried after the delay.
    pub fn on_connect_result(&mut self, connected: bool, now: Duration)
        requires
            !connected ==> now@ + old(self)@.reconnect_delay <= max_nanos(),
        ensures
            final(self)@ == if connected {
                old(self)@.device_connected(now@)
            } else {
                old(self)@.device_lost(now@)
            },
    {
        if connected {
            self.on_device_connected(now);
        } else {
            self.on_device_lost(now);
        }
    }

    /// The audio monitor runs again.
    pub fn on_pulse_connected(&mut self)
        ensures
            final(self)@ == old(self)@.pulse_connected(),
    {
        self.pulse_reconnect_at = None;
    }
    /// Applies an event from a background thread; returns whether the daemon
    /// keeps running.
    pub fn on_event(&mut self, event: DaemonEvent, now: Duration) -> (running: bool)
        requires
            event == DaemonEvent::PulseDisconnected ==> now@ + old(self)@.reconnect_delay
                <= max_nanos(),
        ensures
            running == (event != DaemonEvent::Shutdown),
            final(self)@ == match event {
                DaemonEvent::VolumeChanged(vol) => old(self)@.volume_changed(vol, now@),
                DaemonEvent::PulseDisconnected => old(self)@.pulse_lost(now@),
                DaemonEvent::Shutdown => old(self)@,
            },
    {
        match event {
            DaemonEvent::VolumeChanged(vol) => {
                self.on_volume_changed(vol, now);
                true
            },
            DaemonEvent::PulseDisconnected => {
                self.on_pulse_lost(now);
                true
            },
            DaemonEvent::Shutdown => false,
        }
    }

    /// Applies the outcome of a send: only an acknowledged send counts as
    /// delivered; a missing answer or an error means that the keyboard is gone.
    pub fn on_send_result(&mut self, result: &Result<bool, Error>, now: Duration)
        requires
            result matches Ok(true) ==> now@ + old(self)@.time_sync_interval <= max_nanos(),
            !(result matches Ok(true)) ==> now@ + old(self)@.reconnect_delay <= max_nanos(),
        ensures
            final(self)@ == if result matches Ok(true) {
                old(self)@.send_ok(now@)
            } else {
                old(self)@.device_lost(now@)
            },
    {
        match result {
            Ok(true) => self.on_send_ok(now),
            _ => self.on_device_lost(now),
        }
    }
}

} // verus!
