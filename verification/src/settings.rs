//! Model of the persisted application settings.
//!
//! The program keeps two scalar preferences in a per-user key-value
//! store: the refresh interval in milliseconds and a silent-notifications
//! flag (encoded as a 0/1 integer). `SettingsStore` models the store's
//! contents as plain values: each entry is present or absent, and reads
//! fall back to a hard-coded default when the entry is absent. The
//! process edge that talks to the real store keeps such a model in step
//! with it and hands it to these functions.

use vstd::prelude::*;

verus! {

/// Refresh interval used when the store holds no interval entry.
pub const DEFAULT_NOTIFICATION_INTERVAL_MS: u32 = 10000;

/// Raw value used when the store holds no silent-notifications entry;
/// the flag is stored as an integer, 1 for silent, 0 for audible.
pub const DEFAULT_SILENT_NOTIFICATION_RAW: u32 = 1;

/// Contents of the per-user settings store: one optional entry per key.
#[derive(Clone, Copy)]
pub struct SettingsStore {
    /// The refresh-interval entry, in milliseconds, if one was ever written.
    pub interval_entry: Option<u32>,
    /// The silent-notifications entry, as its stored 0/1 integer, if one
    /// was ever written.
    pub silent_entry: Option<u32>,
}

/// The refresh interval a read returns: the stored entry, or the default
/// when no entry is present.
pub open spec fn spec_notification_interval(s: SettingsStore) -> u32 {
    match s.interval_entry {
        Some(v) => v,
        None => DEFAULT_NOTIFICATION_INTERVAL_MS,
    }
}

/// The silent-notifications flag a read returns: the stored entry (or the
/// default when absent) compared against 1.
pub open spec fn spec_silent_notification(s: SettingsStore) -> bool {
    (match s.silent_entry {
        Some(v) => v,
        None => DEFAULT_SILENT_NOTIFICATION_RAW,
    }) == 1
}

/// The store after the refresh-interval entry is written.
pub open spec fn spec_write_interval(s: SettingsStore, interval: u32) -> SettingsStore {
    SettingsStore { interval_entry: Some(interval), silent_entry: s.silent_entry }
}

/// The store after the silent-notifications entry is written.
pub open spec fn spec_write_silent(s: SettingsStore, silent: bool) -> SettingsStore {
    SettingsStore {
        interval_entry: s.interval_entry,
        silent_entry: Some(if silent { 1u32 } else { 0u32 }),
    }
}

impl SettingsStore {
    /// A store with no prior entries, as on the first run.
    pub fn new() -> (s: SettingsStore)
        ensures
            s.interval_entry is None,
            s.silent_entry is None,
    {
        SettingsStore { interval_entry: None, silent_entry: None }
    }
}

/// Reads the refresh interval in milliseconds, falling back to the
/// default when the store has no interval entry.
pub fn read_notification_interval(store: &SettingsStore) -> (interval: u32)
    ensures
        interval == spec_notification_interval(*store),
{
    match store.interval_entry {
        Some(v) => v,
        None => DEFAULT_NOTIFICATION_INTERVAL_MS,
    }
}

/// Reads the silent-notifications flag, falling back to the default when
/// the store has no silent entry.
pub fn read_silent_notification(store: &SettingsStore) -> (silent: bool)
    ensures
        silent == spec_silent_notification(*store),
{
    let raw: u32 = match store.silent_entry {
        Some(v) => v,
        None => DEFAULT_SILENT_NOTIFICATION_RAW,
    };
    raw == 1
}

/// Writes the refresh interval; the silent entry is untouched.
pub fn write_notification_interval(store: &mut SettingsStore, interval: u32)
    ensures
        *final(store) == spec_write_interval(*old(store), interval),
        spec_notification_interval(*final(store)) == interval,
{
    store.interval_entry = Some(interval);
}

/// Writes the silent-notifications flag as its 0/1 encoding; the interval
/// entry is untouched.
pub fn write_silent_notification(store: &mut SettingsStore, silent: bool)
    ensures
        *final(store) == spec_write_silent(*old(store), silent),
        spec_silent_notification(*final(store)) == silent,
{
    store.silent_entry = Some(if silent { 1u32 } else { 0u32 });
}

/// Law: writing the refresh interval and then reading it returns the
/// written value, whatever the store held before; reading a store with no
/// interval entry returns the default of 10000 milliseconds.
pub proof fn lemma_interval_round_trip(s: SettingsStore, interval: u32)
    ensures
        spec_notification_interval(spec_write_interval(s, interval)) == interval,
        s.interval_entry is None ==> spec_notification_interval(s)
            == DEFAULT_NOTIFICATION_INTERVAL_MS,
{
}

/// Law: writing the silent-notifications flag and then reading it returns
/// the written value, both for true and for false, whatever the store
/// held before; a write to it leaves the interval entry as it was.
pub proof fn lemma_silent_round_trip(s: SettingsStore, silent: bool)
    ensures
        spec_silent_notification(spec_write_silent(s, silent)) == silent,
        spec_write_silent(s, silent).interval_entry == s.interval_entry,
{
}

} // verus!
