//! The sessions of the user: which are shown as verified and active, and what a change in
//! the device list announces.

use crate::common::{DeviceRecord, DeviceRecordView};
use crate::error::CoreError;
use vstd::prelude::*;

verus! {

/// Ninety days, in seconds.
pub const NINETY_DAYS: u64 = 7776000;

/// What the cryptographic layer knows of a device.
#[derive(Clone, Copy, Debug, PartialEq, Eq, Structural)]
pub struct CryptoDevice {
    pub cross_signed_by_owner: bool,
    pub verified_with_cross_signing: bool,
}

/// A device as the server lists it, with what the cryptographic layer knows of it.
#[derive(Debug)]
pub struct DeviceInfo {
    pub device_id: String,
    pub display_name: Option<String>,
    /// When the device was last seen, in milliseconds since the Unix epoch.
    pub last_seen_ts: Option<u64>,
    pub last_seen_ip: Option<String>,
    /// `None` where the cryptographic layer does not know the device.
    pub crypto: Option<CryptoDevice>,
}

/// Mathematical model of a [`DeviceInfo`].
pub struct DeviceInfoView {
    pub device_id: Seq<char>,
    pub display_name: Option<Seq<char>>,
    pub last_seen_ts: Option<u64>,
    pub last_seen_ip: Option<Seq<char>>,
    pub crypto: Option<CryptoDevice>,
}

impl View for DeviceInfo {
    type V = DeviceInfoView;

    open spec fn view(&self) -> DeviceInfoView {
        DeviceInfoView {
            device_id: self.device_id@,
            display_name: self.display_name.deep_view(),
            last_seen_ts: self.last_seen_ts,
            last_seen_ip: self.last_seen_ip.deep_view(),
            crypto: self.crypto,
        }
    }
}

impl DeepView for DeviceInfo {
    type V = DeviceInfoView;

    open spec fn deep_view(&self) -> DeviceInfoView {
        self@
    }
}

impl DeviceInfoView {
    /// A device counts as verified where the cryptographic layer knows it and it is signed
    /// by its owner or verified through cross-signing.
    pub open spec fn is_verified(self) -> bool {
        match self.crypto {
            Some(c) => c.cross_signed_by_owner || c.verified_with_cross_signing,
            None => false,
        }
    }

    /// The flag shown as "active": set where the device has a time at which it was last
    /// seen and that time, in whole seconds, lies before `limit`.
    pub open spec fn is_active(self, limit: u64) -> bool {
        match self.last_seen_ts {
            Some(ts) => ts / 1000 < limit,
            None => false,
        }
    }

    /// The record of the device. When and where it was last seen is told only of a device
    /// that the cryptographic layer knows.
    pub open spec fn record(self, limit: u64, this_device_id: Seq<char>) -> DeviceRecordView {
        DeviceRecordView {
            device_id: self.device_id,
            display_name: self.display_name,
            last_seen_ts: if self.crypto is Some {
                self.last_seen_ts
            } else {
                None
            },
            last_seen_ip: if self.crypto is Some {
                self.last_seen_ip
            } else {
                None
            },
            is_verified: self.is_verified(),
            is_active: self.is_active(limit),
            is_me: self.device_id == this_device_id,
        }
    }
}

/// The records of the devices that are verified, or of those that are not, as `verified`
/// asks, in the order of `devices`.
pub open spec fn records_of(
    devices: Seq<DeviceInfoView>,
    limit: u64,
    verified: bool,
    this_device_id: Seq<char>,
) -> Seq<DeviceRecordView> {
    devices.filter(|d: DeviceInfoView| d.is_verified() == verified).map_values(
        |d: DeviceInfoView| d.record(limit, this_device_id),
    )
}

/// Whether any device has a time at which it was last seen.
pub open spec fn any_seen(devices: Seq<DeviceInfoView>) -> bool {
    exists|i: int| 0 <= i < devices.len() && (#[trigger] devices[i]).last_seen_ts is Some
}

/// Where no device has a time at which it was last seen, the records say the same whatever
/// the limit: the clock is needed only to hold such a time against.
pub proof fn lemma_never_seen_ignores_limit(
    devices: Seq<DeviceInfoView>,
    limit: u64,
    other_limit: u64,
    verified: bool,
    this_device_id: Seq<char>,
)
    requires
        !any_seen(devices),
    ensures
        records_of(devices, limit, verified, this_device_id) == records_of(
            devices,
            other_limit,
            verified,
            this_device_id,
        ),
{
    let wanted = |d: DeviceInfoView| d.is_verified() == verified;
    let kept = devices.filter(wanted);
    assert forall|i: int| 0 <= i < kept.len() implies (#[trigger] kept[i]).record(
        limit,
        this_device_id,
    ) == kept[i].record(other_limit, this_device_id) by {
        assert(kept.contains(kept[i]));
        devices.lemma_filter_contains_rev(wanted, kept[i]);
        let k = choose|k: int| 0 <= k < devices.len() && devices[k] == kept[i];
        assert(!(devices[k].last_seen_ts is Some));
    }
    assert(records_of(devices, limit, verified, this_device_id) =~= records_of(
        devices,
        other_limit,
        verified,
        this_device_id,
    ));
}

/// Whether any device has a time at which it was last seen, and with it whether
/// [`device_records`] needs the time of the call.
pub fn any_last_seen(devices: &Vec<DeviceInfo>) -> (res: bool)
    ensures
        res == any_seen(devices.deep_view()),
{
    let ghost all = devices.deep_view();
    let n = devices.len();
    let mut i: usize = 0;
    while i < n
        invariant
            i <= n,
            n == devices.len(),
            all == devices.deep_view(),
            forall|j: int| 0 <= j < i ==> !((#[trigger] all[j]).last_seen_ts is Some),
        decreases n - i,
    {
        if devices[i].last_seen_ts.is_some() {
            assert(all[i as int].last_seen_ts is Some);
            return true;
        }
        i += 1;
    }
    false
}

/// The records of the user's devices that are verified, or of those that are not, as
/// `verified` asks.
///
/// `now_secs` is the time of the call in seconds since the Unix epoch. Ninety days before
/// it lies the limit against which the times last seen are held. Where a device has such a
/// time and the clock reads less than ninety days, there is no limit to hold it against,
/// and the call fails with `CoreError::ClockOutOfRange`.
pub fn device_records(
    devices: &Vec<DeviceInfo>,
    now_secs: u64,
    verified: bool,
    this_device_id: &str,
) -> (res: Result<Vec<DeviceRecord>, CoreError>)
    ensures
        now_secs < NINETY_DAYS && any_seen(devices.deep_view()) ==> res is Err && res->Err_0
            == CoreError::ClockOutOfRange,
        !(now_secs < NINETY_DAYS && any_seen(devices.deep_view())) ==> res is Ok
            && res->Ok_0.deep_view() == records_of(
            devices.deep_view(),
            if now_secs >= NINETY_DAYS {
                (now_secs - NINETY_DAYS) as u64
            } else {
                0
            },
            verified,
            this_device_id@,
        ),
{
    let ghost all = devices.deep_view();
    let ghost wanted = |d: DeviceInfoView| d.is_verified() == verified;
    let limit: u64 = if now_secs >= NINETY_DAYS {
        now_secs - NINETY_DAYS
    } else {
        0
    };
    let mut sessions: Vec<DeviceRecord> = Vec::new();
    let n = devices.len();
    let mut i: usize = 0;
    proof {
        reveal(Seq::filter);
        assert(all.take(0) =~= Seq::<DeviceInfoView>::empty());
        assert(sessions.deep_view() =~= records_of(all.take(0), limit, verified, this_device_id@));
    }
    while i < n
        invariant
            i <= n,
            n == devices.len(),
            all == devices.deep_view(),
            limit == if now_secs >= NINETY_DAYS {
                (now_secs - NINETY_DAYS) as u64
            } else {
                0
            },
            now_secs < NINETY_DAYS ==> !any_seen(all.take(i as int)),
            sessions.deep_view() == records_of(all.take(i as int), limit, verified, this_device_id@),
        decreases n - i,
    {
        let device = &devices[i];
        let ghost collected = sessions.deep_view();
        proof {
            reveal(Seq::filter);
            assert(all.take(i + 1).drop_last() =~= all.take(i as int));
            assert(all.take(i + 1).last() == device@);
        }
        let is_verified = match device.crypto {
            Some(c) => c.cross_signed_by_owner || c.verified_with_cross_signing,
            None => false,
        };
        let mut is_active = false;
        if let Some(last_seen_ts) = device.last_seen_ts {
            if now_secs < NINETY_DAYS {
                assert(all[i as int].last_seen_ts is Some);
                return Err(CoreError::ClockOutOfRange);
            }
            if last_seen_ts / 1000 < limit {
                is_active = true;
            }
        }
        if is_verified == verified {
            let is_me = *device.device_id.as_str() == *this_device_id;
            let record = if device.crypto.is_some() {
                DeviceRecord::new(
                    device.device_id.clone(),
                    device.display_name.clone(),
                    device.last_seen_ts,
                    device.last_seen_ip.clone(),
                    is_verified,
                    is_active,
                    is_me,
                )
            } else {
                DeviceRecord::new(
                    device.device_id.clone(),
                    device.display_name.clone(),
                    None,
                    None,
                    is_verified,
                    is_active,
                    is_me,
                )
            };
            sessions.push(record);
            assert(sessions.deep_view() =~= collected.push(
                device@.record(limit, this_device_id@),
            ));
            assert(records_of(all.take(i + 1), limit, verified, this_device_id@) =~= records_of(
                all.take(i as int),
                limit,
                verified,
                this_device_id@,
            ).push(device@.record(limit, this_device_id@)));
        } else {
            assert(records_of(all.take(i + 1), limit, verified, this_device_id@) =~= records_of(
                all.take(i as int),
                limit,
                verified,
                this_device_id@,
            ));
        }
        proof {
            if now_secs < NINETY_DAYS {
                assert forall|j: int| 0 <= j < i + 1 implies !((#[trigger] all.take(
                    i + 1,
                )[j]).last_seen_ts is Some) by {
                    if j < i {
                        assert(all.take(i as int)[j] == all.take(i + 1)[j]);
                    }
                }
            }
        }
        i += 1;
    }
    assert(all.take(n as int) =~= all);
    Ok(sessions)
}

/// What a change in the device list announces.
#[derive(Debug)]
pub enum DeviceEvent {
    /// A device of the user that was not there before.
    New(DeviceNewEvent),
    /// A device of the user that has changed.
    Changed(DeviceChangedEvent),
}

/// A device of the user that was not there before.
#[derive(Debug)]
pub struct DeviceNewEvent {
    pub device_id: String,
}

impl DeviceNewEvent {
    pub fn new(device_id: String) -> (res: Self)
        ensures
            res.device_id@ == device_id@,
    {
        DeviceNewEvent { device_id }
    }

    pub fn device_id(&self) -> (res: String)
        ensures
            res@ == self.device_id@,
    {
        self.device_id.clone()
    }
}

/// A device of the user that has changed.
#[derive(Debug)]
pub struct DeviceChangedEvent {
    pub device_id: String,
}

impl DeviceChangedEvent {
    pub fn new(device_id: String) -> (res: Self)
        ensures
            res.device_id@ == device_id@,
    {
        DeviceChangedEvent { device_id }
    }

    pub fn device_id(&self) -> (res: String)
        ensures
            res@ == self.device_id@,
    {
        self.device_id.clone()
    }
}

/// Mathematical model of a [`DeviceEvent`].
pub enum DeviceEventView {
    New(Seq<char>),
    Changed(Seq<char>),
}

impl View for DeviceEvent {
    type V = DeviceEventView;

    open spec fn view(&self) -> DeviceEventView {
        match self {
            DeviceEvent::New(e) => DeviceEventView::New(e.device_id@),
            DeviceEvent::Changed(e) => DeviceEventView::Changed(e.device_id@),
        }
    }
}

impl DeepView for DeviceEvent {
    type V = DeviceEventView;

    open spec fn deep_view(&self) -> DeviceEventView {
        self@
    }
}

/// The events that one update of the device list announces: first every new device of the
/// user, then every changed one, each in the order given.
pub open spec fn announced(new: Seq<Seq<char>>, changed: Seq<Seq<char>>) -> Seq<DeviceEventView> {
    new.map_values(|id: Seq<char>| DeviceEventView::New(id)) + changed.map_values(
        |id: Seq<char>| DeviceEventView::Changed(id),
    )
}

/// Decides what the listener does with the updates of the device list.
pub struct DeviceController {}

impl DeviceController {
    /// What one update of the device list announces. `new` and `changed` are the user's own
    /// devices in the update. `None` tells the listener to stop: the user is logged out.
    pub fn on_update(logged_in: bool, new: &Vec<String>, changed: &Vec<String>) -> (res: Option<
        Vec<DeviceEvent>,
    >)
        ensures
            !logged_in ==> res is None,
            logged_in ==> res is Some && res->Some_0.deep_view() == announced(
                new.deep_view(),
                changed.deep_view(),
            ),
    {
        if !logged_in {
            return None;
        }
        let ghost news = new.deep_view();
        let ghost changes = changed.deep_view();
        let mut events: Vec<DeviceEvent> = Vec::new();
        let mut i: usize = 0;
        assert(events.deep_view() =~= announced(news.take(0), Seq::empty()));
        while i < new.len()
            invariant
                i <= new.len(),
                news == new.deep_view(),
                events.deep_view() == announced(news.take(i as int), Seq::empty()),
            decreases new.len() - i,
        {
            let ghost before = events.deep_view();
            events.push(DeviceEvent::New(DeviceNewEvent::new(new[i].clone())));
            assert(events.deep_view() =~= before.push(DeviceEventView::New(news[i as int])));
            assert(events.deep_view() =~= announced(news.take(i + 1), Seq::empty()));
            i += 1;
        }
        assert(news.take(new.len() as int) =~= news);
        let mut j: usize = 0;
        assert(events.deep_view() =~= announced(news, changes.take(0)));
        while j < changed.len()
            invariant
                j <= changed.len(),
                news == new.deep_view(),
                changes == changed.deep_view(),
                events.deep_view() == announced(news, changes.take(j as int)),
            decreases changed.len() - j,
        {
            let ghost before = events.deep_view();
            events.push(DeviceEvent::Changed(DeviceChangedEvent::new(changed[j].clone())));
            assert(events.deep_view() =~= before.push(DeviceEventView::Changed(changes[j as int])));
            assert(events.deep_view() =~= announced(news, changes.take(j + 1)));
            j += 1;
        }
        assert(changes.take(changed.len() as int) =~= changes);
        Some(events)
    }
}

} // verus!
