use vstd::prelude::*;

use std::collections::HashMap;

use crate::coin::Coin;
use crate::keyed::KeyedVec;
use crate::telemetry::{
    copy_coin, copy_pools, copy_texts, decode_message, device_id_from_topic, device_id_of_topic,
    has_status_fields, is_status_shaped, status_from_payload, Message, MessageStatus, Pool, RawPayload,
};

verus! {

broadcast use vstd::std_specs::hash::group_hash_axioms;

/// Seconds a device's live record stays after its last report.
pub const STATUS_TTL: u64 = 60;

/// Seconds a provisioning key stays resolved to its account (three days).
pub const KEY_TTL: u64 = 259200;

/// Seconds an account's device directory stays after its last refresh (thirty days).
pub const DIRECTORY_TTL: u64 = 2592000;

/// How long each kind of cache entry lives, in seconds.
#[derive(Debug, Clone, Copy, PartialEq, Eq, Structural)]
pub struct TtlConfig {
    pub status_ttl: u64,
    pub key_ttl: u64,
    pub directory_ttl: u64,
}

impl TtlConfig {
    /// Every lifetime is at least one second.
    pub open spec fn positive(self) -> bool {
        self.status_ttl > 0 && self.key_ttl > 0 && self.directory_ttl > 0
    }

    pub fn defaults() -> (r: TtlConfig)
        ensures
            r.status_ttl == STATUS_TTL,
            r.key_ttl == KEY_TTL,
            r.directory_ttl == DIRECTORY_TTL,
            r.positive(),
    {
        TtlConfig { status_ttl: STATUS_TTL, key_ttl: KEY_TTL, directory_ttl: DIRECTORY_TTL }
    }
}

/// The instant at which an entry written at `now` with lifetime `ttl` expires; it
/// saturates at the end of the clock.
pub open spec fn expiry(now: u64, ttl: u64) -> u64 {
    if now as int + ttl as int <= u64::MAX as int {
        (now + ttl) as u64
    } else {
        u64::MAX
    }
}

fn expiry_at(now: u64, ttl: u64) -> (r: u64)
    ensures
        r == expiry(now, ttl),
{
    if now <= u64::MAX - ttl {
        now + ttl
    } else {
        u64::MAX
    }
}

/// A status report without its history of rates, as an account's directory keeps it.
#[derive(Debug, Clone)]
pub struct StatusSnapshot {
    pub now_rate: String,
    pub avg_rate: String,
    pub power_mode: String,
    pub dig_time: i32,
    pub pool: Vec<Pool>,
    pub hard_err: String,
    pub refuse: String,
    pub temperature: String,
    pub fan: String,
    pub led: i32,
    pub ip: String,
    pub key: String,
    pub coin: Option<Coin>,
}

/// The content of a status snapshot.
pub struct SnapshotModel {
    pub now_rate: String,
    pub avg_rate: String,
    pub power_mode: String,
    pub dig_time: i32,
    pub pool: Seq<Pool>,
    pub hard_err: String,
    pub refuse: String,
    pub temperature: String,
    pub fan: String,
    pub led: i32,
    pub ip: String,
    pub key: String,
    pub coin: Option<Coin>,
}

impl View for StatusSnapshot {
    type V = SnapshotModel;

    open spec fn view(&self) -> SnapshotModel {
        SnapshotModel {
            now_rate: self.now_rate,
            avg_rate: self.avg_rate,
            power_mode: self.power_mode,
            dig_time: self.dig_time,
            pool: self.pool@,
            hard_err: self.hard_err,
            refuse: self.refuse,
            temperature: self.temperature,
            fan: self.fan,
            led: self.led,
            ip: self.ip,
            key: self.key,
            coin: self.coin,
        }
    }
}

/// A status report with its history of rates left out.
pub open spec fn trim(s: MessageStatus) -> SnapshotModel {
    SnapshotModel {
        now_rate: s.now_rate,
        avg_rate: s.avg_rate,
        power_mode: s.power_mode,
        dig_time: s.dig_time,
        pool: s.pool@,
        hard_err: s.hard_err,
        refuse: s.refuse,
        temperature: s.temperature,
        fan: s.fan,
        led: s.led,
        ip: s.ip,
        key: s.key,
        coin: s.coin,
    }
}

pub fn snapshot_of(s: &MessageStatus) -> (r: StatusSnapshot)
    ensures
        r@ == trim(*s),
{
    StatusSnapshot {
        now_rate: s.now_rate.clone(),
        avg_rate: s.avg_rate.clone(),
        power_mode: s.power_mode.clone(),
        dig_time: s.dig_time,
        pool: copy_pools(&s.pool),
        hard_err: s.hard_err.clone(),
        refuse: s.refuse.clone(),
        temperature: s.temperature.clone(),
        fan: s.fan.clone(),
        led: s.led,
        ip: s.ip.clone(),
        key: s.key.clone(),
        coin: copy_coin(&s.coin),
    }
}

fn copy_snapshot(s: &StatusSnapshot) -> (r: StatusSnapshot)
    ensures
        r@ == s@,
{
    StatusSnapshot {
        now_rate: s.now_rate.clone(),
        avg_rate: s.avg_rate.clone(),
        power_mode: s.power_mode.clone(),
        dig_time: s.dig_time,
        pool: copy_pools(&s.pool),
        hard_err: s.hard_err.clone(),
        refuse: s.refuse.clone(),
        temperature: s.temperature.clone(),
        fan: s.fan.clone(),
        led: s.led,
        ip: s.ip.clone(),
        key: s.key.clone(),
        coin: copy_coin(&s.coin),
    }
}

fn copy_status(s: &MessageStatus) -> (r: MessageStatus)
    ensures
        trim(r) == trim(*s),
        r.history_rate@ == s.history_rate@,
{
    MessageStatus {
        now_rate: s.now_rate.clone(),
        avg_rate: s.avg_rate.clone(),
        history_rate: copy_texts(&s.history_rate),
        power_mode: s.power_mode.clone(),
        dig_time: s.dig_time,
        pool: copy_pools(&s.pool),
        hard_err: s.hard_err.clone(),
        refuse: s.refuse.clone(),
        temperature: s.temperature.clone(),
        fan: s.fan.clone(),
        led: s.led,
        ip: s.ip.clone(),
        key: s.key.clone(),
        coin: copy_coin(&s.coin),
    }
}

/// A device's short-lived record: the last mode and the last status it reported.
#[derive(Debug)]
pub struct DeviceRecord {
    pub mode: Option<usize>,
    pub status: Option<MessageStatus>,
    pub expires_at: u64,
}

pub struct RecordModel {
    pub mode: Option<usize>,
    pub status: Option<SnapshotModel>,
    pub history: Seq<String>,
    pub expires_at: u64,
}

impl View for DeviceRecord {
    type V = RecordModel;

    open spec fn view(&self) -> RecordModel {
        RecordModel {
            mode: self.mode,
            status: match self.status {
                Some(s) => Some(trim(s)),
                None => None,
            },
            history: match self.status {
                Some(s) => s.history_rate@,
                None => Seq::empty(),
            },
            expires_at: self.expires_at,
        }
    }
}

/// The account that a provisioning key resolved to, and until when that holds.
#[derive(Debug, Clone, Copy, PartialEq, Eq, Structural)]
pub struct AccountLink {
    pub account: u64,
    pub expires_at: u64,
}

/// An account's directory of devices: a snapshot per device, in order of first report.
pub struct Directory {
    pub devices: KeyedVec<StatusSnapshot>,
    pub expires_at: u64,
}

pub struct DirectoryModel {
    pub devices: Map<Seq<char>, SnapshotModel>,
    pub order: Seq<Seq<char>>,
    pub expires_at: u64,
}

impl View for Directory {
    type V = DirectoryModel;

    open spec fn view(&self) -> DirectoryModel {
        DirectoryModel {
            devices: self.devices.map().map_values(|s: StatusSnapshot| s@),
            order: self.devices.keys(),
            expires_at: self.expires_at,
        }
    }
}

/// How a device appears in an account's fleet listing.
#[derive(Debug)]
pub struct DeviceView {
    pub id: String,
    pub online: bool,
    pub mode: Option<usize>,
    pub snapshot: StatusSnapshot,
    pub history_rate: Vec<String>,
}

pub struct DeviceViewModel {
    pub id: Seq<char>,
    pub online: bool,
    pub mode: Option<usize>,
    pub snapshot: SnapshotModel,
    pub history: Seq<String>,
}

impl View for DeviceView {
    type V = DeviceViewModel;

    open spec fn view(&self) -> DeviceViewModel {
        DeviceViewModel {
            id: self.id@,
            online: self.online,
            mode: self.mode,
            snapshot: self.snapshot@,
            history: self.history_rate@,
        }
    }
}

/// The whole cache as a value: device records, key index and account directories,
/// each entry with the instant it expires.
pub struct CacheModel {
    pub ttl: TtlConfig,
    pub records: Map<Seq<char>, RecordModel>,
    pub accounts: Map<Seq<char>, AccountLink>,
    pub directories: Map<u64, DirectoryModel>,
}

impl CacheModel {
    pub open spec fn wf(self) -> bool {
        &&& self.ttl.positive()
        &&& forall|a: u64| #[trigger]
            self.directories.contains_key(a) ==> {
                &&& self.directories[a].order.no_duplicates()
                &&& forall|k: Seq<char>| #[trigger]
                    self.directories[a].devices.contains_key(k)
                        <==> self.directories[a].order.contains(k)
            }
    }

    /// The device's record, if it has not expired at `now`.
    pub open spec fn live_record(self, id: Seq<char>, now: u64) -> Option<RecordModel> {
        if self.records.contains_key(id) && now < self.records[id].expires_at {
            Some(self.records[id])
        } else {
            None
        }
    }

    /// The account's directory, if it has not expired at `now`.
    pub open spec fn live_directory(self, account: u64, now: u64) -> Option<DirectoryModel> {
        if self.directories.contains_key(account) && now < self.directories[account].expires_at {
            Some(self.directories[account])
        } else {
            None
        }
    }

    /// The account that the key index holds for `key` at `now`.
    pub open spec fn resolve(self, key: Seq<char>, now: u64) -> Option<u64> {
        if self.accounts.contains_key(key) && now < self.accounts[key].expires_at {
            Some(self.accounts[key].account)
        } else {
            None
        }
    }

    /// The cache after `key` is recorded as belonging to `account` at `now`.
    pub open spec fn with_account(self, key: Seq<char>, account: u64, now: u64) -> CacheModel {
        CacheModel {
            accounts: self.accounts.insert(
                key,
                AccountLink { account, expires_at: expiry(now, self.ttl.key_ttl) },
            ),
            ..self
        }
    }

    /// The cache after device `id` reports `mode` at `now`: an expired record starts afresh.
    pub open spec fn with_mode(self, id: Seq<char>, mode: usize, now: u64) -> CacheModel {
        let prior = self.live_record(id, now);
        CacheModel {
            records: self.records.insert(
                id,
                RecordModel {
                    mode: Some(mode),
                    status: match prior {
                        Some(r) => r.status,
                        None => None,
                    },
                    history: match prior {
                        Some(r) => r.history,
                        None => Seq::empty(),
                    },
                    expires_at: expiry(now, self.ttl.status_ttl),
                },
            ),
            ..self
        }
    }

    /// The cache after device `id`, owned by `account`, reports `status` at `now`: the
    /// full status goes into its record and a trimmed snapshot into the directory.
    pub open spec fn with_status(
        self,
        id: Seq<char>,
        status: MessageStatus,
        account: u64,
        now: u64,
    ) -> CacheModel {
        let prior = self.live_record(id, now);
        let base = match self.live_directory(account, now) {
            Some(d) => d,
            None => DirectoryModel {
                devices: Map::empty(),
                order: Seq::empty(),
                expires_at: 0,
            },
        };
        CacheModel {
            records: self.records.insert(
                id,
                RecordModel {
                    mode: match prior {
                        Some(r) => r.mode,
                        None => None,
                    },
                    status: Some(trim(status)),
                    history: status.history_rate@,
                    expires_at: expiry(now, self.ttl.status_ttl),
                },
            ),
            directories: self.directories.insert(
                account,
                DirectoryModel {
                    devices: base.devices.insert(id, trim(status)),
                    order: if base.devices.contains_key(id) {
                        base.order
                    } else {
                        base.order.push(id)
                    },
                    expires_at: expiry(now, self.ttl.directory_ttl),
                },
            ),
            ..self
        }
    }

    /// How a device listed with directory snapshot `snap` appears at `now`: online with
    /// its live fields over the snapshot while its record lives, else offline with the
    /// snapshot alone.
    pub open spec fn device_view(self, id: Seq<char>, snap: SnapshotModel, now: u64) -> DeviceViewModel {
        match self.live_record(id, now) {
            Some(r) => DeviceViewModel {
                id,
                online: true,
                mode: r.mode,
                snapshot: match r.status {
                    Some(s) => s,
                    None => snap,
                },
                history: r.history,
            },
            None => DeviceViewModel {
                id,
                online: false,
                mode: None,
                snapshot: snap,
                history: Seq::empty(),
            },
        }
    }

    /// The account's fleet listing at `now`: every device of its live directory, once,
    /// in directory order.
    pub open spec fn devices(self, account: u64, now: u64) -> Seq<DeviceViewModel> {
        match self.live_directory(account, now) {
            Some(d) => Seq::new(
                d.order.len(),
                |i: int| self.device_view(d.order[i], d.devices[d.order[i]], now),
            ),
            None => Seq::empty(),
        }
    }
}

/// Cache of live device status, the provisioning-key index and per-account directories.
/// Time is passed in explicitly as seconds on a monotonic clock.
pub struct DeviceStatusCache {
    ttl: TtlConfig,
    records: KeyedVec<DeviceRecord>,
    accounts: KeyedVec<AccountLink>,
    directories: HashMap<u64, Directory>,
}

impl View for DeviceStatusCache {
    type V = CacheModel;

    closed spec fn view(&self) -> CacheModel {
        CacheModel {
            ttl: self.ttl,
            records: self.records.map().map_values(|r: DeviceRecord| r@),
            accounts: self.accounts.map(),
            directories: self.directories@.map_values(|d: Directory| d@),
        }
    }
}

impl DeviceStatusCache {
    pub closed spec fn wf(&self) -> bool {
        &&& self.ttl.positive()
        &&& self.records.wf()
        &&& self.accounts.wf()
        &&& forall|a: u64| #[trigger]
            self.directories@.contains_key(a) ==> self.directories@[a].devices.wf()
    }

    /// A well-formed cache has a well-formed model.
    pub proof fn lemma_view_wf(&self)
        requires
            self.wf(),
        ensures
            self@.wf(),
    {
        assert forall|a: u64| #[trigger] self@.directories.contains_key(a) implies {
            &&& self@.directories[a].order.no_duplicates()
            &&& forall|k: Seq<char>| #[trigger]
                self@.directories[a].devices.contains_key(k)
                    <==> self@.directories[a].order.contains(k)
        } by {
            self.directories@[a].devices.lemma_keys();
        }
    }

    /// An empty cache with the given lifetimes.
    pub fn new(ttl: TtlConfig) -> (r: DeviceStatusCache)
        requires
            ttl.positive(),
        ensures
            r.wf(),
            r@.wf(),
            r@.ttl == ttl,
            r@.records == Map::<Seq<char>, RecordModel>::empty(),
            r@.accounts == Map::<Seq<char>, AccountLink>::empty(),
            r@.directories == Map::<u64, DirectoryModel>::empty(),
    {
        let r = DeviceStatusCache {
            ttl,
            records: KeyedVec::new(),
            accounts: KeyedVec::new(),
            directories: HashMap::new(),
        };
        assert(r@.records =~= Map::<Seq<char>, RecordModel>::empty());
        assert(r@.directories =~= Map::<u64, DirectoryModel>::empty());
        r
    }

    /// The lifetimes this cache was made with.
    pub fn ttl(&self) -> (r: TtlConfig)
        ensures
            r == self@.ttl,
    {
        self.ttl
    }

    /// Looks the provisioning key up in the key index. `None` is a miss: the caller
    /// asks durable storage once and hands the answer to `record_account`.
    pub fn resolve_account(&self, key: &String, now: u64) -> (r: Option<u64>)
        requires
            self.wf(),
        ensures
            r == self@.resolve(key@, now),
    {
        match self.accounts.get(key) {
            Some(link) => {
                if now < link.expires_at {
                    Some(link.account)
                } else {
                    None
                }
            },
            None => None,
        }
    }

    /// Records that `key` belongs to `account`, for the key lifetime from `now`.
    pub fn record_account(&mut self, key: String, account: u64, now: u64)
        requires
            old(self).wf(),
        ensures
            final(self).wf(),
            final(self)@.wf(),
            final(self)@ == old(self)@.with_account(key@, account, now),
    {
        let link = AccountLink { account, expires_at: expiry_at(now, self.ttl.key_ttl) };
        let ghost kv = key@;
        self.accounts.upsert(key, link);
        proof {
            self.lemma_view_wf();
        }
        assert(self@.accounts =~= old(self)@.accounts.insert(kv, link));
        assert(self@ =~= old(self)@.with_account(kv, account, now));
    }

    /// Writes a mode report into the device's record and restarts its lifetime.
    pub fn store_mode(&mut self, id: &String, mode: usize, now: u64)
        requires
            old(self).wf(),
        ensures
            final(self).wf(),
            final(self)@.wf(),
            final(self)@ == old(self)@.with_mode(id@, mode, now),
    {
        let status = match self.records.get(id) {
            Some(r) => {
                if now < r.expires_at {
                    match &r.status {
                        Some(s) => Some(copy_status(s)),
                        None => None,
                    }
                } else {
                    None
                }
            },
            None => None,
        };
        let rec = DeviceRecord { mode: Some(mode), status, expires_at: expiry_at(now, self.ttl.status_ttl) };
        let ghost rv = rec@;
        self.records.upsert(id.clone(), rec);
        proof {
            self.lemma_view_wf();
        }
        assert(self@.records =~= old(self)@.records.insert(id@, rv));
        assert(self@ =~= old(self)@.with_mode(id@, mode, now));
    }

    /// Writes a status report: the full report into the device's record, restarting its
    /// lifetime, and a trimmed snapshot into the directory of `account`, restarting the
    /// directory's lifetime. An expired record or directory starts afresh.
    pub fn store_status(&mut self, id: &String, status: MessageStatus, account: u64, now: u64)
        requires
            old(self).wf(),
        ensures
            final(self).wf(),
            final(self)@.wf(),
            final(self)@ == old(self)@.with_status(id@, status, account, now),
    {
        let mode = match self.records.get(id) {
            Some(r) => {
                if now < r.expires_at {
                    r.mode
                } else {
                    None
                }
            },
            None => None,
        };
        let snap = snapshot_of(&status);
        let ghost sv = status;
        let rec = DeviceRecord { mode, status: Some(status), expires_at: expiry_at(now, self.ttl.status_ttl) };
        let ghost rv = rec@;
        self.records.upsert(id.clone(), rec);
        assert(self@.records =~= old(self)@.records.insert(id@, rv));

        let ghost old_dirs = self.directories@;
        let mut devices = match self.directories.remove(&account) {
            Some(d) => {
                if now < d.expires_at {
                    d.devices
                } else {
                    KeyedVec::new()
                }
            },
            None => KeyedVec::new(),
        };
        assert(self.directories@ == old_dirs.remove(account));
        let ghost base = devices;
        devices.upsert(id.clone(), snap);
        let dir = Directory { devices, expires_at: expiry_at(now, self.ttl.directory_ttl) };
        let ghost dv = dir@;
        self.directories.insert(account, dir);
        assert(self.directories@ =~= old_dirs.insert(account, dir));
        proof {
            assert forall|a: u64| #[trigger]
                self.directories@.contains_key(a) implies self.directories@[a].devices.wf() by {
                if a != account {
                    assert(old_dirs.contains_key(a));
                }
            }
            self.lemma_view_wf();
            let od = old(self)@.live_directory(account, now);
            let bm = base.map().map_values(|x: StatusSnapshot| x@);
            match od {
                Some(d) => {
                    assert(bm == d.devices);
                    assert(base.keys() == d.order);
                },
                None => {
                    assert(bm =~= Map::<Seq<char>, SnapshotModel>::empty());
                },
            }
            assert(dv.devices =~= bm.insert(id@, trim(sv)));
            assert(self@.directories =~= old(self)@.directories.insert(account, dv));
        }
        assert(self@ =~= old(self)@.with_status(id@, sv, account, now));
    }

    /// Lists the devices of an account at `now`: each device of its live directory
    /// exactly once, in directory order; online with its live fields while its record
    /// lives, offline with the directory snapshot alone otherwise.
    pub fn list_devices(&self, account: u64, now: u64) -> (r: Vec<DeviceView>)
        requires
            self.wf(),
        ensures
            r@.map_values(|v: DeviceView| v@) == self@.devices(account, now),
    {
        let mut out: Vec<DeviceView> = Vec::new();
        let dir = match self.directories.get(&account) {
            Some(d) => d,
            None => {
                assert(out@.map_values(|v: DeviceView| v@) =~= self@.devices(account, now));
                return out;
            },
        };
        if now >= dir.expires_at {
            assert(out@.map_values(|v: DeviceView| v@) =~= self@.devices(account, now));
            return out;
        }
        let ghost d = self@.directories[account];
        assert(d == dir@);
        let n = dir.devices.len();
        let mut i: usize = 0;
        while i < n
            invariant
                self.wf(),
                self.directories@.contains_key(account),
                *dir == self.directories@[account],
                d == dir@,
                n == d.order.len(),
                i <= n,
                out@.len() == i,
                forall|j: int|
                    0 <= j < i ==> #[trigger] out@[j]@ == self@.device_view(
                        d.order[j],
                        d.devices[d.order[j]],
                        now,
                    ),
            decreases n - i,
        {
            let (id, snap) = dir.devices.entry(i);
            let ghost idv = id@;
            assert(d.devices[idv] == snap@);
            let view = match self.records.get(id) {
                Some(rec) => {
                    if now < rec.expires_at {
                        let (snapshot, history_rate) = match &rec.status {
                            Some(s) => (snapshot_of(s), copy_texts(&s.history_rate)),
                            None => (copy_snapshot(snap), Vec::new()),
                        };
                        DeviceView { id: id.clone(), online: true, mode: rec.mode, snapshot, history_rate }
                    } else {
                        DeviceView {
                            id: id.clone(),
                            online: false,
                            mode: None,
                            snapshot: copy_snapshot(snap),
                            history_rate: Vec::new(),
                        }
                    }
                },
                None => DeviceView {
                    id: id.clone(),
                    online: false,
                    mode: None,
                    snapshot: copy_snapshot(snap),
                    history_rate: Vec::new(),
                },
            };
            assert(view@ =~= self@.device_view(idv, snap@, now));
            out.push(view);
            i = i + 1;
        }
        assert(out@.map_values(|v: DeviceView| v@) =~= self@.devices(account, now));
        out
    }
}

/// One cache-aside resolution of `key` at `now`, where durable storage holds `durable`:
/// the cached account on a hit; on a miss durable storage is asked and its answer
/// recorded. Gives the cache after it, the account, and whether storage was asked.
pub open spec fn resolve_flow(c: CacheModel, key: Seq<char>, durable: u64, now: u64) -> (
    CacheModel,
    u64,
    bool,
) {
    match c.resolve(key, now) {
        Some(a) => (c, a, false),
        None => (c.with_account(key, durable, now), durable, true),
    }
}

proof fn lemma_with_status_wf(c: CacheModel, id: Seq<char>, status: MessageStatus, account: u64, now: u64)
    requires
        c.wf(),
    ensures
        c.with_status(id, status, account, now).wf(),
{
    let c2 = c.with_status(id, status, account, now);
    assert forall|a: u64| #[trigger] c2.directories.contains_key(a) implies {
        &&& c2.directories[a].order.no_duplicates()
        &&& forall|k: Seq<char>| #[trigger]
            c2.directories[a].devices.contains_key(k) <==> c2.directories[a].order.contains(k)
    } by {
        if a == account {
            let d = c2.directories[a];
            match c.live_directory(account, now) {
                Some(b) => {
                    if !b.devices.contains_key(id) {
                        assert(!b.order.contains(id));
                        assert forall|i: int, j: int|
                            0 <= i < d.order.len() && 0 <= j < d.order.len() && i != j implies d.order[i]
                            != d.order[j] by {
                            if i == b.order.len() as int {
                                assert(b.order.contains(d.order[j]));
                            } else if j == b.order.len() as int {
                                assert(b.order.contains(d.order[i]));
                            }
                        }
                        assert forall|k: Seq<char>| #[trigger] d.devices.contains_key(k) implies d.order.contains(k) by {
                            if k == id {
                                assert(d.order[b.order.len() as int] == id);
                            } else {
                                assert(b.order.contains(k));
                                let i = choose|i: int| 0 <= i < b.order.len() && b.order[i] == k;
                                assert(d.order[i] == k);
                            }
                        }
                        assert forall|k: Seq<char>| #[trigger] d.order.contains(k) implies d.devices.contains_key(k) by {
                            let i = choose|i: int| 0 <= i < d.order.len() && d.order[i] == k;
                            if i < b.order.len() {
                                assert(b.order.contains(k));
                            }
                        }
                    }
                },
                None => {
                    assert(d.order =~= seq![id]);
                    assert forall|k: Seq<char>| #[trigger] d.order.contains(k) implies d.devices.contains_key(k) by {
                        assert(d.order[0] == k);
                    }
                    assert forall|k: Seq<char>| #[trigger] d.devices.contains_key(k) implies d.order.contains(k) by {
                        assert(d.order[0] == id);
                    }
                }
            }
        }
    }
}

proof fn lemma_listed_once(c: CacheModel, account: u64, now: u64, id: Seq<char>) -> (i: int)
    requires
        c.wf(),
        c.live_directory(account, now) is Some,
        c.directories[account].devices.contains_key(id),
    ensures
        0 <= i < c.devices(account, now).len(),
        c.devices(account, now)[i] == c.device_view(id, c.directories[account].devices[id], now),
        forall|j: int|
            0 <= j < c.devices(account, now).len() && (#[trigger] c.devices(account, now)[j]).id == id
                ==> j == i,
{
    let d = c.directories[account];
    assert(d.order.contains(id));
    let i = choose|i: int| 0 <= i < d.order.len() && d.order[i] == id;
    let l = c.devices(account, now);
    assert forall|j: int| 0 <= j < l.len() && (#[trigger] l[j]).id == id implies j == i by {
        assert(l[j].id == d.order[j]);
    }
    i
}

/// A status report shows at once: listing the owning account right after it gives the
/// device exactly once, online, with the report's fields.
pub proof fn lemma_status_then_listed_online(
    c: CacheModel,
    id: Seq<char>,
    status: MessageStatus,
    account: u64,
    now: u64,
)
    requires
        c.wf(),
        now < u64::MAX,
    ensures
        ({
            let l = c.with_status(id, status, account, now).devices(account, now);
            exists|i: int|
                0 <= i < l.len() && l[i].id == id && l[i].online && l[i].snapshot == trim(status)
                    && l[i].history == status.history_rate@ && forall|j: int|
                    0 <= j < l.len() && (#[trigger] l[j]).id == id ==> j == i
        }),
{
    let c2 = c.with_status(id, status, account, now);
    lemma_with_status_wf(c, id, status, account, now);
    let i = lemma_listed_once(c2, account, now, id);
    let l = c2.devices(account, now);
    assert(l[i].id == id && l[i].online && l[i].snapshot == trim(status)
        && l[i].history == status.history_rate@);
}

/// The first report filed under an account with no live directory makes that account's
/// listing exactly one entry: the device, online, with the report's fields.
pub proof fn lemma_first_report_sole_entry(
    c: CacheModel,
    id: Seq<char>,
    status: MessageStatus,
    account: u64,
    now: u64,
)
    requires
        c.wf(),
        now < u64::MAX,
        c.live_directory(account, now) is None,
    ensures
        ({
            let l = c.with_status(id, status, account, now).devices(account, now);
            &&& l.len() == 1
            &&& l[0].id == id
            &&& l[0].online
            &&& l[0].snapshot == trim(status)
            &&& l[0].history == status.history_rate@
        }),
{
    let c2 = c.with_status(id, status, account, now);
    assert(c2.directories[account].order =~= seq![id]);
}

/// A key that the index does not hold is resolved with exactly one question to durable
/// storage; its answer is returned and recorded, so that asking again at once hits the
/// index and returns the same account without asking storage.
pub proof fn lemma_uncached_resolves_once(c: CacheModel, key: Seq<char>, durable: u64, now: u64)
    requires
        c.wf(),
        now < u64::MAX,
        c.resolve(key, now) is None,
    ensures
        resolve_flow(c, key, durable, now) == (c.with_account(key, durable, now), durable, true),
        resolve_flow(c.with_account(key, durable, now), key, durable, now) == (
            c.with_account(key, durable, now),
            durable,
            false,
        ),
        c.with_account(key, durable, now).resolve(key, now) == Some(durable),
{
}

/// Once the status lifetime has passed with no new report, the device is still listed
/// from the directory, exactly once, but offline and with the directory snapshot alone.
pub proof fn lemma_expired_listed_offline(
    c: CacheModel,
    id: Seq<char>,
    status: MessageStatus,
    account: u64,
    t0: u64,
    t1: u64,
)
    requires
        c.wf(),
        expiry(t0, c.ttl.status_ttl) <= t1,
        t1 < expiry(t0, c.ttl.directory_ttl),
    ensures
        ({
            let l = c.with_status(id, status, account, t0).devices(account, t1);
            exists|i: int|
                0 <= i < l.len() && l[i].id == id && !l[i].online && l[i].mode is None
                    && l[i].snapshot == trim(status) && l[i].history.len() == 0 && forall|j: int|
                    0 <= j < l.len() && (#[trigger] l[j]).id == id ==> j == i
        }),
{
    let c2 = c.with_status(id, status, account, t0);
    lemma_with_status_wf(c, id, status, account, t0);
    let i = lemma_listed_once(c2, account, t1, id);
    let l = c2.devices(account, t1);
    assert(l[i].id == id && !l[i].online && l[i].mode is None && l[i].snapshot == trim(status)
        && l[i].history.len() == 0);
}

/// Whenever an account's directory lives and lists a device whose record has expired,
/// the listing shows that device exactly once, offline, with the directory snapshot
/// alone.
pub proof fn lemma_listed_offline_when_record_expired(
    c: CacheModel,
    account: u64,
    id: Seq<char>,
    now: u64,
)
    requires
        c.wf(),
        c.live_directory(account, now) is Some,
        c.directories[account].devices.contains_key(id),
        c.live_record(id, now) is None,
    ensures
        ({
            let l = c.devices(account, now);
            exists|i: int|
                0 <= i < l.len() && l[i].id == id && !l[i].online && l[i].mode is None
                    && l[i].snapshot == c.directories[account].devices[id] && l[i].history.len()
                    == 0 && forall|j: int| 0 <= j < l.len() && (#[trigger] l[j]).id == id ==> j == i
        }),
{
    let i = lemma_listed_once(c, account, now, id);
    let l = c.devices(account, now);
    assert(l[i].id == id && !l[i].online && l[i].mode is None
        && l[i].snapshot == c.directories[account].devices[id] && l[i].history.len() == 0);
}

/// Reports of other devices leave a device's entry alone: its record, and its snapshot
/// in an account's directory, are the same after another device reports a status
/// (under any account, while that directory lives) or a mode, and after a key is
/// recorded.
pub proof fn lemma_other_reports_keep_entry(
    c: CacheModel,
    account: u64,
    id: Seq<char>,
    other: Seq<char>,
    status: MessageStatus,
    other_account: u64,
    mode: usize,
    key: Seq<char>,
    key_account: u64,
    t: u64,
)
    requires
        c.wf(),
        other != id,
        c.directories.contains_key(account),
        c.directories[account].devices.contains_key(id),
        other_account == account ==> c.live_directory(account, t) is Some,
    ensures
        ({
            let s = c.with_status(other, status, other_account, t);
            &&& s.wf()
            &&& s.records.contains_key(id) == c.records.contains_key(id)
            &&& s.records[id] == c.records[id]
            &&& s.directories.contains_key(account)
            &&& s.directories[account].devices.contains_key(id)
            &&& s.directories[account].devices[id] == c.directories[account].devices[id]
            &&& other_account != account ==> s.directories[account] == c.directories[account]
        }),
        ({
            let m = c.with_mode(other, mode, t);
            &&& m.wf()
            &&& m.records.contains_key(id) == c.records.contains_key(id)
            &&& m.records[id] == c.records[id]
            &&& m.directories == c.directories
        }),
        ({
            let k = c.with_account(key, key_account, t);
            &&& k.wf()
            &&& k.records == c.records
            &&& k.directories == c.directories
        }),
{
    lemma_with_status_wf(c, other, status, other_account, t);
}

/// Resolution is memoized: of two resolutions of one key within the key lifetime of the
/// first, at most one asks durable storage, and both give the account it holds (when
/// the index does not disagree with it).
pub proof fn lemma_resolve_memoized(c: CacheModel, key: Seq<char>, durable: u64, t0: u64, t1: u64)
    requires
        t0 <= t1,
        t1 < expiry(t0, c.ttl.key_ttl),
        c.accounts.contains_key(key) ==> c.accounts[key].account == durable,
    ensures
        ({
            let (c1, a1, q1) = resolve_flow(c, key, durable, t0);
            let (c2, a2, q2) = resolve_flow(c1, key, durable, t1);
            a1 == durable && a2 == durable && !(q1 && q2)
        }),
{
}

/// Two concurrent resolutions of a key that both miss each ask durable storage and record
/// its answer; whichever records last, both return the same account, and the index then
/// holds it for the key lifetime.
pub proof fn lemma_concurrent_misses_agree(
    c: CacheModel,
    key: Seq<char>,
    durable: u64,
    t0: u64,
    t1: u64,
    now: u64,
)
    requires
        c.resolve(key, t0) is None,
        c.resolve(key, t1) is None,
        t0 <= now,
        t1 <= now,
        now < expiry(t0, c.ttl.key_ttl),
        now < expiry(t1, c.ttl.key_ttl),
    ensures
        resolve_flow(c, key, durable, t0).1 == resolve_flow(c, key, durable, t1).1,
        c.with_account(key, durable, t0).with_account(key, durable, t1).resolve(key, now) == Some(
            durable,
        ),
        c.with_account(key, durable, t1).with_account(key, durable, t0).resolve(key, now) == Some(
            durable,
        ),
{
}

/// What became of one delivery handed to the listener.
#[derive(Debug)]
pub enum IngestOutcome {
    /// The topic names no hardware address; the delivery is dropped.
    NoDeviceId,
    /// The payload has neither the shape of a status report nor a mode; it is dropped.
    Malformed,
    /// A mode change was stored.
    ModeStored,
    /// A status report was stored for the device and filed under this account.
    StatusStored(u64),
    /// The report's provisioning key is not in the index: nothing was stored. The caller
    /// asks durable storage for the account, records it, and stores the report.
    AccountUnknown(String, MessageStatus),
}

impl DeviceStatusCache {
    /// Handles one delivery at `now`: finds the device in the topic, resolves the payload
    /// by its shape, and stores it, resolving the owning account through the key index.
    pub fn ingest(&mut self, topic: &str, payload: RawPayload, now: u64) -> (r: IngestOutcome)
        requires
            old(self).wf(),
        ensures
            final(self).wf(),
            final(self)@.wf(),
            match device_id_of_topic(topic@) {
                None => r is NoDeviceId && final(self)@ == old(self)@,
                Some(id) => if is_status_shaped(payload) {
                    (has_status_fields(payload) <==> !(r is Malformed)) && match r {
                        IngestOutcome::StatusStored(a) => exists|s: MessageStatus|
                            status_from_payload(s, payload) && old(self)@.resolve(s.key@, now)
                                == Some(a) && final(self)@ == old(self)@.with_status(id, s, a, now),
                        IngestOutcome::AccountUnknown(i, s) => i@ == id && status_from_payload(
                            s,
                            payload,
                        ) && old(self)@.resolve(s.key@, now) is None && final(self)@ == old(
                            self,
                        )@,
                        IngestOutcome::Malformed => final(self)@ == old(self)@,
                        _ => false,
                    }
                } else {
                    match payload.mode {
                        Some(m) => r is ModeStored && final(self)@ == old(self)@.with_mode(id, m, now),
                        None => r is Malformed && final(self)@ == old(self)@,
                    }
                },
            },
    {
        proof {
            self.lemma_view_wf();
        }
        let id = match device_id_from_topic(topic) {
            Some(id) => id,
            None => return IngestOutcome::NoDeviceId,
        };
        match decode_message(payload) {
            None => IngestOutcome::Malformed,
            Some(Message::MessageMode(m)) => {
                self.store_mode(&id, m.mode, now);
                IngestOutcome::ModeStored
            },
            Some(Message::MessageStatus(s)) => match self.resolve_account(&s.key, now) {
                Some(a) => {
                    let ghost sv = s;
                    self.store_status(&id, s, a, now);
                    assert(status_from_payload(sv, payload));
                    IngestOutcome::StatusStored(a)
                },
                None => IngestOutcome::AccountUnknown(id, s),
            },
        }
    }
}

} // verus!
