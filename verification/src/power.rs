//! The power-policy side of Clam: which settings it touches, which values it
//! writes, and the order of the calls that read and write them.
//!
//! The calls themselves (reading the active scheme, reading and writing a
//! value index, re-applying the scheme) are made by the host program. A job
//! here tells it which call to make next and takes the answer back.
use vstd::prelude::*;
use crate::state::SavedState;

verus! {

/// Win32 error code for a refused access.
pub const ERROR_ACCESS_DENIED: u32 = 5;

/// Lid-close action "Sleep", the Windows default.
pub const DEFAULT_LID_CLOSE: u32 = 1;

/// Idle-sleep timeout on mains power, in seconds (30 minutes).
pub const DEFAULT_SLEEP_AC: u32 = 1800;

/// Idle-sleep timeout on battery, in seconds (15 minutes).
pub const DEFAULT_SLEEP_DC: u32 = 900;

/// Lid-close action "Do nothing".
pub const LID_DO_NOTHING: u32 = 0;

/// Idle-sleep timeout "Never".
pub const IDLE_NEVER: u32 = 0;

/// Buttons/Lid subgroup {4F971E89-EEBD-4455-A8DE-9E59040E7347}.
pub const SUB_BUTTONS: u128 = 0x4F971E89_EEBD_4455_A8DE_9E59040E7347;

/// Lid-close action setting {5CA83367-6E45-459F-A27B-476B1D01C936}.
pub const SETTING_LID_CLOSE: u128 = 0x5CA83367_6E45_459F_A27B_476B1D01C936;

/// Sleep subgroup {238C9FA8-0AAD-41ED-83F4-97BE242C8F20}.
pub const SUB_SLEEP: u128 = 0x238C9FA8_0AAD_41ED_83F4_97BE242C8F20;

/// Sleep-after (idle standby timeout) setting {29F6C1DB-86DA-48C5-9FDB-F2B67B1F44DA}.
pub const SETTING_STANDBY_IDLE: u128 = 0x29F6C1DB_86DA_48C5_9FDB_F2B67B1F44DA;

/// Whether a Win32 error code means that access was denied.
pub fn is_access_denied(err: u32) -> (res: bool)
    ensures
        res == (err == ERROR_ACCESS_DENIED),
{
    err == ERROR_ACCESS_DENIED
}

/// Mains (AC) or battery (DC).
#[derive(Clone, Copy, Debug, PartialEq, Eq, Structural)]
pub enum PowerSource {
    AC,
    DC,
}

/// The two settings that Clam reads and writes.
#[derive(Clone, Copy, Debug, PartialEq, Eq, Structural)]
pub enum PowerSetting {
    /// What closing the lid does.
    LidClose,
    /// How long the machine idles before it sleeps.
    StandbyIdle,
}

/// A setting on one power source: one value index of the scheme.
#[derive(Clone, Copy, Debug, PartialEq, Eq, Structural)]
pub struct PowerKey {
    pub setting: PowerSetting,
    pub source: PowerSource,
}

/// One value to write.
#[derive(Clone, Copy, Debug, PartialEq, Eq, Structural)]
pub struct PowerWrite {
    pub key: PowerKey,
    pub value: u32,
}

pub open spec fn spec_subgroup_guid(setting: PowerSetting) -> u128 {
    match setting {
        PowerSetting::LidClose => SUB_BUTTONS,
        PowerSetting::StandbyIdle => SUB_SLEEP,
    }
}

pub open spec fn spec_setting_guid(setting: PowerSetting) -> u128 {
    match setting {
        PowerSetting::LidClose => SETTING_LID_CLOSE,
        PowerSetting::StandbyIdle => SETTING_STANDBY_IDLE,
    }
}

/// The subgroup GUID under which a setting lives, as a `u128`.
pub fn subgroup_guid(setting: PowerSetting) -> (g: u128)
    ensures
        g == spec_subgroup_guid(setting),
{
    match setting {
        PowerSetting::LidClose => SUB_BUTTONS,
        PowerSetting::StandbyIdle => SUB_SLEEP,
    }
}

/// The GUID of a setting, as a `u128`.
pub fn setting_guid(setting: PowerSetting) -> (g: u128)
    ensures
        g == spec_setting_guid(setting),
{
    match setting {
        PowerSetting::LidClose => SETTING_LID_CLOSE,
        PowerSetting::StandbyIdle => SETTING_STANDBY_IDLE,
    }
}

pub open spec fn key(setting: PowerSetting, source: PowerSource) -> PowerKey {
    PowerKey { setting, source }
}

/// The field of a captured state that holds the value of a key.
pub open spec fn field_of(s: SavedState, k: PowerKey) -> u32 {
    match (k.setting, k.source) {
        (PowerSetting::LidClose, PowerSource::AC) => s.lid_close_ac,
        (PowerSetting::LidClose, PowerSource::DC) => s.lid_close_dc,
        (PowerSetting::StandbyIdle, PowerSource::AC) => s.sleep_idle_ac,
        (PowerSetting::StandbyIdle, PowerSource::DC) => s.sleep_idle_dc,
    }
}

/// The order in which the settings are read, and in which captured
/// settings are written back: lid AC, lid DC, idle AC, idle DC.
pub open spec fn state_key(i: int) -> PowerKey {
    if i == 0 {
        key(PowerSetting::LidClose, PowerSource::AC)
    } else if i == 1 {
        key(PowerSetting::LidClose, PowerSource::DC)
    } else if i == 2 {
        key(PowerSetting::StandbyIdle, PowerSource::AC)
    } else {
        key(PowerSetting::StandbyIdle, PowerSource::DC)
    }
}

fn state_key_exec(i: usize) -> (k: PowerKey)
    ensures
        k == state_key(i as int),
{
    if i == 0 {
        PowerKey { setting: PowerSetting::LidClose, source: PowerSource::AC }
    } else if i == 1 {
        PowerKey { setting: PowerSetting::LidClose, source: PowerSource::DC }
    } else if i == 2 {
        PowerKey { setting: PowerSetting::StandbyIdle, source: PowerSource::AC }
    } else {
        PowerKey { setting: PowerSetting::StandbyIdle, source: PowerSource::DC }
    }
}

/// `s` with the value of the `i`-th key (in `state_key` order) replaced.
pub open spec fn with_field(s: SavedState, i: int, v: u32) -> SavedState {
    if i == 0 {
        SavedState { lid_close_ac: v, ..s }
    } else if i == 1 {
        SavedState { lid_close_dc: v, ..s }
    } else if i == 2 {
        SavedState { sleep_idle_ac: v, ..s }
    } else {
        SavedState { sleep_idle_dc: v, ..s }
    }
}

fn set_field(s: &mut SavedState, i: usize, v: u32)
    ensures
        *final(s) == with_field(*old(s), i as int, v),
{
    if i == 0 {
        s.lid_close_ac = v;
    } else if i == 1 {
        s.lid_close_dc = v;
    } else if i == 2 {
        s.sleep_idle_ac = v;
    } else {
        s.sleep_idle_dc = v;
    }
}

/// Four writes, made in the order `w0`, `w1`, `w2`, `w3`.
#[derive(Clone, Copy, Debug, PartialEq, Eq, Structural)]
pub struct WritePlan {
    pub w0: PowerWrite,
    pub w1: PowerWrite,
    pub w2: PowerWrite,
    pub w3: PowerWrite,
}

impl WritePlan {
    pub open spec fn entry(self, i: int) -> PowerWrite {
        if i == 0 {
            self.w0
        } else if i == 1 {
            self.w1
        } else if i == 2 {
            self.w2
        } else {
            self.w3
        }
    }

    /// The `i`-th write of the plan.
    pub fn get(&self, i: usize) -> (w: PowerWrite)
        ensures
            w == self.entry(i as int),
    {
        if i == 0 {
            self.w0
        } else if i == 1 {
            self.w1
        } else if i == 2 {
            self.w2
        } else {
            self.w3
        }
    }
}

pub open spec fn write_of(k: PowerKey, value: u32) -> PowerWrite {
    PowerWrite { key: k, value }
}

/// Stay-awake values: for AC and then DC, lid-close "Do nothing" and idle
/// timeout "Never".
pub open spec fn stay_awake_plan() -> WritePlan {
    WritePlan {
        w0: write_of(key(PowerSetting::LidClose, PowerSource::AC), LID_DO_NOTHING),
        w1: write_of(key(PowerSetting::StandbyIdle, PowerSource::AC), IDLE_NEVER),
        w2: write_of(key(PowerSetting::LidClose, PowerSource::DC), LID_DO_NOTHING),
        w3: write_of(key(PowerSetting::StandbyIdle, PowerSource::DC), IDLE_NEVER),
    }
}

/// The writes that put the settings of `s` in place, in `state_key` order.
pub open spec fn settings_plan(s: SavedState) -> WritePlan {
    WritePlan {
        w0: write_of(state_key(0), s.lid_close_ac),
        w1: write_of(state_key(1), s.lid_close_dc),
        w2: write_of(state_key(2), s.sleep_idle_ac),
        w3: write_of(state_key(3), s.sleep_idle_dc),
    }
}

/// Windows' own defaults: lid-close Sleep, idle timeout 30 min (AC) and
/// 15 min (DC).
pub open spec fn default_settings() -> SavedState {
    SavedState {
        lid_close_ac: DEFAULT_LID_CLOSE,
        lid_close_dc: DEFAULT_LID_CLOSE,
        sleep_idle_ac: DEFAULT_SLEEP_AC,
        sleep_idle_dc: DEFAULT_SLEEP_DC,
    }
}

/// The settings that `write_defaults` puts in place.
pub fn defaults() -> (s: SavedState)
    ensures
        s == default_settings(),
{
    SavedState {
        lid_close_ac: DEFAULT_LID_CLOSE,
        lid_close_dc: DEFAULT_LID_CLOSE,
        sleep_idle_ac: DEFAULT_SLEEP_AC,
        sleep_idle_dc: DEFAULT_SLEEP_DC,
    }
}

/// A call that a job asks the host to make.
#[derive(Clone, Copy, Debug, PartialEq, Eq, Structural)]
pub enum PowerQuery {
    /// Get the GUID of the active power scheme.
    ActiveScheme,
    /// Read one value index of the scheme.
    Read { scheme: u128, key: PowerKey },
    /// Write one value index of the scheme.
    Write { scheme: u128, write: PowerWrite },
    /// Make the scheme active again so that the writes take effect.
    Apply { scheme: u128 },
}

/// The answer to a `PowerQuery`; an `Err` holds the Win32 error code.
#[derive(Clone, Copy, Debug, PartialEq, Eq)]
pub enum PowerReply {
    /// Answers `ActiveScheme`.
    Scheme(Result<u128, u32>),
    /// Answers `Read`.
    Value(Result<u32, u32>),
    /// Answers `Write` and `Apply`.
    Status(Result<(), u32>),
}

/// Where a job stands after an answer.
#[derive(Debug, PartialEq, Eq)]
pub enum Progress<T> {
    /// The job has another query.
    Pending,
    /// The job is over.
    Done(Result<T, u32>),
}

/// Reads the four settings of the active scheme (lid AC, lid DC, idle AC,
/// idle DC) and stops at the first error.
#[derive(Clone, Copy, Debug, PartialEq, Eq, Structural)]
pub struct ReadJob {
    pub scheme: Option<u128>,
    pub count: usize,
    pub partial: SavedState,
}

impl ReadJob {
    pub open spec fn pending(self) -> PowerQuery {
        match self.scheme {
            None => PowerQuery::ActiveScheme,
            Some(g) => PowerQuery::Read { scheme: g, key: state_key(self.count as int) },
        }
    }

    /// The job after `reply`, and where it stands. A reply that does not
    /// answer the pending query leaves the job as it was.
    pub open spec fn next(self, reply: PowerReply) -> (ReadJob, Progress<SavedState>) {
        match (self.scheme, reply) {
            (None, PowerReply::Scheme(Ok(g))) => (ReadJob { scheme: Some(g), ..self }, Progress::Pending),
            (None, PowerReply::Scheme(Err(c))) => (self, Progress::Done(Err(c))),
            (Some(_), PowerReply::Value(Ok(v))) => {
                let partial = with_field(self.partial, self.count as int, v);
                if self.count < 3 {
                    (ReadJob { count: (self.count + 1) as usize, partial, ..self }, Progress::Pending)
                } else {
                    (ReadJob { partial, ..self }, Progress::Done(Ok(partial)))
                }
            },
            (Some(_), PowerReply::Value(Err(c))) => (self, Progress::Done(Err(c))),
            _ => (self, Progress::Pending),
        }
    }

    /// The query the host is to answer next.
    pub fn query(&self) -> (q: PowerQuery)
        ensures
            q == self.pending(),
    {
        match self.scheme {
            None => PowerQuery::ActiveScheme,
            Some(g) => PowerQuery::Read { scheme: g, key: state_key_exec(self.count) },
        }
    }

    /// Takes the host's answer to the pending query.
    pub fn feed(&mut self, reply: PowerReply) -> (p: Progress<SavedState>)
        ensures
            (*final(self), p) == old(self).next(reply),
    {
        match (self.scheme, reply) {
            (None, PowerReply::Scheme(Ok(g))) => {
                self.scheme = Some(g);
                Progress::Pending
            },
            (None, PowerReply::Scheme(Err(c))) => Progress::Done(Err(c)),
            (Some(_), PowerReply::Value(Ok(v))) => {
                set_field(&mut self.partial, self.count, v);
                if self.count < 3 {
                    self.count = self.count + 1;
                    Progress::Pending
                } else {
                    Progress::Done(Ok(self.partial))
                }
            },
            (Some(_), PowerReply::Value(Err(c))) => Progress::Done(Err(c)),
            _ => Progress::Pending,
        }
    }
}

/// The job that reads the current lid-close and idle settings of the active
/// scheme.
pub fn read_current_settings() -> (job: ReadJob)
    ensures
        job == (ReadJob {
            scheme: None,
            count: 0,
            partial: SavedState { lid_close_ac: 0, lid_close_dc: 0, sleep_idle_ac: 0, sleep_idle_dc: 0 },
        }),
{
    ReadJob {
        scheme: None,
        count: 0,
        partial: SavedState { lid_close_ac: 0, lid_close_dc: 0, sleep_idle_ac: 0, sleep_idle_dc: 0 },
    }
}

/// Gets the active scheme, makes the four writes of its plan in order, then
/// re-applies the scheme; it stops at the first error.
#[derive(Clone, Copy, Debug, PartialEq, Eq, Structural)]
pub struct WriteJob {
    pub plan: WritePlan,
    pub scheme: Option<u128>,
    /// Writes made so far; at 4 the job is waiting for the re-apply.
    pub done: usize,
}

impl WriteJob {
    pub open spec fn pending(self) -> PowerQuery {
        match self.scheme {
            None => PowerQuery::ActiveScheme,
            Some(g) => if self.done < 4 {
                PowerQuery::Write { scheme: g, write: self.plan.entry(self.done as int) }
            } else {
                PowerQuery::Apply { scheme: g }
            },
        }
    }

    /// The job after `reply`, and where it stands. A reply that does not
    /// answer the pending query leaves the job as it was.
    pub open spec fn next(self, reply: PowerReply) -> (WriteJob, Progress<()>) {
        match (self.scheme, reply) {
            (None, PowerReply::Scheme(Ok(g))) => (WriteJob { scheme: Some(g), ..self }, Progress::Pending),
            (None, PowerReply::Scheme(Err(c))) => (self, Progress::Done(Err(c))),
            (Some(_), PowerReply::Status(Ok(()))) => if self.done < 4 {
                (WriteJob { done: (self.done + 1) as usize, ..self }, Progress::Pending)
            } else {
                (self, Progress::Done(Ok(())))
            },
            (Some(_), PowerReply::Status(Err(c))) => (self, Progress::Done(Err(c))),
            _ => (self, Progress::Pending),
        }
    }

    /// The query the host is to answer next.
    pub fn query(&self) -> (q: PowerQuery)
        ensures
            q == self.pending(),
    {
        match self.scheme {
            None => PowerQuery::ActiveScheme,
            Some(g) => if self.done < 4 {
                PowerQuery::Write { scheme: g, write: self.plan.get(self.done) }
            } else {
                PowerQuery::Apply { scheme: g }
            },
        }
    }

    /// Takes the host's answer to the pending query.
    pub fn feed(&mut self, reply: PowerReply) -> (p: Progress<()>)
        ensures
            (*final(self), p) == old(self).next(reply),
    {
        match (self.scheme, reply) {
            (None, PowerReply::Scheme(Ok(g))) => {
                self.scheme = Some(g);
                Progress::Pending
            },
            (None, PowerReply::Scheme(Err(c))) => Progress::Done(Err(c)),
            (Some(_), PowerReply::Status(Ok(()))) => {
                if self.done < 4 {
                    self.done = self.done + 1;
                    Progress::Pending
                } else {
                    Progress::Done(Ok(()))
                }
            },
            (Some(_), PowerReply::Status(Err(c))) => Progress::Done(Err(c)),
            _ => Progress::Pending,
        }
    }
}

pub open spec fn fresh_write_job(plan: WritePlan) -> WriteJob {
    WriteJob { plan, scheme: None, done: 0 }
}

/// The job that switches stay-awake on: lid-close "Do nothing" and idle
/// timeout "Never", on AC and on DC.
pub fn write_stay_awake() -> (job: WriteJob)
    ensures
        job == fresh_write_job(stay_awake_plan()),
{
    let plan = WritePlan {
        w0: PowerWrite {
            key: PowerKey { setting: PowerSetting::LidClose, source: PowerSource::AC },
            value: LID_DO_NOTHING,
        },
        w1: PowerWrite {
            key: PowerKey { setting: PowerSetting::StandbyIdle, source: PowerSource::AC },
            value: IDLE_NEVER,
        },
        w2: PowerWrite {
            key: PowerKey { setting: PowerSetting::LidClose, source: PowerSource::DC },
            value: LID_DO_NOTHING,
        },
        w3: PowerWrite {
            key: PowerKey { setting: PowerSetting::StandbyIdle, source: PowerSource::DC },
            value: IDLE_NEVER,
        },
    };
    WriteJob { plan, scheme: None, done: 0 }
}

/// The job that writes the settings of `state` back.
pub fn write_settings(state: &SavedState) -> (job: WriteJob)
    ensures
        job == fresh_write_job(settings_plan(*state)),
{
    let plan = WritePlan {
        w0: PowerWrite { key: state_key_exec(0), value: state.lid_close_ac },
        w1: PowerWrite { key: state_key_exec(1), value: state.lid_close_dc },
        w2: PowerWrite { key: state_key_exec(2), value: state.sleep_idle_ac },
        w3: PowerWrite { key: state_key_exec(3), value: state.sleep_idle_dc },
    };
    WriteJob { plan, scheme: None, done: 0 }
}

/// The job that writes Windows' defaults: lid-close Sleep, idle timeout
/// 30 min on AC and 15 min on DC.
pub fn write_defaults() -> (job: WriteJob)
    ensures
        job == fresh_write_job(settings_plan(default_settings())),
{
    let d = defaults();
    write_settings(&d)
}


/// Whether `reply` is of the kind that answers `q`.
pub open spec fn answers(q: PowerQuery, reply: PowerReply) -> bool {
    match (q, reply) {
        (PowerQuery::ActiveScheme, PowerReply::Scheme(_)) => true,
        (PowerQuery::Read { .. }, PowerReply::Value(_)) => true,
        (PowerQuery::Write { .. }, PowerReply::Status(_)) => true,
        (PowerQuery::Apply { .. }, PowerReply::Status(_)) => true,
        _ => false,
    }
}

/// The queries that a read job asks while it takes `replies` one after the
/// other, and how it ended (`None` while it is still going).
pub open spec fn read_run(job: ReadJob, replies: Seq<PowerReply>) -> (Seq<PowerQuery>, Option<Result<SavedState, u32>>)
    decreases replies.len(),
{
    if replies.len() == 0 {
        (seq![], None)
    } else {
        let (after, p) = job.next(replies[0]);
        match p {
            Progress::Done(r) => (seq![job.pending()], Some(r)),
            Progress::Pending => {
                let rest = read_run(after, replies.drop_first());
                (seq![job.pending()] + rest.0, rest.1)
            },
        }
    }
}

/// The queries that a write job asks while it takes `replies` one after the
/// other, and how it ended (`None` while it is still going).
pub open spec fn write_run(job: WriteJob, replies: Seq<PowerReply>) -> (Seq<PowerQuery>, Option<Result<(), u32>>)
    decreases replies.len(),
{
    if replies.len() == 0 {
        (seq![], None)
    } else {
        let (after, p) = job.next(replies[0]);
        match p {
            Progress::Done(r) => (seq![job.pending()], Some(r)),
            Progress::Pending => {
                let rest = write_run(after, replies.drop_first());
                (seq![job.pending()] + rest.0, rest.1)
            },
        }
    }
}

pub open spec fn fresh_read_job() -> ReadJob {
    ReadJob {
        scheme: None,
        count: 0,
        partial: SavedState { lid_close_ac: 0, lid_close_dc: 0, sleep_idle_ac: 0, sleep_idle_dc: 0 },
    }
}

/// The answers of a read that goes through: scheme `g`, then the four values.
pub open spec fn read_ok_replies(g: u128, v0: u32, v1: u32, v2: u32, v3: u32) -> Seq<PowerReply> {
    seq![
        PowerReply::Scheme(Ok(g)),
        PowerReply::Value(Ok(v0)),
        PowerReply::Value(Ok(v1)),
        PowerReply::Value(Ok(v2)),
        PowerReply::Value(Ok(v3)),
    ]
}

/// The answers of a write that goes through: scheme `g`, four writes and the
/// re-apply.
pub open spec fn write_ok_replies(g: u128) -> Seq<PowerReply> {
    seq![
        PowerReply::Scheme(Ok(g)),
        PowerReply::Status(Ok(())),
        PowerReply::Status(Ok(())),
        PowerReply::Status(Ok(())),
        PowerReply::Status(Ok(())),
        PowerReply::Status(Ok(())),
    ]
}

/// A job ignores a reply that does not answer its pending query: it stays as
/// it was and asks the same query again.
pub proof fn law_unanswered_reply_ignored(rj: ReadJob, wj: WriteJob, reply: PowerReply)
    ensures
        !answers(rj.pending(), reply) ==> rj.next(reply) == (rj, Progress::<SavedState>::Pending),
        !answers(wj.pending(), reply) ==> wj.next(reply) == (wj, Progress::<()>::Pending),
{
}

/// An error answer ends a job at once, with that error.
pub proof fn law_error_ends_job(rj: ReadJob, wj: WriteJob, c: u32)
    ensures
        rj.scheme is None ==> rj.next(PowerReply::Scheme(Err(c))).1 == Progress::<SavedState>::Done(Err(c)),
        rj.scheme is Some ==> rj.next(PowerReply::Value(Err(c))).1 == Progress::<SavedState>::Done(Err(c)),
        wj.scheme is None ==> wj.next(PowerReply::Scheme(Err(c))).1 == Progress::<()>::Done(Err(c)),
        wj.scheme is Some ==> wj.next(PowerReply::Status(Err(c))).1 == Progress::<()>::Done(Err(c)),
{
}

/// Reading the settings asks for the active scheme, then reads lid AC, lid
/// DC, idle AC and idle DC of that scheme, and captures the four values read
/// in those fields.
pub proof fn law_read_captures_values(g: u128, v0: u32, v1: u32, v2: u32, v3: u32)
    ensures
        read_run(fresh_read_job(), read_ok_replies(g, v0, v1, v2, v3)) == (
            seq![
                PowerQuery::ActiveScheme,
                PowerQuery::Read { scheme: g, key: state_key(0) },
                PowerQuery::Read { scheme: g, key: state_key(1) },
                PowerQuery::Read { scheme: g, key: state_key(2) },
                PowerQuery::Read { scheme: g, key: state_key(3) },
            ],
            Some(Ok::<SavedState, u32>(SavedState { lid_close_ac: v0, lid_close_dc: v1, sleep_idle_ac: v2, sleep_idle_dc: v3 })),
        ),
        ({
            let s = SavedState { lid_close_ac: v0, lid_close_dc: v1, sleep_idle_ac: v2, sleep_idle_dc: v3 };
            &&& state_key(0) == key(PowerSetting::LidClose, PowerSource::AC)
            &&& state_key(1) == key(PowerSetting::LidClose, PowerSource::DC)
            &&& state_key(2) == key(PowerSetting::StandbyIdle, PowerSource::AC)
            &&& state_key(3) == key(PowerSetting::StandbyIdle, PowerSource::DC)
            &&& field_of(s, state_key(0)) == v0 && field_of(s, state_key(1)) == v1
            &&& field_of(s, state_key(2)) == v2 && field_of(s, state_key(3)) == v3
        }),
{
    let r = read_ok_replies(g, v0, v1, v2, v3);
    let j0 = fresh_read_job();
    let j1 = j0.next(r[0]).0;
    let j2 = j1.next(r[1]).0;
    let j3 = j2.next(r[2]).0;
    let j4 = j3.next(r[3]).0;
    assert(r.drop_first() =~= seq![r[1], r[2], r[3], r[4]]);
    assert(r.drop_first().drop_first() =~= seq![r[2], r[3], r[4]]);
    assert(r.drop_first().drop_first().drop_first() =~= seq![r[3], r[4]]);
    assert(r.drop_first().drop_first().drop_first().drop_first() =~= seq![r[4]]);
    assert(read_run(j4, seq![r[4]]).0 =~= seq![j4.pending()]);
    assert(read_run(j3, seq![r[3], r[4]]).0 =~= seq![j3.pending(), j4.pending()]);
    assert(read_run(j2, seq![r[2], r[3], r[4]]).0 =~= seq![j2.pending(), j3.pending(), j4.pending()]);
    assert(read_run(j1, r.drop_first()).0 =~= seq![j1.pending(), j2.pending(), j3.pending(), j4.pending()]);
    assert(read_run(j0, r).0 =~= seq![j0.pending(), j1.pending(), j2.pending(), j3.pending(), j4.pending()]);
}

/// Writing a plan asks for the active scheme, makes the plan's four writes
/// in order on that scheme, then re-applies it.
pub proof fn law_write_makes_plan(plan: WritePlan, g: u128)
    ensures
        write_run(fresh_write_job(plan), write_ok_replies(g)) == (
            seq![
                PowerQuery::ActiveScheme,
                PowerQuery::Write { scheme: g, write: plan.w0 },
                PowerQuery::Write { scheme: g, write: plan.w1 },
                PowerQuery::Write { scheme: g, write: plan.w2 },
                PowerQuery::Write { scheme: g, write: plan.w3 },
                PowerQuery::Apply { scheme: g },
            ],
            Some(Ok::<(), u32>(())),
        ),
{
    let r = write_ok_replies(g);
    let j0 = fresh_write_job(plan);
    let j1 = j0.next(r[0]).0;
    let j2 = j1.next(r[1]).0;
    let j3 = j2.next(r[2]).0;
    let j4 = j3.next(r[3]).0;
    let j5 = j4.next(r[4]).0;
    assert(r.drop_first() =~= seq![r[1], r[2], r[3], r[4], r[5]]);
    assert(r.drop_first().drop_first() =~= seq![r[2], r[3], r[4], r[5]]);
    assert(r.drop_first().drop_first().drop_first() =~= seq![r[3], r[4], r[5]]);
    assert(r.drop_first().drop_first().drop_first().drop_first() =~= seq![r[4], r[5]]);
    assert(r.drop_first().drop_first().drop_first().drop_first().drop_first() =~= seq![r[5]]);
    assert(write_run(j5, seq![r[5]]).0 =~= seq![j5.pending()]);
    assert(write_run(j4, seq![r[4], r[5]]).0 =~= seq![j4.pending(), j5.pending()]);
    assert(write_run(j3, seq![r[3], r[4], r[5]]).0 =~= seq![j3.pending(), j4.pending(), j5.pending()]);
    assert(write_run(j2, seq![r[2], r[3], r[4], r[5]]).0 =~= seq![j2.pending(), j3.pending(), j4.pending(), j5.pending()]);
    assert(write_run(j1, r.drop_first()).0 =~= seq![j1.pending(), j2.pending(), j3.pending(), j4.pending(), j5.pending()]);
    assert(write_run(j0, r).0 =~= seq![j0.pending(), j1.pending(), j2.pending(), j3.pending(), j4.pending(), j5.pending()]);
}

/// Restoring what a read captured writes back, to each setting that was
/// read, exactly the value that was read from it, in the same order.
pub proof fn law_restore_writes_back_captured(g_read: u128, g_write: u128, v0: u32, v1: u32, v2: u32, v3: u32)
    ensures
        ({
            let read = read_run(fresh_read_job(), read_ok_replies(g_read, v0, v1, v2, v3));
            let captured = read.1.unwrap().unwrap();
            let write = write_run(fresh_write_job(settings_plan(captured)), write_ok_replies(g_write));
            let values = seq![v0, v1, v2, v3];
            &&& read.1 is Some && read.1.unwrap() is Ok
            &&& write.1 == Some(Ok::<(), u32>(()))
            &&& forall|i: int| 0 <= i < 4 ==> {
                &&& (#[trigger] read.0[i + 1]) matches PowerQuery::Read { scheme, key: k }
                &&& write.0[i + 1] == (PowerQuery::Write { scheme: g_write, write: PowerWrite { key: k, value: values[i] } })
            }
        }),
{
    law_read_captures_values(g_read, v0, v1, v2, v3);
    let captured = SavedState { lid_close_ac: v0, lid_close_dc: v1, sleep_idle_ac: v2, sleep_idle_dc: v3 };
    law_write_makes_plan(settings_plan(captured), g_write);
}

/// Stay-awake writes each of the four settings once: lid-close "Do nothing"
/// and idle timeout "Never", on AC and on DC.
pub proof fn law_stay_awake_values()
    ensures
        forall|i: int, j: int| 0 <= i < j < 4 ==> #[trigger] stay_awake_plan().entry(i).key != #[trigger] stay_awake_plan().entry(j).key,
        forall|i: int| 0 <= i < 4 ==> (#[trigger] stay_awake_plan().entry(i)).value == (
            if stay_awake_plan().entry(i).key.setting == PowerSetting::LidClose { LID_DO_NOTHING } else { IDLE_NEVER }),
        LID_DO_NOTHING == 0 && IDLE_NEVER == 0,
{
}

/// Writing settings back writes each field to its own setting, once, and
/// touches nothing else.
pub proof fn law_settings_plan_covers_fields(s: SavedState)
    ensures
        forall|i: int, j: int| 0 <= i < j < 4 ==> #[trigger] settings_plan(s).entry(i).key != #[trigger] settings_plan(s).entry(j).key,
        forall|i: int| 0 <= i < 4 ==> (#[trigger] settings_plan(s).entry(i)).value == field_of(s, settings_plan(s).entry(i).key),
{
}

/// The defaults are lid-close Sleep on AC and DC, and an idle timeout of
/// 1800 s on AC and 900 s on DC.
pub proof fn law_defaults_values()
    ensures
        field_of(default_settings(), key(PowerSetting::LidClose, PowerSource::AC)) == 1,
        field_of(default_settings(), key(PowerSetting::LidClose, PowerSource::DC)) == 1,
        field_of(default_settings(), key(PowerSetting::StandbyIdle, PowerSource::AC)) == 1800,
        field_of(default_settings(), key(PowerSetting::StandbyIdle, PowerSource::DC)) == 900,
{
}

/// The lid-close action lives in the Buttons/Lid subgroup and the idle
/// timeout in the Sleep subgroup, each under its own GUID.
pub proof fn law_settings_guids()
    ensures
        spec_subgroup_guid(PowerSetting::LidClose) == 0x4F971E89_EEBD_4455_A8DE_9E59040E7347u128,
        spec_setting_guid(PowerSetting::LidClose) == 0x5CA83367_6E45_459F_A27B_476B1D01C936u128,
        spec_subgroup_guid(PowerSetting::StandbyIdle) == 0x238C9FA8_0AAD_41ED_83F4_97BE242C8F20u128,
        spec_setting_guid(PowerSetting::StandbyIdle) == 0x29F6C1DB_86DA_48C5_9FDB_F2B67B1F44DAu128,
{
}

} // verus!
