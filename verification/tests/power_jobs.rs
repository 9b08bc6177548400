use clam::power::{
    defaults, is_access_denied, read_current_settings, setting_guid, subgroup_guid, write_defaults,
    write_settings, write_stay_awake, PowerKey, PowerQuery, PowerReply, PowerSetting, PowerSource,
    PowerWrite, Progress, DEFAULT_LID_CLOSE, DEFAULT_SLEEP_AC, DEFAULT_SLEEP_DC, ERROR_ACCESS_DENIED,
};
use clam::state::SavedState;

fn key(setting: PowerSetting, source: PowerSource) -> PowerKey {
    PowerKey { setting, source }
}

fn write(setting: PowerSetting, source: PowerSource, value: u32) -> PowerWrite {
    PowerWrite { key: key(setting, source), value }
}

/// Answers every query of a write job with success and collects the writes.
fn run_write_ok(mut job: clam::power::WriteJob, scheme: u128) -> (Vec<PowerQuery>, Progress<()>) {
    let mut asked = Vec::new();
    loop {
        let q = job.query();
        asked.push(q);
        let reply = match q {
            PowerQuery::ActiveScheme => PowerReply::Scheme(Ok(scheme)),
            _ => PowerReply::Status(Ok(())),
        };
        match job.feed(reply) {
            Progress::Pending => {}
            done => return (asked, done),
        }
    }
}

#[test]
fn access_denied_is_error_five() {
    assert_eq!(ERROR_ACCESS_DENIED, 5);
    assert!(is_access_denied(5));
    assert!(!is_access_denied(0));
    assert!(!is_access_denied(2));
}

#[test]
fn guids_match_the_power_settings() {
    assert_eq!(subgroup_guid(PowerSetting::LidClose), 0x4F971E89_EEBD_4455_A8DE_9E59040E7347);
    assert_eq!(setting_guid(PowerSetting::LidClose), 0x5CA83367_6E45_459F_A27B_476B1D01C936);
    assert_eq!(subgroup_guid(PowerSetting::StandbyIdle), 0x238C9FA8_0AAD_41ED_83F4_97BE242C8F20);
    assert_eq!(setting_guid(PowerSetting::StandbyIdle), 0x29F6C1DB_86DA_48C5_9FDB_F2B67B1F44DA);
}

#[test]
fn defaults_are_sleep_and_thirty_and_fifteen_minutes() {
    let d = defaults();
    assert_eq!(d, SavedState { lid_close_ac: 1, lid_close_dc: 1, sleep_idle_ac: 1800, sleep_idle_dc: 900 });
    assert_eq!((DEFAULT_LID_CLOSE, DEFAULT_SLEEP_AC, DEFAULT_SLEEP_DC), (1, 1800, 900));
}

#[test]
fn read_job_reads_four_values_in_order() {
    let mut job = read_current_settings();
    assert_eq!(job.query(), PowerQuery::ActiveScheme);
    assert_eq!(job.feed(PowerReply::Scheme(Ok(77))), Progress::Pending);
    let expected = [
        key(PowerSetting::LidClose, PowerSource::AC),
        key(PowerSetting::LidClose, PowerSource::DC),
        key(PowerSetting::StandbyIdle, PowerSource::AC),
        key(PowerSetting::StandbyIdle, PowerSource::DC),
    ];
    let values = [3u32, 2, 600, 300];
    for i in 0..4 {
        assert_eq!(job.query(), PowerQuery::Read { scheme: 77, key: expected[i] });
        let p = job.feed(PowerReply::Value(Ok(values[i])));
        if i < 3 {
            assert_eq!(p, Progress::Pending);
        } else {
            assert_eq!(
                p,
                Progress::Done(Ok(SavedState { lid_close_ac: 3, lid_close_dc: 2, sleep_idle_ac: 600, sleep_idle_dc: 300 }))
            );
        }
    }
}

#[test]
fn read_job_stops_at_first_error() {
    let mut job = read_current_settings();
    assert_eq!(job.feed(PowerReply::Scheme(Err(2))), Progress::Done(Err(2)));
    let mut job = read_current_settings();
    job.feed(PowerReply::Scheme(Ok(1)));
    job.feed(PowerReply::Value(Ok(1)));
    assert_eq!(job.feed(PowerReply::Value(Err(87))), Progress::Done(Err(87)));
}

#[test]
fn read_job_ignores_a_reply_of_the_wrong_kind() {
    let mut job = read_current_settings();
    let before = job;
    assert_eq!(job.feed(PowerReply::Status(Ok(()))), Progress::Pending);
    assert_eq!(job, before);
    assert_eq!(job.query(), PowerQuery::ActiveScheme);
}

#[test]
fn stay_awake_writes_do_nothing_and_never() {
    let (asked, done) = run_write_ok(write_stay_awake(), 5);
    assert_eq!(done, Progress::Done(Ok(())));
    assert_eq!(
        asked,
        vec![
            PowerQuery::ActiveScheme,
            PowerQuery::Write { scheme: 5, write: write(PowerSetting::LidClose, PowerSource::AC, 0) },
            PowerQuery::Write { scheme: 5, write: write(PowerSetting::StandbyIdle, PowerSource::AC, 0) },
            PowerQuery::Write { scheme: 5, write: write(PowerSetting::LidClose, PowerSource::DC, 0) },
            PowerQuery::Write { scheme: 5, write: write(PowerSetting::StandbyIdle, PowerSource::DC, 0) },
            PowerQuery::Apply { scheme: 5 },
        ]
    );
}

#[test]
fn settings_are_written_back_field_by_field() {
    let s = SavedState { lid_close_ac: 2, lid_close_dc: 3, sleep_idle_ac: 1200, sleep_idle_dc: 60 };
    let (asked, done) = run_write_ok(write_settings(&s), 9);
    assert_eq!(done, Progress::Done(Ok(())));
    assert_eq!(
        asked,
        vec![
            PowerQuery::ActiveScheme,
            PowerQuery::Write { scheme: 9, write: write(PowerSetting::LidClose, PowerSource::AC, 2) },
            PowerQuery::Write { scheme: 9, write: write(PowerSetting::LidClose, PowerSource::DC, 3) },
            PowerQuery::Write { scheme: 9, write: write(PowerSetting::StandbyIdle, PowerSource::AC, 1200) },
            PowerQuery::Write { scheme: 9, write: write(PowerSetting::StandbyIdle, PowerSource::DC, 60) },
            PowerQuery::Apply { scheme: 9 },
        ]
    );
}

#[test]
fn defaults_job_writes_the_defaults() {
    let (asked, _) = run_write_ok(write_defaults(), 1);
    assert_eq!(asked[1], PowerQuery::Write { scheme: 1, write: write(PowerSetting::LidClose, PowerSource::AC, 1) });
    assert_eq!(asked[2], PowerQuery::Write { scheme: 1, write: write(PowerSetting::LidClose, PowerSource::DC, 1) });
    assert_eq!(asked[3], PowerQuery::Write { scheme: 1, write: write(PowerSetting::StandbyIdle, PowerSource::AC, 1800) });
    assert_eq!(asked[4], PowerQuery::Write { scheme: 1, write: write(PowerSetting::StandbyIdle, PowerSource::DC, 900) });
}

#[test]
fn write_job_stops_at_first_error() {
    let mut job = write_stay_awake();
    assert_eq!(job.feed(PowerReply::Scheme(Ok(4))), Progress::Pending);
    assert_eq!(job.feed(PowerReply::Status(Ok(()))), Progress::Pending);
    assert_eq!(job.feed(PowerReply::Status(Err(5))), Progress::Done(Err(5)));
    let mut job = write_stay_awake();
    assert_eq!(job.feed(PowerReply::Scheme(Err(1168))), Progress::Done(Err(1168)));
}

#[test]
fn write_job_reports_a_failed_apply() {
    let mut job = write_defaults();
    job.feed(PowerReply::Scheme(Ok(4)));
    for _ in 0..4 {
        assert_eq!(job.feed(PowerReply::Status(Ok(()))), Progress::Pending);
    }
    assert_eq!(job.query(), PowerQuery::Apply { scheme: 4 });
    assert_eq!(job.feed(PowerReply::Status(Err(31))), Progress::Done(Err(31)));
}
